use vstd::prelude::*;
use vstd::string::StringExecFns;
use crate::spv::Capability;

verus! {

/// Errors raised by the library. Each variant stands for one failure that the
/// compiler reports; `message` gives the text that is shown to users.
#[derive(Debug, Clone, Copy, PartialEq, Eq, Structural)]
pub enum Error {
    /// The input ended before a value was complete.
    UnexpectedEof,
    /// A version string had no `.` separator.
    VersionParsing,
    /// A number in a version string is not a valid `u8`.
    ParseInt,
    /// A boolean byte other than 0 or 1.
    InvalidBool,
    /// An unknown target platform tag.
    UnknownPlatform,
    /// An unknown addressing model value.
    UnknownAddressingModel,
    /// An unknown memory model value.
    UnknownMemoryModel,
    /// An unknown capability value.
    UnknownCapability,
    /// An unknown execution model value.
    UnknownExecutionModel,
    /// An unknown storage class value.
    UnknownStorageClass,
    /// An unknown capability model tag.
    UnknownCapabilityModel,
    /// An unknown memory-grow error kind.
    UnknownMemoryGrowErrorKind,
    /// An unknown execution mode tag.
    UnknownExecutionMode,
    /// An unknown scalar type value.
    UnknownScalarType,
    /// An unknown composite type tag.
    UnknownCompositeType,
    /// An unknown type tag.
    UnknownType,
    /// An unknown pointer size tag.
    UnknownPointerSize,
    /// An unknown parameter kind tag.
    UnknownParameterKind,
    /// An unknown option tag.
    UnknownOption,
    /// A string whose bytes are not valid UTF-8.
    InvalidUtf8,
    /// A length that does not fit in 32 bits.
    LengthOverflow,
    /// A capability that a static capability model does not enable.
    CapabilityNotEnabled(Capability),
    /// Operands of two different integer kinds.
    Mismatch,
    /// A constant division by zero.
    DivisionByZero,
    /// An internal inconsistency.
    Unexpected,
    /// A logical pointer has no physical size.
    LogicalPointer,
    /// An operand of the wrong kind.
    InvalidOperand,
    /// An integer whose width differs from the pointer width.
    NotPointerSized,
    /// An addressing model that does not fit the module's memory.
    InvalidAddressingModel,
    /// A byte array that does not hold a whole number of words.
    NotWholeWords,
    /// A word array of the wrong length.
    InvalidWordCount,
    /// An execution mode that the bindings do not support.
    UnsupportedExecutionMode,
    /// A rate limit was exceeded.
    RateLimitExceeded,
    /// A `memory.grow` instruction under the hard error policy.
    CannotAllocate,
    /// An operand was taken from an empty stack.
    EmptyStack,
    /// A function type with more than one result.
    MultipleResults,
    /// A branch to a label that does not enclose it.
    ElementNotFound,
    /// An instruction that no translation knows.
    UnknownInstruction,
    /// A write to a constant global variable.
    ConstantGlobal,
}

/// The text shown to users for an error.
pub open spec fn spec_message(e: Error) -> Seq<char> {
    match e {
        Error::UnexpectedEof => "failed to fill whole buffer"@,
        Error::VersionParsing => "Version parsing error"@,
        Error::ParseInt => "invalid digit found in string"@,
        Error::InvalidBool => "Non-valid boolean value"@,
        Error::UnknownPlatform => "Unknown kind"@,
        Error::UnknownAddressingModel => "Unknown addressing model"@,
        Error::UnknownMemoryModel => "Unknown memory model"@,
        Error::UnknownCapability => "Unknown capability"@,
        Error::UnknownExecutionModel => "Unknown execution model"@,
        Error::UnknownStorageClass => "Unknown storage class"@,
        Error::UnknownCapabilityModel => "Unkown capability model"@,
        Error::UnknownMemoryGrowErrorKind => "Unknown memory grow error kind"@,
        Error::UnknownExecutionMode => "Unknown execution mode"@,
        Error::UnknownScalarType => "Unknown scalar type"@,
        Error::UnknownCompositeType => "Unknown composite type"@,
        Error::UnknownType => "Unkown type"@,
        Error::UnknownPointerSize => "Unknown pointer size"@,
        Error::UnknownParameterKind => "Unknown parameter kind"@,
        Error::UnknownOption => "Unknown option"@,
        Error::InvalidUtf8 => "invalid utf-8 sequence"@,
        Error::LengthOverflow => "out of range integral type conversion attempted"@,
        Error::CapabilityNotEnabled(_) => "Unable to enable"@,
        Error::Mismatch => "Mismatched value"@,
        Error::DivisionByZero => "Division by zero"@,
        Error::Unexpected => "Unexpected error"@,
        Error::LogicalPointer => "Logical pointers don't have a known physical size"@,
        Error::InvalidOperand => "Invalid operand"@,
        Error::NotPointerSized => "Integer doesn't have the same size as the pointer"@,
        Error::InvalidAddressingModel => "Invalid addressing model"@,
        Error::NotWholeWords => "There isn't a whole number of words in this byte array"@,
        Error::InvalidWordCount => "Invalid number of words"@,
        Error::UnsupportedExecutionMode => "Unsupported execution mode"@,
        Error::RateLimitExceeded => "Rate limit exceeded"@,
        Error::CannotAllocate => "SPIR-V cannot allocate memory"@,
        Error::EmptyStack => "Empty stack"@,
        Error::MultipleResults => "Function can only have a single result value"@,
        Error::ElementNotFound => "Element not found"@,
        Error::UnknownInstruction => "Unknown instruction"@,
        Error::ConstantGlobal => "Tried to update a constant global variable"@,
    }
}

/// The name that `spirv::Capability`'s `Debug` gives the capability
/// numbered `c`.
pub uninterp spec fn capability_name(c: u32) -> Seq<char>;

/// Calls `spirv::Capability::from_u32` and writes the capability with its
/// `Debug` format: its name. A number that no capability has is written in
/// decimal.
#[verifier::external_body]
fn capability_text(c: u32) -> (r: String)
    ensures
        r@ == capability_name(c),
{
    match spirv::Capability::from_u32(c) {
        Some(x) => format!("{:?}", x),
        None => format!("{}", c),
    }
}

/// The full text of an error: its message, followed by the capability's
/// name for a capability that cannot be enabled.
pub open spec fn spec_text(e: Error) -> Seq<char> {
    match e {
        Error::CapabilityNotEnabled(c) => "Unable to enable "@ + capability_name(c),
        _ => spec_message(e),
    }
}

impl Error {
    /// The full text shown to users for this error.
    pub fn to_string(&self) -> (r: String)
        ensures
            r@ == spec_text(*self),
    {
        match self {
            Error::CapabilityNotEnabled(c) => {
                let name = capability_text(*c);
                <String as StringExecFns>::from_str("Unable to enable ").concat(name.as_str())
            },
            _ => self.message().to_owned(),
        }
    }

    /// The text of this error, without the capability of a capability that
    /// cannot be enabled.
    pub fn message(&self) -> (r: &'static str)
        ensures
            r@ == spec_message(*self),
    {
        match self {
            Error::UnexpectedEof => "failed to fill whole buffer",
            Error::VersionParsing => "Version parsing error",
            Error::ParseInt => "invalid digit found in string",
            Error::InvalidBool => "Non-valid boolean value",
            Error::UnknownPlatform => "Unknown kind",
            Error::UnknownAddressingModel => "Unknown addressing model",
            Error::UnknownMemoryModel => "Unknown memory model",
            Error::UnknownCapability => "Unknown capability",
            Error::UnknownExecutionModel => "Unknown execution model",
            Error::UnknownStorageClass => "Unknown storage class",
            Error::UnknownCapabilityModel => "Unkown capability model",
            Error::UnknownMemoryGrowErrorKind => "Unknown memory grow error kind",
            Error::UnknownExecutionMode => "Unknown execution mode",
            Error::UnknownScalarType => "Unknown scalar type",
            Error::UnknownCompositeType => "Unknown composite type",
            Error::UnknownType => "Unkown type",
            Error::UnknownPointerSize => "Unknown pointer size",
            Error::UnknownParameterKind => "Unknown parameter kind",
            Error::UnknownOption => "Unknown option",
            Error::InvalidUtf8 => "invalid utf-8 sequence",
            Error::LengthOverflow => "out of range integral type conversion attempted",
            Error::CapabilityNotEnabled(_) => "Unable to enable",
            Error::Mismatch => "Mismatched value",
            Error::DivisionByZero => "Division by zero",
            Error::Unexpected => "Unexpected error",
            Error::LogicalPointer => "Logical pointers don't have a known physical size",
            Error::InvalidOperand => "Invalid operand",
            Error::NotPointerSized => "Integer doesn't have the same size as the pointer",
            Error::InvalidAddressingModel => "Invalid addressing model",
            Error::NotWholeWords => "There isn't a whole number of words in this byte array",
            Error::InvalidWordCount => "Invalid number of words",
            Error::UnsupportedExecutionMode => "Unsupported execution mode",
            Error::RateLimitExceeded => "Rate limit exceeded",
            Error::CannotAllocate => "SPIR-V cannot allocate memory",
            Error::EmptyStack => "Empty stack",
            Error::MultipleResults => "Function can only have a single result value",
            Error::ElementNotFound => "Element not found",
            Error::UnknownInstruction => "Unknown instruction",
            Error::ConstantGlobal => "Tried to update a constant global variable",
        }
    }
}

} // verus!
