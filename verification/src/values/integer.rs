//! Integer values and their constant folding. Integers are held as bit
//! patterns: a `Short` constant is the 32 bits of an `i32`, a `Long` one the
//! 64 bits of an `i64`, and arithmetic wraps as WebAssembly's does.
use vstd::prelude::*;
use std::rc::Rc;
use crate::error::Error;
use crate::module::{spec_address_bits, spec_address_bytes, ModuleBuilder};
use crate::spv::StorageClass;
use crate::types::{ScalarType, Type};
use crate::values::float::Float;
use crate::values::pointer::Pointer;
use crate::values::vector::Vector;
use crate::values::{Args, Value};
use crate::values::bits::{
    count_ones, count_ones_u64, exact_log2, power_of_two_exponent, rotl32, rotl64, rotl_u32,
    rotl_u64, rotr32, rotr64, rotr_u32, rotr_u64, sdiv32, sdiv32_overflows, sdiv64,
    sdiv64_overflows, sdiv_u32, sdiv_u64, srem32, srem64, srem_u32, srem_u64, sshr32, sshr64,
    sshr_u32, sshr_u64,
};
use crate::values::bool::{Bool, BoolSource};
use crate::config::capability_list;
use crate::types::PointerSize;
use crate::values::pointer::{PointerKind, PointerSource};
use crate::spv::{CAPABILITY_GENERIC_POINTER, STORAGE_CLASS_GENERIC};
use vstd::std_specs::bits::{u32_leading_zeros, u32_trailing_zeros, u64_leading_zeros, u64_trailing_zeros};

verus! {

/// An integer value.
#[derive(Debug, Clone)]
pub struct Integer {
    pub source: IntegerSource,
}

/// The width of an integer.
#[derive(Debug, Clone, Copy, PartialEq, Eq, Structural, Hash)]
pub enum IntegerKind {
    /// A 32-bit integer
    Short,
    /// A 64-bit integer
    Long,
}

/// Where an integer comes from.
#[derive(Debug, Clone)]
pub enum IntegerSource {
    FunctionParam(IntegerKind),
    Constant(ConstantSource),
    Conversion(ConversionSource),
    ArrayLength { structured_array: Rc<Pointer> },
    Loaded { pointer: Rc<Pointer>, log2_alignment: Option<u32> },
    Select { selector: Rc<Bool>, true_value: Rc<Integer>, false_value: Rc<Integer> },
    Extracted { vector: Rc<Vector>, index: Rc<Integer> },
    FunctionCall { function_id: u32, args: Rc<Args>, kind: IntegerKind },
    Unary { source: UnarySource, op1: Rc<Integer> },
    Binary { source: BinarySource, op1: Rc<Integer>, op2: Rc<Integer> },
}

/// An integer constant.
#[derive(Debug, Clone, Copy, PartialEq, Eq, Structural)]
pub enum ConstantSource {
    Short(u32),
    Long(u64),
}

/// An operation on one integer.
#[derive(Debug, Clone, Copy, PartialEq, Eq, Structural)]
pub enum UnarySource {
    Not,
    Negate,
    LeadingZeros,
    TrainlingZeros,
    BitCount,
}

/// An operation on two integers.
#[derive(Debug, Clone, Copy, PartialEq, Eq, Structural)]
pub enum BinarySource {
    Add,
    Sub,
    Mul,
    SDiv,
    UDiv,
    SRem,
    URem,
    And,
    Or,
    Xor,
    Shl,
    SShr,
    UShr,
    Rotl,
    Rotr,
}

/// An integer converted from another value.
#[derive(Debug, Clone)]
pub enum ConversionSource {
    Bitcast { kind: IntegerKind, value: Value },
    FromShort { signed: bool, value: Rc<Integer> },
    FromLong(Rc<Integer>),
    FromPointer(Rc<Pointer>),
    FromBool(Rc<Bool>, IntegerKind),
    FromFloat { kind: IntegerKind, signed: bool, saturating: bool, value: Rc<Float> },
}

impl ConstantSource {
    /// The width of the constant.
    pub open spec fn kind_of(self) -> IntegerKind {
        match self {
            ConstantSource::Short(_) => IntegerKind::Short,
            ConstantSource::Long(_) => IntegerKind::Long,
        }
    }

    /// Whether the constant is zero, of either width.
    pub open spec fn is_zero(self) -> bool {
        self == ConstantSource::Short(0) || self == ConstantSource::Long(0)
    }

    /// Whether the constant is one, of either width.
    pub open spec fn is_one(self) -> bool {
        self == ConstantSource::Short(1) || self == ConstantSource::Long(1)
    }
}

/// Whether an optional constant is a zero.
pub open spec fn opt_zero(c: Option<ConstantSource>) -> bool {
    c matches Some(x) && x.is_zero()
}

/// Whether an optional constant is a one.
pub open spec fn opt_one(c: Option<ConstantSource>) -> bool {
    c matches Some(x) && x.is_one()
}

/// An integer that is the constant `c`.
pub open spec fn constant(c: ConstantSource) -> Integer {
    Integer { source: IntegerSource::Constant(c) }
}

/// The integer `op(a, b)`, left unevaluated.
pub open spec fn binary(op: BinarySource, a: Integer, b: Integer) -> Integer {
    Integer { source: IntegerSource::Binary { source: op, op1: Rc::new(a), op2: Rc::new(b) } }
}

/// The integer `op(a)`, left unevaluated.
pub open spec fn unary(op: UnarySource, a: Integer) -> Integer {
    Integer { source: IntegerSource::Unary { source: op, op1: Rc::new(a) } }
}

/// The kind of the integer stored behind a pointer to `pointee`.
pub open spec fn loaded_kind(pointee: Type) -> Result<IntegerKind, Error> {
    match pointee {
        Type::Scalar(ScalarType::I32) => Ok(IntegerKind::Short),
        Type::Scalar(ScalarType::I64) => Ok(IntegerKind::Long),
        _ => Err(Error::Unexpected),
    }
}

/// The kind of an integer element of a vector of `element_type`.
pub open spec fn element_kind(element_type: ScalarType) -> Result<IntegerKind, Error> {
    match element_type {
        ScalarType::I32 => Ok(IntegerKind::Short),
        ScalarType::I64 => Ok(IntegerKind::Long),
        _ => Err(Error::Unexpected),
    }
}

/// The kind of an integer made from a pointer of `storage_class`: the
/// pointer's physical width.
pub open spec fn pointer_int_kind(addressing_model: u32, storage_class: StorageClass) -> Result<IntegerKind, Error> {
    match spec_address_bytes(addressing_model, storage_class) {
        Some(4) => Ok(IntegerKind::Short),
        Some(8) => Ok(IntegerKind::Long),
        None => Err(Error::LogicalPointer),
        _ => Err(Error::Unexpected),
    }
}

/// The 32 bits of `x` read as an `i32` and sign-extended to 64 bits.
pub open spec fn sign_extend(x: u32) -> u64 {
    ((x as i32) as i64) as u64
}

impl Integer {
    /// The width of the integer, with the module's addressing model deciding
    /// that of pointer conversions. Where two operands must agree, the first
    /// one's width is taken.
    pub open spec fn spec_kind(self, addressing_model: u32) -> Result<IntegerKind, Error>
        decreases self,
    {
        match self.source {
            IntegerSource::Loaded { pointer, .. } => loaded_kind(pointer.pointee),
            IntegerSource::Select { true_value, .. } => true_value.spec_kind(addressing_model),
            IntegerSource::Extracted { vector, .. } => element_kind(vector.element_type),
            IntegerSource::ArrayLength { .. } => Ok(IntegerKind::Short),
            IntegerSource::FunctionParam(kind) => Ok(kind),
            IntegerSource::FunctionCall { kind, .. } => Ok(kind),
            IntegerSource::Constant(c) => Ok(c.kind_of()),
            IntegerSource::Conversion(conv) => match conv {
                ConversionSource::FromBool(_, kind) => Ok(kind),
                ConversionSource::FromLong(_) => Ok(IntegerKind::Short),
                ConversionSource::FromShort { .. } => Ok(IntegerKind::Long),
                ConversionSource::FromFloat { kind, .. } => Ok(kind),
                ConversionSource::Bitcast { kind, .. } => Ok(kind),
                ConversionSource::FromPointer(p) => pointer_int_kind(addressing_model, p.storage_class),
            },
            IntegerSource::Unary { op1, .. } => op1.spec_kind(addressing_model),
            IntegerSource::Binary { op1, .. } => op1.spec_kind(addressing_model),
        }
    }

    /// The constant that the integer is known to be, if any: a constant, or
    /// a width conversion of one.
    pub open spec fn spec_constant(self) -> Result<Option<ConstantSource>, Error>
        decreases self,
    {
        match self.source {
            IntegerSource::Constant(c) => Ok(Some(c)),
            IntegerSource::Conversion(ConversionSource::FromLong(value)) => match value.spec_constant() {
                Ok(Some(ConstantSource::Long(x))) => Ok(Some(ConstantSource::Short(x as u32))),
                Ok(Some(ConstantSource::Short(_))) => Err(Error::Unexpected),
                Ok(None) => Ok(None),
                Err(e) => Err(e),
            },
            IntegerSource::Conversion(ConversionSource::FromShort { signed, value }) => match value.spec_constant() {
                Ok(Some(ConstantSource::Short(x))) => if signed {
                    Ok(Some(ConstantSource::Long(sign_extend(x))))
                } else {
                    Ok(Some(ConstantSource::Long(x as u64)))
                },
                Ok(Some(ConstantSource::Long(_))) => Err(Error::Unexpected),
                Ok(None) => Ok(None),
                Err(e) => Err(e),
            },
            _ => Ok(None),
        }
    }

    pub fn new(source: IntegerSource) -> (r: Integer)
        ensures
            r == (Integer { source }),
    {
        Integer { source }
    }

    pub fn new_constant_u32(value: u32) -> (r: Integer)
        ensures
            r == constant(ConstantSource::Short(value)),
    {
        Integer { source: IntegerSource::Constant(ConstantSource::Short(value)) }
    }

    pub fn new_constant_i32(value: i32) -> (r: Integer)
        ensures
            r == constant(ConstantSource::Short(value as u32)),
    {
        Self::new_constant_u32(value as u32)
    }

    pub fn new_constant_u64(value: u64) -> (r: Integer)
        ensures
            r == constant(ConstantSource::Long(value)),
    {
        Integer { source: IntegerSource::Constant(ConstantSource::Long(value)) }
    }

    pub fn new_constant_i64(value: i64) -> (r: Integer)
        ensures
            r == constant(ConstantSource::Long(value as u64)),
    {
        Self::new_constant_u64(value as u64)
    }

    /// A constant of the width of a WebAssembly address.
    pub fn new_constant_usize(value: u32, module: &ModuleBuilder) -> (r: Integer)
        ensures
            r == (if module.wasm_memory64 {
                constant(ConstantSource::Long(value as u64))
            } else {
                constant(ConstantSource::Short(value))
            }),
    {
        if module.wasm_memory64 {
            Self::new_constant_u64(value as u64)
        } else {
            Self::new_constant_u32(value)
        }
    }

    /// A signed constant of the width of a WebAssembly address.
    pub fn new_constant_isize(value: i32, module: &ModuleBuilder) -> (r: Integer)
        ensures
            r == (if module.wasm_memory64 {
                constant(ConstantSource::Long((value as i64) as u64))
            } else {
                constant(ConstantSource::Short(value as u32))
            }),
    {
        if module.wasm_memory64 {
            Self::new_constant_i64(value as i64)
        } else {
            Self::new_constant_i32(value)
        }
    }

    /// The width of the integer.
    pub fn kind(&self, module: &ModuleBuilder) -> (r: Result<IntegerKind, Error>)
        ensures
            r == self.spec_kind(module.addressing_model),
        decreases self,
    {
        match &self.source {
            IntegerSource::Loaded { pointer, .. } => match &pointer.pointee {
                Type::Scalar(ScalarType::I32) => Ok(IntegerKind::Short),
                Type::Scalar(ScalarType::I64) => Ok(IntegerKind::Long),
                _ => Err(Error::Unexpected),
            },
            IntegerSource::Select { true_value, .. } => true_value.kind(module),
            IntegerSource::Extracted { vector, .. } => match vector.element_type {
                ScalarType::I32 => Ok(IntegerKind::Short),
                ScalarType::I64 => Ok(IntegerKind::Long),
                _ => Err(Error::Unexpected),
            },
            IntegerSource::ArrayLength { .. } => Ok(IntegerKind::Short),
            IntegerSource::FunctionParam(kind) => Ok(*kind),
            IntegerSource::FunctionCall { kind, .. } => Ok(*kind),
            IntegerSource::Constant(ConstantSource::Long(_)) => Ok(IntegerKind::Long),
            IntegerSource::Constant(ConstantSource::Short(_)) => Ok(IntegerKind::Short),
            IntegerSource::Conversion(conv) => match conv {
                ConversionSource::FromBool(_, kind) => Ok(*kind),
                ConversionSource::FromLong(_) => Ok(IntegerKind::Short),
                ConversionSource::FromShort { .. } => Ok(IntegerKind::Long),
                ConversionSource::FromFloat { kind, .. } => Ok(*kind),
                ConversionSource::Bitcast { kind, .. } => Ok(*kind),
                ConversionSource::FromPointer(p) => match p.physical_bytes(module) {
                    Some(4) => Ok(IntegerKind::Short),
                    Some(8) => Ok(IntegerKind::Long),
                    None => Err(Error::LogicalPointer),
                    _ => Err(Error::Unexpected),
                },
            },
            IntegerSource::Unary { op1, .. } => op1.kind(module),
            IntegerSource::Binary { op1, .. } => op1.kind(module),
        }
    }

    /// The constant that the integer is known to be, if any.
    pub fn get_constant_value(&self) -> (r: Result<Option<ConstantSource>, Error>)
        ensures
            r == self.spec_constant(),
        decreases self,
    {
        match &self.source {
            IntegerSource::Constant(x) => Ok(Some(*x)),
            IntegerSource::Conversion(ConversionSource::FromLong(value)) => match value.get_constant_value() {
                Ok(Some(ConstantSource::Long(x))) => Ok(Some(ConstantSource::Short(x as u32))),
                Ok(None) => Ok(None),
                Ok(_) => Err(Error::Unexpected),
                Err(e) => Err(e),
            },
            IntegerSource::Conversion(ConversionSource::FromShort { signed, value }) => match value.get_constant_value() {
                Ok(Some(ConstantSource::Short(x))) => if *signed {
                    Ok(Some(ConstantSource::Long(((x as i32) as i64) as u64)))
                } else {
                    Ok(Some(ConstantSource::Long(x as u64)))
                },
                Ok(None) => Ok(None),
                Ok(_) => Err(Error::Unexpected),
                Err(e) => Err(e),
            },
            _ => Ok(None),
        }
    }
}

/// The widths, then the known constants, of two operands: the first error
/// met, or a width mismatch, stops the operation.
pub open spec fn spec_operands(a: Integer, b: Integer, am: u32) -> Result<(Option<ConstantSource>, Option<ConstantSource>), Error> {
    match a.spec_kind(am) {
        Err(e) => Err(e),
        Ok(x) => match b.spec_kind(am) {
            Err(e) => Err(e),
            Ok(y) => if x != y {
                Err(Error::Mismatch)
            } else {
                match a.spec_constant() {
                    Err(e) => Err(e),
                    Ok(ca) => match b.spec_constant() {
                        Err(e) => Err(e),
                        Ok(cb) => Ok((ca, cb)),
                    },
                }
            },
        },
    }
}

/// The result of `a + b`: folded on constants; an operand of zero gives
/// the other one.
pub open spec fn fold_add(ca: Option<ConstantSource>, cb: Option<ConstantSource>, a: Integer, b: Integer) -> Integer {
    match (ca, cb) {
        (Some(ConstantSource::Short(x)), Some(ConstantSource::Short(y))) => constant(
            ConstantSource::Short(((x + y) % 0x1_0000_0000) as u32),
        ),
        (Some(ConstantSource::Long(x)), Some(ConstantSource::Long(y))) => constant(
            ConstantSource::Long(((x + y) % 0x1_0000_0000_0000_0000) as u64),
        ),
        _ => if opt_zero(cb) {
            a
        } else if opt_zero(ca) {
            b
        } else {
            binary(BinarySource::Add, a, b)
        },
    }
}

/// The result of `a - b`: folded on constants only.
pub open spec fn fold_sub(ca: Option<ConstantSource>, cb: Option<ConstantSource>, a: Integer, b: Integer) -> Integer {
    match (ca, cb) {
        (Some(ConstantSource::Short(x)), Some(ConstantSource::Short(y))) => constant(
            ConstantSource::Short(((x - y) % 0x1_0000_0000) as u32),
        ),
        (Some(ConstantSource::Long(x)), Some(ConstantSource::Long(y))) => constant(
            ConstantSource::Long(((x - y) % 0x1_0000_0000_0000_0000) as u64),
        ),
        _ => binary(BinarySource::Sub, a, b),
    }
}

/// The result of `a * b`: folded on constants; a zero or a one operand
/// gives the operand that is the product.
pub open spec fn fold_mul(ca: Option<ConstantSource>, cb: Option<ConstantSource>, a: Integer, b: Integer) -> Integer {
    match (ca, cb) {
        (Some(ConstantSource::Short(x)), Some(ConstantSource::Short(y))) => constant(
            ConstantSource::Short(((x * y) % 0x1_0000_0000) as u32),
        ),
        (Some(ConstantSource::Long(x)), Some(ConstantSource::Long(y))) => constant(
            ConstantSource::Long(((x * y) % 0x1_0000_0000_0000_0000) as u64),
        ),
        _ => if opt_zero(ca) || opt_one(cb) {
            a
        } else if opt_zero(cb) || opt_one(ca) {
            b
        } else {
            binary(BinarySource::Mul, a, b)
        },
    }
}

/// The result of a division or remainder `op` whose constant cases `fold32`
/// and `fold64` compute: a zero divisor is an error, a zero dividend is
/// the result.
pub open spec fn fold_division(
    op: BinarySource,
    ca: Option<ConstantSource>,
    cb: Option<ConstantSource>,
    a: Integer,
    b: Integer,
) -> Result<Integer, Error> {
    if opt_zero(cb) {
        Err(Error::DivisionByZero)
    } else if opt_zero(ca) {
        Ok(a)
    } else {
        match (ca, cb) {
            (Some(ConstantSource::Short(x)), Some(ConstantSource::Short(y))) => Ok(constant(
                ConstantSource::Short(
                    match op {
                        BinarySource::SDiv => sdiv32(x, y),
                        BinarySource::UDiv => x / y,
                        BinarySource::SRem => srem32(x, y),
                        _ => x % y,
                    },
                ),
            )),
            (Some(ConstantSource::Long(x)), Some(ConstantSource::Long(y))) => Ok(constant(
                ConstantSource::Long(
                    match op {
                        BinarySource::SDiv => sdiv64(x, y),
                        BinarySource::UDiv => x / y,
                        BinarySource::SRem => srem64(x, y),
                        _ => x % y,
                    },
                ),
            )),
            _ => Ok(binary(op, a, b)),
        }
    }
}

/// Whether a signed division of two constants overflows.
pub open spec fn division_overflows(ca: Option<ConstantSource>, cb: Option<ConstantSource>) -> bool {
    match (ca, cb) {
        (Some(ConstantSource::Short(x)), Some(ConstantSource::Short(y))) => sdiv32_overflows(x, y),
        (Some(ConstantSource::Long(x)), Some(ConstantSource::Long(y))) => sdiv64_overflows(x, y),
        _ => false,
    }
}

/// The result of a bitwise `op`, with the folding rules for a zero
/// operand: `and` gives the other operand back, `or` gives the zero back,
/// `xor` gives the other operand back.
pub open spec fn fold_bitwise(
    op: BinarySource,
    ca: Option<ConstantSource>,
    cb: Option<ConstantSource>,
    a: Integer,
    b: Integer,
) -> Integer {
    match (ca, cb) {
        (Some(ConstantSource::Short(x)), Some(ConstantSource::Short(y))) => constant(
            ConstantSource::Short(
                match op {
                    BinarySource::And => x & y,
                    BinarySource::Or => x | y,
                    _ => x ^ y,
                },
            ),
        ),
        (Some(ConstantSource::Long(x)), Some(ConstantSource::Long(y))) => constant(
            ConstantSource::Long(
                match op {
                    BinarySource::And => x & y,
                    BinarySource::Or => x | y,
                    _ => x ^ y,
                },
            ),
        ),
        _ => if opt_zero(cb) {
            if op == BinarySource::Or { b } else { a }
        } else if opt_zero(ca) {
            if op == BinarySource::Or { a } else { b }
        } else {
            binary(op, a, b)
        },
    }
}

/// The result of a shift or rotation `op` other than the logical right
/// shift: a zero operand gives the first operand; constants are folded with
/// the shift amount taken modulo the width.
pub open spec fn fold_shift(
    op: BinarySource,
    ca: Option<ConstantSource>,
    cb: Option<ConstantSource>,
    a: Integer,
    b: Integer,
) -> Integer {
    if opt_zero(ca) || opt_zero(cb) {
        a
    } else {
        match (ca, cb) {
            (Some(ConstantSource::Short(x)), Some(ConstantSource::Short(y))) => constant(
                ConstantSource::Short(
                    match op {
                        BinarySource::Shl => x << (y % 32),
                        BinarySource::SShr => sshr32(x, y),
                        BinarySource::Rotl => rotl32(x, y),
                        _ => rotr32(x, y),
                    },
                ),
            ),
            (Some(ConstantSource::Long(x)), Some(ConstantSource::Long(y))) => constant(
                ConstantSource::Long(
                    match op {
                        BinarySource::Shl => x << (y % 64),
                        BinarySource::SShr => sshr64(x, y),
                        BinarySource::Rotl => rotl64(x, y),
                        _ => rotr64(x, y),
                    },
                ),
            ),
            _ => binary(op, a, b),
        }
    }
}

/// The result of a logical right shift. With `optimize_away`, shifting
/// back a left shift by the same constant gives the shifted operand.
pub open spec fn fold_ushr(
    ca: Option<ConstantSource>,
    cb: Option<ConstantSource>,
    a: Integer,
    b: Integer,
    optimize_away: bool,
) -> Result<Integer, Error> {
    if opt_zero(ca) || opt_zero(cb) {
        Ok(a)
    } else {
        match (ca, cb) {
            (Some(ConstantSource::Short(x)), Some(ConstantSource::Short(y))) => Ok(
                constant(ConstantSource::Short(x >> (y % 32))),
            ),
            (Some(ConstantSource::Long(x)), Some(ConstantSource::Long(y))) => Ok(
                constant(ConstantSource::Long(x >> (y % 64))),
            ),
            _ => if cb is Some && optimize_away {
                match a.source {
                    IntegerSource::Binary { source: BinarySource::Shl, op1, op2 } => match op2.spec_constant() {
                        Err(e) => Err(e),
                        Ok(c2) => if c2 == cb {
                            Ok(*op1)
                        } else {
                            Ok(binary(BinarySource::UShr, a, b))
                        },
                    },
                    _ => Ok(binary(BinarySource::UShr, a, b)),
                }
            } else {
                Ok(binary(BinarySource::UShr, a, b))
            },
        }
    }
}

/// `a >> b`, logical.
#[verifier::opaque]
pub open spec fn spec_ushr(a: Integer, b: Integer, am: u32, optimize_away: bool) -> Result<Integer, Error> {
    match spec_operands(a, b, am) {
        Err(e) => Err(e),
        Ok((ca, cb)) => fold_ushr(ca, cb, a, b, optimize_away),
    }
}

/// The result of an unsigned division: as `fold_division`, and a division
/// by a constant power of two is a logical right shift by its exponent.
pub open spec fn fold_udiv(
    ca: Option<ConstantSource>,
    cb: Option<ConstantSource>,
    a: Integer,
    b: Integer,
    am: u32,
    optimize_away: bool,
) -> Result<Integer, Error> {
    if opt_zero(cb) || opt_zero(ca) {
        fold_division(BinarySource::UDiv, ca, cb, a, b)
    } else {
        match (ca, cb) {
            (Some(ConstantSource::Short(_)), Some(ConstantSource::Short(_))) => fold_division(BinarySource::UDiv, ca, cb, a, b),
            (Some(ConstantSource::Long(_)), Some(ConstantSource::Long(_))) => fold_division(BinarySource::UDiv, ca, cb, a, b),
            (_, Some(ConstantSource::Short(y))) => match power_of_two_exponent(y as nat) {
                Some(k) => spec_ushr(a, constant(ConstantSource::Short(k as u32)), am, optimize_away),
                None => Ok(binary(BinarySource::UDiv, a, b)),
            },
            (_, Some(ConstantSource::Long(y))) => match power_of_two_exponent(y as nat) {
                Some(k) => spec_ushr(a, constant(ConstantSource::Long(k as u64)), am, optimize_away),
                None => Ok(binary(BinarySource::UDiv, a, b)),
            },
            _ => Ok(binary(BinarySource::UDiv, a, b)),
        }
    }
}

/// `op(a, b)` as the value graph builds it.
pub open spec fn spec_binary(op: BinarySource, a: Integer, b: Integer, am: u32, optimize_away: bool) -> Result<Integer, Error> {
    match spec_operands(a, b, am) {
        Err(e) => Err(e),
        Ok((ca, cb)) => match op {
            BinarySource::Add => Ok(fold_add(ca, cb, a, b)),
            BinarySource::Sub => Ok(fold_sub(ca, cb, a, b)),
            BinarySource::Mul => Ok(fold_mul(ca, cb, a, b)),
            BinarySource::UDiv => fold_udiv(ca, cb, a, b, am, optimize_away),
            BinarySource::SDiv | BinarySource::SRem | BinarySource::URem => fold_division(op, ca, cb, a, b),
            BinarySource::And | BinarySource::Or | BinarySource::Xor => Ok(fold_bitwise(op, ca, cb, a, b)),
            BinarySource::UShr => fold_ushr(ca, cb, a, b, optimize_away),
            _ => Ok(fold_shift(op, ca, cb, a, b)),
        },
    }
}

/// Whether `op(a, b)` would divide the most negative value by minus one.
pub open spec fn spec_overflows(op: BinarySource, a: Integer, b: Integer, am: u32) -> bool {
    &&& (op == BinarySource::SDiv || op == BinarySource::SRem)
    &&& spec_operands(a, b, am) matches Ok((ca, cb)) && division_overflows(ca, cb)
}

/// `op(a)` for the bit-counting operations: folded on a constant.
pub open spec fn spec_count(op: UnarySource, a: Integer) -> Result<Integer, Error> {
    match a.spec_constant() {
        Err(e) => Err(e),
        Ok(Some(ConstantSource::Short(x))) => Ok(constant(ConstantSource::Short(
            match op {
                UnarySource::LeadingZeros => u32_leading_zeros(x),
                UnarySource::TrainlingZeros => u32_trailing_zeros(x),
                _ => count_ones(x as nat) as u32,
            },
        ))),
        Ok(Some(ConstantSource::Long(x))) => Ok(constant(ConstantSource::Long(
            match op {
                UnarySource::LeadingZeros => u64_leading_zeros(x) as u64,
                UnarySource::TrainlingZeros => u64_trailing_zeros(x) as u64,
                _ => count_ones(x as nat) as u64,
            },
        ))),
        Ok(None) => Ok(unary(op, a)),
    }
}

/// The integer behind an optional shared result.
pub open spec fn shared(r: Result<Rc<Integer>, Error>) -> Result<Integer, Error> {
    match r {
        Ok(x) => Ok(*x),
        Err(e) => Err(e),
    }
}

fn operands(a: &Integer, b: &Integer, module: &ModuleBuilder) -> (r: Result<(Option<ConstantSource>, Option<ConstantSource>), Error>)
    ensures
        r == spec_operands(*a, *b, module.addressing_model),
{
    let x = match a.kind(module) {
        Ok(x) => x,
        Err(e) => return Err(e),
    };
    let y = match b.kind(module) {
        Ok(y) => y,
        Err(e) => return Err(e),
    };
    if x != y {
        return Err(Error::Mismatch);
    }
    let ca = match a.get_constant_value() {
        Ok(c) => c,
        Err(e) => return Err(e),
    };
    let cb = match b.get_constant_value() {
        Ok(c) => c,
        Err(e) => return Err(e),
    };
    Ok((ca, cb))
}

fn is_zero(c: &Option<ConstantSource>) -> (r: bool)
    ensures
        r == opt_zero(*c),
{
    match c {
        Some(ConstantSource::Short(0)) | Some(ConstantSource::Long(0)) => true,
        _ => false,
    }
}

fn is_one(c: &Option<ConstantSource>) -> (r: bool)
    ensures
        r == opt_one(*c),
{
    match c {
        Some(ConstantSource::Short(1)) | Some(ConstantSource::Long(1)) => true,
        _ => false,
    }
}

fn make_binary(source: BinarySource, op1: Rc<Integer>, op2: Rc<Integer>) -> (r: Rc<Integer>)
    ensures
        *r == binary(source, *op1, *op2),
{
    Rc::new(Integer { source: IntegerSource::Binary { source, op1, op2 } })
}

fn make_short(x: u32) -> (r: Rc<Integer>)
    ensures
        *r == constant(ConstantSource::Short(x)),
{
    Rc::new(Integer::new_constant_u32(x))
}

fn make_long(x: u64) -> (r: Rc<Integer>)
    ensures
        *r == constant(ConstantSource::Long(x)),
{
    Rc::new(Integer::new_constant_u64(x))
}

impl Integer {
    /// `-self`, left unevaluated.
    pub fn negate(self: Rc<Self>) -> (r: Integer)
        ensures
            r == unary(UnarySource::Negate, *self),
    {
        Integer { source: IntegerSource::Unary { source: UnarySource::Negate, op1: self } }
    }

    /// `self + rhs`, wrapping.
    pub fn add(self: Rc<Self>, rhs: Rc<Integer>, module: &ModuleBuilder) -> (r: Result<Rc<Integer>, Error>)
        ensures
            shared(r) == spec_binary(BinarySource::Add, *self, *rhs, module.addressing_model, false),
    {
        let (ca, cb) = match operands(&self, &rhs, module) {
            Ok(x) => x,
            Err(e) => return Err(e),
        };
        match (ca, cb) {
            (Some(ConstantSource::Short(x)), Some(ConstantSource::Short(y))) => Ok(make_short(x.wrapping_add(y))),
            (Some(ConstantSource::Long(x)), Some(ConstantSource::Long(y))) => Ok(make_long(x.wrapping_add(y))),
            _ => if is_zero(&cb) {
                Ok(self)
            } else if is_zero(&ca) {
                Ok(rhs)
            } else {
                Ok(make_binary(BinarySource::Add, self, rhs))
            },
        }
    }

    /// `self - rhs`, wrapping.
    pub fn sub(self: Rc<Self>, rhs: Rc<Integer>, module: &ModuleBuilder) -> (r: Result<Integer, Error>)
        ensures
            r == spec_binary(BinarySource::Sub, *self, *rhs, module.addressing_model, false),
    {
        let (ca, cb) = match operands(&self, &rhs, module) {
            Ok(x) => x,
            Err(e) => return Err(e),
        };
        match (ca, cb) {
            (Some(ConstantSource::Short(x)), Some(ConstantSource::Short(y))) => Ok(Integer::new_constant_u32(x.wrapping_sub(y))),
            (Some(ConstantSource::Long(x)), Some(ConstantSource::Long(y))) => Ok(Integer::new_constant_u64(x.wrapping_sub(y))),
            _ => Ok(Integer { source: IntegerSource::Binary { source: BinarySource::Sub, op1: self, op2: rhs } }),
        }
    }

    /// `self * rhs`, wrapping.
    pub fn mul(self: Rc<Self>, rhs: Rc<Integer>, module: &ModuleBuilder) -> (r: Result<Rc<Integer>, Error>)
        ensures
            shared(r) == spec_binary(BinarySource::Mul, *self, *rhs, module.addressing_model, false),
    {
        let (ca, cb) = match operands(&self, &rhs, module) {
            Ok(x) => x,
            Err(e) => return Err(e),
        };
        match (ca, cb) {
            (Some(ConstantSource::Short(x)), Some(ConstantSource::Short(y))) => Ok(make_short(x.wrapping_mul(y))),
            (Some(ConstantSource::Long(x)), Some(ConstantSource::Long(y))) => Ok(make_long(x.wrapping_mul(y))),
            _ => if is_zero(&ca) || is_one(&cb) {
                Ok(self)
            } else if is_zero(&cb) || is_one(&ca) {
                Ok(rhs)
            } else {
                Ok(make_binary(BinarySource::Mul, self, rhs))
            },
        }
    }
}


impl Integer {
    /// `self / rhs`, signed, rounding toward zero.
    pub fn s_div(self: Rc<Self>, rhs: Rc<Integer>, module: &ModuleBuilder) -> (r: Result<Rc<Integer>, Error>)
        requires
            !spec_overflows(BinarySource::SDiv, *self, *rhs, module.addressing_model),
        ensures
            shared(r) == spec_binary(BinarySource::SDiv, *self, *rhs, module.addressing_model, false),
    {
        self.division(BinarySource::SDiv, rhs, module)
    }

    /// `self % rhs`, signed, with the sign of `self`.
    pub fn s_rem(self: Rc<Self>, rhs: Rc<Integer>, module: &ModuleBuilder) -> (r: Result<Rc<Integer>, Error>)
        requires
            !spec_overflows(BinarySource::SRem, *self, *rhs, module.addressing_model),
        ensures
            shared(r) == spec_binary(BinarySource::SRem, *self, *rhs, module.addressing_model, false),
    {
        self.division(BinarySource::SRem, rhs, module)
    }

    /// `self % rhs`, unsigned.
    pub fn u_rem(self: Rc<Self>, rhs: Rc<Integer>, module: &ModuleBuilder) -> (r: Result<Rc<Integer>, Error>)
        ensures
            shared(r) == spec_binary(BinarySource::URem, *self, *rhs, module.addressing_model, false),
    {
        self.division(BinarySource::URem, rhs, module)
    }

    fn division(self: Rc<Self>, op: BinarySource, rhs: Rc<Integer>, module: &ModuleBuilder) -> (r: Result<Rc<Integer>, Error>)
        requires
            op == BinarySource::SDiv || op == BinarySource::SRem || op == BinarySource::URem,
            !spec_overflows(op, *self, *rhs, module.addressing_model),
        ensures
            shared(r) == spec_binary(op, *self, *rhs, module.addressing_model, false),
    {
        let (ca, cb) = match operands(&self, &rhs, module) {
            Ok(x) => x,
            Err(e) => return Err(e),
        };
        if is_zero(&cb) {
            return Err(Error::DivisionByZero);
        }
        if is_zero(&ca) {
            return Ok(self);
        }
        match (ca, cb) {
            (Some(ConstantSource::Short(x)), Some(ConstantSource::Short(y))) => Ok(make_short(
                match op {
                    BinarySource::SDiv => sdiv_u32(x, y),
                    BinarySource::SRem => srem_u32(x, y),
                    _ => x % y,
                },
            )),
            (Some(ConstantSource::Long(x)), Some(ConstantSource::Long(y))) => Ok(make_long(
                match op {
                    BinarySource::SDiv => sdiv_u64(x, y),
                    BinarySource::SRem => srem_u64(x, y),
                    _ => x % y,
                },
            )),
            _ => Ok(make_binary(op, self, rhs)),
        }
    }

    /// `self / rhs`, unsigned. A division by a constant power of two becomes
    /// a logical right shift, which `optimize_away` lets cancel a left shift.
    #[verifier::rlimit(40)]
    pub fn u_div(self: Rc<Self>, rhs: Rc<Integer>, optimize_away: bool, module: &ModuleBuilder) -> (r: Result<Rc<Integer>, Error>)
        ensures
            shared(r) == spec_binary(BinarySource::UDiv, *self, *rhs, module.addressing_model, optimize_away),
    {
        let (ca, cb) = match operands(&self, &rhs, module) {
            Ok(x) => x,
            Err(e) => return Err(e),
        };
        if is_zero(&cb) {
            return Err(Error::DivisionByZero);
        }
        if is_zero(&ca) {
            return Ok(self);
        }
        match (ca, cb) {
            (Some(ConstantSource::Short(x)), Some(ConstantSource::Short(y))) => Ok(make_short(x / y)),
            (Some(ConstantSource::Long(x)), Some(ConstantSource::Long(y))) => Ok(make_long(x / y)),
            (_, Some(ConstantSource::Short(y))) => match exact_log2(y as u64) {
                Some(k) => self.u_shr(make_short(k), optimize_away, module),
                None => Ok(make_binary(BinarySource::UDiv, self, rhs)),
            },
            (_, Some(ConstantSource::Long(y))) => match exact_log2(y) {
                Some(k) => self.u_shr(make_long(k as u64), optimize_away, module),
                None => Ok(make_binary(BinarySource::UDiv, self, rhs)),
            },
            _ => Ok(make_binary(BinarySource::UDiv, self, rhs)),
        }
    }

    /// `self & rhs`.
    pub fn and(self: Rc<Self>, rhs: Rc<Integer>, module: &ModuleBuilder) -> (r: Result<Rc<Integer>, Error>)
        ensures
            shared(r) == spec_binary(BinarySource::And, *self, *rhs, module.addressing_model, false),
    {
        self.bitwise(BinarySource::And, rhs, module)
    }

    /// `self | rhs`.
    pub fn or(self: Rc<Self>, rhs: Rc<Integer>, module: &ModuleBuilder) -> (r: Result<Rc<Integer>, Error>)
        ensures
            shared(r) == spec_binary(BinarySource::Or, *self, *rhs, module.addressing_model, false),
    {
        self.bitwise(BinarySource::Or, rhs, module)
    }

    /// `self ^ rhs`.
    pub fn xor(self: Rc<Self>, rhs: Rc<Integer>, module: &ModuleBuilder) -> (r: Result<Rc<Integer>, Error>)
        ensures
            shared(r) == spec_binary(BinarySource::Xor, *self, *rhs, module.addressing_model, false),
    {
        self.bitwise(BinarySource::Xor, rhs, module)
    }

    fn bitwise(self: Rc<Self>, op: BinarySource, rhs: Rc<Integer>, module: &ModuleBuilder) -> (r: Result<Rc<Integer>, Error>)
        requires
            op == BinarySource::And || op == BinarySource::Or || op == BinarySource::Xor,
        ensures
            shared(r) == spec_binary(op, *self, *rhs, module.addressing_model, false),
    {
        let (ca, cb) = match operands(&self, &rhs, module) {
            Ok(x) => x,
            Err(e) => return Err(e),
        };
        match (ca, cb) {
            (Some(ConstantSource::Short(x)), Some(ConstantSource::Short(y))) => Ok(make_short(
                match op {
                    BinarySource::And => x & y,
                    BinarySource::Or => x | y,
                    _ => x ^ y,
                },
            )),
            (Some(ConstantSource::Long(x)), Some(ConstantSource::Long(y))) => Ok(make_long(
                match op {
                    BinarySource::And => x & y,
                    BinarySource::Or => x | y,
                    _ => x ^ y,
                },
            )),
            _ => if is_zero(&cb) {
                if op == BinarySource::Or { Ok(rhs) } else { Ok(self) }
            } else if is_zero(&ca) {
                if op == BinarySource::Or { Ok(self) } else { Ok(rhs) }
            } else {
                Ok(make_binary(op, self, rhs))
            },
        }
    }

    /// `self << rhs`, the amount taken modulo the width.
    pub fn shl(self: Rc<Self>, rhs: Rc<Integer>, module: &ModuleBuilder) -> (r: Result<Rc<Integer>, Error>)
        ensures
            shared(r) == spec_binary(BinarySource::Shl, *self, *rhs, module.addressing_model, false),
    {
        self.shift(BinarySource::Shl, rhs, module)
    }

    /// `self >> rhs`, arithmetic, the amount taken modulo the width.
    pub fn s_shr(self: Rc<Self>, rhs: Rc<Integer>, module: &ModuleBuilder) -> (r: Result<Rc<Integer>, Error>)
        ensures
            shared(r) == spec_binary(BinarySource::SShr, *self, *rhs, module.addressing_model, false),
    {
        self.shift(BinarySource::SShr, rhs, module)
    }

    /// `self` rotated left by `rhs` bits.
    pub fn rotl(self: Rc<Self>, rhs: Rc<Integer>, module: &ModuleBuilder) -> (r: Result<Rc<Integer>, Error>)
        ensures
            shared(r) == spec_binary(BinarySource::Rotl, *self, *rhs, module.addressing_model, false),
    {
        self.shift(BinarySource::Rotl, rhs, module)
    }

    /// `self` rotated right by `rhs` bits.
    pub fn rotr(self: Rc<Self>, rhs: Rc<Integer>, module: &ModuleBuilder) -> (r: Result<Rc<Integer>, Error>)
        ensures
            shared(r) == spec_binary(BinarySource::Rotr, *self, *rhs, module.addressing_model, false),
    {
        self.shift(BinarySource::Rotr, rhs, module)
    }

    fn shift(self: Rc<Self>, op: BinarySource, rhs: Rc<Integer>, module: &ModuleBuilder) -> (r: Result<Rc<Integer>, Error>)
        requires
            op == BinarySource::Shl || op == BinarySource::SShr || op == BinarySource::Rotl || op
                == BinarySource::Rotr,
        ensures
            shared(r) == spec_binary(op, *self, *rhs, module.addressing_model, false),
    {
        let (ca, cb) = match operands(&self, &rhs, module) {
            Ok(x) => x,
            Err(e) => return Err(e),
        };
        if is_zero(&ca) || is_zero(&cb) {
            return Ok(self);
        }
        match (ca, cb) {
            (Some(ConstantSource::Short(x)), Some(ConstantSource::Short(y))) => Ok(make_short(
                match op {
                    BinarySource::Shl => x.wrapping_shl(y),
                    BinarySource::SShr => sshr_u32(x, y),
                    BinarySource::Rotl => rotl_u32(x, y),
                    _ => rotr_u32(x, y),
                },
            )),
            (Some(ConstantSource::Long(x)), Some(ConstantSource::Long(y))) => Ok(make_long(
                match op {
                    BinarySource::Shl => x.wrapping_shl((y % 64) as u32),
                    BinarySource::SShr => sshr_u64(x, y),
                    BinarySource::Rotl => rotl_u64(x, y),
                    _ => rotr_u64(x, y),
                },
            )),
            _ => Ok(make_binary(op, self, rhs)),
        }
    }

    /// `self >> rhs`, logical, the amount taken modulo the width. With
    /// `optimize_away`, shifting back a left shift by the same constant
    /// gives the shifted operand.
    pub fn u_shr(self: Rc<Self>, rhs: Rc<Integer>, optimize_away: bool, module: &ModuleBuilder) -> (r: Result<Rc<Integer>, Error>)
        ensures
            shared(r) == spec_binary(BinarySource::UShr, *self, *rhs, module.addressing_model, optimize_away),
            shared(r) == spec_ushr(*self, *rhs, module.addressing_model, optimize_away),
    {
        reveal(spec_ushr);
        let (ca, cb) = match operands(&self, &rhs, module) {
            Ok(x) => x,
            Err(e) => return Err(e),
        };
        if is_zero(&ca) || is_zero(&cb) {
            return Ok(self);
        }
        match (ca, cb) {
            (Some(ConstantSource::Short(x)), Some(ConstantSource::Short(y))) => Ok(make_short(x.wrapping_shr(y))),
            (Some(ConstantSource::Long(x)), Some(ConstantSource::Long(y))) => Ok(make_long(x.wrapping_shr((y % 64) as u32))),
            (_, Some(c)) => {
                if optimize_away {
                    match &self.source {
                        IntegerSource::Binary { source: BinarySource::Shl, op1, op2 } => {
                            let c2 = match op2.get_constant_value() {
                                Ok(c2) => c2,
                                Err(e) => return Err(e),
                            };
                            if c2 == Some(c) {
                                return Ok(op1.clone());
                            }
                        },
                        _ => {},
                    }
                }
                Ok(make_binary(BinarySource::UShr, self, rhs))
            },
            _ => Ok(make_binary(BinarySource::UShr, self, rhs)),
        }
    }

    /// The number of leading zero bits.
    pub fn clz(self: Rc<Self>) -> (r: Result<Rc<Integer>, Error>)
        ensures
            shared(r) == spec_count(UnarySource::LeadingZeros, *self),
    {
        match self.get_constant_value() {
            Err(e) => Err(e),
            Ok(Some(ConstantSource::Short(x))) => Ok(make_short(x.leading_zeros())),
            Ok(Some(ConstantSource::Long(x))) => Ok(make_long(x.leading_zeros() as u64)),
            Ok(None) => Ok(Rc::new(Integer { source: IntegerSource::Unary { source: UnarySource::LeadingZeros, op1: self } })),
        }
    }

    /// The number of trailing zero bits.
    pub fn ctz(self: Rc<Self>) -> (r: Result<Rc<Integer>, Error>)
        ensures
            shared(r) == spec_count(UnarySource::TrainlingZeros, *self),
    {
        match self.get_constant_value() {
            Err(e) => Err(e),
            Ok(Some(ConstantSource::Short(x))) => Ok(make_short(x.trailing_zeros())),
            Ok(Some(ConstantSource::Long(x))) => Ok(make_long(x.trailing_zeros() as u64)),
            Ok(None) => Ok(Rc::new(Integer { source: IntegerSource::Unary { source: UnarySource::TrainlingZeros, op1: self } })),
        }
    }

    /// The number of one bits.
    pub fn popcnt(self: Rc<Self>) -> (r: Result<Rc<Integer>, Error>)
        ensures
            shared(r) == spec_count(UnarySource::BitCount, *self),
    {
        match self.get_constant_value() {
            Err(e) => Err(e),
            Ok(Some(ConstantSource::Short(x))) => {
                let c = count_ones_u64(x as u64);
                proof {
                    crate::values::bits::lemma_count_ones_le(x as nat);
                }
                Ok(make_short(c as u32))
            },
            Ok(Some(ConstantSource::Long(x))) => Ok(make_long(count_ones_u64(x))),
            Ok(None) => Ok(Rc::new(Integer { source: IntegerSource::Unary { source: UnarySource::BitCount, op1: self } })),
        }
    }
}

/// The integer kind of an address of `storage_class`.
pub open spec fn spec_isize(am: u32, storage_class: StorageClass) -> Result<IntegerKind, Error> {
    match spec_address_bits(am, storage_class) {
        Some(32) => Ok(IntegerKind::Short),
        Some(64) => Ok(IntegerKind::Long),
        None => Err(Error::LogicalPointer),
        _ => Err(Error::Unexpected),
    }
}

impl IntegerKind {
    /// The integer kind of a SPIR-V address of `storage_class`.
    pub fn isize(storage_class: StorageClass, module: &ModuleBuilder) -> (r: Result<IntegerKind, Error>)
        ensures
            r == spec_isize(module.addressing_model, storage_class),
    {
        match module.spirv_address_bits(storage_class) {
            Some(32) => Ok(IntegerKind::Short),
            Some(64) => Ok(IntegerKind::Long),
            None => Err(Error::LogicalPointer),
            _ => Err(Error::Unexpected),
        }
    }
}

impl Integer {
    /// Whether the integer has the width of an address of `storage_class`.
    pub fn is_isize(&self, storage_class: StorageClass, module: &ModuleBuilder) -> (r: Result<bool, Error>)
        ensures
            r == match self.spec_kind(module.addressing_model) {
                Err(e) => Err(e),
                Ok(k) => match spec_isize(module.addressing_model, storage_class) {
                    Err(e) => Err(e),
                    Ok(p) => Ok(k == p),
                },
            },
    {
        let k = match self.kind(module) {
            Ok(k) => k,
            Err(e) => return Err(e),
        };
        let p = match IntegerKind::isize(storage_class, module) {
            Ok(p) => p,
            Err(e) => return Err(e),
        };
        Ok(k == p)
    }

    /// Fails unless the integer has the width of an address of
    /// `storage_class`.
    pub fn assert_isize(&self, storage_class: StorageClass, module: &ModuleBuilder) -> (r: Result<(), Error>)
        ensures
            r == match self.spec_kind(module.addressing_model) {
                Err(e) => Err(e),
                Ok(k) => match spec_isize(module.addressing_model, storage_class) {
                    Err(e) => Err(e),
                    Ok(p) => if k == p { Ok(()) } else { Err(Error::NotPointerSized) },
                },
            },
    {
        match self.is_isize(storage_class, module) {
            Ok(true) => Ok(()),
            Ok(false) => Err(Error::NotPointerSized),
            Err(e) => Err(e),
        }
    }

    /// The integer as a boolean: constants are folded, zero being false.
    pub fn to_bool(self: Rc<Self>) -> (r: Result<Bool, Error>)
        ensures
            r == match self.spec_constant() {
                Err(e) => Err(e),
                Ok(Some(c)) => Ok(Bool { source: BoolSource::Constant(!c.is_zero()) }),
                Ok(None) => Ok(Bool { source: BoolSource::FromInteger(self) }),
            },
    {
        match self.get_constant_value() {
            Err(e) => Err(e),
            Ok(Some(ConstantSource::Long(0))) | Ok(Some(ConstantSource::Short(0))) => Ok(Bool::new(BoolSource::Constant(false))),
            Ok(Some(_)) => Ok(Bool::new(BoolSource::Constant(true))),
            Ok(None) => Ok(Bool::new(BoolSource::FromInteger(self))),
        }
    }

    /// The integer as a pointer to `pointee`. A generic pointer needs the
    /// generic-pointer capability.
    pub fn to_pointer(
        self: Rc<Self>,
        size: PointerSize,
        storage_class: StorageClass,
        pointee: Type,
        module: &mut ModuleBuilder,
    ) -> (r: Result<Pointer, Error>)
        ensures
            storage_class == STORAGE_CLASS_GENERIC ==> final(module).capabilities.require_result(
                old(module).capabilities,
                CAPABILITY_GENERIC_POINTER,
            ),
            storage_class != STORAGE_CLASS_GENERIC ==> final(module).capabilities == old(module).capabilities,
            final(module).same_but_capabilities(*old(module)),
            (storage_class == STORAGE_CLASS_GENERIC && old(module).capabilities is Static
                && !capability_list(old(module).capabilities).contains(CAPABILITY_GENERIC_POINTER))
                ==> r == Err::<Pointer, Error>(Error::CapabilityNotEnabled(CAPABILITY_GENERIC_POINTER)),
            !(storage_class == STORAGE_CLASS_GENERIC && old(module).capabilities is Static
                && !capability_list(old(module).capabilities).contains(CAPABILITY_GENERIC_POINTER))
                ==> r == Ok::<Pointer, Error>(Pointer {
                    kind: size.spec_pointer_kind(),
                    storage_class,
                    pointee,
                    source: PointerSource::FromInteger(self),
                }),
    {
        if storage_class == STORAGE_CLASS_GENERIC {
            match module.capabilities.require_mut(CAPABILITY_GENERIC_POINTER) {
                Ok(()) => {},
                Err(e) => return Err(e),
            }
        }
        Ok(Pointer::new(size.to_pointer_kind(), storage_class, pointee, PointerSource::FromInteger(self)))
    }
}

} // verus!
