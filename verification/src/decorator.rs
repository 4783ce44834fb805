//! Decorations attached to variables, types and type members.
use vstd::prelude::*;
use crate::spv::BuiltIn;

verus! {

/// A decoration of a variable.
#[derive(Debug, Clone, Copy, PartialEq, Eq, Structural)]
pub enum VariableDecorator {
    BuiltIn(BuiltIn),
    DesctiptorSet(u32),
    Binding(u32),
    Location(u32),
    Flat,
}

/// A decoration of a type.
#[derive(Debug, Clone, Copy, PartialEq, Eq, Structural)]
pub enum TypeDecorator {
    Block,
    BufferBlock,
    ArrayStride(u32),
}

/// A decoration of a member of a structure type.
#[derive(Debug, Clone, Copy, PartialEq, Eq, Structural)]
pub enum TypeMemberDecorator {
    Offset(u32),
    NonWriteable,
}

} // verus!
