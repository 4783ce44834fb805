//! Extended instruction sets that a module may import.
use vstd::prelude::*;

verus! {

/// An extended instruction set of SPIR-V.
#[derive(Debug, Clone, Copy, PartialEq, Eq, Structural)]
pub enum ExtendedSet {
    /// The GLSL set, `GLSL.std.450`.
    GLSL450,
    /// `OpenCL.std`.
    OpenCL,
}

impl ExtendedSet {
    /// The name under which the set is imported.
    pub fn name(&self) -> (r: &'static str)
        ensures
            *self == ExtendedSet::GLSL450 ==> r@ == "GLSL.std.450"@,
            *self == ExtendedSet::OpenCL ==> r@ == "OpenCL.std"@,
    {
        match self {
            ExtendedSet::GLSL450 => "GLSL.std.450",
            ExtendedSet::OpenCL => "OpenCL.std",
        }
    }
}

/// An instruction of the GLSL extended set.
#[derive(Debug, Clone, Copy, PartialEq, Eq, Structural)]
pub enum GLSLInstr {
    Sqrt,
}

impl GLSLInstr {
    /// The instruction's number in the set.
    pub fn code(self) -> (r: u32)
        ensures
            r == 31,
    {
        match self {
            GLSLInstr::Sqrt => 31,
        }
    }
}

/// An instruction of the OpenCL extended set.
#[derive(Debug, Clone, Copy, PartialEq, Eq, Structural)]
pub enum OpenCLInstr {
    Sqrt,
    Clz,
    Ctz,
    Popcount,
}

/// The number of an OpenCL extended instruction.
pub open spec fn opencl_code(i: OpenCLInstr) -> u32 {
    match i {
        OpenCLInstr::Sqrt => 61,
        OpenCLInstr::Clz => 151,
        OpenCLInstr::Ctz => 152,
        OpenCLInstr::Popcount => 166,
    }
}

impl OpenCLInstr {
    /// The instruction's number in the set.
    pub fn code(self) -> (r: u32)
        ensures
            r == opencl_code(self),
    {
        match self {
            OpenCLInstr::Sqrt => 61,
            OpenCLInstr::Clz => 151,
            OpenCLInstr::Ctz => 152,
            OpenCLInstr::Popcount => 166,
        }
    }
}

/// An imported extended instruction set.
#[derive(Debug, Clone, Copy, PartialEq, Eq, Structural)]
pub struct ExtendedIs {
    pub kind: ExtendedSet,
}

impl ExtendedIs {
    pub fn new(kind: ExtendedSet) -> (r: Self)
        ensures
            r.kind == kind,
    {
        ExtendedIs { kind }
    }
}

} // verus!
