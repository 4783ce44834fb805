//! Floating-point values. Constants are held by their IEEE 754 bits; the
//! value graph records float operations without computing them.
use vstd::prelude::*;
use std::rc::Rc;
use crate::error::Error;
use crate::types::{ScalarType, Type};
use crate::values::bool::Bool;
use crate::values::integer::Integer;
use crate::values::pointer::Pointer;
use crate::values::vector::Vector;
use crate::values::{Args, Value};

verus! {

/// A floating-point value.
#[derive(Debug, Clone)]
pub struct Float {
    pub source: FloatSource,
}

/// The width of a float.
#[derive(Debug, Clone, Copy, PartialEq, Eq, Structural, Hash)]
pub enum FloatKind {
    /// A 32-bit float
    Single,
    /// A 64-bit float
    Double,
}

/// Where a float comes from.
#[derive(Debug, Clone)]
pub enum FloatSource {
    FunctionParam(FloatKind),
    Constant(ConstantSource),
    Conversion(ConversionSource),
    Loaded { pointer: Rc<Pointer>, log2_alignment: Option<u32> },
    Extracted { vector: Rc<Vector>, index: Rc<Integer> },
    Select { selector: Rc<Bool>, true_value: Rc<Float>, false_value: Rc<Float> },
    FunctionCall { function_id: u32, args: Rc<Args>, kind: FloatKind },
    Unary { source: UnarySource, op1: Rc<Float> },
    Binary { source: BinarySource, op1: Rc<Float>, op2: Rc<Float> },
}

/// A float constant, by its bits.
#[derive(Debug, Clone, Copy, PartialEq, Eq, Structural)]
pub enum ConstantSource {
    Single(u32),
    Double(u64),
}

/// An operation on one float.
#[derive(Debug, Clone, Copy, PartialEq, Eq, Structural)]
pub enum UnarySource {
    Abs,
    Neg,
    Ceil,
    Floor,
    Trunc,
    Nearest,
    Sqrt,
}

/// An operation on two floats.
#[derive(Debug, Clone, Copy, PartialEq, Eq, Structural)]
pub enum BinarySource {
    Add,
    Sub,
    Mul,
    Div,
    /// `x` with the sign of `y`.
    Copysign,
    /// NaN if either is NaN.
    Min,
    Max,
}

/// A float converted from a float of the other width.
#[derive(Debug, Clone)]
pub enum ConversionSource {
    FromSingle(Rc<Float>),
    FromDouble(Rc<Float>),
}

/// The kind of the float stored behind a pointer to `pointee`.
pub open spec fn loaded_float_kind(pointee: Type) -> Result<FloatKind, Error> {
    match pointee {
        Type::Scalar(ScalarType::F32) => Ok(FloatKind::Single),
        Type::Scalar(ScalarType::F64) => Ok(FloatKind::Double),
        _ => Err(Error::Unexpected),
    }
}

impl Float {
    /// The width of the float; where two operands must agree, the first
    /// one's width is taken.
    pub open spec fn spec_kind(self) -> Result<FloatKind, Error>
        decreases self,
    {
        match self.source {
            FloatSource::Loaded { pointer, .. } => loaded_float_kind(pointer.pointee),
            FloatSource::Select { true_value, .. } => true_value.spec_kind(),
            FloatSource::Extracted { vector, .. } => match vector.element_type {
                ScalarType::F32 => Ok(FloatKind::Single),
                ScalarType::F64 => Ok(FloatKind::Double),
                _ => Err(Error::Unexpected),
            },
            FloatSource::FunctionParam(kind) => Ok(kind),
            FloatSource::FunctionCall { kind, .. } => Ok(kind),
            FloatSource::Constant(ConstantSource::Double(_)) => Ok(FloatKind::Double),
            FloatSource::Constant(ConstantSource::Single(_)) => Ok(FloatKind::Single),
            FloatSource::Conversion(ConversionSource::FromDouble(_)) => Ok(FloatKind::Single),
            FloatSource::Conversion(ConversionSource::FromSingle(_)) => Ok(FloatKind::Double),
            FloatSource::Unary { op1, .. } => op1.spec_kind(),
            FloatSource::Binary { op1, .. } => op1.spec_kind(),
        }
    }

    pub fn new(source: FloatSource) -> (r: Float)
        ensures
            r == (Float { source }),
    {
        Float { source }
    }

    /// A 32-bit constant, by its bits.
    pub fn new_constant_single(bits: u32) -> (r: Float)
        ensures
            r == (Float { source: FloatSource::Constant(ConstantSource::Single(bits)) }),
    {
        Float { source: FloatSource::Constant(ConstantSource::Single(bits)) }
    }

    /// A 64-bit constant, by its bits.
    pub fn new_constant_double(bits: u64) -> (r: Float)
        ensures
            r == (Float { source: FloatSource::Constant(ConstantSource::Double(bits)) }),
    {
        Float { source: FloatSource::Constant(ConstantSource::Double(bits)) }
    }

    /// The width of the float.
    pub fn kind(&self) -> (r: Result<FloatKind, Error>)
        ensures
            r == self.spec_kind(),
        decreases self,
    {
        match &self.source {
            FloatSource::Loaded { pointer, .. } => match &pointer.pointee {
                Type::Scalar(ScalarType::F32) => Ok(FloatKind::Single),
                Type::Scalar(ScalarType::F64) => Ok(FloatKind::Double),
                _ => Err(Error::Unexpected),
            },
            FloatSource::Select { true_value, .. } => true_value.kind(),
            FloatSource::Extracted { vector, .. } => match vector.element_type {
                ScalarType::F32 => Ok(FloatKind::Single),
                ScalarType::F64 => Ok(FloatKind::Double),
                _ => Err(Error::Unexpected),
            },
            FloatSource::FunctionParam(kind) => Ok(*kind),
            FloatSource::FunctionCall { kind, .. } => Ok(*kind),
            FloatSource::Constant(ConstantSource::Double(_)) => Ok(FloatKind::Double),
            FloatSource::Constant(ConstantSource::Single(_)) => Ok(FloatKind::Single),
            FloatSource::Conversion(ConversionSource::FromDouble(_)) => Ok(FloatKind::Single),
            FloatSource::Conversion(ConversionSource::FromSingle(_)) => Ok(FloatKind::Double),
            FloatSource::Unary { op1, .. } => op1.kind(),
            FloatSource::Binary { op1, .. } => op1.kind(),
        }
    }
}

} // verus!
