//! Boolean values.
use vstd::prelude::*;
use std::rc::Rc;
use crate::error::Error;
use crate::values::float::Float;
use crate::values::integer::{constant, shared, ConstantSource, ConversionSource, Integer, IntegerKind, IntegerSource};
use crate::values::pointer::Pointer;

verus! {

/// A boolean value.
#[derive(Debug, Clone)]
pub struct Bool {
    pub source: BoolSource,
}

/// Where a boolean comes from.
#[derive(Debug, Clone)]
pub enum BoolSource {
    Constant(bool),
    FromInteger(Rc<Integer>),
    Negated(Rc<Bool>),
    Select { selector: Rc<Bool>, true_value: Rc<Bool>, false_value: Rc<Bool> },
    IntEquality { kind: Equality, op1: Rc<Integer>, op2: Rc<Integer> },
    FloatEquality { kind: Equality, op1: Rc<Float>, op2: Rc<Float> },
    IntComparison { kind: Comparison, signed: bool, op1: Rc<Integer>, op2: Rc<Integer> },
    FloatComparison { kind: Comparison, op1: Rc<Float>, op2: Rc<Float> },
    Loaded { pointer: Rc<Pointer>, log2_alignment: Option<u32> },
}

/// An ordering comparison.
#[derive(Debug, Clone, Copy, PartialEq, Eq, Structural)]
pub enum Comparison {
    Le,
    Lt,
    Gt,
    Ge,
}

/// An equality comparison.
#[derive(Debug, Clone, Copy, PartialEq, Eq, Structural)]
pub enum Equality {
    Eq,
    Ne,
}

impl Bool {
    /// The constant the boolean is known to be, if any: a constant, an
    /// integer known to be a constant, or the negation of a known boolean.
    pub open spec fn spec_constant(self) -> Result<Option<bool>, Error>
        decreases self,
    {
        match self.source {
            BoolSource::Constant(x) => Ok(Some(x)),
            BoolSource::FromInteger(x) => match x.spec_constant() {
                Ok(Some(c)) => Ok(Some(!c.is_zero())),
                Ok(None) => Ok(None),
                Err(e) => Err(e),
            },
            BoolSource::Negated(x) => match x.spec_constant() {
                Ok(Some(b)) => Ok(Some(!b)),
                Ok(None) => Ok(None),
                Err(e) => Err(e),
            },
            _ => Ok(None),
        }
    }

    pub fn new(source: BoolSource) -> (r: Self)
        ensures
            r == (Bool { source }),
    {
        Bool { source }
    }

    /// The constant the boolean is known to be, if any.
    pub fn get_constant_value(&self) -> (r: Result<Option<bool>, Error>)
        ensures
            r == self.spec_constant(),
        decreases self,
    {
        match &self.source {
            BoolSource::Constant(x) => Ok(Some(*x)),
            BoolSource::FromInteger(x) => match x.get_constant_value() {
                Ok(Some(ConstantSource::Long(0))) | Ok(Some(ConstantSource::Short(0))) => Ok(Some(false)),
                Ok(Some(_)) => Ok(Some(true)),
                Ok(None) => Ok(None),
                Err(e) => Err(e),
            },
            BoolSource::Negated(x) => match x.get_constant_value() {
                Ok(Some(b)) => Ok(Some(!b)),
                Ok(None) => Ok(None),
                Err(e) => Err(e),
            },
            _ => Ok(None),
        }
    }

    /// The boolean as an integer of `kind`: one for true, zero for false.
    pub fn to_integer(self: Rc<Self>, kind: IntegerKind) -> (r: Result<Rc<Integer>, Error>)
        ensures
            shared(r) == match self.spec_constant() {
                Err(e) => Err(e),
                Ok(Some(b)) => Ok(constant(
                    match kind {
                        IntegerKind::Long => ConstantSource::Long(if b { 1 } else { 0 }),
                        IntegerKind::Short => ConstantSource::Short(if b { 1 } else { 0 }),
                    },
                )),
                Ok(None) => Ok(Integer { source: IntegerSource::Conversion(ConversionSource::FromBool(self, kind)) }),
            },
    {
        match (kind, self.get_constant_value()) {
            (_, Err(e)) => Err(e),
            (IntegerKind::Long, Ok(Some(true))) => Ok(Rc::new(Integer::new_constant_u64(1))),
            (IntegerKind::Short, Ok(Some(true))) => Ok(Rc::new(Integer::new_constant_u32(1))),
            (IntegerKind::Long, Ok(Some(false))) => Ok(Rc::new(Integer::new_constant_u64(0))),
            (IntegerKind::Short, Ok(Some(false))) => Ok(Rc::new(Integer::new_constant_u32(0))),
            (kind, Ok(None)) => Ok(Rc::new(Integer::new(IntegerSource::Conversion(ConversionSource::FromBool(self, kind))))),
        }
    }
}

} // verus!
