//! Vector values.
use vstd::prelude::*;
use std::rc::Rc;
use crate::types::{CompositeType, ScalarType};
use crate::values::pointer::Pointer;
use crate::values::integer::{Integer, IntegerSource};
use crate::values::float::{Float, FloatSource};
use crate::values::Value;

verus! {

/// A vector of `element_count` scalars of `element_type`.
#[derive(Debug, Clone)]
pub struct Vector {
    pub source: VectorSource,
    pub element_type: ScalarType,
    pub element_count: u32,
}

/// Where a vector comes from.
#[derive(Debug, Clone)]
pub enum VectorSource {
    Loaded { pointer: Rc<Pointer>, log2_alignment: Option<u32> },
}

impl Vector {
    pub fn new(source: VectorSource, element_type: ScalarType, element_count: u32) -> (r: Self)
        ensures
            r == (Vector { source, element_type, element_count }),
    {
        Vector { source, element_type, element_count }
    }

    /// The vector's type.
    pub fn vector_type(&self) -> (r: CompositeType)
        ensures
            r == CompositeType::Vector(self.element_type, self.element_count),
    {
        CompositeType::Vector(self.element_type, self.element_count)
    }
}

impl Vector {
    /// The element at `index`: an integer or a float as the elements are.
    pub fn extract(self: Rc<Self>, index: Rc<Integer>) -> (r: Value)
        requires
            self.element_type != ScalarType::Bool,
        ensures
            r == (if self.element_type == ScalarType::I32 || self.element_type == ScalarType::I64 {
                Value::Integer(Rc::new(Integer { source: IntegerSource::Extracted { vector: self, index } }))
            } else {
                Value::Float(Rc::new(Float { source: FloatSource::Extracted { vector: self, index } }))
            }),
    {
        match self.element_type {
            ScalarType::I32 | ScalarType::I64 => Value::Integer(Rc::new(Integer::new(IntegerSource::Extracted { vector: self, index }))),
            _ => Value::Float(Rc::new(Float::new(FloatSource::Extracted { vector: self, index }))),
        }
    }
}

} // verus!
