//! Pointer values.
use vstd::prelude::*;
use std::rc::Rc;
use crate::decorator::VariableDecorator;
use crate::spv::StorageClass;
use crate::types::{PointerSize, Type};
use crate::values::bool::Bool;
use crate::values::integer::{spec_binary, BinarySource, ConversionSource, Integer, IntegerSource};
use crate::error::Error;
use crate::types::type_clone;
use crate::values::Value;
use crate::module::{spec_address_bytes, ModuleBuilder};
use crate::types::{CompositeType, ScalarType};
use crate::values::bool::BoolSource;
use crate::values::float::{Float, FloatSource};
use crate::values::vector::{Vector, VectorSource};
use crate::function_builder::Operation;

verus! {

/// How a pointer is held: a plain pointer, or a base pointer and a byte
/// offset from it.
#[derive(Debug, Clone)]
pub enum PointerKind {
    Skinny,
    Fat { byte_offset: Option<Rc<Integer>> },
}

/// A pointer to a value of type `pointee` in `storage_class`.
#[derive(Debug, Clone)]
pub struct Pointer {
    pub kind: PointerKind,
    pub storage_class: StorageClass,
    pub pointee: Type,
    pub source: PointerSource,
}

/// Where a pointer comes from.
#[derive(Debug, Clone)]
pub enum PointerSource {
    FunctionParam,
    FromInteger(Rc<Integer>),
    Select { selector: Rc<Bool>, true_value: Rc<Pointer>, false_value: Rc<Pointer> },
    Casted { prev: Rc<Pointer> },
    Loaded { pointer: Rc<Pointer>, log2_alignment: Option<u32> },
    Variable { init: Option<Value>, decorators: Rc<Vec<VariableDecorator>> },
}

impl Pointer {
    /// The width in bytes of the pointer's address, if it has one.
    pub fn physical_bytes(&self, module: &ModuleBuilder) -> (r: Option<u32>)
        ensures
            r == spec_address_bytes(module.addressing_model, self.storage_class),
    {
        module.spirv_address_bytes(self.storage_class)
    }
}

impl PointerSize {
    /// The pointer kind of a fresh pointer of this size.
    pub open spec fn spec_pointer_kind(self) -> PointerKind {
        match self {
            PointerSize::Skinny => PointerKind::Skinny,
            PointerSize::Fat => PointerKind::Fat { byte_offset: None },
        }
    }

    /// The pointer kind of a fresh pointer of this size.
    pub fn to_pointer_kind(self) -> (r: PointerKind)
        ensures
            r == self.spec_pointer_kind(),
    {
        match self {
            PointerSize::Skinny => PointerKind::skinny(),
            PointerSize::Fat => PointerKind::fat(),
        }
    }
}

impl PointerKind {
    pub fn skinny() -> (r: Self)
        ensures
            r == PointerKind::Skinny,
    {
        PointerKind::Skinny
    }

    pub fn fat() -> (r: Self)
        ensures
            r == (PointerKind::Fat { byte_offset: None }),
    {
        PointerKind::Fat { byte_offset: None }
    }

    /// The size of a pointer of this kind.
    pub fn to_pointer_size(&self) -> (r: PointerSize)
        ensures
            r == (if *self is Skinny { PointerSize::Skinny } else { PointerSize::Fat }),
    {
        match self {
            PointerKind::Skinny => PointerSize::Skinny,
            PointerKind::Fat { .. } => PointerSize::Fat,
        }
    }
}

/// The fat pointer `p` moved `byte_offset` bytes on: its offset becomes the
/// sum of the two, as integer addition builds it.
pub open spec fn spec_access(p: Pointer, byte_offset: Integer, am: u32) -> Result<Pointer, Error> {
    match p.kind {
        PointerKind::Fat { byte_offset: Some(offset) } => match spec_binary(BinarySource::Add, *offset, byte_offset, am, false) {
            Ok(sum) => Ok(Pointer { kind: PointerKind::Fat { byte_offset: Some(Rc::new(sum)) }, ..p }),
            Err(e) => Err(e),
        },
        _ => Ok(Pointer { kind: PointerKind::Fat { byte_offset: Some(Rc::new(byte_offset)) }, ..p }),
    }
}

impl Pointer {
    pub fn new(kind: PointerKind, storage_class: StorageClass, pointee: Type, source: PointerSource) -> (r: Self)
        ensures
            r == (Pointer { kind, storage_class, pointee, source }),
    {
        Pointer { kind, storage_class, pointee, source }
    }

    /// A fresh variable of type `ty`.
    pub fn new_variable(
        size: PointerSize,
        storage_class: StorageClass,
        ty: Type,
        init: Option<Value>,
        decorators: Rc<Vec<VariableDecorator>>,
    ) -> (r: Self)
        ensures
            r == (Pointer {
                kind: size.spec_pointer_kind(),
                storage_class,
                pointee: ty,
                source: PointerSource::Variable { init, decorators },
            }),
    {
        Self::new(size.to_pointer_kind(), storage_class, ty, PointerSource::Variable { init, decorators })
    }

    pub fn is_fat(&self) -> (r: bool)
        ensures
            r == (self.kind is Fat),
    {
        match self.kind {
            PointerKind::Fat { .. } => true,
            _ => false,
        }
    }

    pub fn is_skinny(&self) -> (r: bool)
        ensures
            r == (self.kind is Skinny),
    {
        match self.kind {
            PointerKind::Skinny => true,
            _ => false,
        }
    }

    /// The byte offset of a fat pointer.
    pub fn byte_offset(&self) -> (r: Option<Rc<Integer>>)
        ensures
            r == match self.kind {
                PointerKind::Skinny => None,
                PointerKind::Fat { byte_offset } => byte_offset,
            },
    {
        match &self.kind {
            PointerKind::Skinny => None,
            PointerKind::Fat { byte_offset } => match byte_offset {
                Some(o) => Some(o.clone()),
                None => None,
            },
        }
    }

    /// The pointer seen as pointing to `new_pointee`. A fat pointer keeps its
    /// offset.
    pub fn cast(self: Rc<Self>, new_pointee: Type) -> (r: Pointer)
        ensures
            r == (Pointer {
                kind: match self.kind {
                    PointerKind::Skinny => PointerKind::Skinny,
                    PointerKind::Fat { byte_offset } => PointerKind::Fat { byte_offset },
                },
                storage_class: self.storage_class,
                pointee: new_pointee,
                source: PointerSource::Casted { prev: self },
            }),
    {
        let kind = match &self.kind {
            PointerKind::Skinny => PointerKind::skinny(),
            PointerKind::Fat { byte_offset } => PointerKind::Fat {
                byte_offset: match byte_offset {
                    Some(o) => Some(o.clone()),
                    None => None,
                },
            },
        };
        let storage_class = self.storage_class;
        Pointer::new(kind, storage_class, new_pointee, PointerSource::Casted { prev: self })
    }

    /// The pointer's address as an integer.
    pub fn to_integer(self: Rc<Self>) -> (r: Integer)
        ensures
            r == (Integer { source: IntegerSource::Conversion(ConversionSource::FromPointer(self)) }),
    {
        Integer { source: IntegerSource::Conversion(ConversionSource::FromPointer(self)) }
    }

    /// The fat pointer `byte_offset` bytes further on: the offsets add up.
    pub fn access(self: Rc<Self>, byte_offset: Rc<Integer>, module: &ModuleBuilder) -> (r: Result<Pointer, Error>)
        requires
            self.kind is Fat,
        ensures
            r == spec_access(*self, *byte_offset, module.addressing_model),
    {
        let kind = match &self.kind {
            PointerKind::Fat { byte_offset: None } => PointerKind::Fat { byte_offset: Some(byte_offset) },
            PointerKind::Fat { byte_offset: Some(offset) } => {
                let sum = match offset.clone().add(byte_offset, module) {
                    Ok(s) => s,
                    Err(e) => return Err(e),
                };
                PointerKind::Fat { byte_offset: Some(sum) }
            },
            PointerKind::Skinny => {
                proof {
                    assert(false);
                }
                PointerKind::Skinny
            },
        };
        Ok(Pointer::new(kind, self.storage_class, type_clone(&self.pointee), self.source.clone_source()))
    }
}

impl PointerSource {
    /// A copy of the source; shared operands stay shared.
    pub fn clone_source(&self) -> (r: PointerSource)
        ensures
            r == *self,
    {
        match self {
            PointerSource::FunctionParam => PointerSource::FunctionParam,
            PointerSource::FromInteger(x) => PointerSource::FromInteger(x.clone()),
            PointerSource::Select { selector, true_value, false_value } => PointerSource::Select {
                selector: selector.clone(),
                true_value: true_value.clone(),
                false_value: false_value.clone(),
            },
            PointerSource::Casted { prev } => PointerSource::Casted { prev: prev.clone() },
            PointerSource::Loaded { pointer, log2_alignment } => PointerSource::Loaded {
                pointer: pointer.clone(),
                log2_alignment: *log2_alignment,
            },
            PointerSource::Variable { init, decorators } => PointerSource::Variable {
                init: match init {
                    Some(v) => Some(v.clone_value()),
                    None => None,
                },
                decorators: decorators.clone(),
            },
        }
    }
}

/// The value that loading through `p` gives: a value of its pointee type
/// that remembers where it was loaded from.
pub open spec fn spec_load(p: Rc<Pointer>, log2_alignment: Option<u32>) -> Value {
    match p.pointee {
        Type::Pointer { size, storage_class, pointee } => Value::Pointer(Rc::new(Pointer {
            kind: size.spec_pointer_kind(),
            storage_class,
            pointee: *pointee,
            source: PointerSource::Loaded { pointer: p, log2_alignment },
        })),
        Type::Scalar(ScalarType::I32) | Type::Scalar(ScalarType::I64) => Value::Integer(
            Rc::new(Integer { source: IntegerSource::Loaded { pointer: p, log2_alignment } }),
        ),
        Type::Scalar(ScalarType::F32) | Type::Scalar(ScalarType::F64) => Value::Float(
            Rc::new(Float { source: FloatSource::Loaded { pointer: p, log2_alignment } }),
        ),
        Type::Scalar(ScalarType::Bool) => Value::Bool(Rc::new(Bool { source: BoolSource::Loaded { pointer: p, log2_alignment } })),
        Type::Composite(CompositeType::Vector(element_type, element_count)) => Value::Vector(
            Rc::new(Vector { source: VectorSource::Loaded { pointer: p, log2_alignment }, element_type, element_count }),
        ),
    }
}

impl Pointer {
    /// Loads the value that the pointer points to.
    pub fn load(self: Rc<Self>, log2_alignment: Option<u32>) -> (r: Value)
        ensures
            r == spec_load(self, log2_alignment),
    {
        match &self.pointee {
            Type::Pointer { size, storage_class, pointee } => {
                let kind = size.to_pointer_kind();
                let storage_class = *storage_class;
                let pointee = type_clone(&**pointee);
                Value::Pointer(Rc::new(Pointer::new(kind, storage_class, pointee, PointerSource::Loaded { pointer: self, log2_alignment })))
            },
            Type::Scalar(ScalarType::I32) | Type::Scalar(ScalarType::I64) => Value::Integer(
                Rc::new(Integer::new(IntegerSource::Loaded { pointer: self, log2_alignment })),
            ),
            Type::Scalar(ScalarType::F32) | Type::Scalar(ScalarType::F64) => Value::Float(
                Rc::new(Float::new(FloatSource::Loaded { pointer: self, log2_alignment })),
            ),
            Type::Scalar(ScalarType::Bool) => Value::Bool(Rc::new(Bool::new(BoolSource::Loaded { pointer: self, log2_alignment }))),
            Type::Composite(CompositeType::Vector(element_type, element_count)) => {
                let element_type = *element_type;
                let element_count = *element_count;
                Value::Vector(Rc::new(Vector::new(VectorSource::Loaded { pointer: self, log2_alignment }, element_type, element_count)))
            },
        }
    }

    /// The operation that stores `value` through the pointer.
    pub fn store(self: Rc<Self>, value: Value, log2_alignment: Option<u32>) -> (r: Operation)
        ensures
            r == (Operation::Store { target: self, value, log2_alignment }),
    {
        Operation::Store { target: self, value, log2_alignment }
    }
}

} // verus!
