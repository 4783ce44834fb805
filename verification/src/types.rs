use vstd::prelude::*;
use crate::error::Error;
use crate::module::{spec_address_bytes, ModuleBuilder};
use crate::spv::{Capability, StorageClass, CAPABILITY_FLOAT64, CAPABILITY_INT64};

verus! {

/// How a pointer is represented: a plain SPIR-V pointer, or a pointer paired
/// with a byte offset.
#[derive(Debug, Clone, Copy, PartialEq, Eq, Structural, Hash)]
pub enum PointerSize {
    Skinny,
    Fat,
}

impl PointerSize {
    pub fn default() -> (r: PointerSize)
        ensures
            r == PointerSize::Skinny,
    {
        PointerSize::Skinny
    }
}

/// A scalar type of the value graph.
#[derive(Debug, Clone, Copy, PartialEq, Eq, Structural, Hash)]
pub enum ScalarType {
    I32,
    I64,
    F32,
    F64,
    Bool,
}

/// A composite type: a vector of `count` scalars.
#[derive(Debug, Clone, Copy, PartialEq, Eq, Structural, Hash)]
pub enum CompositeType {
    Vector(ScalarType, u32),
}

/// A type of the value graph.
#[derive(Debug, Eq, Hash)]
pub enum Type {
    Pointer { size: PointerSize, storage_class: StorageClass, pointee: Box<Type> },
    Scalar(ScalarType),
    Composite(CompositeType),
}

fn type_eq(a: &Type, b: &Type) -> (r: bool)
    ensures
        r == (*a == *b),
    decreases a,
{
    match (a, b) {
        (
            Type::Pointer { size: s1, storage_class: c1, pointee: p1 },
            Type::Pointer { size: s2, storage_class: c2, pointee: p2 },
        ) => {
            if *s1 == *s2 && *c1 == *c2 {
                type_eq(&**p1, &**p2)
            } else {
                false
            }
        },
        (Type::Scalar(x), Type::Scalar(y)) => *x == *y,
        (Type::Composite(x), Type::Composite(y)) => *x == *y,
        _ => false,
    }
}

pub(crate) fn type_clone(t: &Type) -> (r: Type)
    ensures
        r == *t,
    decreases t,
{
    match t {
        Type::Pointer { size, storage_class, pointee } => Type::Pointer {
            size: *size,
            storage_class: *storage_class,
            pointee: Box::new(type_clone(&**pointee)),
        },
        Type::Scalar(x) => Type::Scalar(*x),
        Type::Composite(x) => Type::Composite(*x),
    }
}

impl Clone for Type {
    fn clone(&self) -> (r: Self)
        ensures
            r == *self,
    {
        type_clone(self)
    }
}

impl PartialEq for Type {
    fn eq(&self, other: &Self) -> (r: bool) {
        type_eq(self, other)
    }
}

impl vstd::std_specs::cmp::PartialEqSpecImpl for Type {
    open spec fn obeys_eq_spec() -> bool {
        true
    }

    open spec fn eq_spec(&self, other: &Type) -> bool {
        *self == *other
    }
}

/// The number that a scalar type is stored as (its declaration order).
pub open spec fn scalar_type_code(t: ScalarType) -> u16 {
    match t {
        ScalarType::I32 => 0,
        ScalarType::I64 => 1,
        ScalarType::F32 => 2,
        ScalarType::F64 => 3,
        ScalarType::Bool => 4,
    }
}

/// The size in bytes of a scalar type, `None` for booleans, which have no
/// memory representation.
pub open spec fn spec_byte_size(t: ScalarType) -> Option<u32> {
    match t {
        ScalarType::Bool => None,
        ScalarType::I32 | ScalarType::F32 => Some(4),
        ScalarType::I64 | ScalarType::F64 => Some(8),
    }
}

impl ScalarType {
    pub fn required_capabilities(&self) -> (r: Vec<Capability>)
        ensures
            r@ == (match *self {
                ScalarType::I64 => seq![CAPABILITY_INT64],
                ScalarType::F64 => seq![CAPABILITY_FLOAT64],
                _ => Seq::<Capability>::empty(),
            }),
    {
        match self {
            ScalarType::Bool | ScalarType::I32 | ScalarType::F32 => Vec::new(),
            ScalarType::I64 => vec![CAPABILITY_INT64],
            ScalarType::F64 => vec![CAPABILITY_FLOAT64],
        }
    }

    /// The scalar type of a WebAssembly address in the module.
    #[allow(non_snake_case)]
    pub fn Isize(module: &ModuleBuilder) -> (r: ScalarType)
        ensures
            r == (if module.wasm_memory64 {
                ScalarType::I64
            } else {
                ScalarType::I32
            }),
    {
        if module.wasm_memory64 {
            ScalarType::I64
        } else {
            ScalarType::I32
        }
    }

    pub fn byte_size(self) -> (r: Option<u32>)
        ensures
            r == spec_byte_size(self),
    {
        match self {
            ScalarType::Bool => None,
            ScalarType::I32 | ScalarType::F32 => Some(4),
            ScalarType::I64 | ScalarType::F64 => Some(8),
        }
    }

    /// The scalar type stored as the number `n`.
    pub fn try_from_primitive(n: u16) -> (r: Result<ScalarType, Error>)
        ensures
            match r {
                Ok(t) => scalar_type_code(t) == n,
                Err(e) => n > 4 && e == Error::UnknownScalarType,
            },
    {
        match n {
            0 => Ok(ScalarType::I32),
            1 => Ok(ScalarType::I64),
            2 => Ok(ScalarType::F32),
            3 => Ok(ScalarType::F64),
            4 => Ok(ScalarType::Bool),
            _ => Err(Error::UnknownScalarType),
        }
    }

    /// The number this scalar type is stored as.
    pub fn to_primitive(self) -> (r: u16)
        ensures
            r == scalar_type_code(self),
    {
        match self {
            ScalarType::I32 => 0,
            ScalarType::I64 => 1,
            ScalarType::F32 => 2,
            ScalarType::F64 => 3,
            ScalarType::Bool => 4,
        }
    }
}

impl CompositeType {
    pub fn vector(elem: ScalarType, count: u32) -> (r: CompositeType)
        ensures
            r == CompositeType::Vector(elem, count),
    {
        CompositeType::Vector(elem, count)
    }
}

/// The size in bytes of a value of type `t`, where it is known before the
/// program runs: a pointer's under the addressing model, a scalar's, or a
/// vector's elements together.
pub open spec fn spec_comptime_byte_size(t: Type, addressing_model: u32) -> Option<int> {
    match t {
        Type::Pointer { storage_class, .. } => match spec_address_bytes(addressing_model, storage_class) {
            Some(b) => Some(b as int),
            None => None,
        },
        Type::Scalar(x) => match spec_byte_size(x) {
            Some(b) => Some(b as int),
            None => None,
        },
        Type::Composite(CompositeType::Vector(elem, count)) => match spec_byte_size(elem) {
            Some(b) => Some(b * count),
            None => None,
        },
    }
}

impl Type {
    /// The size in bytes of a value of this type, where it is known before
    /// the program runs.
    pub fn comptime_byte_size(&self, module: &ModuleBuilder) -> (r: Option<u32>)
        requires
            spec_comptime_byte_size(*self, module.addressing_model) matches Some(n) ==> n <= u32::MAX,
        ensures
            r matches Some(n) ==> spec_comptime_byte_size(*self, module.addressing_model) == Some(n as int),
            r is None ==> spec_comptime_byte_size(*self, module.addressing_model) is None,
    {
        match self {
            Type::Pointer { storage_class, .. } => module.spirv_address_bytes(*storage_class),
            Type::Scalar(x) => x.byte_size(),
            Type::Composite(CompositeType::Vector(elem, count)) => match elem.byte_size() {
                Some(b) => Some(b * *count),
                None => None,
            },
        }
    }

    pub fn pointer(size: PointerSize, storage_class: StorageClass, ty: Type) -> (r: Type)
        ensures
            r == (Type::Pointer { size, storage_class, pointee: Box::new(ty) }),
    {
        Type::Pointer { size, storage_class, pointee: Box::new(ty) }
    }

    pub fn is_pointer(&self) -> (r: bool)
        ensures
            r == (*self is Pointer),
    {
        matches!(self, Type::Pointer { .. })
    }

    pub fn is_scalar(&self) -> (r: bool)
        ensures
            r == (*self is Scalar),
    {
        self.get_scalar().is_some()
    }

    pub fn is_composite(&self) -> (r: bool)
        ensures
            r == (*self is Composite),
    {
        self.get_composite().is_some()
    }

    pub fn get_scalar(&self) -> (r: Option<&ScalarType>)
        ensures
            r == (match *self {
                Type::Scalar(s) => Some(&s),
                _ => None,
            }),
    {
        match self {
            Type::Scalar(scalar) => Some(scalar),
            _ => None,
        }
    }

    pub fn get_composite(&self) -> (r: Option<&CompositeType>)
        ensures
            r == (match *self {
                Type::Composite(c) => Some(&c),
                _ => None,
            }),
    {
        match self {
            Type::Composite(composite) => Some(composite),
            _ => None,
        }
    }

    pub fn from_scalar(value: ScalarType) -> (r: Type)
        ensures
            r == Type::Scalar(value),
    {
        Type::Scalar(value)
    }

    pub fn from_composite(value: CompositeType) -> (r: Type)
        ensures
            r == Type::Composite(value),
    {
        Type::Composite(value)
    }
}

} // verus!
