//! The value graph: every value that a function computes, as the expression
//! that produces it. Integer and boolean expressions over constants are
//! folded as they are built.
use vstd::prelude::*;
use std::rc::Rc;
use crate::values::bool::Bool;
use crate::values::float::Float;
use crate::values::integer::Integer;
use crate::values::pointer::Pointer;
use crate::values::vector::Vector;
use crate::error::Error;
use crate::module::ModuleBuilder;
use crate::spv::STORAGE_CLASS_GENERIC;
use crate::types::{type_clone, CompositeType, PointerSize, ScalarType, Type};
use crate::values::bool::BoolSource;
use crate::values::float::{FloatKind, FloatSource};
use crate::values::integer::{shared, spec_binary, BinarySource, ConversionSource, IntegerKind, IntegerSource};
use crate::values::pointer::{spec_access, PointerKind, PointerSource};

pub mod bool;
pub mod float;
pub mod integer;
pub mod pointer;
pub mod vector;
pub mod bits;
pub mod eval;

verus! {

/// A value of any type.
#[derive(Debug, Clone)]
pub enum Value {
    Integer(Rc<Integer>),
    Float(Rc<Float>),
    Pointer(Rc<Pointer>),
    Vector(Rc<Vector>),
    Bool(Rc<Bool>),
    /// What a local that may hold an address gives when it has held both a
    /// pointer and an integer: the pointer it holds and the integer it
    /// holds, the one to be taken as the other requires.
    Schrodinger { pointer_variable: Rc<Pointer>, loaded_integer: Rc<Integer> },
}

/// The arguments of a call, first to last.
#[derive(Debug)]
pub enum Args {
    Nil,
    Cons(Value, Rc<Args>),
}

/// The arguments `s`, in order.
pub open spec fn args_of(s: Seq<Value>) -> Args
    decreases s.len(),
{
    if s.len() == 0 {
        Args::Nil
    } else {
        Args::Cons(s[0], Rc::new(args_of(s.drop_first())))
    }
}

impl Args {
    /// The arguments in order, first to last.
    pub fn to_vec(&self) -> (r: Vec<Value>)
        ensures
            args_of(r@) == *self,
        decreases self,
    {
        match self {
            Args::Nil => Vec::new(),
            Args::Cons(v, rest) => {
                let tail = rest.to_vec();
                let mut r: Vec<Value> = Vec::new();
                r.push(v.clone_value());
                let mut i: usize = 0;
                while i < tail.len()
                    invariant
                        i <= tail.len(),
                        r@ == seq![*v] + tail@.take(i as int),
                    decreases tail.len() - i,
                {
                    r.push(tail[i].clone_value());
                    i = i + 1;
                    assert(r@ =~= seq![*v] + tail@.take(i as int));
                }
                assert(r@.drop_first() =~= tail@);
                r
            },
        }
    }
}

impl Value {
    /// A copy of the value; the value it holds stays shared.
    pub fn clone_value(&self) -> (r: Value)
        ensures
            r == *self,
    {
        match self {
            Value::Integer(x) => Value::Integer(x.clone()),
            Value::Float(x) => Value::Float(x.clone()),
            Value::Pointer(x) => Value::Pointer(x.clone()),
            Value::Vector(x) => Value::Vector(x.clone()),
            Value::Bool(x) => Value::Bool(x.clone()),
            Value::Schrodinger { pointer_variable, loaded_integer } => Value::Schrodinger {
                pointer_variable: pointer_variable.clone(),
                loaded_integer: loaded_integer.clone(),
            },
        }
    }
}

/// The scalar type of an integer kind.
pub open spec fn integer_type(k: IntegerKind) -> Type {
    match k {
        IntegerKind::Short => Type::Scalar(ScalarType::I32),
        IntegerKind::Long => Type::Scalar(ScalarType::I64),
    }
}

/// The scalar type of a float kind.
pub open spec fn float_type(k: FloatKind) -> Type {
    match k {
        FloatKind::Single => Type::Scalar(ScalarType::F32),
        FloatKind::Double => Type::Scalar(ScalarType::F64),
    }
}

/// Whether `v` is a pointer without a byte offset, to which an offset
/// cannot be added.
pub open spec fn is_skinny_pointer(v: Value) -> bool {
    v matches Value::Pointer(p) && p.kind is Skinny
}

/// The boolean behind an optional shared result.
pub open spec fn shared_bool(r: Result<Rc<Bool>, Error>) -> Result<Bool, Error> {
    match r {
        Ok(x) => Ok(*x),
        Err(e) => Err(e),
    }
}

/// `v` as a boolean.
pub open spec fn spec_to_bool(v: Value) -> Result<Bool, Error> {
    match v {
        Value::Bool(x) => Ok(*x),
        Value::Integer(x) => match x.spec_constant() {
            Err(e) => Err(e),
            Ok(Some(c)) => Ok(Bool { source: BoolSource::Constant(!c.is_zero()) }),
            Ok(None) => Ok(Bool { source: BoolSource::FromInteger(x) }),
        },
        Value::Pointer(x) => Ok(Bool {
            source: BoolSource::FromInteger(
                Rc::new(Integer { source: IntegerSource::Conversion(ConversionSource::FromPointer(x)) }),
            ),
        }),
        _ => Err(Error::InvalidOperand),
    }
}

/// `v` as an integer of `kind`, addresses being 64-bit when `memory64`.
pub open spec fn spec_to_integer(v: Value, kind: IntegerKind, am: u32, memory64: bool) -> Result<Integer, Error> {
    match v {
        Value::Integer(x) => match x.spec_kind(am) {
            Err(e) => Err(e),
            Ok(k) => if k == kind { Ok(*x) } else { Err(Error::InvalidOperand) },
        },
        Value::Pointer(x) => if kind == (if memory64 { IntegerKind::Long } else { IntegerKind::Short }) {
            Ok(Integer { source: IntegerSource::Conversion(ConversionSource::FromPointer(x)) })
        } else {
            Err(Error::InvalidOperand)
        },
        Value::Bool(x) => match x.spec_constant() {
            Err(e) => Err(e),
            Ok(Some(b)) => Ok(crate::values::integer::constant(
                match kind {
                    IntegerKind::Long => crate::values::integer::ConstantSource::Long(if b { 1 } else { 0 }),
                    IntegerKind::Short => crate::values::integer::ConstantSource::Short(if b { 1 } else { 0 }),
                },
            )),
            Ok(None) => Ok(Integer { source: IntegerSource::Conversion(ConversionSource::FromBool(x, kind)) }),
        },
        _ => Err(Error::InvalidOperand),
    }
}

/// `a + b` on values: integers add, an integer offset moves a pointer.
pub open spec fn spec_i_add(a: Value, b: Value, am: u32) -> Result<Value, Error> {
    match (a, b) {
        (Value::Integer(x), Value::Integer(y)) => match spec_binary(BinarySource::Add, *x, *y, am, false) {
            Ok(v) => Ok(Value::Integer(Rc::new(v))),
            Err(e) => Err(e),
        },
        (Value::Pointer(p), Value::Integer(y)) => match spec_access(*p, *y, am) {
            Ok(q) => Ok(Value::Pointer(Rc::new(q))),
            Err(e) => Err(e),
        },
        (Value::Integer(x), Value::Pointer(p)) => match spec_access(*p, *x, am) {
            Ok(q) => Ok(Value::Pointer(Rc::new(q))),
            Err(e) => Err(e),
        },
        _ => Err(Error::InvalidOperand),
    }
}

/// `a - b` on a value: an integer difference, or a pointer moved back.
pub open spec fn spec_i_sub(a: Value, b: Rc<Integer>, am: u32) -> Result<Value, Error> {
    match a {
        Value::Integer(x) => match spec_binary(BinarySource::Sub, *x, *b, am, false) {
            Ok(v) => Ok(Value::Integer(Rc::new(v))),
            Err(e) => Err(e),
        },
        Value::Pointer(p) => match spec_access(
            *p,
            Integer { source: IntegerSource::Unary { source: crate::values::integer::UnarySource::Negate, op1: b } },
            am,
        ) {
            Ok(q) => Ok(Value::Pointer(Rc::new(q))),
            Err(e) => Err(e),
        },
        _ => Err(Error::InvalidOperand),
    }
}

impl Value {
    /// The type of the value.
    pub open spec fn spec_ty(self, am: u32) -> Result<Type, Error> {
        match self {
            Value::Bool(_) => Ok(Type::Scalar(ScalarType::Bool)),
            Value::Integer(x) => match x.spec_kind(am) {
                Ok(k) => Ok(integer_type(k)),
                Err(e) => Err(e),
            },
            Value::Float(x) => match x.spec_kind() {
                Ok(k) => Ok(float_type(k)),
                Err(e) => Err(e),
            },
            Value::Pointer(x) => Ok(Type::Pointer {
                size: if x.kind is Skinny { PointerSize::Skinny } else { PointerSize::Fat },
                storage_class: x.storage_class,
                pointee: Box::new(x.pointee),
            }),
            Value::Vector(x) => Ok(Type::Composite(CompositeType::Vector(x.element_type, x.element_count))),
            Value::Schrodinger { .. } => Err(Error::Unexpected),
        }
    }

    /// The type of the value; a local's pointer-or-integer has none.
    pub fn ty(&self, module: &ModuleBuilder) -> (r: Result<Type, Error>)
        ensures
            r == self.spec_ty(module.addressing_model),
    {
        match self {
            Value::Bool(_) => Ok(Type::Scalar(ScalarType::Bool)),
            Value::Integer(x) => match x.kind(module) {
                Ok(IntegerKind::Short) => Ok(Type::Scalar(ScalarType::I32)),
                Ok(IntegerKind::Long) => Ok(Type::Scalar(ScalarType::I64)),
                Err(e) => Err(e),
            },
            Value::Float(x) => match x.kind() {
                Ok(FloatKind::Single) => Ok(Type::Scalar(ScalarType::F32)),
                Ok(FloatKind::Double) => Ok(Type::Scalar(ScalarType::F64)),
                Err(e) => Err(e),
            },
            Value::Pointer(x) => Ok(Type::pointer(x.kind.to_pointer_size(), x.storage_class, type_clone(&x.pointee))),
            Value::Vector(x) => Ok(Type::Composite(CompositeType::Vector(x.element_type, x.element_count))),
            Value::Schrodinger { .. } => Err(Error::Unexpected),
        }
    }

    /// A parameter of a function, of type `ty`: an integer, a float or a
    /// pointer.
    pub fn function_parameter(ty: Type) -> (r: Value)
        requires
            ty is Pointer || ty == Type::Scalar(ScalarType::I32) || ty == Type::Scalar(ScalarType::I64) || ty
                == Type::Scalar(ScalarType::F32) || ty == Type::Scalar(ScalarType::F64),
        ensures
            r == match ty {
                Type::Scalar(ScalarType::I32) => Value::Integer(Rc::new(Integer { source: IntegerSource::FunctionParam(IntegerKind::Short) })),
                Type::Scalar(ScalarType::I64) => Value::Integer(Rc::new(Integer { source: IntegerSource::FunctionParam(IntegerKind::Long) })),
                Type::Scalar(ScalarType::F32) => Value::Float(Rc::new(Float { source: FloatSource::FunctionParam(FloatKind::Single) })),
                Type::Scalar(ScalarType::F64) => Value::Float(Rc::new(Float { source: FloatSource::FunctionParam(FloatKind::Double) })),
                Type::Pointer { size, storage_class, pointee } => Value::Pointer(Rc::new(Pointer {
                    kind: size.spec_pointer_kind(),
                    storage_class,
                    pointee: *pointee,
                    source: PointerSource::FunctionParam,
                })),
                _ => r,
            },
    {
        match ty {
            Type::Scalar(ScalarType::I32) => Value::Integer(Rc::new(Integer::new(IntegerSource::FunctionParam(IntegerKind::Short)))),
            Type::Scalar(ScalarType::I64) => Value::Integer(Rc::new(Integer::new(IntegerSource::FunctionParam(IntegerKind::Long)))),
            Type::Scalar(ScalarType::F32) => Value::Float(Rc::new(Float::new(FloatSource::FunctionParam(FloatKind::Single)))),
            Type::Scalar(ScalarType::F64) => Value::Float(Rc::new(Float::new(FloatSource::FunctionParam(FloatKind::Double)))),
            Type::Pointer { size, storage_class, pointee } => Value::Pointer(Rc::new(Pointer::new(
                size.to_pointer_kind(),
                storage_class,
                *pointee,
                PointerSource::FunctionParam,
            ))),
            _ => {
                proof {
                    assert(false);
                }
                Value::Bool(Rc::new(Bool::new(BoolSource::Constant(false))))
            },
        }
    }

    /// The integer the value is.
    pub fn into_integer(self) -> (r: Result<Rc<Integer>, Error>)
        ensures
            r == match self {
                Value::Integer(x) => Ok(x),
                _ => Err::<Rc<Integer>, Error>(Error::InvalidOperand),
            },
    {
        match self {
            Value::Integer(x) => Ok(x),
            _ => Err(Error::InvalidOperand),
        }
    }

    /// The float the value is.
    pub fn into_float(self) -> (r: Result<Rc<Float>, Error>)
        ensures
            r == match self {
                Value::Float(x) => Ok(x),
                _ => Err::<Rc<Float>, Error>(Error::InvalidOperand),
            },
    {
        match self {
            Value::Float(x) => Ok(x),
            _ => Err(Error::InvalidOperand),
        }
    }

    /// The pointer the value is.
    pub fn into_pointer(self) -> (r: Result<Rc<Pointer>, Error>)
        ensures
            r == match self {
                Value::Pointer(x) => Ok(x),
                _ => Err::<Rc<Pointer>, Error>(Error::InvalidOperand),
            },
    {
        match self {
            Value::Pointer(x) => Ok(x),
            _ => Err(Error::InvalidOperand),
        }
    }

    /// The vector the value is.
    pub fn into_vector(self) -> (r: Result<Rc<Vector>, Error>)
        ensures
            r == match self {
                Value::Vector(x) => Ok(x),
                _ => Err::<Rc<Vector>, Error>(Error::InvalidOperand),
            },
    {
        match self {
            Value::Vector(x) => Ok(x),
            _ => Err(Error::InvalidOperand),
        }
    }

    /// The boolean the value is.
    pub fn into_bool(self) -> (r: Result<Rc<Bool>, Error>)
        ensures
            r == match self {
                Value::Bool(x) => Ok(x),
                _ => Err::<Rc<Bool>, Error>(Error::InvalidOperand),
            },
    {
        match self {
            Value::Bool(x) => Ok(x),
            _ => Err(Error::InvalidOperand),
        }
    }

    /// The value as a boolean: integers and pointer addresses are true when
    /// nonzero.
    pub fn to_bool(self) -> (r: Result<Rc<Bool>, Error>)
        ensures
            shared_bool(r) == spec_to_bool(self),
    {
        match self {
            Value::Bool(x) => Ok(x),
            Value::Integer(x) => match x.to_bool() {
                Ok(b) => Ok(Rc::new(b)),
                Err(e) => Err(e),
            },
            Value::Pointer(x) => {
                let address = Rc::new(x.to_integer());
                match address.to_bool() {
                    Ok(b) => Ok(Rc::new(b)),
                    Err(e) => Err(e),
                }
            },
            _ => Err(Error::InvalidOperand),
        }
    }

    /// The value as an integer of `kind`: an integer of that kind, a pointer
    /// whose address has that width, or a boolean as zero or one.
    pub fn to_integer(self, kind: IntegerKind, module: &ModuleBuilder) -> (r: Result<Rc<Integer>, Error>)
        ensures
            shared(r) == spec_to_integer(self, kind, module.addressing_model, module.wasm_memory64),
    {
        match self {
            Value::Integer(x) => {
                let k = match x.kind(module) {
                    Ok(k) => k,
                    Err(e) => return Err(e),
                };
                if k == kind {
                    Ok(x)
                } else {
                    Err(Error::InvalidOperand)
                }
            },
            Value::Pointer(x) => {
                if kind == module.isize_integer_kind() {
                    Ok(Rc::new(x.to_integer()))
                } else {
                    Err(Error::InvalidOperand)
                }
            },
            Value::Bool(x) => x.to_integer(kind),
            _ => Err(Error::InvalidOperand),
        }
    }

    /// The value as a pointer to `pointee`: an integer becomes a generic
    /// pointer, a pointer is cast.
    pub fn to_pointer(self, size_hint: PointerSize, pointee: Type, module: &mut ModuleBuilder) -> (r: Result<Rc<Pointer>, Error>)
        ensures
            match self {
                Value::Integer(x) => final(module).capabilities.require_result(
                    old(module).capabilities,
                    crate::spv::CAPABILITY_GENERIC_POINTER,
                ) && r == (if old(module).capabilities is Static && !crate::config::capability_list(
                    old(module).capabilities,
                ).contains(crate::spv::CAPABILITY_GENERIC_POINTER) {
                    Err::<Rc<Pointer>, Error>(Error::CapabilityNotEnabled(crate::spv::CAPABILITY_GENERIC_POINTER))
                } else {
                    Ok::<Rc<Pointer>, Error>(Rc::new(Pointer {
                        kind: size_hint.spec_pointer_kind(),
                        storage_class: STORAGE_CLASS_GENERIC,
                        pointee,
                        source: PointerSource::FromInteger(x),
                    }))
                }),
                Value::Pointer(x) => *final(module) == *old(module) && r == Ok::<Rc<Pointer>, Error>(Rc::new(Pointer {
                    kind: x.kind,
                    storage_class: x.storage_class,
                    pointee,
                    source: PointerSource::Casted { prev: x },
                })),
                Value::Schrodinger { pointer_variable: x, .. } => *final(module) == *old(module) && r == Ok::<
                    Rc<Pointer>,
                    Error,
                >(Rc::new(Pointer {
                    kind: x.kind,
                    storage_class: x.storage_class,
                    pointee,
                    source: PointerSource::Casted { prev: x },
                })),
                _ => *final(module) == *old(module) && r == Err::<Rc<Pointer>, Error>(Error::InvalidOperand),
            },
            final(module).same_but_capabilities(*old(module)),
    {
        match self {
            Value::Integer(x) => match x.to_pointer(size_hint, STORAGE_CLASS_GENERIC, pointee, module) {
                Ok(p) => Ok(Rc::new(p)),
                Err(e) => Err(e),
            },
            Value::Pointer(x) => Ok(Rc::new(x.cast(pointee))),
            Value::Schrodinger { pointer_variable, .. } => Ok(Rc::new(pointer_variable.cast(pointee))),
            _ => Err(Error::InvalidOperand),
        }
    }

    /// `self + rhs` on integers, or an integer offset added to a pointer.
    pub fn i_add(self, rhs: Value, module: &ModuleBuilder) -> (r: Result<Value, Error>)
        requires
            !(is_skinny_pointer(self) && rhs is Integer),
            !(self is Integer && is_skinny_pointer(rhs)),
        ensures
            r == spec_i_add(self, rhs, module.addressing_model),
    {
        match (self, rhs) {
            (Value::Integer(x), Value::Integer(y)) => match x.add(y, module) {
                Ok(z) => Ok(Value::Integer(z)),
                Err(e) => Err(e),
            },
            (Value::Pointer(x), Value::Integer(y)) => match x.access(y, module) {
                Ok(p) => Ok(Value::Pointer(Rc::new(p))),
                Err(e) => Err(e),
            },
            (Value::Integer(x), Value::Pointer(y)) => match y.access(x, module) {
                Ok(p) => Ok(Value::Pointer(Rc::new(p))),
                Err(e) => Err(e),
            },
            _ => Err(Error::InvalidOperand),
        }
    }

    /// `self - rhs` on an integer, or a pointer moved back by `rhs` bytes.
    pub fn i_sub(self, rhs: Rc<Integer>, module: &ModuleBuilder) -> (r: Result<Value, Error>)
        requires
            !is_skinny_pointer(self),
        ensures
            r == spec_i_sub(self, rhs, module.addressing_model),
    {
        match self {
            Value::Integer(x) => match x.sub(rhs, module) {
                Ok(z) => Ok(Value::Integer(Rc::new(z))),
                Err(e) => Err(e),
            },
            Value::Pointer(p) => match p.access(Rc::new(rhs.negate()), module) {
                Ok(q) => Ok(Value::Pointer(Rc::new(q))),
                Err(e) => Err(e),
            },
            _ => Err(Error::InvalidOperand),
        }
    }
}

} // verus!
