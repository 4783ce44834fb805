//! The operand stack of a block and the translation of WebAssembly's
//! numeric instructions onto the value graph: each instruction pops its
//! operands, converted to the types it takes, and pushes the value it
//! computes.
use vstd::prelude::*;
use std::rc::Rc;
use crate::config::MemoryGrowErrorKind;
use crate::error::Error;
use crate::function_builder::Label;
use crate::module::ModuleBuilder;
use crate::types::{ScalarType, Type};
use crate::values::bool::{Bool, BoolSource, Comparison, Equality};
use crate::values::float::{ConstantSource as FloatConstant, Float, FloatSource};
use crate::values::integer::{
    constant, shared, spec_binary, spec_count, spec_overflows, BinarySource, ConstantSource,
    ConversionSource, Integer, IntegerKind, IntegerSource, UnarySource,
};
use crate::values::{shared_bool, spec_i_add, spec_i_sub, spec_to_bool, spec_to_integer, is_skinny_pointer, Value};

verus! {

/// Whether an instruction was translated, was not one that the function
/// translates, or ended the block.
#[derive(Debug, Clone, Copy, PartialEq, Eq, Structural, Hash)]
pub enum TranslationResult {
    Found,
    NotFound,
    Eof,
}

/// The WebAssembly instructions that the value graph translates, with their
/// immediates; every other instruction is `Other`.
#[derive(Debug, Clone, Copy, PartialEq, Eq, Structural)]
pub enum Operator {
    I32Const { value: i32 },
    I64Const { value: i64 },
    /// A 32-bit float constant, by its bits.
    F32Const { bits: u32 },
    /// A 64-bit float constant, by its bits.
    F64Const { bits: u64 },
    I32WrapI64,
    I64ExtendI32U,
    I64ExtendI32S,
    I32Add,
    I64Add,
    I32Sub,
    I64Sub,
    I32Mul,
    I64Mul,
    I32DivS,
    I64DivS,
    I32DivU,
    I64DivU,
    I32RemS,
    I64RemS,
    I32RemU,
    I64RemU,
    I32And,
    I64And,
    I32Or,
    I64Or,
    I32Xor,
    I64Xor,
    I32Shl,
    I64Shl,
    I32ShrS,
    I64ShrS,
    I32ShrU,
    I64ShrU,
    I32Rotl,
    I64Rotl,
    I32Rotr,
    I64Rotr,
    I32Clz,
    I64Clz,
    I32Ctz,
    I64Ctz,
    I32Popcnt,
    I64Popcnt,
    I32Eqz,
    I64Eqz,
    I32Eq,
    I64Eq,
    I32Ne,
    I64Ne,
    I32LtS,
    I64LtS,
    I32LtU,
    I64LtU,
    I32GtS,
    I64GtS,
    I32GtU,
    I64GtU,
    I32LeS,
    I64LeS,
    I32LeU,
    I64LeU,
    I32GeS,
    I64GeS,
    I32GeU,
    I64GeU,
    F32Eq,
    F64Eq,
    F32Ne,
    F64Ne,
    F32Lt,
    F64Lt,
    F32Gt,
    F64Gt,
    F32Le,
    F64Le,
    F32Ge,
    F64Ge,
    MemorySize,
    MemoryGrow,
    Drop,
    I32Load { offset: u64, align: u8 },
    I64Load { offset: u64, align: u8 },
    F32Load { offset: u64, align: u8 },
    F64Load { offset: u64, align: u8 },
    I32Store { offset: u64, align: u8 },
    I64Store { offset: u64, align: u8 },
    F32Store { offset: u64, align: u8 },
    F64Store { offset: u64, align: u8 },
    I32Load8U { offset: u64, align: u8 },
    I64Load8U { offset: u64, align: u8 },
    Block,
    Loop,
    Br { relative_depth: u32 },
    BrIf { relative_depth: u32 },
    End,
    Return,
    Select,
    Call { function_index: u32 },
    LocalGet { local_index: u32 },
    LocalSet { local_index: u32 },
    LocalTee { local_index: u32 },
    GlobalGet { global_index: u32 },
    GlobalSet { global_index: u32 },
    Other,
}

/// How a block ends: by returning a value of the type given, if any, or
/// by falling through to the enclosing block.
#[derive(Debug)]
pub enum End {
    Return(Option<Type>),
    Unreachable,
}

/// The operand stack of a block, how it ends and the labels of the blocks
/// around it, innermost first.
#[derive(Debug)]
pub struct BlockBuilder {
    pub stack: Vec<Value>,
    pub end: End,
    pub outer_labels: Vec<Rc<Label>>,
}

impl BlockBuilder {
    /// Whether `other` has this block's end and outer labels.
    pub open spec fn same_frame(self, other: BlockBuilder) -> bool {
        self.end == other.end && self.outer_labels@ == other.outer_labels@
    }
}

/// `v` converted to the type `ty` that an instruction takes. What a local
/// that may hold an address gave is its integer where an address is
/// wanted, and its pointer otherwise.
pub open spec fn spec_convert(v: Value, ty: Type, am: u32, memory64: bool) -> Result<Value, Error> {
    match v {
        Value::Schrodinger { pointer_variable, loaded_integer } => if ty == Type::Scalar(
            if memory64 { ScalarType::I64 } else { ScalarType::I32 },
        ) {
            Ok(Value::Integer(loaded_integer))
        } else {
            spec_convert_value(Value::Pointer(pointer_variable), ty, am, memory64)
        },
        _ => spec_convert_value(v, ty, am, memory64),
    }
}

/// `v` converted to the type `ty`: integers of that width, booleans, or
/// the value unchanged for other types.
pub open spec fn spec_convert_value(v: Value, ty: Type, am: u32, memory64: bool) -> Result<Value, Error> {
    match ty {
        Type::Scalar(ScalarType::I32) => match spec_to_integer(v, IntegerKind::Short, am, memory64) {
            Err(e) => Err(e),
            Ok(i) => match i.spec_kind(am) {
                Ok(IntegerKind::Short) => Ok(Value::Integer(Rc::new(i))),
                Ok(_) => Err(Error::Mismatch),
                Err(e) => Err(e),
            },
        },
        Type::Scalar(ScalarType::I64) => match spec_to_integer(v, IntegerKind::Long, am, memory64) {
            Err(e) => Err(e),
            Ok(i) => match i.spec_kind(am) {
                Ok(IntegerKind::Long) => Ok(Value::Integer(Rc::new(i))),
                Ok(_) => Err(Error::Mismatch),
                Err(e) => Err(e),
            },
        },
        Type::Scalar(ScalarType::Bool) => match spec_to_bool(v) {
            Ok(b) => Ok(Value::Bool(Rc::new(b))),
            Err(e) => Err(e),
        },
        _ => Ok(v),
    }
}

/// Popping from `s`: the stack left, and the top converted to `ty`.
pub open spec fn spec_pop(s: Seq<Value>, ty: Type, am: u32, memory64: bool) -> (Seq<Value>, Result<Value, Error>) {
    if s.len() == 0 {
        (s, Err(Error::EmptyStack))
    } else {
        (s.drop_last(), spec_convert(s.last(), ty, am, memory64))
    }
}

/// Popping an integer of scalar type `ty` from `s`.
pub open spec fn spec_pop_int(s: Seq<Value>, ty: ScalarType, am: u32, memory64: bool) -> (Seq<Value>, Result<Integer, Error>) {
    let (rest, v) = spec_pop(s, Type::Scalar(ty), am, memory64);
    match v {
        Ok(Value::Integer(x)) => (rest, Ok(*x)),
        Ok(_) => (rest, Err(Error::InvalidOperand)),
        Err(e) => (rest, Err(e)),
    }
}

/// Popping a float of scalar type `ty` from `s`.
pub open spec fn spec_pop_float(s: Seq<Value>, ty: ScalarType, am: u32, memory64: bool) -> (Seq<Value>, Result<Rc<Float>, Error>) {
    let (rest, v) = spec_pop(s, Type::Scalar(ty), am, memory64);
    match v {
        Ok(Value::Float(x)) => (rest, Ok(x)),
        Ok(_) => (rest, Err(Error::InvalidOperand)),
        Err(e) => (rest, Err(e)),
    }
}

/// The stack after an instruction, and the instruction's result.
pub type Step = (Seq<Value>, Result<TranslationResult, Error>);

/// Pushing `v` onto `s` as the instruction's result.
pub open spec fn pushed(s: Seq<Value>, v: Value) -> (Seq<Value>, Result<TranslationResult, Error>) {
    (s.push(v), Ok(TranslationResult::Found))
}

/// A binary integer instruction: pop the second operand, then the first,
/// both integers of `ty`, and push `op` of them.
pub open spec fn spec_int_binary_step(
    s: Seq<Value>,
    ty: ScalarType,
    op: BinarySource,
    am: u32,
    memory64: bool,
) -> (Seq<Value>, Result<TranslationResult, Error>) {
    let (s1, b) = spec_pop_int(s, ty, am, memory64);
    match b {
        Err(e) => (s1, Err(e)),
        Ok(b) => {
            let (s2, a) = spec_pop_int(s1, ty, am, memory64);
            match a {
                Err(e) => (s2, Err(e)),
                Ok(a) => match spec_binary(op, a, b, am, false) {
                    Ok(v) => pushed(s2, Value::Integer(Rc::new(v))),
                    Err(e) => (s2, Err(e)),
                },
            }
        },
    }
}

/// Whether a binary integer instruction on the top of `s` would divide the
/// most negative value by minus one.
pub open spec fn spec_int_binary_overflows(
    s: Seq<Value>,
    ty: ScalarType,
    op: BinarySource,
    am: u32,
    memory64: bool,
) -> bool {
    let (s1, b) = spec_pop_int(s, ty, am, memory64);
    let (s2, a) = spec_pop_int(s1, ty, am, memory64);
    b matches Ok(y) && a matches Ok(x) && spec_overflows(op, x, y, am)
}

/// The binary integer instruction that `op` is: its operand type and its
/// operation.
pub open spec fn int_binary_of(op: Operator) -> Option<(ScalarType, BinarySource)> {
    match op {
        Operator::I32Mul => Some((ScalarType::I32, BinarySource::Mul)),
        Operator::I64Mul => Some((ScalarType::I64, BinarySource::Mul)),
        Operator::I32DivS => Some((ScalarType::I32, BinarySource::SDiv)),
        Operator::I64DivS => Some((ScalarType::I64, BinarySource::SDiv)),
        Operator::I32DivU => Some((ScalarType::I32, BinarySource::UDiv)),
        Operator::I64DivU => Some((ScalarType::I64, BinarySource::UDiv)),
        Operator::I32RemS => Some((ScalarType::I32, BinarySource::SRem)),
        Operator::I64RemS => Some((ScalarType::I64, BinarySource::SRem)),
        Operator::I32RemU => Some((ScalarType::I32, BinarySource::URem)),
        Operator::I64RemU => Some((ScalarType::I64, BinarySource::URem)),
        Operator::I32And => Some((ScalarType::I32, BinarySource::And)),
        Operator::I64And => Some((ScalarType::I64, BinarySource::And)),
        Operator::I32Or => Some((ScalarType::I32, BinarySource::Or)),
        Operator::I64Or => Some((ScalarType::I64, BinarySource::Or)),
        Operator::I32Xor => Some((ScalarType::I32, BinarySource::Xor)),
        Operator::I64Xor => Some((ScalarType::I64, BinarySource::Xor)),
        Operator::I32Shl => Some((ScalarType::I32, BinarySource::Shl)),
        Operator::I64Shl => Some((ScalarType::I64, BinarySource::Shl)),
        Operator::I32ShrS => Some((ScalarType::I32, BinarySource::SShr)),
        Operator::I64ShrS => Some((ScalarType::I64, BinarySource::SShr)),
        Operator::I32ShrU => Some((ScalarType::I32, BinarySource::UShr)),
        Operator::I64ShrU => Some((ScalarType::I64, BinarySource::UShr)),
        Operator::I32Rotl => Some((ScalarType::I32, BinarySource::Rotl)),
        Operator::I64Rotl => Some((ScalarType::I64, BinarySource::Rotl)),
        Operator::I32Rotr => Some((ScalarType::I32, BinarySource::Rotr)),
        Operator::I64Rotr => Some((ScalarType::I64, BinarySource::Rotr)),
        _ => None,
    }
}

impl BlockBuilder {
    /// A block with an empty stack.
    pub fn dummy() -> (r: Self)
        ensures
            r.stack@ == Seq::<Value>::empty(),
            r.end == End::Unreachable,
            r.outer_labels@ == Seq::<Rc<Label>>::empty(),
    {
        BlockBuilder { stack: Vec::new(), end: End::Unreachable, outer_labels: Vec::new() }
    }

    pub fn stack_push(&mut self, value: Value)
        ensures
            final(self).same_frame(*old(self)),
            final(self).stack@ == old(self).stack@.push(value),
    {
        self.stack.push(value);
    }

    /// The top of the stack, removed.
    pub fn stack_pop_any(&mut self) -> (r: Result<Value, Error>)
        ensures
            final(self).same_frame(*old(self)),
            old(self).stack@.len() == 0 ==> r == Err::<Value, Error>(Error::EmptyStack) && final(self).stack@
                == old(self).stack@,
            old(self).stack@.len() > 0 ==> r == Ok::<Value, Error>(old(self).stack@.last()) && final(self).stack@
                == old(self).stack@.drop_last(),
    {
        match self.stack.pop() {
            Some(v) => Ok(v),
            None => Err(Error::EmptyStack),
        }
    }

    /// The top of the stack, removed and converted to `ty`.
    pub fn stack_pop(&mut self, ty: Type, module: &ModuleBuilder) -> (r: Result<Value, Error>)
        ensures
            final(self).same_frame(*old(self)),
            (final(self).stack@, r) == spec_pop(old(self).stack@, ty, module.addressing_model, module.wasm_memory64),
    {
        let v = match self.stack_pop_any() {
            Ok(v) => v,
            Err(e) => return Err(e),
        };
        convert(v, ty, module)
    }

    /// The top of the stack converted to `ty`, left in place.
    pub fn stack_peek(&mut self, ty: Type, module: &ModuleBuilder) -> (r: Result<Value, Error>)
        ensures
            final(self).same_frame(*old(self)),
            final(self).stack@ == old(self).stack@,
            r == spec_pop(old(self).stack@, ty, module.addressing_model, module.wasm_memory64).1,
    {
        let v = match self.stack_peek_any() {
            Ok(v) => v,
            Err(e) => return Err(e),
        };
        convert(v, ty, module)
    }

    /// The top of the stack, left in place.
    pub fn stack_peek_any(&mut self) -> (r: Result<Value, Error>)
        ensures
            final(self).same_frame(*old(self)),
            final(self).stack@ == old(self).stack@,
            old(self).stack@.len() == 0 ==> r == Err::<Value, Error>(Error::EmptyStack),
            old(self).stack@.len() > 0 ==> r == Ok::<Value, Error>(old(self).stack@.last()),
    {
        let n = self.stack.len();
        if n == 0 {
            Err(Error::EmptyStack)
        } else {
            Ok(self.stack[n - 1].clone_value())
        }
    }

    fn pop_int(&mut self, ty: ScalarType, module: &ModuleBuilder) -> (r: Result<Rc<Integer>, Error>)
        ensures
            final(self).same_frame(*old(self)),
            (final(self).stack@, shared(r)) == spec_pop_int(old(self).stack@, ty, module.addressing_model, module.wasm_memory64),
    {
        match self.stack_pop(Type::Scalar(ty), module) {
            Ok(v) => v.into_integer(),
            Err(e) => Err(e),
        }
    }

    fn int_binary_step(&mut self, ty: ScalarType, op: BinarySource, module: &ModuleBuilder) -> (r: Result<TranslationResult, Error>)
        requires
            !spec_int_binary_overflows(old(self).stack@, ty, op, module.addressing_model, module.wasm_memory64),
        ensures
            final(self).same_frame(*old(self)),
            (final(self).stack@, r) == spec_int_binary_step(old(self).stack@, ty, op, module.addressing_model, module.wasm_memory64),
    {
        let op2 = match self.pop_int(ty, module) {
            Ok(x) => x,
            Err(e) => return Err(e),
        };
        let op1 = match self.pop_int(ty, module) {
            Ok(x) => x,
            Err(e) => return Err(e),
        };
        let v = match op {
            BinarySource::Add => op1.add(op2, module),
            BinarySource::Sub => match op1.sub(op2, module) {
                Ok(x) => Ok(Rc::new(x)),
                Err(e) => Err(e),
            },
            BinarySource::Mul => op1.mul(op2, module),
            BinarySource::SDiv => op1.s_div(op2, module),
            BinarySource::UDiv => op1.u_div(op2, false, module),
            BinarySource::SRem => op1.s_rem(op2, module),
            BinarySource::URem => op1.u_rem(op2, module),
            BinarySource::And => op1.and(op2, module),
            BinarySource::Or => op1.or(op2, module),
            BinarySource::Xor => op1.xor(op2, module),
            BinarySource::Shl => op1.shl(op2, module),
            BinarySource::SShr => op1.s_shr(op2, module),
            BinarySource::UShr => op1.u_shr(op2, false, module),
            BinarySource::Rotl => op1.rotl(op2, module),
            BinarySource::Rotr => op1.rotr(op2, module),
        };
        match v {
            Ok(x) => {
                self.stack_push(Value::Integer(x));
                Ok(TranslationResult::Found)
            },
            Err(e) => Err(e),
        }
    }
}

/// `v` converted to `ty`.
pub fn convert(v: Value, ty: Type, module: &ModuleBuilder) -> (r: Result<Value, Error>)
    ensures
        r == spec_convert(v, ty, module.addressing_model, module.wasm_memory64),
{
    match v {
        Value::Schrodinger { pointer_variable, loaded_integer } => {
            let is_address = match &ty {
                Type::Scalar(t) => *t == module.isize_type(),
                _ => false,
            };
            if is_address {
                Ok(Value::Integer(loaded_integer))
            } else {
                convert_value(Value::Pointer(pointer_variable), ty, module)
            }
        },
        _ => convert_value(v, ty, module),
    }
}

fn convert_value(v: Value, ty: Type, module: &ModuleBuilder) -> (r: Result<Value, Error>)
    ensures
        r == spec_convert_value(v, ty, module.addressing_model, module.wasm_memory64),
{
    match ty {
        Type::Scalar(ScalarType::I32) => {
            let x = match v.to_integer(IntegerKind::Short, module) {
                Ok(i) => i,
                Err(e) => return Err(e),
            };
            match x.kind(module) {
                Ok(IntegerKind::Short) => Ok(Value::Integer(x)),
                Ok(_) => Err(Error::Mismatch),
                Err(e) => Err(e),
            }
        },
        Type::Scalar(ScalarType::I64) => {
            let x = match v.to_integer(IntegerKind::Long, module) {
                Ok(i) => i,
                Err(e) => return Err(e),
            };
            match x.kind(module) {
                Ok(IntegerKind::Long) => Ok(Value::Integer(x)),
                Ok(_) => Err(Error::Mismatch),
                Err(e) => Err(e),
            }
        },
        Type::Scalar(ScalarType::Bool) => match v.to_bool() {
            Ok(b) => Ok(Value::Bool(b)),
            Err(e) => Err(e),
        },
        _ => Ok(v),
    }
}

fn classify_int_binary(op: &Operator) -> (r: Option<(ScalarType, BinarySource)>)
    ensures
        r == int_binary_of(*op),
{
    match op {
        Operator::I32Mul => Some((ScalarType::I32, BinarySource::Mul)),
        Operator::I64Mul => Some((ScalarType::I64, BinarySource::Mul)),
        Operator::I32DivS => Some((ScalarType::I32, BinarySource::SDiv)),
        Operator::I64DivS => Some((ScalarType::I64, BinarySource::SDiv)),
        Operator::I32DivU => Some((ScalarType::I32, BinarySource::UDiv)),
        Operator::I64DivU => Some((ScalarType::I64, BinarySource::UDiv)),
        Operator::I32RemS => Some((ScalarType::I32, BinarySource::SRem)),
        Operator::I64RemS => Some((ScalarType::I64, BinarySource::SRem)),
        Operator::I32RemU => Some((ScalarType::I32, BinarySource::URem)),
        Operator::I64RemU => Some((ScalarType::I64, BinarySource::URem)),
        Operator::I32And => Some((ScalarType::I32, BinarySource::And)),
        Operator::I64And => Some((ScalarType::I64, BinarySource::And)),
        Operator::I32Or => Some((ScalarType::I32, BinarySource::Or)),
        Operator::I64Or => Some((ScalarType::I64, BinarySource::Or)),
        Operator::I32Xor => Some((ScalarType::I32, BinarySource::Xor)),
        Operator::I64Xor => Some((ScalarType::I64, BinarySource::Xor)),
        Operator::I32Shl => Some((ScalarType::I32, BinarySource::Shl)),
        Operator::I64Shl => Some((ScalarType::I64, BinarySource::Shl)),
        Operator::I32ShrS => Some((ScalarType::I32, BinarySource::SShr)),
        Operator::I64ShrS => Some((ScalarType::I64, BinarySource::SShr)),
        Operator::I32ShrU => Some((ScalarType::I32, BinarySource::UShr)),
        Operator::I64ShrU => Some((ScalarType::I64, BinarySource::UShr)),
        Operator::I32Rotl => Some((ScalarType::I32, BinarySource::Rotl)),
        Operator::I64Rotl => Some((ScalarType::I64, BinarySource::Rotl)),
        Operator::I32Rotr => Some((ScalarType::I32, BinarySource::Rotr)),
        Operator::I64Rotr => Some((ScalarType::I64, BinarySource::Rotr)),
        _ => None,
    }
}

/// Popping from `s` without conversion.
pub open spec fn spec_pop_any(s: Seq<Value>) -> (Seq<Value>, Result<Value, Error>) {
    if s.len() == 0 {
        (s, Err(Error::EmptyStack))
    } else {
        (s.drop_last(), Ok(s.last()))
    }
}

/// The constant instructions: push the constant.
pub open spec fn spec_translate_constants(op: Operator, s: Seq<Value>) -> (Seq<Value>, Result<TranslationResult, Error>) {
    match op {
        Operator::I32Const { value } => pushed(s, Value::Integer(Rc::new(constant(ConstantSource::Short(value as u32))))),
        Operator::I64Const { value } => pushed(s, Value::Integer(Rc::new(constant(ConstantSource::Long(value as u64))))),
        Operator::F32Const { bits } => pushed(s, Value::Float(Rc::new(Float { source: FloatSource::Constant(FloatConstant::Single(bits)) }))),
        Operator::F64Const { bits } => pushed(s, Value::Float(Rc::new(Float { source: FloatSource::Constant(FloatConstant::Double(bits)) }))),
        _ => (s, Ok(TranslationResult::NotFound)),
    }
}

/// The width conversions: wrap a 64-bit integer, or extend a 32-bit one.
pub open spec fn spec_translate_conversion(op: Operator, s: Seq<Value>, am: u32, memory64: bool) -> (Seq<Value>, Result<TranslationResult, Error>) {
    match op {
        Operator::I32WrapI64 => {
            let (s1, x) = spec_pop_int(s, ScalarType::I64, am, memory64);
            match x {
                Ok(x) => pushed(s1, Value::Integer(Rc::new(Integer { source: IntegerSource::Conversion(ConversionSource::FromLong(Rc::new(x))) }))),
                Err(e) => (s1, Err(e)),
            }
        },
        Operator::I64ExtendI32U | Operator::I64ExtendI32S => {
            let (s1, x) = spec_pop_int(s, ScalarType::I32, am, memory64);
            match x {
                Ok(x) => pushed(s1, Value::Integer(Rc::new(Integer {
                    source: IntegerSource::Conversion(ConversionSource::FromShort {
                        signed: op == Operator::I64ExtendI32S,
                        value: Rc::new(x),
                    }),
                }))),
                Err(e) => (s1, Err(e)),
            }
        },
        _ => (s, Ok(TranslationResult::NotFound)),
    }
}

/// The integer arithmetic: addition and subtraction also move pointers.
pub open spec fn spec_translate_arith(op: Operator, s: Seq<Value>, am: u32, memory64: bool) -> (Seq<Value>, Result<TranslationResult, Error>) {
    match op {
        Operator::I32Add | Operator::I64Add => {
            let (s1, b) = spec_pop_any(s);
            match b {
                Err(e) => (s1, Err(e)),
                Ok(b) => {
                    let (s2, a) = spec_pop_any(s1);
                    match a {
                        Err(e) => (s2, Err(e)),
                        Ok(a) => match spec_i_add(a, b, am) {
                            Ok(v) => pushed(s2, v),
                            Err(e) => (s2, Err(e)),
                        },
                    }
                },
            }
        },
        Operator::I32Sub | Operator::I64Sub => {
            let ty = if op == Operator::I32Sub { ScalarType::I32 } else { ScalarType::I64 };
            let (s1, b) = spec_pop_int(s, ty, am, memory64);
            match b {
                Err(e) => (s1, Err(e)),
                Ok(b) => {
                    let (s2, a) = spec_pop_any(s1);
                    match a {
                        Err(e) => (s2, Err(e)),
                        Ok(a) => match spec_i_sub(a, Rc::new(b), am) {
                            Ok(v) => pushed(s2, v),
                            Err(e) => (s2, Err(e)),
                        },
                    }
                },
            }
        },
        Operator::I32Mul | Operator::I64Mul | Operator::I32DivS | Operator::I64DivS | Operator::I32DivU
        | Operator::I64DivU | Operator::I32RemS | Operator::I64RemS | Operator::I32RemU | Operator::I64RemU => {
            let (ty, bop) = int_binary_of(op)->0;
            spec_int_binary_step(s, ty, bop, am, memory64)
        },
        _ => (s, Ok(TranslationResult::NotFound)),
    }
}

/// What the arithmetic translation needs of the stack: no offset added to
/// a plain pointer, and no signed division of the most negative value by
/// minus one.
pub open spec fn arith_allowed(op: Operator, s: Seq<Value>, am: u32, memory64: bool) -> bool {
    &&& (op == Operator::I32Add || op == Operator::I64Add) && s.len() >= 2 ==> {
        let b = s.last();
        let a = s.drop_last().last();
        !(is_skinny_pointer(a) && b is Integer) && !(a is Integer && is_skinny_pointer(b))
    }
    &&& (op == Operator::I32Sub || op == Operator::I64Sub) && s.len() >= 2 ==> !is_skinny_pointer(s.drop_last().last())
    &&& int_binary_of(op) matches Some((ty, bop)) ==> !spec_int_binary_overflows(s, ty, bop, am, memory64)
}

/// The count instruction that `op` is.
pub open spec fn int_count_of(op: Operator) -> Option<(ScalarType, UnarySource)> {
    match op {
        Operator::I32Clz => Some((ScalarType::I32, UnarySource::LeadingZeros)),
        Operator::I64Clz => Some((ScalarType::I64, UnarySource::LeadingZeros)),
        Operator::I32Ctz => Some((ScalarType::I32, UnarySource::TrainlingZeros)),
        Operator::I64Ctz => Some((ScalarType::I64, UnarySource::TrainlingZeros)),
        Operator::I32Popcnt => Some((ScalarType::I32, UnarySource::BitCount)),
        Operator::I64Popcnt => Some((ScalarType::I64, UnarySource::BitCount)),
        _ => None,
    }
}

/// The bitwise instructions: logic, shifts, rotations and bit counts.
pub open spec fn spec_translate_logic(op: Operator, s: Seq<Value>, am: u32, memory64: bool) -> (Seq<Value>, Result<TranslationResult, Error>) {
    match int_count_of(op) {
        Some((ty, uop)) => {
            let (s1, x) = spec_pop_int(s, ty, am, memory64);
            match x {
                Err(e) => (s1, Err(e)),
                Ok(x) => match spec_count(uop, x) {
                    Ok(v) => pushed(s1, Value::Integer(Rc::new(v))),
                    Err(e) => (s1, Err(e)),
                },
            }
        },
        None => match int_binary_of(op) {
            Some((ty, bop)) => if bop == BinarySource::Mul || bop == BinarySource::SDiv || bop == BinarySource::UDiv
                || bop == BinarySource::SRem || bop == BinarySource::URem {
                (s, Ok(TranslationResult::NotFound))
            } else {
                spec_int_binary_step(s, ty, bop, am, memory64)
            },
            None => (s, Ok(TranslationResult::NotFound)),
        },
    }
}

/// The integer ordering comparison that `op` is: operand type, comparison,
/// signedness.
pub open spec fn int_comparison_of(op: Operator) -> Option<(ScalarType, Comparison, bool)> {
    match op {
        Operator::I32LtS => Some((ScalarType::I32, Comparison::Lt, true)),
        Operator::I64LtS => Some((ScalarType::I64, Comparison::Lt, true)),
        Operator::I32LtU => Some((ScalarType::I32, Comparison::Lt, false)),
        Operator::I64LtU => Some((ScalarType::I64, Comparison::Lt, false)),
        Operator::I32GtS => Some((ScalarType::I32, Comparison::Gt, true)),
        Operator::I64GtS => Some((ScalarType::I64, Comparison::Gt, true)),
        Operator::I32GtU => Some((ScalarType::I32, Comparison::Gt, false)),
        Operator::I64GtU => Some((ScalarType::I64, Comparison::Gt, false)),
        Operator::I32LeS => Some((ScalarType::I32, Comparison::Le, true)),
        Operator::I64LeS => Some((ScalarType::I64, Comparison::Le, true)),
        Operator::I32LeU => Some((ScalarType::I32, Comparison::Le, false)),
        Operator::I64LeU => Some((ScalarType::I64, Comparison::Le, false)),
        Operator::I32GeS => Some((ScalarType::I32, Comparison::Ge, true)),
        Operator::I64GeS => Some((ScalarType::I64, Comparison::Ge, true)),
        Operator::I32GeU => Some((ScalarType::I32, Comparison::Ge, false)),
        Operator::I64GeU => Some((ScalarType::I64, Comparison::Ge, false)),
        _ => None,
    }
}

/// The integer equality comparison that `op` is.
pub open spec fn int_equality_of(op: Operator) -> Option<(ScalarType, Equality)> {
    match op {
        Operator::I32Eq => Some((ScalarType::I32, Equality::Eq)),
        Operator::I64Eq => Some((ScalarType::I64, Equality::Eq)),
        Operator::I32Ne => Some((ScalarType::I32, Equality::Ne)),
        Operator::I64Ne => Some((ScalarType::I64, Equality::Ne)),
        _ => None,
    }
}

/// The float comparison that `op` is: an ordering or an equality.
pub open spec fn float_comparison_of(op: Operator) -> Option<(ScalarType, Result<Comparison, Equality>)> {
    match op {
        Operator::F32Eq => Some((ScalarType::F32, Err(Equality::Eq))),
        Operator::F64Eq => Some((ScalarType::F64, Err(Equality::Eq))),
        Operator::F32Ne => Some((ScalarType::F32, Err(Equality::Ne))),
        Operator::F64Ne => Some((ScalarType::F64, Err(Equality::Ne))),
        Operator::F32Lt => Some((ScalarType::F32, Ok(Comparison::Lt))),
        Operator::F64Lt => Some((ScalarType::F64, Ok(Comparison::Lt))),
        Operator::F32Gt => Some((ScalarType::F32, Ok(Comparison::Gt))),
        Operator::F64Gt => Some((ScalarType::F64, Ok(Comparison::Gt))),
        Operator::F32Le => Some((ScalarType::F32, Ok(Comparison::Le))),
        Operator::F64Le => Some((ScalarType::F64, Ok(Comparison::Le))),
        Operator::F32Ge => Some((ScalarType::F32, Ok(Comparison::Ge))),
        Operator::F64Ge => Some((ScalarType::F64, Ok(Comparison::Ge))),
        _ => None,
    }
}

/// Pop two integers of `ty` and push the boolean that `source` makes of
/// them.
pub open spec fn spec_int_compare_step(
    s: Seq<Value>,
    ty: ScalarType,
    source: spec_fn(Rc<Integer>, Rc<Integer>) -> BoolSource,
    am: u32,
    memory64: bool,
) -> (Seq<Value>, Result<TranslationResult, Error>) {
    let (s1, b) = spec_pop_int(s, ty, am, memory64);
    match b {
        Err(e) => (s1, Err(e)),
        Ok(b) => {
            let (s2, a) = spec_pop_int(s1, ty, am, memory64);
            match a {
                Err(e) => (s2, Err(e)),
                Ok(a) => pushed(s2, Value::Bool(Rc::new(Bool { source: source(Rc::new(a), Rc::new(b)) }))),
            }
        },
    }
}

/// The comparisons: booleans over two integers, an integer and zero, or
/// two floats.
pub open spec fn spec_translate_comparison(op: Operator, s: Seq<Value>, am: u32, memory64: bool) -> (Seq<Value>, Result<TranslationResult, Error>) {
    match op {
        Operator::I32Eqz | Operator::I64Eqz => {
            let ty = if op == Operator::I32Eqz { ScalarType::I32 } else { ScalarType::I64 };
            let zero = if op == Operator::I32Eqz { constant(ConstantSource::Short(0)) } else { constant(ConstantSource::Long(0)) };
            let (s1, a) = spec_pop_int(s, ty, am, memory64);
            match a {
                Err(e) => (s1, Err(e)),
                Ok(a) => pushed(s1, Value::Bool(Rc::new(Bool {
                    source: BoolSource::IntEquality { kind: Equality::Eq, op1: Rc::new(a), op2: Rc::new(zero) },
                }))),
            }
        },
        _ => match int_comparison_of(op) {
            Some((ty, kind, signed)) => spec_int_compare_step(
                s,
                ty,
                |op1: Rc<Integer>, op2: Rc<Integer>| BoolSource::IntComparison { kind, signed, op1, op2 },
                am,
                memory64,
            ),
            None => match int_equality_of(op) {
                Some((ty, kind)) => spec_int_compare_step(
                    s,
                    ty,
                    |op1: Rc<Integer>, op2: Rc<Integer>| BoolSource::IntEquality { kind, op1, op2 },
                    am,
                    memory64,
                ),
                None => match float_comparison_of(op) {
                    Some((ty, kind)) => {
                        let (s1, b) = spec_pop_float(s, ty, am, memory64);
                        match b {
                            Err(e) => (s1, Err(e)),
                            Ok(b) => {
                                let (s2, a) = spec_pop_float(s1, ty, am, memory64);
                                match a {
                                    Err(e) => (s2, Err(e)),
                                    Ok(a) => pushed(s2, Value::Bool(Rc::new(Bool {
                                        source: match kind {
                                            Ok(c) => BoolSource::FloatComparison { kind: c, op1: a, op2: b },
                                            Err(q) => BoolSource::FloatEquality { kind: q, op1: a, op2: b },
                                        },
                                    }))),
                                }
                            },
                        }
                    },
                    None => (s, Ok(TranslationResult::NotFound)),
                },
            },
        },
    }
}

/// The memory instructions that need no pointer: the memory size is
/// reported as zero, and growing fails as the module's policy says: with
/// hard errors the translation fails, with soft errors the page count is
/// consumed and the instruction returns -1.
pub open spec fn spec_translate_memory(op: Operator, s: Seq<Value>, memory64: bool, policy: MemoryGrowErrorKind) -> (Seq<Value>, Result<TranslationResult, Error>) {
    match op {
        Operator::MemorySize => pushed(s, Value::Integer(Rc::new(
            if memory64 { constant(ConstantSource::Long(0)) } else { constant(ConstantSource::Short(0)) },
        ))),
        Operator::MemoryGrow => match policy {
            MemoryGrowErrorKind::Hard => (s, Err(Error::CannotAllocate)),
            MemoryGrowErrorKind::Soft => if s.len() == 0 {
                (s, Err(Error::EmptyStack))
            } else {
                pushed(s.drop_last(), Value::Integer(Rc::new(
                if memory64 {
                    constant(ConstantSource::Long(0xffff_ffff_ffff_ffff))
                } else {
                    constant(ConstantSource::Short(0xffff_ffff))
                },
            )))
            },
        },
        _ => (s, Ok(TranslationResult::NotFound)),
    }
}


pub fn translate_constants(op: &Operator, block: &mut BlockBuilder) -> (r: Result<TranslationResult, Error>)
    ensures
            final(block).same_frame(*old(block)),
        (final(block).stack@, r) == spec_translate_constants(*op, old(block).stack@),
{
    let instr = match op {
        Operator::I32Const { value } => Value::Integer(Rc::new(Integer::new_constant_i32(*value))),
        Operator::I64Const { value } => Value::Integer(Rc::new(Integer::new_constant_i64(*value))),
        Operator::F32Const { bits } => Value::Float(Rc::new(Float::new_constant_single(*bits))),
        Operator::F64Const { bits } => Value::Float(Rc::new(Float::new_constant_double(*bits))),
        _ => return Ok(TranslationResult::NotFound),
    };
    block.stack_push(instr);
    Ok(TranslationResult::Found)
}

pub fn translate_conversion(op: &Operator, block: &mut BlockBuilder, module: &ModuleBuilder) -> (r: Result<TranslationResult, Error>)
    ensures
            final(block).same_frame(*old(block)),
        (final(block).stack@, r) == spec_translate_conversion(*op, old(block).stack@, module.addressing_model, module.wasm_memory64),
{
    let instr = match op {
        Operator::I32WrapI64 => {
            let operand = match block.pop_int(ScalarType::I64, module) {
                Ok(x) => x,
                Err(e) => return Err(e),
            };
            Integer::new(IntegerSource::Conversion(ConversionSource::FromLong(operand)))
        },
        Operator::I64ExtendI32U | Operator::I64ExtendI32S => {
            let value = match block.pop_int(ScalarType::I32, module) {
                Ok(x) => x,
                Err(e) => return Err(e),
            };
            Integer::new(IntegerSource::Conversion(ConversionSource::FromShort {
                signed: *op == Operator::I64ExtendI32S,
                value,
            }))
        },
        _ => return Ok(TranslationResult::NotFound),
    };
    block.stack_push(Value::Integer(Rc::new(instr)));
    Ok(TranslationResult::Found)
}

/// Integer arithmetic. Float arithmetic computes on floating-point
/// constants and is translated by the caller.
pub fn translate_arith(op: &Operator, block: &mut BlockBuilder, module: &ModuleBuilder) -> (r: Result<TranslationResult, Error>)
    requires
        arith_allowed(*op, old(block).stack@, module.addressing_model, module.wasm_memory64),
    ensures
            final(block).same_frame(*old(block)),
        (final(block).stack@, r) == spec_translate_arith(*op, old(block).stack@, module.addressing_model, module.wasm_memory64),
{
    match op {
        Operator::I32Add | Operator::I64Add => {
            let op2 = match block.stack_pop_any() {
                Ok(x) => x,
                Err(e) => return Err(e),
            };
            let op1 = match block.stack_pop_any() {
                Ok(x) => x,
                Err(e) => return Err(e),
            };
            match op1.i_add(op2, module) {
                Ok(v) => {
                    block.stack_push(v);
                    Ok(TranslationResult::Found)
                },
                Err(e) => Err(e),
            }
        },
        Operator::I32Sub | Operator::I64Sub => {
            let ty = if *op == Operator::I32Sub { ScalarType::I32 } else { ScalarType::I64 };
            let op2 = match block.pop_int(ty, module) {
                Ok(x) => x,
                Err(e) => return Err(e),
            };
            let op1 = match block.stack_pop_any() {
                Ok(x) => x,
                Err(e) => return Err(e),
            };
            match op1.i_sub(op2, module) {
                Ok(v) => {
                    block.stack_push(v);
                    Ok(TranslationResult::Found)
                },
                Err(e) => Err(e),
            }
        },
        Operator::I32Mul | Operator::I64Mul | Operator::I32DivS | Operator::I64DivS | Operator::I32DivU
        | Operator::I64DivU | Operator::I32RemS | Operator::I64RemS | Operator::I32RemU | Operator::I64RemU => {
            let (ty, bop) = match classify_int_binary(op) {
                Some(x) => x,
                None => return Ok(TranslationResult::NotFound),
            };
            block.int_binary_step(ty, bop, module)
        },
        _ => Ok(TranslationResult::NotFound),
    }
}

fn classify_int_count(op: &Operator) -> (r: Option<(ScalarType, UnarySource)>)
    ensures
        r == int_count_of(*op),
{
    match op {
        Operator::I32Clz => Some((ScalarType::I32, UnarySource::LeadingZeros)),
        Operator::I64Clz => Some((ScalarType::I64, UnarySource::LeadingZeros)),
        Operator::I32Ctz => Some((ScalarType::I32, UnarySource::TrainlingZeros)),
        Operator::I64Ctz => Some((ScalarType::I64, UnarySource::TrainlingZeros)),
        Operator::I32Popcnt => Some((ScalarType::I32, UnarySource::BitCount)),
        Operator::I64Popcnt => Some((ScalarType::I64, UnarySource::BitCount)),
        _ => None,
    }
}

/// Integer logic, shifts, rotations and bit counts. Float rounding,
/// `min` and `max` compute on floating-point constants and are translated
/// by the caller.
pub fn translate_logic(op: &Operator, block: &mut BlockBuilder, module: &ModuleBuilder) -> (r: Result<TranslationResult, Error>)
    ensures
            final(block).same_frame(*old(block)),
        (final(block).stack@, r) == spec_translate_logic(*op, old(block).stack@, module.addressing_model, module.wasm_memory64),
{
    match classify_int_count(op) {
        Some((ty, uop)) => {
            let x = match block.pop_int(ty, module) {
                Ok(x) => x,
                Err(e) => return Err(e),
            };
            let v = match uop {
                UnarySource::LeadingZeros => x.clz(),
                UnarySource::TrainlingZeros => x.ctz(),
                _ => x.popcnt(),
            };
            match v {
                Ok(v) => {
                    block.stack_push(Value::Integer(v));
                    Ok(TranslationResult::Found)
                },
                Err(e) => Err(e),
            }
        },
        None => match classify_int_binary(op) {
            Some((ty, bop)) => {
                if bop == BinarySource::Mul || bop == BinarySource::SDiv || bop == BinarySource::UDiv || bop
                    == BinarySource::SRem || bop == BinarySource::URem {
                    Ok(TranslationResult::NotFound)
                } else {
                    block.int_binary_step(ty, bop, module)
                }
            },
            None => Ok(TranslationResult::NotFound),
        },
    }
}

fn classify_int_comparison(op: &Operator) -> (r: Option<(ScalarType, Comparison, bool)>)
    ensures
        r == int_comparison_of(*op),
{
    match op {
        Operator::I32LtS => Some((ScalarType::I32, Comparison::Lt, true)),
        Operator::I64LtS => Some((ScalarType::I64, Comparison::Lt, true)),
        Operator::I32LtU => Some((ScalarType::I32, Comparison::Lt, false)),
        Operator::I64LtU => Some((ScalarType::I64, Comparison::Lt, false)),
        Operator::I32GtS => Some((ScalarType::I32, Comparison::Gt, true)),
        Operator::I64GtS => Some((ScalarType::I64, Comparison::Gt, true)),
        Operator::I32GtU => Some((ScalarType::I32, Comparison::Gt, false)),
        Operator::I64GtU => Some((ScalarType::I64, Comparison::Gt, false)),
        Operator::I32LeS => Some((ScalarType::I32, Comparison::Le, true)),
        Operator::I64LeS => Some((ScalarType::I64, Comparison::Le, true)),
        Operator::I32LeU => Some((ScalarType::I32, Comparison::Le, false)),
        Operator::I64LeU => Some((ScalarType::I64, Comparison::Le, false)),
        Operator::I32GeS => Some((ScalarType::I32, Comparison::Ge, true)),
        Operator::I64GeS => Some((ScalarType::I64, Comparison::Ge, true)),
        Operator::I32GeU => Some((ScalarType::I32, Comparison::Ge, false)),
        Operator::I64GeU => Some((ScalarType::I64, Comparison::Ge, false)),
        _ => None,
    }
}

fn classify_int_equality(op: &Operator) -> (r: Option<(ScalarType, Equality)>)
    ensures
        r == int_equality_of(*op),
{
    match op {
        Operator::I32Eq => Some((ScalarType::I32, Equality::Eq)),
        Operator::I64Eq => Some((ScalarType::I64, Equality::Eq)),
        Operator::I32Ne => Some((ScalarType::I32, Equality::Ne)),
        Operator::I64Ne => Some((ScalarType::I64, Equality::Ne)),
        _ => None,
    }
}

fn classify_float_comparison(op: &Operator) -> (r: Option<(ScalarType, Result<Comparison, Equality>)>)
    ensures
        r == float_comparison_of(*op),
{
    match op {
        Operator::F32Eq => Some((ScalarType::F32, Err(Equality::Eq))),
        Operator::F64Eq => Some((ScalarType::F64, Err(Equality::Eq))),
        Operator::F32Ne => Some((ScalarType::F32, Err(Equality::Ne))),
        Operator::F64Ne => Some((ScalarType::F64, Err(Equality::Ne))),
        Operator::F32Lt => Some((ScalarType::F32, Ok(Comparison::Lt))),
        Operator::F64Lt => Some((ScalarType::F64, Ok(Comparison::Lt))),
        Operator::F32Gt => Some((ScalarType::F32, Ok(Comparison::Gt))),
        Operator::F64Gt => Some((ScalarType::F64, Ok(Comparison::Gt))),
        Operator::F32Le => Some((ScalarType::F32, Ok(Comparison::Le))),
        Operator::F64Le => Some((ScalarType::F64, Ok(Comparison::Le))),
        Operator::F32Ge => Some((ScalarType::F32, Ok(Comparison::Ge))),
        Operator::F64Ge => Some((ScalarType::F64, Ok(Comparison::Ge))),
        _ => None,
    }
}

impl BlockBuilder {
    fn pop_float(&mut self, ty: ScalarType, module: &ModuleBuilder) -> (r: Result<Rc<Float>, Error>)
        ensures
            final(self).same_frame(*old(self)),
            (final(self).stack@, r) == spec_pop_float(old(self).stack@, ty, module.addressing_model, module.wasm_memory64),
    {
        match self.stack_pop(Type::Scalar(ty), module) {
            Ok(v) => v.into_float(),
            Err(e) => Err(e),
        }
    }
}

/// Comparisons of integers and floats, pushed as booleans.
pub fn translate_comparison(op: &Operator, block: &mut BlockBuilder, module: &ModuleBuilder) -> (r: Result<TranslationResult, Error>)
    ensures
            final(block).same_frame(*old(block)),
        (final(block).stack@, r) == spec_translate_comparison(*op, old(block).stack@, module.addressing_model, module.wasm_memory64),
{
    let ghost s = block.stack@;
    if *op == Operator::I32Eqz || *op == Operator::I64Eqz {
        let (ty, op2) = if *op == Operator::I32Eqz {
            (ScalarType::I32, Rc::new(Integer::new_constant_i32(0)))
        } else {
            (ScalarType::I64, Rc::new(Integer::new_constant_i64(0)))
        };
        let op1 = match block.pop_int(ty, module) {
            Ok(x) => x,
            Err(e) => return Err(e),
        };
        block.stack_push(Value::Bool(Rc::new(Bool::new(BoolSource::IntEquality { kind: Equality::Eq, op1, op2 }))));
        return Ok(TranslationResult::Found);
    }
    if let Some((ty, kind, signed)) = classify_int_comparison(op) {
        let op2 = match block.pop_int(ty, module) {
            Ok(x) => x,
            Err(e) => return Err(e),
        };
        let op1 = match block.pop_int(ty, module) {
            Ok(x) => x,
            Err(e) => return Err(e),
        };
        block.stack_push(Value::Bool(Rc::new(Bool::new(BoolSource::IntComparison { kind, signed, op1, op2 }))));
        return Ok(TranslationResult::Found);
    }
    if let Some((ty, kind)) = classify_int_equality(op) {
        let op2 = match block.pop_int(ty, module) {
            Ok(x) => x,
            Err(e) => return Err(e),
        };
        let op1 = match block.pop_int(ty, module) {
            Ok(x) => x,
            Err(e) => return Err(e),
        };
        block.stack_push(Value::Bool(Rc::new(Bool::new(BoolSource::IntEquality { kind, op1, op2 }))));
        return Ok(TranslationResult::Found);
    }
    if let Some((ty, kind)) = classify_float_comparison(op) {
        let op2 = match block.pop_float(ty, module) {
            Ok(x) => x,
            Err(e) => return Err(e),
        };
        let op1 = match block.pop_float(ty, module) {
            Ok(x) => x,
            Err(e) => return Err(e),
        };
        let source = match kind {
            Ok(c) => BoolSource::FloatComparison { kind: c, op1, op2 },
            Err(q) => BoolSource::FloatEquality { kind: q, op1, op2 },
        };
        block.stack_push(Value::Bool(Rc::new(Bool::new(source))));
        return Ok(TranslationResult::Found);
    }
    Ok(TranslationResult::NotFound)
}

/// `memory.size` and `memory.grow`.
pub fn translate_memory(op: &Operator, block: &mut BlockBuilder, module: &ModuleBuilder) -> (r: Result<TranslationResult, Error>)
    ensures
            final(block).same_frame(*old(block)),
        (final(block).stack@, r) == spec_translate_memory(*op, old(block).stack@, module.wasm_memory64, module.memory_grow_error),
{
    match op {
        Operator::MemorySize => {
            let zero = Integer::new_constant_usize(0, module);
            block.stack_push(Value::Integer(Rc::new(zero)));
            Ok(TranslationResult::Found)
        },
        Operator::MemoryGrow => match module.memory_grow_error {
            MemoryGrowErrorKind::Hard => Err(Error::CannotAllocate),
            MemoryGrowErrorKind::Soft => {
                match block.stack_pop_any() {
                    Ok(_) => {},
                    Err(e) => return Err(e),
                }
                assert(((-1i32) as i64) as u64 == 0xffff_ffff_ffff_ffffu64) by (bit_vector);
                assert((-1i32) as u32 == 0xffff_ffffu32) by (bit_vector);
                block.stack_push(Value::Integer(Rc::new(Integer::new_constant_isize(-1, module))));
                Ok(TranslationResult::Found)
            },
        },
        _ => Ok(TranslationResult::NotFound),
    }
}


/// The first of the translations that recognises `op`: a step of each kind
/// in turn, each applied only when the ones before found nothing.
pub open spec fn spec_translate_all(op: Operator, s: Seq<Value>, am: u32, memory64: bool, policy: MemoryGrowErrorKind) -> (Seq<Value>, Result<TranslationResult, Error>) {
    let steps = seq![
        spec_translate_constants(op, s),
        spec_translate_conversion(op, s, am, memory64),
        spec_translate_memory(op, s, memory64, policy),
        spec_translate_arith(op, s, am, memory64),
        spec_translate_logic(op, s, am, memory64),
        spec_translate_comparison(op, s, am, memory64),
    ];
    first_found(steps, s)
}

/// The first step that did not report `NotFound`, or `NotFound` with the
/// stack unchanged.
pub open spec fn first_found(steps: Seq<(Seq<Value>, Result<TranslationResult, Error>)>, s: Seq<Value>) -> (Seq<Value>, Result<TranslationResult, Error>)
    decreases steps.len(),
{
    if steps.len() == 0 {
        (s, Ok(TranslationResult::NotFound))
    } else if steps[0].1 == Ok::<TranslationResult, Error>(TranslationResult::NotFound) {
        first_found(steps.drop_first(), s)
    } else {
        steps[0]
    }
}

/// Translates one instruction with the first translation that knows it.
#[verifier::rlimit(50)]
pub fn translate_all(op: &Operator, block: &mut BlockBuilder, module: &ModuleBuilder) -> (r: Result<TranslationResult, Error>)
    requires
        arith_allowed(*op, old(block).stack@, module.addressing_model, module.wasm_memory64),
    ensures
            final(block).same_frame(*old(block)),
        (final(block).stack@, r) == spec_translate_all(*op, old(block).stack@, module.addressing_model, module.wasm_memory64, module.memory_grow_error),
{
    let ghost s = block.stack@;
    let ghost am = module.addressing_model;
    let ghost m64 = module.wasm_memory64;
    let ghost steps = seq![
        spec_translate_constants(*op, s),
        spec_translate_conversion(*op, s, am, m64),
        spec_translate_memory(*op, s, m64, module.memory_grow_error),
        spec_translate_arith(*op, s, am, m64),
        spec_translate_logic(*op, s, am, m64),
        spec_translate_comparison(*op, s, am, m64),
    ];
    proof {
        reveal_with_fuel(first_found, 8);
    }
    match translate_constants(op, block) {
        Ok(TranslationResult::NotFound) => {},
        other => return other,
    }
    match translate_conversion(op, block, module) {
        Ok(TranslationResult::NotFound) => {},
        other => return other,
    }
    match translate_memory(op, block, module) {
        Ok(TranslationResult::NotFound) => {},
        other => return other,
    }
    match translate_arith(op, block, module) {
        Ok(TranslationResult::NotFound) => {},
        other => return other,
    }
    match translate_logic(op, block, module) {
        Ok(TranslationResult::NotFound) => {},
        other => return other,
    }
    match translate_comparison(op, block, module) {
        Ok(TranslationResult::NotFound) => {},
        other => return other,
    }
    Ok(TranslationResult::NotFound)
}

} // verus!
