//! Loads and stores of whole values through addresses on the stack.
use vstd::prelude::*;
use std::rc::Rc;
use crate::block::{spec_pop, spec_pop_any, BlockBuilder, Operator, TranslationResult};
use crate::control::{anchored, shared_of, Shared};
use crate::error::Error;
use crate::function_builder::{FunctionBuilder, Operation};
use crate::module::ModuleBuilder;
use crate::spv::{CAPABILITY_GENERIC_POINTER, STORAGE_CLASS_GENERIC};
use crate::types::{PointerSize, ScalarType, Type};
use crate::values::integer::{constant, spec_binary, BinarySource, ConstantSource, Integer};
use crate::values::pointer::{spec_access, spec_load, Pointer, PointerKind, PointerSource};
use crate::values::Value;

verus! {

/// A load or store of a whole value: the type moved, whether it is a store,
/// and the offset and alignment that the instruction carries.
pub open spec fn access_of(op: Operator) -> Option<(ScalarType, bool, u64, u8)> {
    match op {
        Operator::I32Load { offset, align } => Some((ScalarType::I32, false, offset, align)),
        Operator::I64Load { offset, align } => Some((ScalarType::I64, false, offset, align)),
        Operator::F32Load { offset, align } => Some((ScalarType::F32, false, offset, align)),
        Operator::F64Load { offset, align } => Some((ScalarType::F64, false, offset, align)),
        Operator::I32Store { offset, align } => Some((ScalarType::I32, true, offset, align)),
        Operator::I64Store { offset, align } => Some((ScalarType::I64, true, offset, align)),
        Operator::F32Store { offset, align } => Some((ScalarType::F32, true, offset, align)),
        Operator::F64Store { offset, align } => Some((ScalarType::F64, true, offset, align)),
        _ => None,
    }
}

fn classify_access(op: &Operator) -> (r: Option<(ScalarType, bool, u64, u8)>)
    ensures
        r == access_of(*op),
{
    match *op {
        Operator::I32Load { offset, align } => Some((ScalarType::I32, false, offset, align)),
        Operator::I64Load { offset, align } => Some((ScalarType::I64, false, offset, align)),
        Operator::F32Load { offset, align } => Some((ScalarType::F32, false, offset, align)),
        Operator::F64Load { offset, align } => Some((ScalarType::F64, false, offset, align)),
        Operator::I32Store { offset, align } => Some((ScalarType::I32, true, offset, align)),
        Operator::I64Store { offset, align } => Some((ScalarType::I64, true, offset, align)),
        Operator::F32Store { offset, align } => Some((ScalarType::F32, true, offset, align)),
        Operator::F64Store { offset, align } => Some((ScalarType::F64, true, offset, align)),
        _ => None,
    }
}

/// A load of one unsigned byte, widened to the integer type given: the
/// type, and the offset and alignment that the instruction carries.
pub open spec fn byte_load_of(op: Operator) -> Option<(ScalarType, u64, u8)> {
    match op {
        Operator::I32Load8U { offset, align } => Some((ScalarType::I32, offset, align)),
        Operator::I64Load8U { offset, align } => Some((ScalarType::I64, offset, align)),
        _ => None,
    }
}

fn classify_byte_load(op: &Operator) -> (r: Option<(ScalarType, u64, u8)>)
    ensures
        r == byte_load_of(*op),
{
    match *op {
        Operator::I32Load8U { offset, align } => Some((ScalarType::I32, offset, align)),
        Operator::I64Load8U { offset, align } => Some((ScalarType::I64, offset, align)),
        _ => None,
    }
}

/// The byte at `byte_offset` of the word `word` that holds it, for words
/// of type `ty`: the word shifted right by eight times the byte's distance
/// from the word's last byte, and masked to eight bits.
pub open spec fn spec_byte_of(word: Integer, byte_offset: Integer, ty: ScalarType, am: u32, memory64: bool) -> Result<Integer, Error> {
    let (last, stride, mask) = if ty == ScalarType::I32 {
        (usize_constant(3, memory64), constant(ConstantSource::Short(4)), constant(ConstantSource::Short(0xff)))
    } else {
        (usize_constant(7, memory64), constant(ConstantSource::Long(8)), constant(ConstantSource::Long(0xff)))
    };
    match spec_binary(BinarySource::URem, byte_offset, stride, am, false) {
        Err(e) => Err(e),
        Ok(rem) => match spec_binary(BinarySource::Sub, last, rem, am, false) {
            Err(e) => Err(e),
            Ok(distance) => match spec_binary(BinarySource::Mul, distance, usize_constant(8, memory64), am, false) {
                Err(e) => Err(e),
                Ok(shift) => match spec_binary(BinarySource::UShr, word, shift, am, false) {
                    Err(e) => Err(e),
                    Ok(shifted) => spec_binary(BinarySource::And, shifted, mask, am, false),
                },
            },
        },
    }
}

/// A load of one unsigned byte: the address is popped and taken as a
/// pointer to a word of type `ty`; the byte offset is the pointer's own
/// (when it has one) plus the instruction's; the word there is loaded and
/// the byte taken from it. The last item says whether it is translated
/// (the pointer is not skinny, which cannot be offset).
pub open spec fn spec_load_byte(ty: ScalarType, offset: u64, align: u8, s: Seq<Value>, sh: Shared, am: u32, memory64: bool) -> (
    Seq<Value>,
    Shared,
    Result<TranslationResult, Error>,
    bool,
) {
    let (s1, addr) = spec_pop_any(s);
    match addr {
        Err(e) => (s1, sh, Err(e), true),
        Ok(addr) => {
            let (sh1, p) = spec_to_pointer(addr, Type::Scalar(ty), sh);
            match p {
                Err(e) => (s1, sh1, Err(e), true),
                Ok(p) => {
                    let c = usize_constant(offset as u32, memory64);
                    let byte_offset = match p.kind {
                        PointerKind::Fat { byte_offset: Some(b) } => spec_binary(BinarySource::Add, *b, c, am, false),
                        _ => Ok(c),
                    };
                    match byte_offset {
                        Err(e) => (s1, sh1, Err(e), true),
                        Ok(b) => match spec_access(p, b, am) {
                            Err(e) => (s1, sh1, Err(e), p.kind is Fat),
                            Ok(q) => match spec_load(Rc::new(q), Some(align as u32)) {
                                Value::Integer(word) => match spec_byte_of(*word, b, ty, am, memory64) {
                                    Err(e) => (s1, sh1, Err(e), p.kind is Fat),
                                    Ok(x) => (s1.push(Value::Integer(Rc::new(x))), sh1, Ok(TranslationResult::Found), p.kind is Fat),
                                },
                                _ => (s1, sh1, Err(Error::InvalidOperand), p.kind is Fat),
                            },
                        },
                    }
                },
            }
        },
    }
}

/// A constant of the width of a WebAssembly address.
pub open spec fn usize_constant(value: u32, memory64: bool) -> Integer {
    if memory64 {
        constant(ConstantSource::Long(value as u64))
    } else {
        constant(ConstantSource::Short(value))
    }
}

/// `v` taken as a skinny pointer to `pointee`: an integer becomes a generic
/// pointer, which needs the generic-pointer capability; a pointer, or the
/// pointer that a local holds, is cast.
pub open spec fn spec_to_pointer(v: Value, pointee: Type, sh: Shared) -> (Shared, Result<Pointer, Error>) {
    match v {
        Value::Integer(x) => {
            let refused = sh.caps_static && !sh.caps.contains(CAPABILITY_GENERIC_POINTER);
            let caps = if sh.caps_static || sh.caps.contains(CAPABILITY_GENERIC_POINTER) {
                sh.caps
            } else {
                sh.caps.push(CAPABILITY_GENERIC_POINTER)
            };
            (
                Shared { anchors: sh.anchors, labels: sh.labels, caps_static: sh.caps_static, caps, functions: sh.functions, globals: sh.globals, locals: sh.locals, interface: sh.interface },
                if refused {
                    Err(Error::CapabilityNotEnabled(CAPABILITY_GENERIC_POINTER))
                } else {
                    Ok(Pointer {
                        kind: PointerKind::Skinny,
                        storage_class: STORAGE_CLASS_GENERIC,
                        pointee,
                        source: PointerSource::FromInteger(x),
                    })
                },
            )
        },
        Value::Pointer(x) => (
            sh,
            Ok(Pointer { kind: x.kind, storage_class: x.storage_class, pointee, source: PointerSource::Casted { prev: x } }),
        ),
        Value::Schrodinger { pointer_variable: x, .. } => (
            sh,
            Ok(Pointer { kind: x.kind, storage_class: x.storage_class, pointee, source: PointerSource::Casted { prev: x } }),
        ),
        _ => (sh, Err(Error::InvalidOperand)),
    }
}

/// A load or store: the stack and shared state it leaves, its result, and
/// whether it is one that is translated (the address it moves through is
/// not a skinny pointer, which cannot be offset).
pub open spec fn spec_memory_run(op: Operator, s: Seq<Value>, sh: Shared, am: u32, memory64: bool) -> (
    Seq<Value>,
    Shared,
    Result<TranslationResult, Error>,
    bool,
) {
    match access_of(op) {
        None => match byte_load_of(op) {
            Some((ty, offset, align)) => spec_load_byte(ty, offset, align, s, sh, am, memory64),
            None => (s, sh, Ok(TranslationResult::NotFound), true),
        },
        Some((ty, store, offset, align)) => {
            let (s1, value) = if store {
                let (s1, v) = spec_pop(s, Type::Scalar(ty), am, memory64);
                (s1, v)
            } else {
                (s, Ok(Value::Bool(Rc::new(crate::values::bool::Bool { source: crate::values::bool::BoolSource::Constant(false) }))))
            };
            match value {
                Err(e) => (s1, sh, Err(e), true),
                Ok(value) => {
                    let (s2, addr) = spec_pop_any(s1);
                    match addr {
                        Err(e) => (s2, sh, Err(e), true),
                        Ok(addr) => {
                            let (sh1, p) = spec_to_pointer(addr, Type::Scalar(ty), sh);
                            match p {
                                Err(e) => (s2, sh1, Err(e), true),
                                Ok(p) => match spec_access(p, usize_constant(offset as u32, memory64), am) {
                                    Err(e) => (s2, sh1, Err(e), p.kind is Fat),
                                    Ok(q) => if store {
                                        (
                                            s2,
                                            anchored(sh1, seq![Operation::Store { target: Rc::new(q), value, log2_alignment: Some(align as u32) }]),
                                            Ok(TranslationResult::Found),
                                            p.kind is Fat,
                                        )
                                    } else {
                                        (s2.push(spec_load(Rc::new(q), Some(align as u32))), sh1, Ok(TranslationResult::Found), p.kind is Fat)
                                    },
                                },
                            }
                        },
                    }
                },
            }
        },
    }
}

/// Translates a load or store of a whole value, or a load of one byte:
/// pops the value to store, if any, then the address, moves it by the
/// instruction's offset, and pushes the loaded value or adds the store.
pub fn translate_memory_access(
    op: &Operator,
    block: &mut BlockBuilder,
    function: &mut FunctionBuilder,
    module: &mut ModuleBuilder,
) -> (r: Result<TranslationResult, Error>)
    requires
        spec_memory_run(*op, old(block).stack@, shared_of(*old(function), *old(module)), old(module).addressing_model, old(module).wasm_memory64).3,
    ensures
        ({
            let (s, sh, res, _) = spec_memory_run(
                *op,
                old(block).stack@,
                shared_of(*old(function), *old(module)),
                old(module).addressing_model,
                old(module).wasm_memory64,
            );
            &&& final(block).stack@ == s
            &&& shared_of(*final(function), *final(module)) == sh
            &&& r == res
        }),
        r == Ok::<TranslationResult, Error>(TranslationResult::NotFound) ==> final(block).stack@ == old(block).stack@
            && shared_of(*final(function), *final(module)) == shared_of(*old(function), *old(module)),
        final(block).same_frame(*old(block)),
        final(function).same_but_body(*old(function)),
        final(module).same_but_capabilities(*old(module)),
{
    let (ty, store, offset, align) = match classify_access(op) {
        Some(x) => x,
        None => {
            return match classify_byte_load(op) {
                Some((ty, offset, align)) => load_byte(ty, offset, align, block, function, module),
                None => Ok(TranslationResult::NotFound),
            };
        },
    };
    let value = if store {
        match block.stack_pop(Type::Scalar(ty), module) {
            Ok(v) => Some(v),
            Err(e) => return Err(e),
        }
    } else {
        None
    };
    let addr = match block.stack_pop_any() {
        Ok(v) => v,
        Err(e) => return Err(e),
    };
    let p = match addr.to_pointer(PointerSize::Skinny, Type::Scalar(ty), module) {
        Ok(p) => p,
        Err(e) => return Err(e),
    };
    let byte_offset = Rc::new(Integer::new_constant_usize(offset as u32, module));
    let q = match p.access(byte_offset, module) {
        Ok(q) => Rc::new(q),
        Err(e) => return Err(e),
    };
    match value {
        Some(v) => {
            let ghost a = function.anchors@;
            let store_op = q.store(v, Some(align as u32));
            function.anchors.push(store_op);
            assert(function.anchors@ =~= a + seq![store_op]);
        },
        None => {
            block.stack_push(q.load(Some(align as u32)));
        },
    }
    Ok(TranslationResult::Found)
}

/// Translates a load of one unsigned byte, widened to `ty`.
fn load_byte(
    ty: ScalarType,
    offset: u64,
    align: u8,
    block: &mut BlockBuilder,
    function: &FunctionBuilder,
    module: &mut ModuleBuilder,
) -> (r: Result<TranslationResult, Error>)
    requires
        ty == ScalarType::I32 || ty == ScalarType::I64,
        spec_load_byte(ty, offset, align, old(block).stack@, shared_of(*function, *old(module)), old(module).addressing_model, old(module).wasm_memory64).3,
    ensures
        ({
            let (s, sh, res, _) = spec_load_byte(
                ty,
                offset,
                align,
                old(block).stack@,
                shared_of(*function, *old(module)),
                old(module).addressing_model,
                old(module).wasm_memory64,
            );
            &&& final(block).stack@ == s
            &&& shared_of(*function, *final(module)) == sh
            &&& r == res
        }),
        final(block).same_frame(*old(block)),
        final(module).same_but_capabilities(*old(module)),
{
    let addr = match block.stack_pop_any() {
        Ok(v) => v,
        Err(e) => return Err(e),
    };
    let p = match addr.to_pointer(PointerSize::Skinny, Type::Scalar(ty), module) {
        Ok(p) => p,
        Err(e) => return Err(e),
    };
    let constant_offset = Rc::new(Integer::new_constant_usize(offset as u32, module));
    let byte_offset = match p.byte_offset() {
        Some(b) => match b.add(constant_offset, module) {
            Ok(x) => x,
            Err(e) => return Err(e),
        },
        None => constant_offset,
    };
    let q = match p.access(byte_offset.clone(), module) {
        Ok(q) => Rc::new(q),
        Err(e) => return Err(e),
    };
    let word = match q.load(Some(align as u32)).into_integer() {
        Ok(w) => w,
        Err(e) => return Err(e),
    };
    let (last, stride, mask) = if ty == ScalarType::I32 {
        (
            Rc::new(Integer::new_constant_usize(3, module)),
            Rc::new(Integer::new_constant_u32(4)),
            Rc::new(Integer::new_constant_u32(0xff)),
        )
    } else {
        (
            Rc::new(Integer::new_constant_usize(7, module)),
            Rc::new(Integer::new_constant_u64(8)),
            Rc::new(Integer::new_constant_u64(0xff)),
        )
    };
    let eight = Rc::new(Integer::new_constant_usize(8, module));
    let rem = match byte_offset.u_rem(stride, module) {
        Ok(x) => x,
        Err(e) => return Err(e),
    };
    let distance = match last.sub(rem, module) {
        Ok(x) => Rc::new(x),
        Err(e) => return Err(e),
    };
    let shift = match distance.mul(eight, module) {
        Ok(x) => x,
        Err(e) => return Err(e),
    };
    let shifted = match word.u_shr(shift, false, module) {
        Ok(x) => x,
        Err(e) => return Err(e),
    };
    let byte = match shifted.and(mask, module) {
        Ok(x) => x,
        Err(e) => return Err(e),
    };
    block.stack_push(Value::Integer(byte));
    Ok(TranslationResult::Found)
}

} // verus!
