//! The variable instructions: `drop`, the locals of a function and the
//! global variables of the module.
use vstd::prelude::*;
use std::rc::Rc;
use crate::block::{spec_pop, spec_pop_any, BlockBuilder, Operator, TranslationResult};
use crate::control::size_of_kind;
use crate::decorator::VariableDecorator;
use crate::error::Error;
use crate::function_builder::{address_type, FunctionBuilder, Operation, Schrodinger, Storeable};
use crate::memory::usize_constant;
use crate::module::{GlobalVariable, ModuleBuilder};
use crate::spv::STORAGE_CLASS_FUNCTION;
use crate::types::{type_clone, PointerSize, Type};
use crate::values::integer::Integer;
use crate::values::pointer::{spec_load, Pointer, PointerKind, PointerSource};
use crate::values::{is_skinny_pointer, spec_i_add, Value};

verus! {

/// A variable of the function, of type `ty`, that starts as `init` and
/// carries the decorations `decorators`.
pub open spec fn function_variable(ty: Type, init: Option<Value>, decorators: Rc<Vec<VariableDecorator>>) -> Rc<Pointer> {
    Rc::new(
        Pointer {
            kind: PointerSize::Skinny.spec_pointer_kind(),
            storage_class: STORAGE_CLASS_FUNCTION,
            pointee: ty,
            source: PointerSource::Variable { init, decorators },
        },
    )
}

/// The pointer `p` without its byte offset, and that offset: a fat pointer
/// with an offset loses it, any other pointer is kept as it is.
pub open spec fn spec_take_byte_offset(p: Rc<Pointer>) -> (Rc<Pointer>, Option<Rc<Integer>>) {
    match p.kind {
        PointerKind::Fat { byte_offset: Some(o) } => (
            Rc::new(
                Pointer {
                    kind: PointerKind::Fat { byte_offset: None },
                    storage_class: p.storage_class,
                    pointee: p.pointee,
                    source: p.source,
                },
            ),
            Some(o),
        ),
        _ => (p, None),
    }
}

/// What reading a local that may hold an address gives: the pointer it
/// holds, moved by the offset it holds when it has one, and the integer it
/// holds; both together when it has held both, and nothing when it has
/// held neither.
pub open spec fn spec_schrodinger_load(sch: Schrodinger, am: u32) -> Result<Option<Value>, Error> {
    let pointer = match sch.pointer {
        None => Ok(None),
        Some(p) => {
            let v = spec_load(p, None);
            match sch.offset {
                None => Ok(Some(v)),
                Some(o) => match spec_load(o, None) {
                    Value::Integer(i) => match spec_i_add(v, Value::Integer(i), am) {
                        Ok(w) => Ok(Some(w)),
                        Err(e) => Err(e),
                    },
                    _ => Err(Error::InvalidOperand),
                },
            }
        },
    };
    match pointer {
        Err(e) => Err(e),
        Ok(pv) => {
            let integer = match sch.integer {
                None => Ok(None),
                Some(i) => match spec_load(i, None) {
                    Value::Integer(x) => Ok(Some(x)),
                    _ => Err(Error::InvalidOperand),
                },
            };
            match integer {
                Err(e) => Err(e),
                Ok(li) => match (pv, li) {
                    (Some(Value::Pointer(p)), Some(i)) => Ok(
                        Some(Value::Schrodinger { pointer_variable: p, loaded_integer: i }),
                    ),
                    (Some(_), Some(_)) => Err(Error::InvalidOperand),
                    (Some(p), None) => Ok(Some(p)),
                    (None, Some(i)) => Ok(Some(Value::Integer(i))),
                    (None, None) => Ok(None),
                },
            }
        },
    }
}

/// Storing `v` into a local that may hold an address: an integer goes to
/// the local's integer variable; a pointer goes without its offset to the
/// local's pointer variable, and its offset, or zero where it has none but
/// the local has an offset variable, to the offset variable. A variable is
/// made where the local has none yet. Gives the local after the store and
/// the stores, in order.
pub open spec fn spec_schrodinger_store(sch: Schrodinger, v: Value, memory64: bool) -> Result<(Schrodinger, Seq<Operation>), Error> {
    let isize = Type::Scalar(address_type(memory64));
    let zero = Value::Integer(Rc::new(usize_constant(0, memory64)));
    match v {
        Value::Integer(x) => {
            let var = match sch.integer {
                Some(var) => var,
                None => function_variable(isize, None, sch.decorators),
            };
            Ok(
                (
                    Schrodinger { integer: Some(var), ..sch },
                    seq![Operation::Store { target: var, value: Value::Integer(x), log2_alignment: None }],
                ),
            )
        },
        Value::Pointer(p) => {
            let (bare, offset) = spec_take_byte_offset(p);
            let var = match sch.pointer {
                Some(var) => var,
                None => function_variable(
                    Type::Pointer { size: size_of_kind(*bare), storage_class: bare.storage_class, pointee: Box::new(bare.pointee) },
                    None,
                    sch.decorators,
                ),
            };
            let (offset_var, offset_ops) = match offset {
                Some(o) => {
                    let ov = match sch.offset {
                        Some(ov) => ov,
                        None => function_variable(isize, Some(zero), sch.decorators),
                    };
                    (Some(ov), seq![Operation::Store { target: ov, value: Value::Integer(o), log2_alignment: None }])
                },
                None => match sch.offset {
                    Some(ov) => (Some(ov), seq![Operation::Store { target: ov, value: zero, log2_alignment: None }]),
                    None => (None, Seq::<Operation>::empty()),
                },
            };
            Ok(
                (
                    Schrodinger { pointer: Some(var), offset: offset_var, ..sch },
                    seq![Operation::Store { target: var, value: Value::Pointer(bare), log2_alignment: None }] + offset_ops,
                ),
            )
        },
        _ => Err(Error::Unexpected),
    }
}

/// `local.set` (`tee` false) or `local.tee` (`tee` true) of the local
/// `i`: the top of the stack is stored into it, converted to the
/// variable's type for a local that is a variable; `local.tee` leaves it
/// on the stack. Gives the stack, the anchors, the locals and the result.
pub open spec fn spec_local_set(
    i: u32,
    tee: bool,
    s: Seq<Value>,
    locals: Seq<Storeable>,
    anchors: Seq<Operation>,
    am: u32,
    memory64: bool,
) -> (Seq<Value>, Seq<Operation>, Seq<Storeable>, Result<TranslationResult, Error>) {
    if i >= locals.len() {
        (s, anchors, locals, Err(Error::ElementNotFound))
    } else {
        match locals[i as int] {
            Storeable::Pointer { variable, .. } => {
                let (s1, v) = spec_pop(s, variable.pointee, am, memory64);
                let left = if tee {
                    s
                } else {
                    s1
                };
                match v {
                    Err(e) => (left, anchors, locals, Err(e)),
                    Ok(v) => (
                        left,
                        anchors.push(Operation::Store { target: variable, value: v, log2_alignment: None }),
                        locals,
                        Ok(TranslationResult::Found),
                    ),
                }
            },
            Storeable::Schrodinger(sch) => {
                let (s1, v) = spec_pop_any(s);
                let left = if tee {
                    s
                } else {
                    s1
                };
                match v {
                    Err(e) => (left, anchors, locals, Err(e)),
                    Ok(v) => match spec_schrodinger_store(*sch, v, memory64) {
                        Err(e) => (left, anchors, locals, Err(e)),
                        Ok((sch2, ops)) => (
                            left,
                            anchors + ops,
                            locals.update(i as int, Storeable::Schrodinger(Rc::new(sch2))),
                            Ok(TranslationResult::Found),
                        ),
                    },
                }
            },
        }
    }
}

/// The variable instructions. `drop` discards the top of the stack.
/// `local.get` pushes the variable that holds a local, or what a local
/// that may hold an address holds (an error where it holds nothing yet);
/// `local.set` and `local.tee` store into the local. `global.get` pushes
/// what a global variable holds, or a constant global's value;
/// `global.set` stores the top of the stack into a global variable, and
/// fails on a constant global. Gives the stack, the anchors, the locals and
/// the result.
pub open spec fn spec_translate_variables(
    op: Operator,
    s: Seq<Value>,
    locals: Seq<Storeable>,
    anchors: Seq<Operation>,
    globals: Seq<GlobalVariable>,
    am: u32,
    memory64: bool,
) -> (Seq<Value>, Seq<Operation>, Seq<Storeable>, Result<TranslationResult, Error>) {
    match op {
        Operator::Drop => match spec_pop_any(s) {
            (rest, Ok(_)) => (rest, anchors, locals, Ok(TranslationResult::Found)),
            (rest, Err(e)) => (rest, anchors, locals, Err(e)),
        },
        Operator::LocalGet { local_index } => if local_index >= locals.len() {
            (s, anchors, locals, Err(Error::ElementNotFound))
        } else {
            match locals[local_index as int] {
                Storeable::Pointer { variable, .. } => (
                    s.push(Value::Pointer(variable)),
                    anchors,
                    locals,
                    Ok(TranslationResult::Found),
                ),
                Storeable::Schrodinger(sch) => match spec_schrodinger_load(*sch, am) {
                    Err(e) => (s, anchors, locals, Err(e)),
                    Ok(Some(v)) => (s.push(v), anchors, locals, Ok(TranslationResult::Found)),
                    Ok(None) => (s, anchors, locals, Err(Error::Unexpected)),
                },
            }
        },
        Operator::LocalSet { local_index } => spec_local_set(local_index, false, s, locals, anchors, am, memory64),
        Operator::LocalTee { local_index } => spec_local_set(local_index, true, s, locals, anchors, am, memory64),
        Operator::GlobalGet { global_index } => if global_index >= globals.len() {
            (s, anchors, locals, Err(Error::ElementNotFound))
        } else {
            match globals[global_index as int] {
                GlobalVariable::Variable(var) => (s.push(spec_load(var, None)), anchors, locals, Ok(TranslationResult::Found)),
                GlobalVariable::Constant(c) => (s.push(c), anchors, locals, Ok(TranslationResult::Found)),
            }
        },
        Operator::GlobalSet { global_index } => if global_index >= globals.len() {
            (s, anchors, locals, Err(Error::ElementNotFound))
        } else {
            match globals[global_index as int] {
                GlobalVariable::Variable(var) => {
                    let (s1, v) = spec_pop(s, var.pointee, am, memory64);
                    match v {
                        Err(e) => (s1, anchors, locals, Err(e)),
                        Ok(v) => (
                            s1,
                            anchors.push(Operation::Store { target: var, value: v, log2_alignment: None }),
                            locals,
                            Ok(TranslationResult::Found),
                        ),
                    }
                },
                GlobalVariable::Constant(_) => (s, anchors, locals, Err(Error::ConstantGlobal)),
            }
        },
        _ => (s, anchors, locals, Ok(TranslationResult::NotFound)),
    }
}

/// The integer variable of a local that may hold an address.
spec fn integer_variable_of(local: Storeable) -> Rc<Pointer> {
    match local {
        Storeable::Schrodinger(sch) => sch.integer.unwrap(),
        Storeable::Pointer { variable, .. } => variable,
    }
}

/// What is stored into a local that may hold an address and has held no
/// pointer (its integer variable, if it has one, of the address type) is
/// what reading it gives back: after `local.set` of an integer,
/// `local.get` pushes the value loaded from the variable that the store
/// wrote the integer to, and the rest of the stack is as it was.
pub proof fn lemma_address_local_reads_back(
    i: u32,
    x: Rc<Integer>,
    s: Seq<Value>,
    locals: Seq<Storeable>,
    anchors: Seq<Operation>,
    globals: Seq<GlobalVariable>,
    am: u32,
    memory64: bool,
)
    requires
        i < locals.len(),
        locals[i as int] matches Storeable::Schrodinger(sch) && sch.pointer is None && (sch.integer matches Some(v)
            ==> v.pointee == Type::Scalar(address_type(memory64))),
    ensures
        ({
            let (s1, a1, l1, r1) = spec_translate_variables(
                Operator::LocalSet { local_index: i },
                s.push(Value::Integer(x)),
                locals,
                anchors,
                globals,
                am,
                memory64,
            );
            let (s2, a2, l2, r2) = spec_translate_variables(Operator::LocalGet { local_index: i }, s1, l1, a1, globals, am, memory64);
            &&& r1 == Ok::<TranslationResult, Error>(TranslationResult::Found)
            &&& r2 == Ok::<TranslationResult, Error>(TranslationResult::Found)
            &&& a1.len() == anchors.len() + 1
            &&& a1.last() matches Operation::Store { target, value, log2_alignment: None } && value == Value::Integer(x)
                && s2 == s.push(spec_load(target, None))
            &&& a2 == a1
        }),
{
    let (s1, a1, l1, r1) = spec_translate_variables(
        Operator::LocalSet { local_index: i },
        s.push(Value::Integer(x)),
        locals,
        anchors,
        globals,
        am,
        memory64,
    );
    assert(s.push(Value::Integer(x)).drop_last() =~= s);
    let var = integer_variable_of(l1[i as int]);
    assert(var.pointee == Type::Scalar(address_type(memory64)));
    assert(a1 =~= anchors + seq![Operation::Store { target: var, value: Value::Integer(x), log2_alignment: None }]);
}

/// Whether a local that may hold an address can be read: where it holds a
/// pointer and an offset, its pointer is one that an offset can be added
/// to (not skinny).
pub open spec fn schrodinger_readable(sch: Schrodinger) -> bool {
    match (sch.pointer, sch.offset) {
        (Some(p), Some(_)) => !is_skinny_pointer(spec_load(p, None)),
        _ => true,
    }
}

/// Whether a variable instruction is one that is translated: a local that
/// holds a skinny pointer and an offset is not read here.
pub open spec fn variables_allowed(op: Operator, locals: Seq<Storeable>) -> bool {
    match op {
        Operator::LocalGet { local_index } => local_index < locals.len() ==> match locals[local_index as int] {
            Storeable::Schrodinger(sch) => schrodinger_readable(*sch),
            _ => true,
        },
        _ => true,
    }
}

/// Translates a variable instruction.
pub fn translate_variables(
    op: &Operator,
    block: &mut BlockBuilder,
    function: &mut FunctionBuilder,
    module: &ModuleBuilder,
) -> (r: Result<TranslationResult, Error>)
    requires
        variables_allowed(*op, old(function).local_variables@),
    ensures
        final(block).same_frame(*old(block)),
        (final(block).stack@, final(function).anchors@, final(function).local_variables@, r) == spec_translate_variables(
            *op,
            old(block).stack@,
            old(function).local_variables@,
            old(function).anchors@,
            module.global_variables@,
            module.addressing_model,
            module.wasm_memory64,
        ),
        r == Ok::<TranslationResult, Error>(TranslationResult::NotFound) ==> final(block).stack@ == old(block).stack@
            && final(function).anchors@ == old(function).anchors@
            && final(function).local_variables@ == old(function).local_variables@,
        final(function).same_but_body(*old(function)),
        final(function).entry_point == old(function).entry_point,
        final(function).next_label == old(function).next_label,
{
    match op {
        Operator::Drop => match block.stack_pop_any() {
            Ok(_) => Ok(TranslationResult::Found),
            Err(e) => Err(e),
        },
        Operator::LocalGet { local_index } => {
            let i = *local_index as usize;
            if i >= function.local_variables.len() {
                return Err(Error::ElementNotFound);
            }
            match &function.local_variables[i] {
                Storeable::Pointer { variable, .. } => {
                    block.stack_push(Value::Pointer(variable.clone()));
                    Ok(TranslationResult::Found)
                },
                Storeable::Schrodinger(sch) => match schrodinger_load(sch, module) {
                    Ok(Some(v)) => {
                        block.stack_push(v);
                        Ok(TranslationResult::Found)
                    },
                    Ok(None) => Err(Error::Unexpected),
                    Err(e) => Err(e),
                },
            }
        },
        Operator::LocalSet { local_index } => local_set(*local_index, false, block, function, module),
        Operator::LocalTee { local_index } => local_set(*local_index, true, block, function, module),
        Operator::GlobalGet { global_index } => {
            let i = *global_index as usize;
            if i >= module.global_variables.len() {
                return Err(Error::ElementNotFound);
            }
            let value = match &module.global_variables[i] {
                GlobalVariable::Variable(var) => var.clone().load(None),
                GlobalVariable::Constant(c) => c.clone_value(),
            };
            block.stack_push(value);
            Ok(TranslationResult::Found)
        },
        Operator::GlobalSet { global_index } => {
            let i = *global_index as usize;
            if i >= module.global_variables.len() {
                return Err(Error::ElementNotFound);
            }
            let var = match &module.global_variables[i] {
                GlobalVariable::Variable(var) => var.clone(),
                GlobalVariable::Constant(_) => return Err(Error::ConstantGlobal),
            };
            let value = match block.stack_pop(type_clone(&var.pointee), module) {
                Ok(v) => v,
                Err(e) => return Err(e),
            };
            function.anchors.push(var.store(value, None));
            Ok(TranslationResult::Found)
        },
        _ => Ok(TranslationResult::NotFound),
    }
}

/// A variable of the function of type `ty` that starts as `init`.
fn make_function_variable(ty: Type, init: Option<Value>, decorators: &Rc<Vec<VariableDecorator>>) -> (r: Rc<Pointer>)
    ensures
        r == function_variable(ty, init, *decorators),
{
    Rc::new(Pointer::new_variable(PointerSize::Skinny, STORAGE_CLASS_FUNCTION, ty, init, decorators.clone()))
}

/// Reads a local that may hold an address.
fn schrodinger_load(sch: &Schrodinger, module: &ModuleBuilder) -> (r: Result<Option<Value>, Error>)
    requires
        schrodinger_readable(*sch),
    ensures
        r == spec_schrodinger_load(*sch, module.addressing_model),
{
    let pointer = match &sch.pointer {
        None => None,
        Some(p) => {
            let v = p.clone().load(None);
            match &sch.offset {
                None => Some(v),
                Some(o) => {
                    let i = match o.clone().load(None) {
                        Value::Integer(i) => i,
                        _ => return Err(Error::InvalidOperand),
                    };
                    match v.i_add(Value::Integer(i), module) {
                        Ok(w) => Some(w),
                        Err(e) => return Err(e),
                    }
                },
            }
        },
    };
    let integer = match &sch.integer {
        None => None,
        Some(i) => match i.clone().load(None) {
            Value::Integer(x) => Some(x),
            _ => return Err(Error::InvalidOperand),
        },
    };
    match (pointer, integer) {
        (Some(Value::Pointer(p)), Some(i)) => Ok(Some(Value::Schrodinger { pointer_variable: p, loaded_integer: i })),
        (Some(_), Some(_)) => Err(Error::InvalidOperand),
        (Some(p), None) => Ok(Some(p)),
        (None, Some(i)) => Ok(Some(Value::Integer(i))),
        (None, None) => Ok(None),
    }
}

/// Stores `v` into a local that may hold an address.
fn schrodinger_store(sch: &Schrodinger, v: Value, module: &ModuleBuilder) -> (r: Result<(Schrodinger, Vec<Operation>), Error>)
    ensures
        match r {
            Ok((sch2, ops)) => spec_schrodinger_store(*sch, v, module.wasm_memory64) == Ok::<
                (Schrodinger, Seq<Operation>),
                Error,
            >((sch2, ops@)),
            Err(e) => spec_schrodinger_store(*sch, v, module.wasm_memory64) == Err::<(Schrodinger, Seq<Operation>), Error>(e),
        },
{
    let isize = module.isize_type();
    match v {
        Value::Integer(x) => {
            let var = match &sch.integer {
                Some(var) => var.clone(),
                None => make_function_variable(Type::Scalar(isize), None, &sch.decorators),
            };
            let mut ops: Vec<Operation> = Vec::new();
            ops.push(var.clone().store(Value::Integer(x), None));
            let pointer = match &sch.pointer {
                Some(p) => Some(p.clone()),
                None => None,
            };
            let offset = match &sch.offset {
                Some(p) => Some(p.clone()),
                None => None,
            };
            let sch2 = Schrodinger { pointer, offset, integer: Some(var), decorators: sch.decorators.clone() };
            proof {
                let spec_r = spec_schrodinger_store(*sch, v, module.wasm_memory64);
                assert(spec_r->Ok_0.1 =~= ops@);
            }
            Ok((sch2, ops))
        },
        Value::Pointer(p) => {
            let (bare, offset) = match &p.kind {
                PointerKind::Fat { byte_offset: Some(o) } => (
                    Rc::new(Pointer::new(PointerKind::fat(), p.storage_class, type_clone(&p.pointee), p.source.clone_source())),
                    Some(o.clone()),
                ),
                _ => (p.clone(), None),
            };
            assert((bare, offset) == spec_take_byte_offset(p));
            let var = match &sch.pointer {
                Some(var) => var.clone(),
                None => make_function_variable(
                    Type::pointer(bare.kind.to_pointer_size(), bare.storage_class, type_clone(&bare.pointee)),
                    None,
                    &sch.decorators,
                ),
            };
            let mut ops: Vec<Operation> = Vec::new();
            ops.push(var.clone().store(Value::Pointer(bare), None));
            let offset_var = match offset {
                Some(o) => {
                    let ov = match &sch.offset {
                        Some(ov) => ov.clone(),
                        None => make_function_variable(
                            Type::Scalar(isize),
                            Some(Value::Integer(Rc::new(Integer::new_constant_usize(0, module)))),
                            &sch.decorators,
                        ),
                    };
                    ops.push(ov.clone().store(Value::Integer(o), None));
                    Some(ov)
                },
                None => match &sch.offset {
                    Some(ov) => {
                        ops.push(ov.clone().store(Value::Integer(Rc::new(Integer::new_constant_usize(0, module))), None));
                        Some(ov.clone())
                    },
                    None => None,
                },
            };
            let integer = match &sch.integer {
                Some(p) => Some(p.clone()),
                None => None,
            };
            let sch2 = Schrodinger { pointer: Some(var), offset: offset_var, integer, decorators: sch.decorators.clone() };
            proof {
                let spec_r = spec_schrodinger_store(*sch, v, module.wasm_memory64);
                assert(spec_r is Ok);
                assert(spec_r->Ok_0.0 == sch2);
                assert(spec_r->Ok_0.1 =~= ops@);
            }
            Ok((sch2, ops))
        },
        _ => Err(Error::Unexpected),
    }
}

/// `local.set` or `local.tee` of the local `i`.
fn local_set(i: u32, tee: bool, block: &mut BlockBuilder, function: &mut FunctionBuilder, module: &ModuleBuilder) -> (r: Result<TranslationResult, Error>)
    ensures
        final(block).same_frame(*old(block)),
        (final(block).stack@, final(function).anchors@, final(function).local_variables@, r) == spec_local_set(
            i,
            tee,
            old(block).stack@,
            old(function).local_variables@,
            old(function).anchors@,
            module.addressing_model,
            module.wasm_memory64,
        ),
        final(function).same_but_body(*old(function)),
        final(function).entry_point == old(function).entry_point,
        final(function).next_label == old(function).next_label,
{
    let k = i as usize;
    if k >= function.local_variables.len() {
        return Err(Error::ElementNotFound);
    }
    let variable = match &function.local_variables[k] {
        Storeable::Pointer { variable, .. } => variable.clone(),
        Storeable::Schrodinger(sch) => {
            let sch = sch.clone();
            let value = if tee {
                block.stack_peek_any()
            } else {
                block.stack_pop_any()
            };
            let value = match value {
                Ok(v) => v,
                Err(e) => return Err(e),
            };
            let (sch2, ops) = match schrodinger_store(&sch, value, module) {
                Ok(x) => x,
                Err(e) => return Err(e),
            };
            let mut ops = ops;
            function.anchors.append(&mut ops);
            function.local_variables.set(k, Storeable::Schrodinger(Rc::new(sch2)));
            return Ok(TranslationResult::Found);
        },
    };
    let value = if tee {
        block.stack_peek(type_clone(&variable.pointee), module)
    } else {
        block.stack_pop(type_clone(&variable.pointee), module)
    };
    match value {
        Ok(v) => {
            function.anchors.push(variable.store(v, None));
            Ok(TranslationResult::Found)
        },
        Err(e) => Err(e),
    }
}

} // verus!
