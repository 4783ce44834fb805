//! Structured control flow: branches, returns and `select`, and the
//! translation of a run of instructions with its nested blocks and loops.
use vstd::prelude::*;
use std::rc::Rc;
use crate::block::{
    arith_allowed, spec_pop, spec_pop_any, spec_pop_int, spec_translate_all, translate_all, BlockBuilder, End, Operator,
    TranslationResult,
};
use crate::config::{capability_list, MemoryGrowErrorKind};
use crate::error::Error;
use crate::memory::{spec_memory_run, translate_memory_access};
use crate::variables::{spec_translate_variables, translate_variables, variables_allowed};
use crate::function_builder::{entry_interface, FunctionBuilder, Label, Operation, Storeable};
use crate::decorator::VariableDecorator;
use crate::module::{Builtin, CallableFunction, GlobalVariable, ModuleBuilder};
use crate::values::vector::Vector;
use crate::spv::{BuiltIn, Capability, CAPABILITY_GENERIC_POINTER, STORAGE_CLASS_GENERIC};
use crate::types::{type_clone, PointerSize, ScalarType, Type};
use crate::values::bool::{Bool, BoolSource};
use crate::values::float::{Float, FloatKind, FloatSource};
use crate::values::integer::{shared, Integer, IntegerKind, IntegerSource};
use crate::values::pointer::{spec_load, Pointer, PointerSource};
use crate::values::{spec_to_bool, spec_to_integer, Args, Value};

verus! {

/// What the blocks of a function share while its body is translated: the
/// anchors, the number of labels made so far, and the module's capability
/// model (whether it is static, and what it lists).
pub struct Shared {
    pub anchors: Seq<Operation>,
    pub labels: u64,
    pub caps_static: bool,
    pub caps: Seq<Capability>,
    /// The functions that calls go to.
    pub functions: Seq<CallableFunction>,
    /// The module's global variables.
    pub globals: Seq<GlobalVariable>,
    /// The function's locals.
    pub locals: Seq<Storeable>,
    /// The interface of the function's entry point, where it is one.
    pub interface: Option<Seq<Rc<Pointer>>>,
}

/// The shared state of a function and its module.
pub open spec fn shared_of(function: FunctionBuilder, module: ModuleBuilder) -> Shared {
    Shared {
        anchors: function.anchors@,
        labels: function.next_label,
        caps_static: module.capabilities is Static,
        caps: capability_list(module.capabilities),
        functions: module.functions@,
        globals: module.global_variables@,
        locals: function.local_variables@,
        interface: entry_interface(function),
    }
}

/// The label made when `n` labels have been made.
pub open spec fn fresh_label(n: u64) -> Rc<Label> {
    Rc::new(Label { id: n })
}

/// The number of labels after one more is made; it wraps around.
pub open spec fn next_id(n: u64) -> u64 {
    if n == u64::MAX {
        0
    } else {
        (n + 1) as u64
    }
}

/// `sh` with `ops` appended to its anchors.
pub open spec fn anchored(sh: Shared, ops: Seq<Operation>) -> Shared {
    Shared { anchors: sh.anchors + ops, labels: sh.labels, caps_static: sh.caps_static, caps: sh.caps, functions: sh.functions, globals: sh.globals, locals: sh.locals, interface: sh.interface }
}

/// `sh` after one label is made.
pub open spec fn labelled(sh: Shared) -> Shared {
    Shared { anchors: sh.anchors, labels: next_id(sh.labels), caps_static: sh.caps_static, caps: sh.caps, functions: sh.functions, globals: sh.globals, locals: sh.locals, interface: sh.interface }
}

/// Popping a boolean from `s`.
pub open spec fn spec_pop_bool(s: Seq<Value>, am: u32, memory64: bool) -> (Seq<Value>, Result<Rc<Bool>, Error>) {
    let (rest, v) = spec_pop(s, Type::Scalar(ScalarType::Bool), am, memory64);
    match v {
        Ok(Value::Bool(b)) => (rest, Ok(b)),
        Ok(_) => (rest, Err(Error::InvalidOperand)),
        Err(e) => (rest, Err(e)),
    }
}

/// The pointer size of a pointer kind.
pub open spec fn size_of_kind(p: Pointer) -> PointerSize {
    if p.kind is Skinny {
        PointerSize::Skinny
    } else {
        PointerSize::Fat
    }
}

/// The value that `select` picks from `t` and `f` when its selector is not
/// a constant, with the capability model that it leaves.
pub open spec fn spec_select_value(selector: Rc<Bool>, t: Value, f: Value, sh: Shared, am: u32, memory64: bool) -> (Shared, Result<Value, Error>) {
    match t {
        Value::Bool(tv) => (sh, match spec_to_bool(f) {
            Ok(fb) => Ok(Value::Bool(Rc::new(Bool { source: BoolSource::Select { selector, true_value: tv, false_value: Rc::new(fb) } }))),
            Err(e) => Err(e),
        }),
        Value::Integer(tv) => (sh, match tv.spec_kind(am) {
            Err(e) => Err(e),
            Ok(k) => match spec_to_integer(f, k, am, memory64) {
                Ok(fi) => Ok(Value::Integer(Rc::new(Integer {
                    source: IntegerSource::Select { selector, true_value: tv, false_value: Rc::new(fi) },
                }))),
                Err(e) => Err(e),
            },
        }),
        Value::Pointer(tv) => {
            let size = size_of_kind(*tv);
            let fp = match f {
                Value::Integer(x) => if sh.caps_static && !sh.caps.contains(CAPABILITY_GENERIC_POINTER) {
                    Err(Error::CapabilityNotEnabled(CAPABILITY_GENERIC_POINTER))
                } else {
                    Ok(Pointer {
                        kind: size.spec_pointer_kind(),
                        storage_class: STORAGE_CLASS_GENERIC,
                        pointee: tv.pointee,
                        source: PointerSource::FromInteger(x),
                    })
                },
                Value::Pointer(x) => Ok(Pointer {
                    kind: x.kind,
                    storage_class: x.storage_class,
                    pointee: tv.pointee,
                    source: PointerSource::Casted { prev: x },
                }),
                Value::Schrodinger { pointer_variable: x, .. } => Ok(Pointer {
                    kind: x.kind,
                    storage_class: x.storage_class,
                    pointee: tv.pointee,
                    source: PointerSource::Casted { prev: x },
                }),
                _ => Err(Error::InvalidOperand),
            };
            let caps = match f {
                Value::Integer(_) => if sh.caps_static || sh.caps.contains(CAPABILITY_GENERIC_POINTER) {
                    sh.caps
                } else {
                    sh.caps.push(CAPABILITY_GENERIC_POINTER)
                },
                _ => sh.caps,
            };
            (
                Shared { anchors: sh.anchors, labels: sh.labels, caps_static: sh.caps_static, caps, functions: sh.functions, globals: sh.globals, locals: sh.locals, interface: sh.interface },
                match fp {
                    Ok(p) => Ok(Value::Pointer(Rc::new(Pointer {
                        kind: size.spec_pointer_kind(),
                        storage_class: tv.storage_class,
                        pointee: tv.pointee,
                        source: PointerSource::Select { selector, true_value: tv, false_value: Rc::new(p) },
                    }))),
                    Err(e) => Err(e),
                },
            )
        },
        Value::Float(tv) => (sh, match f {
            Value::Float(fv) => Ok(Value::Float(Rc::new(Float {
                source: FloatSource::Select { selector, true_value: tv, false_value: fv },
            }))),
            _ => Err(Error::Unexpected),
        }),
        Value::Vector(_) => (sh, Err(Error::Unexpected)),
        Value::Schrodinger { .. } => (sh, Err(Error::Unexpected)),
    }
}

/// `select`: pops a boolean selector, a false operand and a true operand,
/// and pushes the one that the selector picks, or a selection between them.
pub open spec fn spec_select(s: Seq<Value>, sh: Shared, am: u32, memory64: bool) -> (Seq<Value>, Shared, Result<TranslationResult, Error>) {
    let (s1, sel) = spec_pop_bool(s, am, memory64);
    let (s2, f) = spec_pop_any(s1);
    let (s3, t) = spec_pop_any(s2);
    match (sel, f, t) {
        (Err(e), _, _) => (s1, sh, Err(e)),
        (_, Err(e), _) => (s2, sh, Err(e)),
        (_, _, Err(e)) => (s3, sh, Err(e)),
        (Ok(sel), Ok(f), Ok(t)) => match sel.spec_constant() {
            Err(e) => (s3, sh, Err(e)),
            Ok(Some(true)) => (s3.push(t), sh, Ok(TranslationResult::Found)),
            Ok(Some(false)) => (s3.push(f), sh, Ok(TranslationResult::Found)),
            Ok(None) => {
                let (sh1, v) = spec_select_value(sel, t, f, sh, am, memory64);
                match v {
                    Ok(v) => (s3.push(v), sh1, Ok(TranslationResult::Found)),
                    Err(e) => (s3, sh1, Err(e)),
                }
            },
        },
    }
}

/// Whether `select` on the stack `s` is one that is translated: it is not
/// one between two vectors on a selector that is not a constant.
pub open spec fn select_allowed(op: Operator, s: Seq<Value>, am: u32, memory64: bool) -> bool {
    op is Select ==> {
        let (s1, sel) = spec_pop_bool(s, am, memory64);
        !(s1.len() >= 2 && s1.last() is Vector && s1[s1.len() - 2] is Vector && (sel matches Ok(b)
            && b.spec_constant() == Ok::<Option<bool>, Error>(None)))
    }
}

/// Popping the arguments of a call to a function with parameters `params`
/// onto the front of `acc`: the last parameter's value is on top.
pub open spec fn spec_pop_args(s: Seq<Value>, params: Seq<ScalarType>, acc: Args, am: u32, memory64: bool) -> (Seq<Value>, Result<Args, Error>)
    decreases params.len(),
{
    if params.len() == 0 {
        (s, Ok(acc))
    } else {
        let (s1, v) = spec_pop(s, Type::Scalar(params.last()), am, memory64);
        match v {
            Err(e) => (s1, Err(e)),
            Ok(v) => spec_pop_args(s1, params.drop_last(), Args::Cons(v, Rc::new(acc)), am, memory64),
        }
    }
}

/// Whether `p` is a variable decorated as the built-in `b`.
pub open spec fn is_builtin_variable(p: Pointer, b: BuiltIn) -> bool {
    p.source matches PointerSource::Variable { decorators, .. } && decorators@.contains(VariableDecorator::BuiltIn(b))
}

/// Whether one of the variables `vars` is decorated as the built-in `b`.
pub open spec fn has_builtin(vars: Seq<Rc<Pointer>>, b: BuiltIn) -> bool {
    exists|j: int| 0 <= j < vars.len() && #[trigger] is_builtin_variable(*vars[j], b)
}

/// The element of `v` at `index`.
pub open spec fn spec_extract(v: Rc<Vector>, index: Rc<Integer>) -> Value {
    if v.element_type == ScalarType::I32 || v.element_type == ScalarType::I64 {
        Value::Integer(Rc::new(Integer { source: IntegerSource::Extracted { vector: v, index } }))
    } else {
        Value::Float(Rc::new(Float { source: FloatSource::Extracted { vector: v, index } }))
    }
}

/// A call of an imported built-in: its variable joins the entry point's
/// interface, unless a variable of the same built-in is there already;
/// then an output stores its 32-bit float argument into its variable, and
/// an input gives the component of its vector that its 32-bit integer
/// argument chooses.
pub open spec fn spec_builtin_call(b: Builtin, s: Seq<Value>, sh: Shared, am: u32, memory64: bool) -> (Seq<Value>, Shared, Result<TranslationResult, Error>) {
    let (variable, builtin) = match b {
        Builtin::Output { variable, builtin } => (variable, builtin),
        Builtin::Uint3Input { variable, builtin } => (variable, builtin),
    };
    let sh1 = match sh.interface {
        Some(vars) => if has_builtin(vars, builtin) {
            sh
        } else {
            Shared { interface: Some(vars.push(variable)), ..sh }
        },
        None => sh,
    };
    match b {
        Builtin::Output { .. } => {
            let (s1, v) = spec_pop(s, Type::Scalar(ScalarType::F32), am, memory64);
            match v {
                Err(e) => (s1, sh1, Err(e)),
                Ok(v) => (
                    s1,
                    anchored(sh1, seq![Operation::Store { target: variable, value: v, log2_alignment: None }]),
                    Ok(TranslationResult::Found),
                ),
            }
        },
        Builtin::Uint3Input { .. } => {
            let (s1, i) = spec_pop_int(s, ScalarType::I32, am, memory64);
            match i {
                Err(e) => (s1, sh1, Err(e)),
                Ok(i) => match spec_load(variable, None) {
                    Value::Vector(v) => if v.element_type == ScalarType::Bool {
                        (s1, sh1, Err(Error::InvalidOperand))
                    } else {
                        (s1.push(spec_extract(v, Rc::new(i))), sh1, Ok(TranslationResult::Found))
                    },
                    _ => (s1, sh1, Err(Error::InvalidOperand)),
                },
            }
        },
    }
}

/// The variable of an imported built-in.
pub open spec fn builtin_variable(b: Builtin) -> Rc<Pointer> {
    match b {
        Builtin::Output { variable, .. } => variable,
        Builtin::Uint3Input { variable, .. } => variable,
    }
}

/// The built-in that an imported built-in stands for.
pub open spec fn builtin_number(b: Builtin) -> BuiltIn {
    match b {
        Builtin::Output { builtin, .. } => builtin,
        Builtin::Uint3Input { builtin, .. } => builtin,
    }
}

/// A built-in's variable joins the entry point's interface once: a second
/// call leaves the interface as the first call left it.
pub proof fn lemma_builtin_joins_interface_once(
    b: Builtin,
    s1: Seq<Value>,
    s2: Seq<Value>,
    sh: Shared,
    am: u32,
    memory64: bool,
)
    requires
        is_builtin_variable(*builtin_variable(b), builtin_number(b)),
    ensures
        ({
            let sh1 = spec_builtin_call(b, s1, sh, am, memory64).1;
            &&& spec_builtin_call(b, s2, sh1, am, memory64).1.interface == sh1.interface
            &&& sh.interface is Some ==> sh1.interface->0.contains(builtin_variable(b)) || has_builtin(sh.interface->0, builtin_number(b))
        }),
{
    let sh1 = spec_builtin_call(b, s1, sh, am, memory64).1;
    match sh.interface {
        Some(vars) => {
            if !has_builtin(vars, builtin_number(b)) {
                let vars1 = vars.push(builtin_variable(b));
                assert(vars1[vars.len() as int] == builtin_variable(b));
                assert(is_builtin_variable(*vars1[vars.len() as int], builtin_number(b)));
                assert(has_builtin(vars1, builtin_number(b)));
                assert(sh1.interface == Some(vars1));
            }
        },
        None => {},
    }
}

/// A call of `f`: an imported built-in reads or writes its variable;
/// another function's arguments are popped, then the value that it returns
/// is pushed, or the call is added where it returns nothing.
pub open spec fn spec_call(f: CallableFunction, s: Seq<Value>, sh: Shared, am: u32, memory64: bool) -> (Seq<Value>, Shared, Result<TranslationResult, Error>) {
    match f.builtin {
        Some(b) => spec_builtin_call(b, s, sh, am, memory64),
        None => spec_defined_call(f, s, sh, am, memory64),
    }
}

/// A call of a function of the module: pops its arguments, then pushes the
/// value that it returns, or adds the call where it returns nothing.
pub open spec fn spec_defined_call(f: CallableFunction, s: Seq<Value>, sh: Shared, am: u32, memory64: bool) -> (Seq<Value>, Shared, Result<TranslationResult, Error>) {
    let (s1, args) = spec_pop_args(s, f.params@, Args::Nil, am, memory64);
    match args {
        Err(e) => (s1, sh, Err(e)),
        Ok(args) => if f.results@.len() == 0 {
            (
                s1,
                anchored(sh, seq![Operation::FunctionCall { function_id: f.function_id, args: Rc::new(args) }]),
                Ok(TranslationResult::Found),
            )
        } else {
            let args = Rc::new(args);
            match f.results@[0] {
                ScalarType::I32 => (
                    s1.push(Value::Integer(Rc::new(Integer { source: IntegerSource::FunctionCall { function_id: f.function_id, args, kind: IntegerKind::Short } }))),
                    sh,
                    Ok(TranslationResult::Found),
                ),
                ScalarType::I64 => (
                    s1.push(Value::Integer(Rc::new(Integer { source: IntegerSource::FunctionCall { function_id: f.function_id, args, kind: IntegerKind::Long } }))),
                    sh,
                    Ok(TranslationResult::Found),
                ),
                ScalarType::F32 => (
                    s1.push(Value::Float(Rc::new(Float { source: FloatSource::FunctionCall { function_id: f.function_id, args, kind: FloatKind::Single } }))),
                    sh,
                    Ok(TranslationResult::Found),
                ),
                ScalarType::F64 => (
                    s1.push(Value::Float(Rc::new(Float { source: FloatSource::FunctionCall { function_id: f.function_id, args, kind: FloatKind::Double } }))),
                    sh,
                    Ok(TranslationResult::Found),
                ),
                ScalarType::Bool => (s1, sh, Err(Error::Unexpected)),
            }
        },
    }
}

/// Whether a call is one that is translated: one whose arguments could be
/// popped goes to a function with one result at most.
pub open spec fn call_allowed(op: Operator, s: Seq<Value>, sh: Shared, am: u32, memory64: bool) -> bool {
    match op {
        Operator::Call { function_index } => function_index < sh.functions.len() ==> {
            let f = sh.functions[function_index as int];
            f.builtin is None && spec_pop_args(s, f.params@, Args::Nil, am, memory64).1 is Ok ==> f.results@.len() <= 1
        },
        _ => true,
    }
}

/// The control instructions: a branch to an enclosing label, a conditional
/// branch, the end of a block or function, and `select`. Other instructions
/// are not found, and change nothing.
pub open spec fn spec_control(
    op: Operator,
    s: Seq<Value>,
    sh: Shared,
    end: End,
    labels: Seq<Rc<Label>>,
    am: u32,
    memory64: bool,
) -> (Seq<Value>, Shared, Result<TranslationResult, Error>) {
    match op {
        Operator::Br { relative_depth } => if relative_depth < labels.len() {
            (
                s,
                anchored(sh, seq![Operation::Branch { label: labels[relative_depth as int] }]),
                Ok(TranslationResult::Found),
            )
        } else {
            (s, sh, Err(Error::ElementNotFound))
        },
        Operator::BrIf { relative_depth } => if relative_depth >= labels.len() {
            (s, sh, Err(Error::ElementNotFound))
        } else {
            let (s1, c) = spec_pop_bool(s, am, memory64);
            match c {
                Err(e) => (s1, sh, Err(e)),
                Ok(condition) => {
                    let false_label = fresh_label(sh.labels);
                    (
                        s1,
                        labelled(anchored(sh, seq![
                            Operation::BranchConditional {
                                condition,
                                true_label: labels[relative_depth as int],
                                false_label,
                            },
                            Operation::Label(false_label),
                        ])),
                        Ok(TranslationResult::Found),
                    )
                },
            }
        },
        Operator::End | Operator::Return => match end {
            End::Return(Some(ty)) => {
                let (s1, v) = spec_pop(s, ty, am, memory64);
                match v {
                    Err(e) => (s1, sh, Err(e)),
                    Ok(v) => (s1, anchored(sh, seq![Operation::Return { value: Some(v) }]), Ok(TranslationResult::Eof)),
                }
            },
            End::Return(None) => (s, anchored(sh, seq![Operation::Return { value: None }]), Ok(TranslationResult::Eof)),
            End::Unreachable => (s, sh, Ok(TranslationResult::Eof)),
        },
        Operator::Select => spec_select(s, sh, am, memory64),
        Operator::Call { function_index } => if function_index < sh.functions.len() {
            spec_call(sh.functions[function_index as int], s, sh, am, memory64)
        } else {
            (s, sh, Err(Error::ElementNotFound))
        },
        _ => (s, sh, Ok(TranslationResult::NotFound)),
    }
}

/// Translates a control instruction: a branch to an enclosing label, a
/// conditional branch, the end of the block or function, or `select`.
pub fn translate_control_flow(
    op: &Operator,
    block: &mut BlockBuilder,
    function: &mut FunctionBuilder,
    module: &mut ModuleBuilder,
) -> (r: Result<TranslationResult, Error>)
    requires
        select_allowed(*op, old(block).stack@, old(module).addressing_model, old(module).wasm_memory64),
        call_allowed(
            *op,
            old(block).stack@,
            shared_of(*old(function), *old(module)),
            old(module).addressing_model,
            old(module).wasm_memory64,
        ),
    ensures
        ({
            let (s, sh, res) = spec_control(
                *op,
                old(block).stack@,
                shared_of(*old(function), *old(module)),
                old(block).end,
                old(block).outer_labels@,
                old(module).addressing_model,
                old(module).wasm_memory64,
            );
            &&& final(block).stack@ == s
            &&& shared_of(*final(function), *final(module)) == sh
            &&& r == res
        }),
        r == Ok::<TranslationResult, Error>(TranslationResult::NotFound) ==> final(block).stack@ == old(block).stack@
            && shared_of(*final(function), *final(module)) == shared_of(*old(function), *old(module)),
        final(block).same_frame(*old(block)),
        final(function).same_but_body(*old(function)),
        final(module).same_but_capabilities(*old(module)),
{
    match op {
        Operator::Br { relative_depth } => {
            let d = *relative_depth as usize;
            if d < block.outer_labels.len() {
                let label = block.outer_labels[d].clone();
                function.anchors.push(Operation::Branch { label });
                proof {
                    assert(function.anchors@ =~= old(function).anchors@ + seq![Operation::Branch { label: old(block).outer_labels@[d as int] }]);
                }
                Ok(TranslationResult::Found)
            } else {
                Err(Error::ElementNotFound)
            }
        },
        Operator::BrIf { relative_depth } => {
            let d = *relative_depth as usize;
            if d >= block.outer_labels.len() {
                return Err(Error::ElementNotFound);
            }
            let true_label = block.outer_labels[d].clone();
            let condition = match block.stack_pop(Type::Scalar(ScalarType::Bool), module) {
                Ok(v) => match v.into_bool() {
                    Ok(b) => b,
                    Err(e) => return Err(e),
                },
                Err(e) => return Err(e),
            };
            let false_label = function.new_label();
            function.anchors.push(Operation::BranchConditional { condition, true_label, false_label: false_label.clone() });
            function.anchors.push(Operation::Label(false_label));
            proof {
                assert(function.anchors@ =~= old(function).anchors@ + seq![
                    Operation::BranchConditional {
                        condition,
                        true_label: old(block).outer_labels@[d as int],
                        false_label: fresh_label(old(function).next_label),
                    },
                    Operation::Label(fresh_label(old(function).next_label)),
                ]);
            }
            Ok(TranslationResult::Found)
        },
        Operator::End | Operator::Return => {
            let value = match &block.end {
                End::Return(Some(ty)) => match block.stack_pop(type_clone(ty), module) {
                    Ok(v) => Some(v),
                    Err(e) => return Err(e),
                },
                End::Return(None) => None,
                End::Unreachable => return Ok(TranslationResult::Eof),
            };
            let ghost v = value;
            function.anchors.push(Operation::Return { value });
            proof {
                assert(function.anchors@ =~= old(function).anchors@ + seq![Operation::Return { value: v }]);
            }
            Ok(TranslationResult::Eof)
        },
        Operator::Select => translate_select(block, function, module),
        Operator::Call { function_index } => {
            let i = *function_index as usize;
            if i >= module.functions.len() {
                return Err(Error::ElementNotFound);
            }
            call_function(&module.functions[i], block, function, module)
        },
        _ => Ok(TranslationResult::NotFound),
    }
}

/// Calls `f`: pops its arguments, then pushes the value that it returns, or
/// adds the call where it returns nothing.
fn call_function(f: &CallableFunction, block: &mut BlockBuilder, function: &mut FunctionBuilder, module: &ModuleBuilder) -> (r: Result<TranslationResult, Error>)
    requires
        f.builtin is None && spec_pop_args(old(block).stack@, f.params@, Args::Nil, module.addressing_model, module.wasm_memory64).1 is Ok
            ==> f.results@.len() <= 1,
    ensures
        ({
            let (s, sh, res) = spec_call(*f, old(block).stack@, shared_of(*old(function), *module), module.addressing_model, module.wasm_memory64);
            &&& final(block).stack@ == s
            &&& shared_of(*final(function), *module) == sh
            &&& r == res
        }),
        final(block).same_frame(*old(block)),
        final(function).same_but_body(*old(function)),
        final(function).next_label == old(function).next_label,
{
    match &f.builtin {
        Some(b) => return call_builtin(b, block, function, module),
        None => {},
    }
    let ghost am = module.addressing_model;
    let ghost m64 = module.wasm_memory64;
    let ghost target = spec_pop_args(block.stack@, f.params@, Args::Nil, am, m64);
    let mut acc = Args::Nil;
    let mut i = f.params.len();
    proof {
        assert(f.params@.take(i as int) =~= f.params@);
    }
    while i > 0
        invariant
            i <= f.params@.len(),
            am == module.addressing_model,
            m64 == module.wasm_memory64,
            block.same_frame(*old(block)),
            f.builtin is None,
            *function == *old(function),
            spec_pop_args(block.stack@, f.params@.take(i as int), acc, am, m64) == target,
            target == spec_pop_args(old(block).stack@, f.params@, Args::Nil, am, m64),
        decreases i,
    {
        let ty = f.params[i - 1];
        proof {
            assert(f.params@.take(i as int).drop_last() =~= f.params@.take(i as int - 1));
        }
        match block.stack_pop(Type::Scalar(ty), module) {
            Ok(v) => {
                acc = Args::Cons(v, Rc::new(acc));
            },
            Err(e) => return Err(e),
        }
        i = i - 1;
    }
    proof {
        assert(f.params@.take(0) =~= Seq::<ScalarType>::empty());
    }
    let args = Rc::new(acc);
    if f.results.len() == 0 {
        let ghost a = function.anchors@;
        let op = Operation::FunctionCall { function_id: f.function_id, args };
        function.anchors.push(op);
        assert(function.anchors@ =~= a + seq![op]);
        return Ok(TranslationResult::Found);
    }
    let value = match f.results[0] {
        ScalarType::I32 => Value::Integer(Rc::new(Integer::new(IntegerSource::FunctionCall { function_id: f.function_id, args, kind: IntegerKind::Short }))),
        ScalarType::I64 => Value::Integer(Rc::new(Integer::new(IntegerSource::FunctionCall { function_id: f.function_id, args, kind: IntegerKind::Long }))),
        ScalarType::F32 => Value::Float(Rc::new(Float::new(FloatSource::FunctionCall { function_id: f.function_id, args, kind: FloatKind::Single }))),
        ScalarType::F64 => Value::Float(Rc::new(Float::new(FloatSource::FunctionCall { function_id: f.function_id, args, kind: FloatKind::Double }))),
        ScalarType::Bool => return Err(Error::Unexpected),
    };
    block.stack_push(value);
    Ok(TranslationResult::Found)
}

/// Whether the decorations `decorators` hold the built-in `b`.
fn decorates_builtin(decorators: &Rc<Vec<VariableDecorator>>, b: BuiltIn) -> (r: bool)
    ensures
        r == decorators@.contains(VariableDecorator::BuiltIn(b)),
{
    let mut d: usize = 0;
    while d < decorators.len()
        invariant
            d <= decorators@.len(),
            forall|e: int| 0 <= e < d ==> decorators@[e] != VariableDecorator::BuiltIn(b),
        decreases decorators.len() - d,
    {
        if decorators[d] == VariableDecorator::BuiltIn(b) {
            assert(decorators@[d as int] == VariableDecorator::BuiltIn(b));
            return true;
        }
        d = d + 1;
    }
    false
}

/// Whether one of the variables `vars` is decorated as the built-in `b`.
fn holds_builtin(vars: &Vec<Rc<Pointer>>, b: BuiltIn) -> (r: bool)
    ensures
        r == has_builtin(vars@, b),
{
    let mut j: usize = 0;
    while j < vars.len()
        invariant
            j <= vars.len(),
            forall|k: int| 0 <= k < j ==> !is_builtin_variable(#[trigger] *vars@[k], b),
        decreases vars.len() - j,
    {
        let found = match &vars[j].source {
            PointerSource::Variable { decorators, .. } => decorates_builtin(decorators, b),
            _ => false,
        };
        if found {
            assert(is_builtin_variable(*vars@[j as int], b));
            return true;
        }
        assert(!is_builtin_variable(*vars@[j as int], b));
        j = j + 1;
    }
    false
}

/// Calls an imported built-in.
fn call_builtin(b: &Builtin, block: &mut BlockBuilder, function: &mut FunctionBuilder, module: &ModuleBuilder) -> (r: Result<TranslationResult, Error>)
    ensures
        ({
            let (s, sh, res) = spec_builtin_call(*b, old(block).stack@, shared_of(*old(function), *module), module.addressing_model, module.wasm_memory64);
            &&& final(block).stack@ == s
            &&& shared_of(*final(function), *module) == sh
            &&& r == res
        }),
        final(block).same_frame(*old(block)),
        final(function).same_but_body(*old(function)),
        final(function).next_label == old(function).next_label,
{
    let (variable, builtin) = match b {
        Builtin::Output { variable, builtin } => (variable.clone(), *builtin),
        Builtin::Uint3Input { variable, builtin } => (variable.clone(), *builtin),
    };
    match &mut function.entry_point {
        Some(ep) => {
            if !holds_builtin(&ep.interface, builtin) {
                ep.interface.push(variable.clone());
            }
        },
        None => {},
    }
    match b {
        Builtin::Output { .. } => {
            let value = match block.stack_pop(Type::Scalar(ScalarType::F32), module) {
                Ok(v) => v,
                Err(e) => return Err(e),
            };
            let ghost a = function.anchors@;
            let op = variable.store(value, None);
            function.anchors.push(op);
            assert(function.anchors@ =~= a + seq![op]);
            Ok(TranslationResult::Found)
        },
        Builtin::Uint3Input { .. } => {
            let index = match block.stack_pop(Type::Scalar(ScalarType::I32), module) {
                Ok(Value::Integer(i)) => i,
                Ok(_) => return Err(Error::InvalidOperand),
                Err(e) => return Err(e),
            };
            let vector = match variable.load(None) {
                Value::Vector(v) => v,
                _ => return Err(Error::InvalidOperand),
            };
            if vector.element_type == ScalarType::Bool {
                return Err(Error::InvalidOperand);
            }
            block.stack_push(vector.extract(index));
            Ok(TranslationResult::Found)
        },
    }
}

fn translate_select(block: &mut BlockBuilder, function: &mut FunctionBuilder, module: &mut ModuleBuilder) -> (r: Result<TranslationResult, Error>)
    requires
        select_allowed(Operator::Select, old(block).stack@, old(module).addressing_model, old(module).wasm_memory64),
    ensures
        ({
            let (s, sh, res) = spec_select(
                old(block).stack@,
                shared_of(*old(function), *old(module)),
                old(module).addressing_model,
                old(module).wasm_memory64,
            );
            &&& final(block).stack@ == s
            &&& shared_of(*final(function), *final(module)) == sh
            &&& r == res
        }),
        final(block).same_frame(*old(block)),
        *final(function) == *old(function),
        final(module).same_but_capabilities(*old(module)),
{
    let selector = match block.stack_pop(Type::Scalar(ScalarType::Bool), module) {
        Ok(v) => match v.into_bool() {
            Ok(b) => b,
            Err(e) => return Err(e),
        },
        Err(e) => return Err(e),
    };
    let false_operand = match block.stack_pop_any() {
        Ok(v) => v,
        Err(e) => return Err(e),
    };
    let true_operand = match block.stack_pop_any() {
        Ok(v) => v,
        Err(e) => return Err(e),
    };
    let constant = match selector.get_constant_value() {
        Ok(c) => c,
        Err(e) => return Err(e),
    };
    let value = match constant {
        Some(true) => true_operand,
        Some(false) => false_operand,
        None => match true_operand {
            Value::Bool(true_value) => {
                let false_value = match false_operand.to_bool() {
                    Ok(b) => b,
                    Err(e) => return Err(e),
                };
                Value::Bool(Rc::new(Bool::new(BoolSource::Select { selector, true_value, false_value })))
            },
            Value::Integer(true_value) => {
                let kind = match true_value.kind(module) {
                    Ok(k) => k,
                    Err(e) => return Err(e),
                };
                let false_value = match false_operand.to_integer(kind, module) {
                    Ok(i) => i,
                    Err(e) => return Err(e),
                };
                Value::Integer(Rc::new(Integer::new(IntegerSource::Select { selector, true_value, false_value })))
            },
            Value::Pointer(true_value) => {
                let pointee = type_clone(&true_value.pointee);
                let storage_class = true_value.storage_class;
                let size = true_value.kind.to_pointer_size();
                let false_value = match false_operand.to_pointer(size, type_clone(&pointee), module) {
                    Ok(p) => p,
                    Err(e) => return Err(e),
                };
                Value::Pointer(Rc::new(Pointer::new(
                    size.to_pointer_kind(),
                    storage_class,
                    pointee,
                    PointerSource::Select { selector, true_value, false_value },
                )))
            },
            Value::Float(true_value) => match false_operand {
                Value::Float(false_value) => Value::Float(Rc::new(Float::new(FloatSource::Select { selector, true_value, false_value }))),
                _ => return Err(Error::Unexpected),
            },
            Value::Vector(_) => return Err(Error::Unexpected),
            Value::Schrodinger { .. } => return Err(Error::Unexpected),
        },
    };
    block.stack_push(value);
    Ok(TranslationResult::Found)
}

/// The position just after the `End` that closes the block whose
/// instructions start at `from`, `depth` blocks further in than `from`; or
/// `hi` when no instruction before `hi` closes it.
pub open spec fn matching_end(ops: Seq<Operator>, from: int, hi: int, depth: nat) -> int
    decreases hi - from,
{
    if from >= hi {
        hi
    } else {
        match ops[from] {
            Operator::Block | Operator::Loop => matching_end(ops, from + 1, hi, depth + 1),
            Operator::End => if depth == 0 {
                from + 1
            } else {
                matching_end(ops, from + 1, hi, (depth - 1) as nat)
            },
            _ => matching_end(ops, from + 1, hi, depth),
        }
    }
}

/// The end of a block lies after its start and no further than `hi`.
pub proof fn lemma_matching_end_bounds(ops: Seq<Operator>, from: int, hi: int, depth: nat)
    requires
        from <= hi,
    ensures
        from <= matching_end(ops, from, hi, depth) <= hi,
        from < hi ==> from < matching_end(ops, from, hi, depth),
    decreases hi - from,
{
    if from < hi {
        match ops[from] {
            Operator::Block | Operator::Loop => lemma_matching_end_bounds(ops, from + 1, hi, depth + 1),
            Operator::End => if depth != 0 {
                lemma_matching_end_bounds(ops, from + 1, hi, (depth - 1) as nat);
            },
            _ => lemma_matching_end_bounds(ops, from + 1, hi, depth),
        }
    }
}

/// How many more blocks and loops open than `End`s close among the
/// instructions from `from` up to, not including, `to`.
pub open spec fn nesting(ops: Seq<Operator>, from: int, to: int) -> int
    decreases to - from,
{
    if to <= from {
        0
    } else {
        nesting(ops, from, to - 1) + match ops[to - 1] {
            Operator::Block | Operator::Loop => 1int,
            Operator::End => -1int,
            _ => 0int,
        }
    }
}

/// A branch is split just after its closing `End`: when the instructions
/// from `from` up to `k` are balanced (every block or loop among them is
/// closed among them, and no `End` among them closes more than they open)
/// and the instruction at `k` is an `End`, the branch that starts at
/// `from` ends just after `k`, whatever follows.
pub proof fn lemma_split_after_balanced_end(ops: Seq<Operator>, from: int, k: int, hi: int)
    requires
        0 <= from <= k < hi <= ops.len(),
        ops[k] is End,
        nesting(ops, from, k) == 0,
        forall|j: int| from <= j <= k ==> #[trigger] nesting(ops, from, j) >= 0,
    ensures
        matching_end(ops, from, hi, 0) == k + 1,
{
    lemma_split_from(ops, from, from, k, hi);
}

proof fn lemma_split_from(ops: Seq<Operator>, from: int, j: int, k: int, hi: int)
    requires
        0 <= from <= j <= k < hi <= ops.len(),
        ops[k] is End,
        nesting(ops, from, k) == 0,
        forall|i: int| from <= i <= k ==> #[trigger] nesting(ops, from, i) >= 0,
    ensures
        matching_end(ops, j, hi, nesting(ops, from, j) as nat) == k + 1,
    decreases k - j,
{
    let d = nesting(ops, from, j);
    assert(d >= 0);
    if j < k {
        assert(nesting(ops, from, j + 1) >= 0);
        assert(nesting(ops, from, j + 1) == d + match ops[j] {
            Operator::Block | Operator::Loop => 1int,
            Operator::End => -1int,
            _ => 0int,
        });
        lemma_split_from(ops, from, j + 1, k, hi);
    }
}

/// The position just after the `End` that closes the block whose
/// instructions start at `from`, or `hi` when none before `hi` does.
pub fn split_branch(ops: &Vec<Operator>, from: usize, hi: usize) -> (r: usize)
    requires
        from <= hi <= ops.len(),
    ensures
        r == matching_end(ops@, from as int, hi as int, 0),
{
    let mut depth: usize = 0;
    let mut i = from;
    while i < hi
        invariant
            from <= i <= hi <= ops.len(),
            depth <= i - from,
            matching_end(ops@, i as int, hi as int, depth as nat) == matching_end(ops@, from as int, hi as int, 0),
        decreases hi - i,
    {
        match ops[i] {
            Operator::Block | Operator::Loop => {
                depth = depth + 1;
            },
            Operator::End => {
                if depth == 0 {
                    return i + 1;
                }
                depth = depth - 1;
            },
            _ => {},
        }
        i = i + 1;
    }
    hi
}

/// One instruction other than a block or loop: a control instruction, a
/// load or store, or else one of the others; each translation that does
/// not know the instruction leaves the state as it was.
pub open spec fn spec_step(
    op: Operator,
    s: Seq<Value>,
    sh: Shared,
    end: End,
    labels: Seq<Rc<Label>>,
    am: u32,
    memory64: bool,
    policy: MemoryGrowErrorKind,
) -> (Seq<Value>, Shared, Result<TranslationResult, Error>) {
    let (s1, sh1, r1) = spec_control(op, s, sh, end, labels, am, memory64);
    if r1 != Ok::<TranslationResult, Error>(TranslationResult::NotFound) {
        (s1, sh1, r1)
    } else {
        let (s2, sh2, r2, _) = spec_memory_run(op, s1, sh1, am, memory64);
        if r2 != Ok::<TranslationResult, Error>(TranslationResult::NotFound) {
            (s2, sh2, r2)
        } else {
            let (s3, a3, l3, r3) = spec_translate_variables(op, s2, sh2.locals, sh2.anchors, sh2.globals, am, memory64);
            if r3 != Ok::<TranslationResult, Error>(TranslationResult::NotFound) {
                (s3, Shared { anchors: a3, locals: l3, ..sh2 }, r3)
            } else {
                let (s4, r4) = spec_translate_all(op, s3, am, memory64, policy);
                (s4, sh2, r4)
            }
        }
    }
}

/// Whether an instruction on the stack `s` is one that is translated.
pub open spec fn step_allowed(op: Operator, s: Seq<Value>, sh: Shared, am: u32, memory64: bool) -> bool {
    &&& select_allowed(op, s, am, memory64)
    &&& call_allowed(op, s, sh, am, memory64)
    &&& variables_allowed(op, sh.locals)
    &&& spec_memory_run(op, s, sh, am, memory64).3
    &&& arith_allowed(op, s, am, memory64)
}

/// Whether an operation ends a block.
pub open spec fn terminates_block(op: Operation) -> bool {
    op is Return || op is Unreachable || op is Branch || op is BranchConditional
}

/// The anchors of a block after it is closed by the label `end_label`:
/// a branch to it, unless the block already ended, then the label.
pub open spec fn closed(anchors: Seq<Operation>, end_label: Rc<Label>) -> Seq<Operation> {
    if anchors.len() > 0 && terminates_block(anchors.last()) {
        anchors.push(Operation::Label(end_label))
    } else {
        anchors.push(Operation::Branch { label: end_label }).push(Operation::Label(end_label))
    }
}

/// The outcome of translating a run of instructions: the stack left, the
/// shared state, and whether it succeeded; `defined` is false where an
/// instruction of the run is not one that is translated.
pub struct Run {
    pub stack: Seq<Value>,
    pub shared: Shared,
    pub result: Result<(), Error>,
    pub defined: bool,
}

/// Translating the instructions `ops[lo..hi]` from the stack `s`, in a
/// block that ends as `end` inside the blocks whose labels are `labels`,
/// innermost first. A block or loop translates its instructions up to the
/// `End` that closes it as a block of its own, with an empty stack, and a
/// branch to depth 0 inside it goes to its end (a block) or its start (a
/// loop). The run stops at the first error, at the end of the block, or
/// at `hi`.
#[verifier::opaque]
pub open spec fn spec_run(
    ops: Seq<Operator>,
    lo: int,
    hi: int,
    s: Seq<Value>,
    sh: Shared,
    end: End,
    labels: Seq<Rc<Label>>,
    am: u32,
    memory64: bool,
    policy: MemoryGrowErrorKind,
) -> Run
    decreases hi - lo,
{
    if lo < 0 || lo >= hi {
        Run { stack: s, shared: sh, result: Ok(()), defined: true }
    } else {
        proof {
            lemma_matching_end_bounds(ops, lo + 1, hi, 0);
        }
        let e = matching_end(ops, lo + 1, hi, 0);
        match ops[lo] {
            Operator::Loop => {
                let start = fresh_label(sh.labels);
                let sh1 = labelled(anchored(sh, seq![Operation::Branch { label: start }, Operation::Label(start)]));
                let inner = spec_run(ops, lo + 1, e, Seq::empty(), sh1, End::Unreachable, seq![start] + labels, am, memory64, policy);
                if !inner.defined || inner.result is Err {
                    Run { stack: s, shared: inner.shared, result: inner.result, defined: inner.defined }
                } else {
                    spec_run(ops, e, hi, s, inner.shared, end, labels, am, memory64, policy)
                }
            },
            Operator::Block => {
                let start = fresh_label(sh.labels);
                let end_label = fresh_label(next_id(sh.labels));
                let sh1 = labelled(labelled(anchored(sh, seq![Operation::Branch { label: start }, Operation::Label(start)])));
                let inner = spec_run(ops, lo + 1, e, Seq::empty(), sh1, End::Unreachable, seq![end_label] + labels, am, memory64, policy);
                if !inner.defined || inner.result is Err {
                    Run { stack: s, shared: inner.shared, result: inner.result, defined: inner.defined }
                } else {
                    let sh2 = Shared {
                        anchors: closed(inner.shared.anchors, end_label),
                        labels: inner.shared.labels,
                        caps_static: inner.shared.caps_static,
                        caps: inner.shared.caps,
                        functions: inner.shared.functions,
                        globals: inner.shared.globals,
                        locals: inner.shared.locals,
                        interface: inner.shared.interface,
                    };
                    spec_run(ops, e, hi, s, sh2, end, labels, am, memory64, policy)
                }
            },
            op => {
                let (s1, sh1, r) = spec_step(op, s, sh, end, labels, am, memory64, policy);
                if !step_allowed(op, s, sh, am, memory64) {
                    Run { stack: s1, shared: sh1, result: Ok(()), defined: false }
                } else {
                    match r {
                        Err(err) => Run { stack: s1, shared: sh1, result: Err(err), defined: true },
                        Ok(TranslationResult::Found) => spec_run(ops, lo + 1, hi, s1, sh1, end, labels, am, memory64, policy),
                        Ok(TranslationResult::Eof) => Run { stack: s1, shared: sh1, result: Ok(()), defined: true },
                        Ok(TranslationResult::NotFound) => Run {
                            stack: s1,
                            shared: sh1,
                            result: Err(Error::UnknownInstruction),
                            defined: true,
                        },
                    }
                }
            },
        }
    }
}

/// A run that has reached `hi` is done.
pub proof fn lemma_run_done(
    ops: Seq<Operator>,
    hi: int,
    s: Seq<Value>,
    sh: Shared,
    end: End,
    labels: Seq<Rc<Label>>,
    am: u32,
    memory64: bool,
    policy: MemoryGrowErrorKind,
)
    ensures
        spec_run(ops, hi, hi, s, sh, end, labels, am, memory64, policy) == (Run { stack: s, shared: sh, result: Ok(()), defined: true }),
{
    reveal(spec_run);
}

/// A run that starts with a loop.
pub proof fn lemma_run_loop(
    ops: Seq<Operator>,
    lo: int,
    hi: int,
    s: Seq<Value>,
    sh: Shared,
    end: End,
    labels: Seq<Rc<Label>>,
    am: u32,
    memory64: bool,
    policy: MemoryGrowErrorKind,
)
    requires
        0 <= lo < hi <= ops.len(),
        ops[lo] is Loop,
    ensures
        ({
            let inner = loop_run(ops, lo + 1, hi, sh, labels, am, memory64, policy);
            spec_run(ops, lo, hi, s, sh, end, labels, am, memory64, policy) == if !inner.defined || inner.result is Err {
                Run { stack: s, shared: inner.shared, result: inner.result, defined: inner.defined }
            } else {
                spec_run(ops, matching_end(ops, lo + 1, hi, 0), hi, s, inner.shared, end, labels, am, memory64, policy)
            }
        }),
{
    reveal(spec_run);
}

/// A run that starts with a block.
pub proof fn lemma_run_block(
    ops: Seq<Operator>,
    lo: int,
    hi: int,
    s: Seq<Value>,
    sh: Shared,
    end: End,
    labels: Seq<Rc<Label>>,
    am: u32,
    memory64: bool,
    policy: MemoryGrowErrorKind,
)
    requires
        0 <= lo < hi <= ops.len(),
        ops[lo] is Block,
    ensures
        ({
            let inner = block_run(ops, lo + 1, hi, sh, labels, am, memory64, policy);
            spec_run(ops, lo, hi, s, sh, end, labels, am, memory64, policy) == if !inner.defined || inner.result is Err {
                Run { stack: s, shared: inner.shared, result: inner.result, defined: inner.defined }
            } else {
                spec_run(
                    ops,
                    matching_end(ops, lo + 1, hi, 0),
                    hi,
                    s,
                    Shared {
                        anchors: closed(inner.shared.anchors, fresh_label(next_id(sh.labels))),
                        labels: inner.shared.labels,
                        caps_static: inner.shared.caps_static,
                        caps: inner.shared.caps,
                        functions: inner.shared.functions,
                        globals: inner.shared.globals,
                        locals: inner.shared.locals,
                        interface: inner.shared.interface,
                    },
                    end,
                    labels,
                    am,
                    memory64,
                    policy,
                )
            }
        }),
{
    reveal(spec_run);
}

/// A run that starts with an instruction other than a block or loop.
pub proof fn lemma_run_step(
    ops: Seq<Operator>,
    lo: int,
    hi: int,
    s: Seq<Value>,
    sh: Shared,
    end: End,
    labels: Seq<Rc<Label>>,
    am: u32,
    memory64: bool,
    policy: MemoryGrowErrorKind,
)
    requires
        0 <= lo < hi <= ops.len(),
        !(ops[lo] is Block),
        !(ops[lo] is Loop),
    ensures
        ({
            let (s1, sh1, r) = spec_step(ops[lo], s, sh, end, labels, am, memory64, policy);
            spec_run(ops, lo, hi, s, sh, end, labels, am, memory64, policy) == if !step_allowed(ops[lo], s, sh, am, memory64) {
                Run { stack: s1, shared: sh1, result: Ok(()), defined: false }
            } else {
                match r {
                    Err(err) => Run { stack: s1, shared: sh1, result: Err(err), defined: true },
                    Ok(TranslationResult::Found) => spec_run(ops, lo + 1, hi, s1, sh1, end, labels, am, memory64, policy),
                    Ok(TranslationResult::Eof) => Run { stack: s1, shared: sh1, result: Ok(()), defined: true },
                    Ok(TranslationResult::NotFound) => Run {
                        stack: s1,
                        shared: sh1,
                        result: Err(Error::UnknownInstruction),
                        defined: true,
                    },
                }
            }
        }),
{
    reveal(spec_run);
}

fn clone_labels(labels: &Vec<Rc<Label>>) -> (r: Vec<Rc<Label>>)
    ensures
        r@ == labels@,
{
    let mut r: Vec<Rc<Label>> = Vec::new();
    let mut i: usize = 0;
    while i < labels.len()
        invariant
            i <= labels.len(),
            r@ == labels@.take(i as int),
        decreases labels.len() - i,
    {
        r.push(labels[i].clone());
        i = i + 1;
        assert(r@ =~= labels@.take(i as int));
    }
    assert(labels@.take(labels.len() as int) =~= labels@);
    r
}


/// The run of a loop whose instructions start at `from`.
pub open spec fn loop_run(
    ops: Seq<Operator>,
    from: int,
    hi: int,
    sh: Shared,
    labels: Seq<Rc<Label>>,
    am: u32,
    memory64: bool,
    policy: MemoryGrowErrorKind,
) -> Run {
    let start = fresh_label(sh.labels);
    let sh1 = labelled(anchored(sh, seq![Operation::Branch { label: start }, Operation::Label(start)]));
    spec_run(ops, from, matching_end(ops, from, hi, 0), Seq::empty(), sh1, End::Unreachable, seq![start] + labels, am, memory64, policy)
}

/// The run of a block whose instructions start at `from`.
pub open spec fn block_run(
    ops: Seq<Operator>,
    from: int,
    hi: int,
    sh: Shared,
    labels: Seq<Rc<Label>>,
    am: u32,
    memory64: bool,
    policy: MemoryGrowErrorKind,
) -> Run {
    let start = fresh_label(sh.labels);
    let end_label = fresh_label(next_id(sh.labels));
    let sh1 = labelled(labelled(anchored(sh, seq![Operation::Branch { label: start }, Operation::Label(start)])));
    spec_run(ops, from, matching_end(ops, from, hi, 0), Seq::empty(), sh1, End::Unreachable, seq![end_label] + labels, am, memory64, policy)
}

/// Translates the loop whose instructions start at `from`, and gives the
/// position after it.
fn run_loop(
    ops: &Vec<Operator>,
    from: usize,
    hi: usize,
    labels: &Vec<Rc<Label>>,
    function: &mut FunctionBuilder,
    module: &mut ModuleBuilder,
) -> (r: Result<usize, Error>)
    requires
        from <= hi <= ops.len(),
        loop_run(ops@, from as int, hi as int, shared_of(*old(function), *old(module)), labels@, old(module).addressing_model, old(module).wasm_memory64, old(module).memory_grow_error).defined,
    ensures
        ({
            let inner = loop_run(ops@, from as int, hi as int, shared_of(*old(function), *old(module)), labels@, old(module).addressing_model, old(module).wasm_memory64, old(module).memory_grow_error);
            &&& shared_of(*final(function), *final(module)) == inner.shared
            &&& match r {
                Ok(e) => inner.result is Ok && e == matching_end(ops@, from as int, hi as int, 0),
                Err(err) => inner.result == Err::<(), Error>(err),
            }
        }),
        final(function).same_but_body(*old(function)),
        final(module).same_but_capabilities(*old(module)),
    decreases hi - from, 2nat,
{
    let ghost sh = shared_of(*function, *module);
    let start = function.new_label();
    function.anchors.push(Operation::Branch { label: start.clone() });
    function.anchors.push(Operation::Label(start.clone()));
    let e = split_branch(ops, from, hi);
    proof {
        lemma_matching_end_bounds(ops@, from as int, hi as int, 0);
    }
    let mut inner_labels = clone_labels(labels);
    inner_labels.insert(0, start);
    proof {
        let l = fresh_label(sh.labels);
        assert(function.anchors@ =~= sh.anchors + seq![Operation::Branch { label: l }, Operation::Label(l)]);
        assert(inner_labels@ =~= seq![l] + labels@);
    }
    match translate_block(ops, from, e, inner_labels, End::Unreachable, function, module) {
        Ok(_) => Ok(e),
        Err(err) => Err(err),
    }
}

/// Translates the block whose instructions start at `from`, closes it, and
/// gives the position after it.
fn run_block(
    ops: &Vec<Operator>,
    from: usize,
    hi: usize,
    labels: &Vec<Rc<Label>>,
    function: &mut FunctionBuilder,
    module: &mut ModuleBuilder,
) -> (r: Result<usize, Error>)
    requires
        from <= hi <= ops.len(),
        block_run(ops@, from as int, hi as int, shared_of(*old(function), *old(module)), labels@, old(module).addressing_model, old(module).wasm_memory64, old(module).memory_grow_error).defined,
    ensures
        ({
            let sh = shared_of(*old(function), *old(module));
            let inner = block_run(ops@, from as int, hi as int, sh, labels@, old(module).addressing_model, old(module).wasm_memory64, old(module).memory_grow_error);
            match r {
                Ok(e) => inner.result is Ok && e == matching_end(ops@, from as int, hi as int, 0)
                    && shared_of(*final(function), *final(module)) == (Shared {
                    anchors: closed(inner.shared.anchors, fresh_label(next_id(sh.labels))),
                    labels: inner.shared.labels,
                    caps_static: inner.shared.caps_static,
                    caps: inner.shared.caps,
                    functions: inner.shared.functions,
                        globals: inner.shared.globals,
                        locals: inner.shared.locals,
                        interface: inner.shared.interface,
                }),
                Err(err) => inner.result == Err::<(), Error>(err) && shared_of(*final(function), *final(module)) == inner.shared,
            }
        }),
        final(function).same_but_body(*old(function)),
        final(module).same_but_capabilities(*old(module)),
    decreases hi - from, 2nat,
{
    let ghost sh = shared_of(*function, *module);
    let start = function.new_label();
    let end_label = function.new_label();
    function.anchors.push(Operation::Branch { label: start.clone() });
    function.anchors.push(Operation::Label(start.clone()));
    let e = split_branch(ops, from, hi);
    proof {
        lemma_matching_end_bounds(ops@, from as int, hi as int, 0);
    }
    let mut inner_labels = clone_labels(labels);
    inner_labels.insert(0, end_label.clone());
    proof {
        let l = fresh_label(sh.labels);
        assert(function.anchors@ =~= sh.anchors + seq![Operation::Branch { label: l }, Operation::Label(l)]);
        assert(inner_labels@ =~= seq![fresh_label(next_id(sh.labels))] + labels@);
    }
    match translate_block(ops, from, e, inner_labels, End::Unreachable, function, module) {
        Ok(_) => {},
        Err(err) => return Err(err),
    }
    let ghost inner_anchors = function.anchors@;
    let n = function.anchors.len();
    let terminated = n > 0 && function.anchors[n - 1].is_block_terminating();
    if !terminated {
        function.anchors.push(Operation::Branch { label: end_label.clone() });
    }
    function.anchors.push(Operation::Label(end_label));
    proof {
        assert(function.anchors@ =~= closed(inner_anchors, fresh_label(next_id(sh.labels))));
    }
    Ok(e)
}

/// Translates one instruction other than a block or loop.
fn run_step(op: &Operator, block: &mut BlockBuilder, function: &mut FunctionBuilder, module: &mut ModuleBuilder) -> (r: Result<TranslationResult, Error>)
    requires
        step_allowed(
            *op,
            old(block).stack@,
            shared_of(*old(function), *old(module)),
            old(module).addressing_model,
            old(module).wasm_memory64,
        ),
    ensures
        ({
            let (s, sh, res) = spec_step(
                *op,
                old(block).stack@,
                shared_of(*old(function), *old(module)),
                old(block).end,
                old(block).outer_labels@,
                old(module).addressing_model,
                old(module).wasm_memory64,
                old(module).memory_grow_error,
            );
            &&& final(block).stack@ == s
            &&& shared_of(*final(function), *final(module)) == sh
            &&& r == res
        }),
        final(block).same_frame(*old(block)),
        final(function).same_but_body(*old(function)),
        final(module).same_but_capabilities(*old(module)),
{
    match translate_control_flow(op, block, function, module) {
        Ok(TranslationResult::NotFound) => {},
        other => return other,
    }
    match translate_memory_access(op, block, function, module) {
        Ok(TranslationResult::NotFound) => {},
        other => return other,
    }
    match translate_variables(op, block, function, module) {
        Ok(TranslationResult::NotFound) => {},
        other => return other,
    }
    translate_all(op, block, module)
}

/// Translates the instruction at `pos`, with the block or loop that it
/// opens: gives the position to go on from, or `None` where the block
/// ended.
#[verifier::rlimit(40)]
fn advance(
    ops: &Vec<Operator>,
    pos: usize,
    hi: usize,
    block: &mut BlockBuilder,
    function: &mut FunctionBuilder,
    module: &mut ModuleBuilder,
) -> (r: Result<Option<usize>, Error>)
    requires
        pos < hi <= ops.len(),
        spec_run(
            ops@,
            pos as int,
            hi as int,
            old(block).stack@,
            shared_of(*old(function), *old(module)),
            old(block).end,
            old(block).outer_labels@,
            old(module).addressing_model,
            old(module).wasm_memory64,
            old(module).memory_grow_error,
        ).defined,
    ensures
        ({
            let run = spec_run(
                ops@,
                pos as int,
                hi as int,
                old(block).stack@,
                shared_of(*old(function), *old(module)),
                old(block).end,
                old(block).outer_labels@,
                old(module).addressing_model,
                old(module).wasm_memory64,
                old(module).memory_grow_error,
            );
            match r {
                Ok(Some(p)) => pos < p <= hi && spec_run(
                    ops@,
                    p as int,
                    hi as int,
                    final(block).stack@,
                    shared_of(*final(function), *final(module)),
                    old(block).end,
                    old(block).outer_labels@,
                    old(module).addressing_model,
                    old(module).wasm_memory64,
                    old(module).memory_grow_error,
                ) == run,
                Ok(None) => run == (Run {
                    stack: final(block).stack@,
                    shared: shared_of(*final(function), *final(module)),
                    result: Ok(()),
                    defined: true,
                }),
                Err(err) => run.result == Err::<(), Error>(err) && run.shared == shared_of(*final(function), *final(module)),
            }
        }),
        final(block).same_frame(*old(block)),
        final(function).same_but_body(*old(function)),
        final(module).same_but_capabilities(*old(module)),
    decreases hi - pos, 0nat,
{
    let ghost am = module.addressing_model;
    let ghost m64 = module.wasm_memory64;
    let ghost policy = module.memory_grow_error;
    proof {
        lemma_matching_end_bounds(ops@, pos as int + 1, hi as int, 0);
    }
    let op = ops[pos];
    match op {
        Operator::Loop => {
            proof {
                lemma_run_loop(ops@, pos as int, hi as int, block.stack@, shared_of(*function, *module), block.end, block.outer_labels@, am, m64, policy);
            }
            match run_loop(ops, pos + 1, hi, &block.outer_labels, function, module) {
                Ok(e) => Ok(Some(e)),
                Err(err) => Err(err),
            }
        },
        Operator::Block => {
            proof {
                lemma_run_block(ops@, pos as int, hi as int, block.stack@, shared_of(*function, *module), block.end, block.outer_labels@, am, m64, policy);
            }
            match run_block(ops, pos + 1, hi, &block.outer_labels, function, module) {
                Ok(e) => Ok(Some(e)),
                Err(err) => Err(err),
            }
        },
        _ => {
            proof {
                lemma_run_step(ops@, pos as int, hi as int, block.stack@, shared_of(*function, *module), block.end, block.outer_labels@, am, m64, policy);
            }
            match run_step(&op, block, function, module) {
                Ok(TranslationResult::Found) => Ok(Some(pos + 1)),
                Ok(TranslationResult::Eof) => Ok(None),
                Ok(TranslationResult::NotFound) => Err(Error::UnknownInstruction),
                Err(err) => Err(err),
            }
        },
    }
}

/// Translates the instructions `ops[lo..hi]` as a block that ends as `end`
/// inside the blocks whose labels are `labels`, innermost first, and gives
/// the block with the stack it leaves.
pub fn translate_block(
    ops: &Vec<Operator>,
    lo: usize,
    hi: usize,
    labels: Vec<Rc<Label>>,
    end: End,
    function: &mut FunctionBuilder,
    module: &mut ModuleBuilder,
) -> (r: Result<BlockBuilder, Error>)
    requires
        lo <= hi <= ops.len(),
        spec_run(
            ops@,
            lo as int,
            hi as int,
            Seq::empty(),
            shared_of(*old(function), *old(module)),
            end,
            labels@,
            old(module).addressing_model,
            old(module).wasm_memory64,
            old(module).memory_grow_error,
        ).defined,
    ensures
        ({
            let run = spec_run(
                ops@,
                lo as int,
                hi as int,
                Seq::empty(),
                shared_of(*old(function), *old(module)),
                end,
                labels@,
                old(module).addressing_model,
                old(module).wasm_memory64,
                old(module).memory_grow_error,
            );
            &&& shared_of(*final(function), *final(module)) == run.shared
            &&& match r {
                Ok(b) => run.result is Ok && b.stack@ == run.stack && b.end == end && b.outer_labels@ == labels@,
                Err(e) => run.result == Err::<(), Error>(e),
            }
        }),
        final(function).same_but_body(*old(function)),
        final(module).same_but_capabilities(*old(module)),
    decreases hi - lo, 1nat,
{
    let ghost am = module.addressing_model;
    let ghost m64 = module.wasm_memory64;
    let ghost policy = module.memory_grow_error;
    let ghost f0 = *function;
    let ghost m0 = *module;
    let ghost end0 = end;
    let ghost labels0 = labels@;
    let ghost run0 = spec_run(ops@, lo as int, hi as int, Seq::empty(), shared_of(*function, *module), end, labels@, am, m64, policy);
    let mut block = BlockBuilder { stack: Vec::new(), end, outer_labels: labels };
    let mut pos = lo;
    while pos < hi
        invariant
            lo <= pos <= hi <= ops.len(),
            am == m0.addressing_model,
            m64 == m0.wasm_memory64,
            policy == m0.memory_grow_error,
            block.end == end0,
            block.outer_labels@ == labels0,
            function.same_but_body(f0),
            module.same_but_capabilities(m0),
            f0 == *old(function),
            m0 == *old(module),
            end0 == end,
            labels0 == labels@,
            run0 == spec_run(ops@, lo as int, hi as int, Seq::empty(), shared_of(f0, m0), end0, labels0, am, m64, policy),
            run0.defined,
            spec_run(ops@, pos as int, hi as int, block.stack@, shared_of(*function, *module), end0, labels0, am, m64, policy)
                == run0,
        decreases hi - pos,
    {
        match advance(ops, pos, hi, &mut block, function, module) {
            Ok(Some(p)) => {
                pos = p;
            },
            Ok(None) => {
                return Ok(block);
            },
            Err(err) => {
                return Err(err);
            },
        }
    }
    proof {
        lemma_run_done(ops@, hi as int, block.stack@, shared_of(*function, *module), end0, labels0, am, m64, policy);
    }
    Ok(block)
}

} // verus!
