//! What the translations mean, stated over the values they build: where a
//! branch goes, where a pointer points after arithmetic, where a load or
//! store reaches, what a selection picks, and which built-in an import
//! names.
use vstd::prelude::*;
use vstd::arithmetic::div_mod::lemma_add_mod_noop;
use std::rc::Rc;
use crate::values::eval::{apply_binary, apply_to, apply_unary, eval, lemma_binary_folding_sound, same_width_constants};
use crate::values::integer::{BinarySource, ConstantSource, Integer, IntegerKind, IntegerSource, UnarySource};
use crate::block::spec_translate_arith;
use crate::values::pointer::{spec_access, spec_load, Pointer, PointerKind, PointerSource};
use crate::values::{spec_i_add, spec_i_sub, Value};
use crate::block::Operator;
use crate::control::{fresh_label, spec_control, spec_select, Shared};
use crate::block::End;
use crate::import::{builtin_of_name, builtin_shape};
use crate::decorator::VariableDecorator;
use crate::module::Builtin;
use crate::control::{builtin_variable, spec_builtin_call};
use crate::block::spec_convert;
use crate::values::vector::{Vector, VectorSource};
use crate::types::CompositeType;
use crate::spv::{
    BuiltIn, BUILTIN_FRAG_DEPTH, BUILTIN_GLOBAL_INVOCATION_ID, BUILTIN_LOCAL_INVOCATION_ID, BUILTIN_NUM_WORKGROUPS,
    BUILTIN_WORKGROUP_ID, BUILTIN_WORKGROUP_SIZE, STORAGE_CLASS_INPUT, STORAGE_CLASS_OUTPUT,
};
use crate::function_builder::Label;
use crate::values::bool::{Bool, BoolSource};
use crate::values::float::FloatSource;
use crate::values::spec_to_bool;
use crate::function_builder::Operation;
use crate::memory::{access_of, spec_memory_run, usize_constant};
use crate::types::{ScalarType, Type};

verus! {

/// The zero of the width of `c`.
pub open spec fn zero_like(c: ConstantSource) -> ConstantSource {
    match c {
        ConstantSource::Short(_) => ConstantSource::Short(0),
        ConstantSource::Long(_) => ConstantSource::Long(0),
    }
}

/// The byte offset of the fat pointer `p` where it is known, as a constant
/// of the width of `c`: zero where it has none.
pub open spec fn offset_value(p: Pointer, c: ConstantSource) -> Option<ConstantSource> {
    match p.kind {
        PointerKind::Fat { byte_offset: None } => Some(zero_like(c)),
        PointerKind::Fat { byte_offset: Some(o) } => eval(*o),
        PointerKind::Skinny => None,
    }
}

/// The integer behind a shared one.
spec fn shared_integer(r: Rc<Integer>) -> Integer {
    *r
}

/// The byte offset that the fat pointer `p` holds, where it holds one.
spec fn held_offset(p: Rc<Pointer>) -> Integer {
    match p.kind {
        PointerKind::Fat { byte_offset: Some(o) } => *o,
        _ => Integer { source: IntegerSource::Constant(ConstantSource::Short(0)) },
    }
}

/// Moving a fat pointer by `b` bytes adds `b` to its byte offset: where `b`
/// and the offset are known constants of one width, the new offset is
/// their sum.
pub proof fn lemma_access_adds_offset(p: Rc<Pointer>, b: Rc<Integer>, am: u32)
    requires
        p.kind is Fat,
        eval(*b) is Some,
        offset_value(*p, eval(*b).unwrap()) is Some,
        same_width_constants(offset_value(*p, eval(*b).unwrap()), eval(*b)),
    ensures
        spec_access(*p, *b, am) matches Ok(q) ==> q.kind is Fat && offset_value(q, eval(*b).unwrap()) == apply_binary(
            BinarySource::Add,
            offset_value(*p, eval(*b).unwrap()).unwrap(),
            eval(*b).unwrap(),
        ),
{
    if p.kind matches PointerKind::Fat { byte_offset: Some(_) } {
        lemma_binary_folding_sound(BinarySource::Add, held_offset(p), shared_integer(b), am);
    }
}

/// `x + (-c)` is `x - c`, at either width.
proof fn lemma_add_negation(x: ConstantSource, c: ConstantSource)
    requires
        same_width_constants(Some(x), Some(c)),
    ensures
        apply_binary(BinarySource::Add, x, apply_unary(UnarySource::Negate, c)) == apply_binary(BinarySource::Sub, x, c),
{
    match (x, c) {
        (ConstantSource::Short(a), ConstantSource::Short(b)) => {
            lemma_add_mod_noop(a as int, 0 - b, 0x1_0000_0000);
            assert((a as int) % 0x1_0000_0000 == a);
        },
        (ConstantSource::Long(a), ConstantSource::Long(b)) => {
            lemma_add_mod_noop(a as int, 0 - b, 0x1_0000_0000_0000_0000);
            assert((a as int) % 0x1_0000_0000_0000_0000 == a);
        },
        _ => {},
    }
}

/// Adding an integer `n` to a fat pointer moves it forward by `n` bytes:
/// its byte offset becomes the old one plus `n`.
pub proof fn lemma_pointer_add_moves_forward(p: Rc<Pointer>, n: Rc<Integer>, am: u32)
    requires
        p.kind is Fat,
        eval(*n) is Some,
        offset_value(*p, eval(*n).unwrap()) is Some,
        same_width_constants(offset_value(*p, eval(*n).unwrap()), eval(*n)),
    ensures
        spec_i_add(Value::Pointer(p), Value::Integer(n), am) matches Ok(v) ==> v matches Value::Pointer(q) && offset_value(
            *q,
            eval(*n).unwrap(),
        ) == apply_binary(BinarySource::Add, offset_value(*p, eval(*n).unwrap()).unwrap(), eval(*n).unwrap()),
{
    lemma_access_adds_offset(p, n, am);
}

/// The constant that `n` evaluates to.
spec fn value_of(n: &Rc<Integer>) -> ConstantSource {
    eval(**n).unwrap()
}

/// The byte offset of `p` as a constant of the width of `c`.
spec fn offset_of(p: &Rc<Pointer>, c: ConstantSource) -> Option<ConstantSource> {
    offset_value(**p, c)
}

/// The negation of `n`, as subtracting from a pointer builds it.
spec fn negation(n: Rc<Integer>) -> Rc<Integer> {
    Rc::new(Integer { source: IntegerSource::Unary { source: UnarySource::Negate, op1: n } })
}

/// Subtracting an integer `n` from a fat pointer moves it back by `n`
/// bytes: its byte offset becomes the old one minus `n`. So subtracting and
/// then adding `n` moves it by nothing.
pub proof fn lemma_pointer_sub_moves_back(p: Rc<Pointer>, n: Rc<Integer>, am: u32)
    requires
        p.kind is Fat,
        eval(*n) is Some,
        offset_value(*p, eval(*n).unwrap()) is Some,
        same_width_constants(offset_value(*p, eval(*n).unwrap()), eval(*n)),
    ensures
        spec_i_sub(Value::Pointer(p), n, am) matches Ok(v) ==> v matches Value::Pointer(q) && offset_value(
            *q,
            eval(*n).unwrap(),
        ) == apply_binary(BinarySource::Sub, offset_value(*p, eval(*n).unwrap()).unwrap(), eval(*n).unwrap()),
{
    assert(eval(*negation(n)) == Some(apply_unary(UnarySource::Negate, eval(*n).unwrap())));
    assert(offset_value(*p, apply_unary(UnarySource::Negate, eval(*n).unwrap())) == offset_value(*p, eval(*n).unwrap()));
    lemma_add_negation(offset_of(&p, value_of(&n)).unwrap(), value_of(&n));
    lemma_access_adds_offset(p, negation(n), am);
}

/// The constant by which a load or store of offset `offset` moves its
/// address: the offset, of the width of an address.
pub open spec fn offset_constant(offset: u64, memory64: bool) -> ConstantSource {
    if memory64 {
        ConstantSource::Long((offset as u32) as u64)
    } else {
        ConstantSource::Short(offset as u32)
    }
}

/// A store writes where its address points, moved by the instruction's
/// offset: the operation it adds stores through a pointer of the address's
/// storage class whose byte offset is the address's plus the offset, with
/// the instruction's alignment.
pub proof fn lemma_store_reaches_offset(
    op: Operator,
    rest: Seq<Value>,
    address: Rc<Pointer>,
    value: Value,
    sh: Shared,
    am: u32,
    memory64: bool,
)
    requires
        access_of(op) matches Some((_, store, _, _)) && store,
        address.kind is Fat,
        offset_value(*address, offset_constant(access_offset(op), memory64)) is Some,
        same_width_constants(
            offset_value(*address, offset_constant(access_offset(op), memory64)),
            Some(offset_constant(access_offset(op), memory64)),
        ),
    ensures
        ({
            let (s1, sh1, r, _) = spec_memory_run(op, rest.push(Value::Pointer(address)).push(value), sh, am, memory64);
            let k = offset_constant(access_offset(op), memory64);
            r is Ok ==> {
                &&& s1 == rest
                &&& sh1.anchors.len() == sh.anchors.len() + 1
                &&& sh1.anchors.drop_last() == sh.anchors
                &&& (sh1.anchors.last() matches Operation::Store { target, log2_alignment, .. }
                    && log2_alignment == Some(access_alignment(op) as u32) && target.storage_class == address.storage_class
                    && offset_value(*target, k) == apply_binary(BinarySource::Add, offset_value(*address, k).unwrap(), k))
            }
        }),
{
    let (ty, store, offset, align) = access_of(op).unwrap();
    let s = rest.push(Value::Pointer(address)).push(value);
    assert(s.drop_last() =~= rest.push(Value::Pointer(address)));
    assert(rest.push(Value::Pointer(address)).drop_last() =~= rest);
    assert(eval(usize_constant(offset as u32, memory64)) == Some(offset_constant(offset, memory64)));
    lemma_access_adds_offset(cast_to(address, ty), Rc::new(usize_constant(offset as u32, memory64)), am);
}

/// A load reads where its address points, moved by the instruction's
/// offset: the value it pushes is loaded through a pointer of the
/// address's storage class whose byte offset is the address's plus the
/// offset, with the instruction's alignment.
pub proof fn lemma_load_reaches_offset(
    op: Operator,
    rest: Seq<Value>,
    address: Rc<Pointer>,
    sh: Shared,
    am: u32,
    memory64: bool,
)
    requires
        access_of(op) matches Some((_, store, _, _)) && !store,
        address.kind is Fat,
        offset_value(*address, offset_constant(access_offset(op), memory64)) is Some,
        same_width_constants(
            offset_value(*address, offset_constant(access_offset(op), memory64)),
            Some(offset_constant(access_offset(op), memory64)),
        ),
    ensures
        ({
            let (s1, sh1, r, _) = spec_memory_run(op, rest.push(Value::Pointer(address)), sh, am, memory64);
            let k = offset_constant(access_offset(op), memory64);
            r is Ok ==> exists|q: Pointer|
                {
                    &&& s1 == rest.push(spec_load(Rc::new(q), Some(access_alignment(op) as u32)))
                    &&& sh1 == sh
                    &&& q.storage_class == address.storage_class
                    &&& #[trigger] offset_value(q, k) == apply_binary(BinarySource::Add, offset_value(*address, k).unwrap(), k)
                }
        }),
{
    let (ty, store, offset, align) = access_of(op).unwrap();
    let s = rest.push(Value::Pointer(address));
    assert(s.drop_last() =~= rest);
    assert(eval(usize_constant(offset as u32, memory64)) == Some(offset_constant(offset, memory64)));
    lemma_access_adds_offset(cast_to(address, ty), Rc::new(usize_constant(offset as u32, memory64)), am);
    let (s1, sh1, r, _) = spec_memory_run(op, s, sh, am, memory64);
    if r is Ok {
        let q = accessed(cast_to(address, ty), offset, memory64, am);
        assert(s1 == rest.push(spec_load(Rc::new(q), Some(align as u32))));
    }
}

/// A store and a load of one type, offset and alignment through one
/// address touch one place: the store's target is the pointer that the
/// load reads through.
pub proof fn lemma_store_and_load_meet(
    load: Operator,
    store: Operator,
    rest: Seq<Value>,
    address: Rc<Pointer>,
    value: Value,
    sh: Shared,
    am: u32,
    memory64: bool,
)
    requires
        access_of(load) matches Some((ty, is_store, k, a)) && !is_store && access_of(store) == Some((ty, true, k, a)),
    ensures
        ({
            let (s1, sh1, r1, _) = spec_memory_run(store, rest.push(Value::Pointer(address)).push(value), sh, am, memory64);
            let (s2, sh2, r2, _) = spec_memory_run(load, rest.push(Value::Pointer(address)), sh, am, memory64);
            r1 is Ok && r2 is Ok ==> (sh1.anchors.last() matches Operation::Store { target, log2_alignment, .. }
                && s2.last() == spec_load(target, log2_alignment))
        }),
{
    let s = rest.push(Value::Pointer(address)).push(value);
    assert(s.drop_last() =~= rest.push(Value::Pointer(address)));
}

/// The offset that a load or store carries.
pub open spec fn access_offset(op: Operator) -> u64 {
    match access_of(op) {
        Some((_, _, offset, _)) => offset,
        None => 0,
    }
}

/// The alignment that a load or store carries.
pub open spec fn access_alignment(op: Operator) -> u8 {
    match access_of(op) {
        Some((_, _, _, align)) => align,
        None => 0,
    }
}

/// The pointer `p` moved by `offset` bytes.
spec fn accessed(p: Rc<Pointer>, offset: u64, memory64: bool, am: u32) -> Pointer {
    spec_access(*p, usize_constant(offset as u32, memory64), am).unwrap()
}

/// `p` taken as a pointer to a value of type `ty`.
spec fn cast_to(p: Rc<Pointer>, ty: ScalarType) -> Rc<Pointer> {
    Rc::new(Pointer { kind: p.kind, storage_class: p.storage_class, pointee: Type::Scalar(ty), source: PointerSource::Casted { prev: p } })
}

/// `br_if` branches out exactly when its operand is true: it pops the
/// operand, and the conditional branch it adds has the operand, taken as a
/// boolean, as its condition, the enclosing block's label as the place it
/// goes when the condition holds, and a fresh label, placed just after it,
/// as the place it goes otherwise.
pub proof fn lemma_br_if_branches_when_true(
    d: u32,
    s: Seq<Value>,
    sh: Shared,
    end: End,
    labels: Seq<Rc<Label>>,
    am: u32,
    memory64: bool,
)
    requires
        s.len() > 0,
        !(s.last() is Schrodinger),
    ensures
        ({
            let (s1, sh1, r) = spec_control(Operator::BrIf { relative_depth: d }, s, sh, end, labels, am, memory64);
            r is Ok ==> {
                &&& d < labels.len()
                &&& s1 == s.drop_last()
                &&& spec_to_bool(s.last()) is Ok
                &&& sh1.anchors == sh.anchors + seq![
                    Operation::BranchConditional {
                        condition: Rc::new(spec_to_bool(s.last()).unwrap()),
                        true_label: labels[d as int],
                        false_label: fresh_label(sh.labels),
                    },
                    Operation::Label(fresh_label(sh.labels)),
                ]
            }
        }),
{
}

/// The value that a selection gives when its selector is `which`.
pub open spec fn selection(v: Value, which: bool) -> Option<Value> {
    match v {
        Value::Integer(x) => match x.source {
            IntegerSource::Select { true_value, false_value, .. } => Some(
                Value::Integer(if which { true_value } else { false_value }),
            ),
            _ => None,
        },
        Value::Float(x) => match x.source {
            FloatSource::Select { true_value, false_value, .. } => Some(
                Value::Float(if which { true_value } else { false_value }),
            ),
            _ => None,
        },
        Value::Bool(x) => match x.source {
            BoolSource::Select { true_value, false_value, .. } => Some(
                Value::Bool(if which { true_value } else { false_value }),
            ),
            _ => None,
        },
        Value::Pointer(x) => match x.source {
            PointerSource::Select { true_value, false_value, .. } => Some(
                Value::Pointer(if which { true_value } else { false_value }),
            ),
            _ => None,
        },
        _ => None,
    }
}

/// The selector of a selection.
pub open spec fn selector_of(v: Value) -> Option<Rc<Bool>> {
    match v {
        Value::Integer(x) => match x.source {
            IntegerSource::Select { selector, .. } => Some(selector),
            _ => None,
        },
        Value::Float(x) => match x.source {
            FloatSource::Select { selector, .. } => Some(selector),
            _ => None,
        },
        Value::Bool(x) => match x.source {
            BoolSource::Select { selector, .. } => Some(selector),
            _ => None,
        },
        Value::Pointer(x) => match x.source {
            PointerSource::Select { selector, .. } => Some(selector),
            _ => None,
        },
        _ => None,
    }
}

/// Whether a selection keeps its second operand `f` as it is, beside the
/// first `t`: both integers of one width, both floats, or both booleans.
pub open spec fn kept_as_is(t: Value, f: Value, am: u32) -> bool {
    match (t, f) {
        (Value::Integer(a), Value::Integer(b)) => a.spec_kind(am) is Ok && a.spec_kind(am) == b.spec_kind(am),
        (Value::Float(_), Value::Float(_)) => true,
        (Value::Bool(_), Value::Bool(_)) => true,
        _ => false,
    }
}

/// `select` gives its first operand when its selector is true and its
/// second when it is false: a constant selector picks the operand; any
/// other gives a selection, on that selector, between the first operand
/// (when true) and the second (when false).
pub proof fn lemma_select_picks_first_when_true(s: Seq<Value>, sh: Shared, am: u32, memory64: bool)
    requires
        s.len() >= 3,
        !(s.last() is Schrodinger),
    ensures
        ({
            let (s1, sh1, r) = spec_select(s, sh, am, memory64);
            let t = s[s.len() - 3];
            let f = s[s.len() - 2];
            r is Ok ==> {
                &&& spec_to_bool(s.last()) is Ok
                &&& s1.len() == s.len() - 2
                &&& s1.drop_last() == s.take(s.len() - 3)
                &&& match spec_to_bool(s.last()).unwrap().spec_constant() {
                    Ok(Some(true)) => s1.last() == t,
                    Ok(Some(false)) => s1.last() == f,
                    _ => {
                        &&& selector_of(s1.last()) == Some(Rc::new(spec_to_bool(s.last()).unwrap()))
                        &&& selection(s1.last(), true) == Some(t)
                        &&& kept_as_is(t, f, am) ==> selection(s1.last(), false) == Some(f)
                    },
                }
            }
        }),
{
    let n = s.len();
    assert(s.drop_last().drop_last() =~= s.take(n - 2));
    assert(s.take(n - 2).drop_last() =~= s.take(n - 3));
}

/// The name under which GLSL knows a built-in that a module can import.
pub open spec fn glsl_builtin_name(b: BuiltIn) -> Seq<char> {
    if b == BUILTIN_FRAG_DEPTH {
        "gl_FragDepth"@
    } else if b == BUILTIN_NUM_WORKGROUPS {
        "gl_NumWorkGroups"@
    } else if b == BUILTIN_WORKGROUP_ID {
        "gl_WorkGroupID"@
    } else if b == BUILTIN_WORKGROUP_SIZE {
        "gl_WorkGroupSize"@
    } else if b == BUILTIN_LOCAL_INVOCATION_ID {
        "gl_LocalInvocationID"@
    } else if b == BUILTIN_GLOBAL_INVOCATION_ID {
        "gl_GlobalInvocationID"@
    } else {
        Seq::empty()
    }
}

/// An import names the built-in it stands for: the built-in that an import
/// named `name` gives is the one GLSL calls `name`, and only the fragment
/// depth is an output.
pub proof fn lemma_import_names_its_builtin(name: Seq<char>)
    ensures
        builtin_of_name(name) matches Some((output, b)) ==> name == glsl_builtin_name(b) && output == (b
            == BUILTIN_FRAG_DEPTH),
{
}

/// Two imports of built-ins with different names give different built-ins.
pub proof fn lemma_distinct_imports_distinct_builtins(n1: Seq<char>, n2: Seq<char>)
    requires
        builtin_of_name(n1) is Some,
        builtin_of_name(n2) is Some,
        n1 != n2,
    ensures
        builtin_of_name(n1).unwrap().1 != builtin_of_name(n2).unwrap().1,
{
    lemma_import_names_its_builtin(n1);
    lemma_import_names_its_builtin(n2);
}

/// The operation that a WebAssembly integer arithmetic instruction
/// performs on its two operands, first operand first.
pub open spec fn wasm_arith_operation(op: Operator) -> Option<BinarySource> {
    match op {
        Operator::I32Add | Operator::I64Add => Some(BinarySource::Add),
        Operator::I32Sub | Operator::I64Sub => Some(BinarySource::Sub),
        Operator::I32Mul | Operator::I64Mul => Some(BinarySource::Mul),
        Operator::I32DivS | Operator::I64DivS => Some(BinarySource::SDiv),
        Operator::I32DivU | Operator::I64DivU => Some(BinarySource::UDiv),
        Operator::I32RemS | Operator::I64RemS => Some(BinarySource::SRem),
        Operator::I32RemU | Operator::I64RemU => Some(BinarySource::URem),
        _ => None,
    }
}

/// The width of the operands of a WebAssembly integer instruction.
pub open spec fn wasm_arith_width(op: Operator) -> IntegerKind {
    match op {
        Operator::I64Add | Operator::I64Sub | Operator::I64Mul | Operator::I64DivS | Operator::I64DivU
        | Operator::I64RemS | Operator::I64RemU => IntegerKind::Long,
        _ => IntegerKind::Short,
    }
}

/// An integer arithmetic instruction computes its operation on its first
/// and second operands, in that order: where both evaluate to constants,
/// what it pushes evaluates to the operation applied to them, wherever that
/// is defined.
pub proof fn lemma_arith_computes_its_operation(
    op: Operator,
    rest: Seq<Value>,
    a: Rc<Integer>,
    b: Rc<Integer>,
    am: u32,
    memory64: bool,
)
    requires
        wasm_arith_operation(op) is Some,
        a.spec_kind(am) == Ok::<IntegerKind, crate::error::Error>(wasm_arith_width(op)),
        b.spec_kind(am) == Ok::<IntegerKind, crate::error::Error>(wasm_arith_width(op)),
    ensures
        ({
            let (s1, r) = spec_translate_arith(op, rest.push(Value::Integer(a)).push(Value::Integer(b)), am, memory64);
            r is Ok ==> {
                &&& s1.len() == rest.len() + 1
                &&& s1.drop_last() == rest
                &&& s1.last() matches Value::Integer(x) && (apply_to(wasm_arith_operation(op).unwrap(), eval(*a), eval(*b))
                    matches Some(v) ==> eval(*x) == Some(v))
            }
        }),
{
    let s = rest.push(Value::Integer(a)).push(Value::Integer(b));
    assert(s.drop_last() =~= rest.push(Value::Integer(a)));
    assert(rest.push(Value::Integer(a)).drop_last() =~= rest);
    lemma_binary_folding_sound(wasm_arith_operation(op).unwrap(), shared_integer(a), shared_integer(b), am);
}

/// `br` branches to the label of the enclosing block it names, and leaves
/// the stack as it is.
pub proof fn lemma_br_branches_to_its_block(
    d: u32,
    s: Seq<Value>,
    sh: Shared,
    end: End,
    labels: Seq<Rc<Label>>,
    am: u32,
    memory64: bool,
)
    ensures
        ({
            let (s1, sh1, r) = spec_control(Operator::Br { relative_depth: d }, s, sh, end, labels, am, memory64);
            &&& r is Ok <==> d < labels.len()
            &&& r is Ok ==> s1 == s && sh1.anchors == sh.anchors.push(Operation::Branch { label: labels[d as int] })
        }),
{
}

/// The variable made for an imported built-in is the one GLSL declares:
/// the fragment depth is a 32-bit float that a shader writes, the others
/// are vectors of three 32-bit integers that it reads; each is decorated
/// as its built-in.
pub proof fn lemma_builtin_variables_as_glsl_declares(name: Seq<char>)
    ensures
        builtin_of_name(name) matches Some((output, b)) ==> {
            let shape = builtin_shape(output, b);
            &&& shape.storage_class == (if b == BUILTIN_FRAG_DEPTH { STORAGE_CLASS_OUTPUT } else { STORAGE_CLASS_INPUT })
            &&& shape.ty == (if b == BUILTIN_FRAG_DEPTH {
                Type::Scalar(ScalarType::F32)
            } else {
                Type::Composite(CompositeType::Vector(ScalarType::I32, 3))
            })
            &&& shape.decorators == seq![VariableDecorator::BuiltIn(b)]
        },
{
}

/// Calling an imported input built-in reads the component of its vector
/// that the call's argument, taken as a 32-bit integer, chooses; calling an output built-in writes the
/// argument into its variable.
pub proof fn lemma_builtin_call_reads_or_writes(
    b: Builtin,
    rest: Seq<Value>,
    arg: Value,
    sh: Shared,
    am: u32,
    memory64: bool,
)
    requires
        builtin_variable(b).pointee == (match b {
            Builtin::Output { .. } => Type::Scalar(ScalarType::F32),
            Builtin::Uint3Input { .. } => Type::Composite(CompositeType::Vector(ScalarType::I32, 3)),
        }),
    ensures
        ({
            let (s1, sh1, r) = spec_builtin_call(b, rest.push(arg), sh, am, memory64);
            r is Ok ==> match b {
                Builtin::Output { variable, .. } => s1 == rest && sh1.anchors.len() == sh.anchors.len() + 1
                    && sh1.anchors.last() == (Operation::Store {
                    target: variable,
                    value: spec_convert(arg, Type::Scalar(ScalarType::F32), am, memory64).unwrap(),
                    log2_alignment: None,
                }),
                Builtin::Uint3Input { variable, .. } => spec_convert(arg, Type::Scalar(ScalarType::I32), am, memory64)
                    matches Ok(Value::Integer(i)) && s1 == rest.push(
                    Value::Integer(Rc::new(Integer { source: IntegerSource::Extracted { vector: loaded_vector(variable), index: i } })),
                ) && sh1.anchors == sh.anchors,
            }
        }),
{
    assert(rest.push(arg).drop_last() =~= rest);
}

/// The vector that loading the variable `p` of a vector type gives.
pub open spec fn loaded_vector(p: Rc<Pointer>) -> Rc<Vector> {
    match spec_load(p, None) {
        Value::Vector(v) => v,
        _ => Rc::new(Vector { source: VectorSource::Loaded { pointer: p, log2_alignment: None }, element_type: ScalarType::I32, element_count: 3 }),
    }
}

} // verus!
