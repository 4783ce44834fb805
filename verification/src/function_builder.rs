//! The setting up of a function for translation: each parameter becomes a
//! variable of the storage class that its configuration gives, the
//! locals become variables, and an exported function with an execution
//! model becomes an entry point.
use vstd::prelude::*;
use std::rc::Rc;
use crate::decorator::VariableDecorator;
use crate::error::Error;
use crate::function::{ExecutionMode, FunctionConfig, Parameter, ParameterKind, spec_parameter_storage_class};
use crate::module::ModuleBuilder;
use crate::spv::{ExecutionModel, StorageClass, STORAGE_CLASS_FUNCTION, STORAGE_CLASS_INPUT, STORAGE_CLASS_OUTPUT};
use crate::types::{type_clone, PointerSize, ScalarType, Type};
use crate::values::bool::Bool;
use crate::values::float::{Float, FloatKind, FloatSource};
use crate::values::integer::{Integer, IntegerKind, IntegerSource};
use crate::values::pointer::{Pointer, PointerSource};
use crate::values::{Args, Value};
use crate::vecmap::{get_parameter, lookup, parameter_entries};
use crate::version::Version;
use crate::block::{End, Operator};
use crate::config::capability_list;
use crate::control::{shared_of, spec_run, terminates_block, translate_block, Run, Shared};

verus! {

/// A place that branches go to.
#[derive(Debug, PartialEq, Eq)]
pub struct Label {
    pub id: u64,
}

/// An operation of a function whose order must be kept.
#[derive(Debug)]
pub enum Operation {
    Value(Value),
    Label(Rc<Label>),
    Branch { label: Rc<Label> },
    BranchConditional { condition: Rc<Bool>, true_label: Rc<Label>, false_label: Rc<Label> },
    Store { target: Rc<Pointer>, value: Value, log2_alignment: Option<u32> },
    Copy {
        src: Rc<Pointer>,
        src_log2_alignment: Option<u32>,
        dst: Rc<Pointer>,
        dst_log2_alignment: Option<u32>,
    },
    FunctionCall { function_id: u32, args: Rc<Args> },
    Nop,
    Unreachable,
    Return { value: Option<Value> },
}

impl Operation {
    pub fn is_function_terminating(&self) -> (r: bool)
        ensures
            r == (*self is Return || *self is Unreachable),
    {
        match self {
            Operation::Return { .. } | Operation::Unreachable => true,
            _ => false,
        }
    }

    pub fn is_branch_instruction(&self) -> (r: bool)
        ensures
            r == (*self is Branch || *self is BranchConditional),
    {
        match self {
            Operation::Branch { .. } | Operation::BranchConditional { .. } => true,
            _ => false,
        }
    }

    pub fn is_block_terminating(&self) -> (r: bool)
        ensures
            r == (*self is Return || *self is Unreachable || *self is Branch || *self is BranchConditional),
    {
        self.is_function_terminating() || self.is_branch_instruction()
    }
}

/// A local that may turn out to hold a pointer or an integer: the variable
/// of a pointer, of the byte offset that goes with it, and of an integer
/// are each made when the local is first stored a value that needs it.
#[derive(Debug)]
pub struct Schrodinger {
    pub pointer: Option<Rc<Pointer>>,
    pub offset: Option<Rc<Pointer>>,
    pub integer: Option<Rc<Pointer>>,
    /// The decorations that those variables carry: none.
    pub decorators: Rc<Vec<VariableDecorator>>,
}

/// A local of a function.
#[derive(Debug)]
pub enum Storeable {
    /// A variable, with the variable of its integer address when it holds a
    /// pointer.
    Pointer { variable: Rc<Pointer>, integer_variable: Option<Rc<Pointer>> },
    Schrodinger(Rc<Schrodinger>),
}

/// An entry point of the module.
#[derive(Debug)]
pub struct EntryPoint {
    pub execution_model: ExecutionModel,
    pub execution_modes: Vec<ExecutionMode>,
    pub name: String,
    pub interface: Vec<Rc<Pointer>>,
}

/// A function being translated.
#[derive(Debug)]
pub struct FunctionBuilder {
    pub function_id: u32,
    pub entry_point: Option<EntryPoint>,
    pub parameters: Vec<Value>,
    pub local_variables: Vec<Storeable>,
    pub return_type: Option<Type>,
    /// Operations whose order must be kept.
    pub anchors: Vec<Operation>,
    pub variable_initializers: Vec<Operation>,
    pub outside_vars: Vec<Rc<Pointer>>,
    /// The number of labels made so far; the next label takes it as its id.
    pub next_label: u64,
}

/// The interface of `f`'s entry point, where it has one.
pub open spec fn entry_interface(f: FunctionBuilder) -> Option<Seq<Rc<Pointer>>> {
    match f.entry_point {
        Some(ep) => Some(ep.interface@),
        None => None,
    }
}

/// Whether two entry points are the same but for their interfaces.
pub open spec fn same_entry(a: Option<EntryPoint>, b: Option<EntryPoint>) -> bool {
    match (a, b) {
        (None, None) => true,
        (Some(x), Some(y)) => x.execution_model == y.execution_model && x.execution_modes@ == y.execution_modes@
            && x.name@ == y.name@,
        _ => false,
    }
}

impl FunctionBuilder {
    /// Whether `other` differs from this function at most in what
    /// translating its body changes: its anchors, its label count, the
    /// variables that its locals have made and its entry point's interface.
    pub open spec fn same_but_body(self, other: FunctionBuilder) -> bool {
        &&& self.function_id == other.function_id
        &&& same_entry(self.entry_point, other.entry_point)
        &&& self.parameters@ == other.parameters@
        &&& self.return_type == other.return_type
        &&& self.variable_initializers@ == other.variable_initializers@
        &&& self.outside_vars@ == other.outside_vars@
    }

    /// A fresh label.
    pub fn new_label(&mut self) -> (r: Rc<Label>)
        ensures
            r == Rc::new(Label { id: old(self).next_label }),
            final(self).next_label == (if old(self).next_label == u64::MAX {
                0
            } else {
                (old(self).next_label + 1) as u64
            }),
            final(self).anchors@ == old(self).anchors@,
            final(self).local_variables@ == old(self).local_variables@,
            final(self).entry_point == old(self).entry_point,
            final(self).same_but_body(*old(self)),
    {
        let id = self.next_label;
        self.next_label = if id == u64::MAX {
            0
        } else {
            id + 1
        };
        Rc::new(Label { id })
    }
}

/// What a fresh variable is made of: its pointer size, storage class,
/// type and decorations.
pub struct VariableShape {
    pub size: PointerSize,
    pub storage_class: StorageClass,
    pub ty: Type,
    pub decorators: Seq<VariableDecorator>,
}

/// `p` is a fresh variable of the given shape, with no initial value.
pub open spec fn is_variable(p: Pointer, s: VariableShape) -> bool {
    &&& p.kind == s.size.spec_pointer_kind()
    &&& p.storage_class == s.storage_class
    &&& p.pointee == s.ty
    &&& p.source matches PointerSource::Variable { init, decorators } && init is None && decorators@ == s.decorators
}

/// The variables `v` are fresh variables of the shapes `s`, in order.
pub open spec fn are_variables(v: Seq<Rc<Pointer>>, s: Seq<VariableShape>) -> bool {
    v.len() == s.len() && forall|i: int| 0 <= i < v.len() ==> is_variable(*#[trigger] v[i], s[i])
}

/// An initialisation of a parameter's variable: storing the parameter, or
/// copying the input variable into it.
pub enum InitShape {
    Store { target: VariableShape, value: Value },
    Copy { src: VariableShape, dst: VariableShape },
}

/// `op` is the initialisation `s`.
pub open spec fn is_init(op: Operation, s: InitShape) -> bool {
    match s {
        InitShape::Store { target, value } => op matches Operation::Store { target: t, value: v, log2_alignment }
            && is_variable(*t, target) && v == value && log2_alignment is None,
        InitShape::Copy { src, dst } => op matches Operation::Copy { src: a, src_log2_alignment, dst: b, dst_log2_alignment }
            && is_variable(*a, src) && is_variable(*b, dst) && src_log2_alignment is None && dst_log2_alignment is None,
    }
}

/// What becomes of one parameter.
pub struct ParamPlan {
    /// The variable that the function body reads the parameter from.
    pub variable: VariableShape,
    /// For a pointer parameter, the variable of its integer address.
    pub integer_variable: Option<VariableShape>,
    /// For an input, the variable that the input arrives in.
    pub input: Option<VariableShape>,
    /// For a parameter passed by the caller, the parameter's value.
    pub parameter: Option<Value>,
    /// The storage class that the parameter's configuration names.
    pub storage_class: StorageClass,
}

/// The configuration of parameter `i`: the configured one, or the default.
pub open spec fn parameter_config(entries: Seq<(u32, Parameter)>, i: u32) -> Parameter {
    match lookup(entries, i) {
        Some(p) => p,
        None => Parameter { ty: None, kind: ParameterKind::FunctionParameter },
    }
}

/// The type that the function body sees a parameter as, its pointer
/// size, its storage class and whether it needs an integer address.
pub open spec fn parameter_type(wasm_ty: ScalarType, param: Parameter) -> (Type, PointerSize, StorageClass, bool) {
    let ty = match param.ty {
        Some(t) => t,
        None => Type::Scalar(wasm_ty),
    };
    match ty {
        Type::Pointer { size, storage_class, pointee } => (*pointee, size, storage_class, true),
        _ => (ty, PointerSize::Skinny, spec_parameter_storage_class(param.kind), false),
    }
}

/// The value of a parameter passed by the caller.
pub open spec fn spec_function_parameter(ty: Type) -> Value {
    match ty {
        Type::Scalar(ScalarType::I32) => Value::Integer(Rc::new(Integer { source: IntegerSource::FunctionParam(IntegerKind::Short) })),
        Type::Scalar(ScalarType::I64) => Value::Integer(Rc::new(Integer { source: IntegerSource::FunctionParam(IntegerKind::Long) })),
        Type::Scalar(ScalarType::F32) => Value::Float(Rc::new(Float { source: FloatSource::FunctionParam(FloatKind::Single) })),
        Type::Scalar(ScalarType::F64) => Value::Float(Rc::new(Float { source: FloatSource::FunctionParam(FloatKind::Double) })),
        Type::Pointer { size, storage_class, pointee } => Value::Pointer(Rc::new(Pointer {
            kind: size.spec_pointer_kind(),
            storage_class,
            pointee: *pointee,
            source: PointerSource::FunctionParam,
        })),
        _ => Value::Bool(Rc::new(Bool { source: crate::values::bool::BoolSource::Constant(false) })),
    }
}

/// Whether a parameter passed by the caller can have type `ty`.
pub open spec fn passable(ty: Type) -> bool {
    ty is Pointer || ty == Type::Scalar(ScalarType::I32) || ty == Type::Scalar(ScalarType::I64) || ty
        == Type::Scalar(ScalarType::F32) || ty == Type::Scalar(ScalarType::F64)
}

/// What becomes of parameter `i` of WebAssembly type `wasm_ty`.
pub open spec fn param_plan(wasm_ty: ScalarType, param: Parameter, isize: ScalarType) -> ParamPlan {
    let (ty, size, storage_class, is_pointer) = parameter_type(wasm_ty, param);
    let integer_variable = if is_pointer {
        Some(VariableShape { size: PointerSize::Skinny, storage_class: STORAGE_CLASS_FUNCTION, ty: Type::Scalar(isize), decorators: Seq::empty() })
    } else {
        None
    };
    let local = VariableShape { size, storage_class: STORAGE_CLASS_FUNCTION, ty, decorators: Seq::empty() };
    match param.kind {
        ParameterKind::FunctionParameter => ParamPlan {
            variable: local,
            integer_variable,
            input: None,
            parameter: Some(spec_function_parameter(ty)),
            storage_class,
        },
        ParameterKind::Input(location) => ParamPlan {
            variable: local,
            integer_variable,
            input: Some(VariableShape {
                size,
                storage_class,
                ty,
                decorators: if ty is Scalar {
                    seq![VariableDecorator::Location(location), VariableDecorator::Flat]
                } else {
                    seq![VariableDecorator::Location(location)]
                },
            }),
            parameter: None,
            storage_class,
        },
        ParameterKind::Output(location) => ParamPlan {
            variable: VariableShape { size, storage_class, ty, decorators: seq![VariableDecorator::Location(location)] },
            integer_variable,
            input: None,
            parameter: None,
            storage_class,
        },
        ParameterKind::DescriptorSet { set, binding, .. } => ParamPlan {
            variable: VariableShape {
                size,
                storage_class,
                ty,
                decorators: seq![VariableDecorator::DesctiptorSet(set), VariableDecorator::Binding(binding)],
            },
            integer_variable,
            input: None,
            parameter: None,
            storage_class,
        },
    }
}

/// The plans of the parameters `params`, their configurations taken from
/// `entries`.
pub open spec fn param_plans(params: Seq<ScalarType>, entries: Seq<(u32, Parameter)>, isize: ScalarType) -> Seq<ParamPlan> {
    Seq::new(params.len(), |i: int| param_plan(params[i], parameter_config(entries, i as u32), isize))
}

/// Whether the variable of a plan is part of the entry point's interface.
pub open spec fn in_interface(p: ParamPlan, version: Version) -> bool {
    p.variable.storage_class != STORAGE_CLASS_FUNCTION && (version.at_least(1, 4) || p.storage_class
        == STORAGE_CLASS_INPUT || p.storage_class == STORAGE_CLASS_OUTPUT)
}

/// The variables outside the function that the plans make, in order.
pub open spec fn outside_of(plans: Seq<ParamPlan>) -> Seq<VariableShape>
    decreases plans.len(),
{
    if plans.len() == 0 {
        Seq::empty()
    } else {
        let p = plans.last();
        outside_of(plans.drop_last()) + (match p.input {
            Some(s) => seq![s],
            None => Seq::empty(),
        }) + (if p.variable.storage_class != STORAGE_CLASS_FUNCTION { seq![p.variable] } else { Seq::empty() })
    }
}

/// The interface variables that the plans make, in order.
pub open spec fn interface_of(plans: Seq<ParamPlan>, version: Version) -> Seq<VariableShape>
    decreases plans.len(),
{
    if plans.len() == 0 {
        Seq::empty()
    } else {
        let p = plans.last();
        interface_of(plans.drop_last(), version) + (match p.input {
            Some(s) => seq![s],
            None => Seq::empty(),
        }) + (if in_interface(p, version) { seq![p.variable] } else { Seq::empty() })
    }
}

/// The initialisations that the plans make, in order.
pub open spec fn inits_of(plans: Seq<ParamPlan>) -> Seq<InitShape>
    decreases plans.len(),
{
    if plans.len() == 0 {
        Seq::empty()
    } else {
        inits_of(plans.drop_last()) + (match init_of(plans.last()) {
            Some(s) => seq![s],
            None => Seq::empty(),
        })
    }
}

/// The parameters passed by the caller, in order.
pub open spec fn parameters_of(plans: Seq<ParamPlan>) -> Seq<Value>
    decreases plans.len(),
{
    if plans.len() == 0 {
        Seq::empty()
    } else {
        parameters_of(plans.drop_last()) + (match plans.last().parameter {
            Some(v) => seq![v],
            None => Seq::empty(),
        })
    }
}

/// The operations `ops` are the initialisations `s`, in order.
pub open spec fn are_inits(ops: Seq<Operation>, s: Seq<InitShape>) -> bool {
    ops.len() == s.len() && forall|i: int| 0 <= i < ops.len() ==> is_init(#[trigger] ops[i], s[i])
}

/// Whether every parameter passed by the caller has a type that a caller can pass.
pub open spec fn params_passable(params: Seq<ScalarType>, entries: Seq<(u32, Parameter)>) -> bool {
    forall|i: int|
        0 <= i < params.len() && (#[trigger] parameter_config(entries, i as u32)).kind is FunctionParameter
            ==> passable(parameter_type(params[i], parameter_config(entries, i as u32)).0)
}

/// Whether a local of WebAssembly type `ty` may hold an address, so that
/// it is left open whether it holds a pointer or an integer.
pub open spec fn holds_address(ty: ScalarType, memory64: bool) -> bool {
    (ty == ScalarType::I32 && !memory64) || (ty == ScalarType::I64 && memory64)
}

/// The locals that the groups `(count, type)` declare, in order: `None`
/// for a local that may hold an address, else its type.
pub open spec fn local_kinds(groups: Seq<(u32, ScalarType)>, memory64: bool) -> Seq<Option<ScalarType>>
    decreases groups.len(),
{
    if groups.len() == 0 {
        Seq::empty()
    } else {
        let (count, ty) = groups.last();
        local_kinds(groups.drop_last(), memory64) + Seq::new(
            count as nat,
            |_j: int|
                if holds_address(ty, memory64) {
                    None
                } else {
                    Some(ty)
                },
        )
    }
}

/// `s` is a fresh local of kind `k`.
pub open spec fn is_local(s: Storeable, k: Option<ScalarType>) -> bool {
    match k {
        None => s matches Storeable::Schrodinger(sch) && sch.pointer is None && sch.offset is None
            && sch.integer is None && sch.decorators@.len() == 0,
        Some(ty) => s matches Storeable::Pointer { variable, integer_variable } && integer_variable is None
            && is_variable(
            *variable,
            VariableShape {
                size: PointerSize::Skinny,
                storage_class: STORAGE_CLASS_FUNCTION,
                ty: Type::Scalar(ty),
                decorators: Seq::empty(),
            },
        ),
    }
}

/// `s` is the local made for a parameter of plan `p`.
pub open spec fn is_parameter_local(s: Storeable, p: ParamPlan) -> bool {
    s matches Storeable::Pointer { variable, integer_variable } && is_variable(*variable, p.variable)
        && optional_variable(integer_variable, p.integer_variable)
}

/// The scalar type of a WebAssembly address.
pub open spec fn address_type(memory64: bool) -> ScalarType {
    if memory64 {
        ScalarType::I64
    } else {
        ScalarType::I32
    }
}

/// The return type of a function with results `results`.
pub open spec fn return_type_of(results: Seq<ScalarType>) -> Option<Type> {
    if results.len() == 0 {
        None
    } else {
        Some(Type::Scalar(results[0]))
    }
}

impl FunctionBuilder {
    /// Whether this function's parameters, locals, variables and entry
    /// point are those set up from the given type, locals and configuration.
    pub open spec fn set_up_from(
        self,
        function_id: u32,
        export: Option<String>,
        config: FunctionConfig,
        params: Seq<ScalarType>,
        results: Seq<ScalarType>,
        locals: Seq<(u32, ScalarType)>,
        module: ModuleBuilder,
    ) -> bool {
        let plans = param_plans(params, parameter_entries(config.params), address_type(module.wasm_memory64));
        let kinds = local_kinds(locals, module.wasm_memory64);
        &&& self.function_id == function_id
        &&& self.return_type == return_type_of(results)
        &&& self.parameters@ == parameters_of(plans)
        &&& are_variables(self.outside_vars@, outside_of(plans))
        &&& are_inits(self.variable_initializers@, inits_of(plans))
        &&& self.local_variables@.len() == params.len() + kinds.len()
        &&& forall|j: int| 0 <= j < params.len() ==> is_parameter_local(#[trigger] self.local_variables@[j], plans[j])
        &&& forall|j: int|
            0 <= j < kinds.len() ==> is_local(#[trigger] self.local_variables@[params.len() + j], kinds[j])
        &&& match (export, config.execution_model) {
            (Some(name), Some(model)) => self.entry_point matches Some(ep) && ep.execution_model == model
                && ep.execution_modes@ == config.execution_modes@ && ep.name@ == name@ && are_variables(
                ep.interface@,
                interface_of(plans, module.version),
            ),
            _ => self.entry_point is None,
        }
    }
}

/// The variables, value and initialisation made for one parameter.
struct BuiltParameter {
    variable: Rc<Pointer>,
    integer_variable: Option<Rc<Pointer>>,
    input: Option<Rc<Pointer>>,
    parameter: Option<Value>,
    init: Option<Operation>,
    storage_class: StorageClass,
}

/// `v` is a fresh variable of shape `s`, where `s` is given.
pub open spec fn optional_variable(v: Option<Rc<Pointer>>, s: Option<VariableShape>) -> bool {
    match s {
        Some(shape) => v matches Some(p) && is_variable(*p, shape),
        None => v is None,
    }
}

/// The initialisation that a plan asks for.
pub open spec fn init_of(p: ParamPlan) -> Option<InitShape> {
    match p.parameter {
        Some(v) => Some(InitShape::Store { target: p.variable, value: v }),
        None => match p.input {
            Some(s) => Some(InitShape::Copy { src: s, dst: p.variable }),
            None => None,
        },
    }
}

spec fn built_as_planned(b: BuiltParameter, p: ParamPlan) -> bool {
    &&& is_variable(*b.variable, p.variable)
    &&& optional_variable(b.integer_variable, p.integer_variable)
    &&& optional_variable(b.input, p.input)
    &&& b.parameter == p.parameter
    &&& match init_of(p) {
        Some(s) => b.init matches Some(op) && is_init(op, s),
        None => b.init is None,
    }
    &&& b.storage_class == p.storage_class
}

fn fresh_variable(size: PointerSize, storage_class: StorageClass, ty: Type, decorators: Vec<VariableDecorator>) -> (r: Rc<Pointer>)
    ensures
        is_variable(*r, VariableShape { size, storage_class, ty, decorators: decorators@ }),
{
    Rc::new(Pointer::new_variable(size, storage_class, ty, None, Rc::new(decorators)))
}

/// Makes the variables of parameter `wasm_ty` configured by `param`.
fn build_parameter(wasm_ty: ScalarType, param: &Parameter, isize: ScalarType) -> (r: BuiltParameter)
    requires
        param.kind is FunctionParameter ==> passable(parameter_type(wasm_ty, *param).0),
    ensures
        built_as_planned(r, param_plan(wasm_ty, *param, isize)),
{
    let full = match &param.ty {
        Some(t) => type_clone(t),
        None => Type::Scalar(wasm_ty),
    };
    let ghost full_spec = full;
    let (ty, size, storage_class, integer_variable) = match full {
        Type::Pointer { size, storage_class, pointee } => (
            *pointee,
            size,
            storage_class,
            Some(fresh_variable(PointerSize::Skinny, STORAGE_CLASS_FUNCTION, Type::Scalar(isize), Vec::new())),
        ),
        other => (other, PointerSize::Skinny, param.kind.storage_class(), None),
    };
    proof {
        let (t2, s2, c2, b2) = parameter_type(wasm_ty, *param);
        assert(t2 == ty && s2 == size && c2 == storage_class);
    }
    match param.kind {
        ParameterKind::FunctionParameter => {
            let value = Value::function_parameter(type_clone(&ty));
            let variable = fresh_variable(size, STORAGE_CLASS_FUNCTION, ty, Vec::new());
            let init = Operation::Store { target: variable.clone(), value: value.clone_value(), log2_alignment: None };
            BuiltParameter {
                variable,
                integer_variable,
                input: None,
                parameter: Some(value),
                init: Some(init),
                storage_class,
            }
        },
        ParameterKind::Input(location) => {
            let decorators = match ty {
                Type::Scalar(_) => {
                    let d = vec![VariableDecorator::Location(location), VariableDecorator::Flat];
                    assert(d@ =~= seq![VariableDecorator::Location(location), VariableDecorator::Flat]);
                    d
                },
                _ => {
                    let d = vec![VariableDecorator::Location(location)];
                    assert(d@ =~= seq![VariableDecorator::Location(location)]);
                    d
                },
            };
            let input = fresh_variable(size, storage_class, type_clone(&ty), decorators);
            let variable = fresh_variable(size, STORAGE_CLASS_FUNCTION, ty, Vec::new());
            let init = Operation::Copy {
                src: input.clone(),
                src_log2_alignment: None,
                dst: variable.clone(),
                dst_log2_alignment: None,
            };
            BuiltParameter {
                variable,
                integer_variable,
                input: Some(input),
                parameter: None,
                init: Some(init),
                storage_class,
            }
        },
        ParameterKind::Output(location) => {
            let decorators = vec![VariableDecorator::Location(location)];
            assert(decorators@ =~= seq![VariableDecorator::Location(location)]);
            let variable = fresh_variable(size, storage_class, ty, decorators);
            BuiltParameter { variable, integer_variable, input: None, parameter: None, init: None, storage_class }
        },
        ParameterKind::DescriptorSet { set, binding, .. } => {
            let decorators = vec![VariableDecorator::DesctiptorSet(set), VariableDecorator::Binding(binding)];
            assert(decorators@ =~= seq![VariableDecorator::DesctiptorSet(set), VariableDecorator::Binding(binding)]);
            let variable = fresh_variable(size, storage_class, ty, decorators);
            BuiltParameter { variable, integer_variable, input: None, parameter: None, init: None, storage_class }
        },
    }
}

proof fn lemma_are_variables_push(v: Seq<Rc<Pointer>>, s: Seq<VariableShape>, x: Rc<Pointer>, shape: VariableShape)
    requires
        are_variables(v, s),
        is_variable(*x, shape),
    ensures
        are_variables(v.push(x), s + seq![shape]),
{
    assert forall|i: int| 0 <= i < v.push(x).len() implies is_variable(*#[trigger] v.push(x)[i], (s + seq![shape])[i]) by {
        if i < v.len() {
            assert(v.push(x)[i] == v[i]);
        }
    }
}

proof fn lemma_are_inits_push(ops: Seq<Operation>, s: Seq<InitShape>, op: Operation, shape: InitShape)
    requires
        are_inits(ops, s),
        is_init(op, shape),
    ensures
        are_inits(ops.push(op), s + seq![shape]),
{
    assert forall|i: int| 0 <= i < ops.push(op).len() implies is_init(#[trigger] ops.push(op)[i], (s + seq![shape])[i]) by {
        if i < ops.len() {
            assert(ops.push(op)[i] == ops[i]);
        }
    }
}

/// The parameters, their variables and initialisations, the variables
/// outside the function and the interface of its entry point.
struct ParameterSetup {
    parameters: Vec<Value>,
    locals: Vec<Storeable>,
    outside: Vec<Rc<Pointer>>,
    interface: Vec<Rc<Pointer>>,
    inits: Vec<Operation>,
}

#[verifier::rlimit(40)]
fn set_up_parameters(config: &FunctionConfig, params: &Vec<ScalarType>, module: &ModuleBuilder) -> (r: ParameterSetup)
    requires
        params.len() <= u32::MAX,
        params_passable(params@, parameter_entries(config.params)),
    ensures
        ({
            let plans = param_plans(params@, parameter_entries(config.params), address_type(module.wasm_memory64));
            &&& r.parameters@ == parameters_of(plans)
            &&& are_variables(r.outside@, outside_of(plans))
            &&& are_variables(r.interface@, interface_of(plans, module.version))
            &&& are_inits(r.inits@, inits_of(plans))
            &&& r.locals@.len() == params.len()
            &&& forall|j: int| 0 <= j < params.len() ==> is_parameter_local(#[trigger] r.locals@[j], plans[j])
        }),
{
    let isize = module.isize_type();
    let ghost entries = parameter_entries(config.params);
    let ghost plans = param_plans(params@, entries, isize);
    let default_param = Parameter::default();
    let mut parameters: Vec<Value> = Vec::new();
    let mut locals: Vec<Storeable> = Vec::new();
    let mut outside: Vec<Rc<Pointer>> = Vec::new();
    let mut interface: Vec<Rc<Pointer>> = Vec::new();
    let mut inits: Vec<Operation> = Vec::new();
    let mut i: usize = 0;
    proof {
        assert(plans.take(0) =~= Seq::<ParamPlan>::empty());
    }
    while i < params.len()
        invariant
            i <= params.len() <= u32::MAX,
            entries == parameter_entries(config.params),
            isize == address_type(module.wasm_memory64),
            plans == param_plans(params@, entries, isize),
            params_passable(params@, entries),
            default_param.ty is None,
            default_param.kind == ParameterKind::FunctionParameter,
            parameters@ == parameters_of(plans.take(i as int)),
            are_variables(outside@, outside_of(plans.take(i as int))),
            are_variables(interface@, interface_of(plans.take(i as int), module.version)),
            are_inits(inits@, inits_of(plans.take(i as int))),
            locals@.len() == i,
            forall|j: int| 0 <= j < i ==> is_parameter_local(#[trigger] locals@[j], plans[j]),
        decreases params.len() - i,
    {
        let idx = i as u32;
        let param = match get_parameter(&config.params, idx) {
            Some(p) => p,
            None => &default_param,
        };
        assert(*param == parameter_config(entries, idx));
        assert(idx as int == i as int);
        let b = build_parameter(params[i], param, isize);
        let ghost p = plans[i as int];
        let ghost before = plans.take(i as int);
        let ghost after = plans.take(i as int + 1);
        assert(after.drop_last() =~= before);
        assert(after.last() == p);
        match b.parameter {
            Some(v) => {
                parameters.push(v);
            },
            None => {},
        }
        assert(parameters@ =~= parameters_of(after));
        match b.init {
            Some(op) => {
                proof {
                    lemma_are_inits_push(inits@, inits_of(before), op, init_of(p).unwrap());
                }
                inits.push(op);
            },
            None => {},
        }
        assert(inits_of(after) =~= inits_of(before) + (match init_of(p) {
            Some(s) => seq![s],
            None => Seq::empty(),
        }));
        let ghost input_shapes = match p.input {
            Some(s) => seq![s],
            None => Seq::<VariableShape>::empty(),
        };
        match b.input {
            Some(input) => {
                proof {
                    lemma_are_variables_push(outside@, outside_of(before), input, p.input.unwrap());
                    lemma_are_variables_push(interface@, interface_of(before, module.version), input, p.input.unwrap());
                }
                outside.push(input.clone());
                interface.push(input);
            },
            None => {
                assert(outside_of(before) + input_shapes =~= outside_of(before));
                assert(interface_of(before, module.version) + input_shapes =~= interface_of(before, module.version));
            },
        }
        let ghost out_mid = outside_of(before) + input_shapes;
        let ghost int_mid = interface_of(before, module.version) + input_shapes;
        assert(are_variables(outside@, out_mid));
        assert(are_variables(interface@, int_mid));
        if b.variable.storage_class != STORAGE_CLASS_FUNCTION {
            proof {
                lemma_are_variables_push(outside@, out_mid, b.variable, p.variable);
            }
            outside.push(b.variable.clone());
            if module.version.is_at_least(1, 4) || b.storage_class == STORAGE_CLASS_INPUT || b.storage_class
                == STORAGE_CLASS_OUTPUT {
                proof {
                    lemma_are_variables_push(interface@, int_mid, b.variable, p.variable);
                }
                interface.push(b.variable.clone());
            } else {
                assert(int_mid + Seq::<VariableShape>::empty() =~= int_mid);
            }
        } else {
            assert(out_mid + Seq::<VariableShape>::empty() =~= out_mid);
            assert(int_mid + Seq::<VariableShape>::empty() =~= int_mid);
        }
        assert(are_variables(outside@, outside_of(after)));
        assert(are_variables(interface@, interface_of(after, module.version)));
        locals.push(Storeable::Pointer { variable: b.variable, integer_variable: b.integer_variable });
        i = i + 1;
    }
    proof {
        assert(plans.take(params.len() as int) =~= plans);
    }
    ParameterSetup { parameters, locals, outside, interface, inits }
}

/// Appends to `locals` the locals that the groups `(count, type)` declare.
fn push_locals(groups: &Vec<(u32, ScalarType)>, memory64: bool, locals: &mut Vec<Storeable>)
    ensures
        final(locals)@.len() == old(locals)@.len() + local_kinds(groups@, memory64).len(),
        forall|j: int| 0 <= j < old(locals)@.len() ==> #[trigger] final(locals)@[j] == old(locals)@[j],
        forall|j: int|
            0 <= j < local_kinds(groups@, memory64).len() ==> is_local(
                #[trigger] final(locals)@[old(locals)@.len() + j],
                local_kinds(groups@, memory64)[j],
            ),
{
    let ghost base = old(locals)@.len();
    let ghost start = old(locals)@;
    let mut g: usize = 0;
    proof {
        assert(groups@.take(0) =~= Seq::<(u32, ScalarType)>::empty());
    }
    while g < groups.len()
        invariant
            g <= groups.len(),
            base == start.len(),
            locals@.len() == base + local_kinds(groups@.take(g as int), memory64).len(),
            forall|j: int| 0 <= j < base ==> #[trigger] locals@[j] == start[j],
            forall|j: int|
                0 <= j < local_kinds(groups@.take(g as int), memory64).len() ==> is_local(
                    #[trigger] locals@[base + j],
                    local_kinds(groups@.take(g as int), memory64)[j],
                ),
        decreases groups.len() - g,
    {
        let (count, ty) = groups[g];
        let address = (ty == ScalarType::I32 && !memory64) || (ty == ScalarType::I64 && memory64);
        let ghost kind = if holds_address(ty, memory64) {
            None
        } else {
            Some(ty)
        };
        let ghost before = local_kinds(groups@.take(g as int), memory64);
        let ghost after = local_kinds(groups@.take(g as int + 1), memory64);
        assert(groups@.take(g as int + 1).drop_last() =~= groups@.take(g as int));
        assert(after =~= before + Seq::new(count as nat, |_j: int| kind));
        let mut c: u32 = 0;
        while c < count
            invariant
                c <= count,
                base == start.len(),
                locals@.len() == base + before.len() + c,
                forall|j: int| 0 <= j < base ==> #[trigger] locals@[j] == start[j],
                forall|j: int| 0 <= j < before.len() ==> is_local(#[trigger] locals@[base + j], before[j]),
                forall|j: int| 0 <= j < c ==> is_local(#[trigger] locals@[base + before.len() + j], kind),
                address == holds_address(ty, memory64),
                kind == (if holds_address(ty, memory64) {
                    None
                } else {
                    Some(ty)
                }),
            decreases count - c,
        {
            let local = if address {
                Storeable::Schrodinger(
                    Rc::new(Schrodinger { pointer: None, offset: None, integer: None, decorators: Rc::new(Vec::new()) }),
                )
            } else {
                Storeable::Pointer {
                    variable: fresh_variable(PointerSize::Skinny, STORAGE_CLASS_FUNCTION, Type::Scalar(ty), Vec::new()),
                    integer_variable: None,
                }
            };
            locals.push(local);
            c = c + 1;
        }
        assert forall|j: int| 0 <= j < after.len() implies is_local(#[trigger] locals@[base + j], after[j]) by {
            if j >= before.len() {
                assert(locals@[base + before.len() + (j - before.len())] == locals@[base + j]);
            }
        }
        g = g + 1;
    }
    proof {
        assert(groups@.take(groups.len() as int) =~= groups@);
    }
}

/// What the blocks of a function share before its body is translated: no
/// anchors, no labels, the module's capabilities, functions and globals,
/// and the locals and entry-point interface of the function `setup` as it
/// was set up.
pub open spec fn initial_shared(module: ModuleBuilder, setup: FunctionBuilder) -> Shared {
    Shared {
        anchors: Seq::empty(),
        labels: 0,
        caps_static: module.capabilities is Static,
        caps: capability_list(module.capabilities),
        functions: module.functions@,
        globals: module.global_variables@,
        locals: setup.local_variables@,
        interface: entry_interface(setup),
    }
}

/// The translation of a function body: a block that ends by returning the
/// result, inside no other block.
pub open spec fn body_run(body: Seq<Operator>, results: Seq<ScalarType>, module: ModuleBuilder, setup: FunctionBuilder) -> Run {
    spec_run(
        body,
        0,
        body.len() as int,
        Seq::empty(),
        initial_shared(module, setup),
        End::Return(return_type_of(results)),
        Seq::empty(),
        module.addressing_model,
        module.wasm_memory64,
        module.memory_grow_error,
    )
}

/// Whether a parameter of WebAssembly type `wasm_ty` configured as
/// `param` can be passed by the caller.
fn parameter_passable(wasm_ty: ScalarType, param: &Parameter) -> (r: bool)
    ensures
        r == (param.kind is FunctionParameter ==> passable(parameter_type(wasm_ty, *param).0)),
{
    match param.kind {
        ParameterKind::FunctionParameter => {},
        _ => return true,
    }
    let ty = match &param.ty {
        Some(Type::Pointer { pointee, .. }) => &**pointee,
        Some(t) => t,
        None => return wasm_ty == ScalarType::I32 || wasm_ty == ScalarType::I64 || wasm_ty == ScalarType::F32
            || wasm_ty == ScalarType::F64,
    };
    match ty {
        Type::Pointer { .. } => true,
        Type::Scalar(t) => *t == ScalarType::I32 || *t == ScalarType::I64 || *t == ScalarType::F32 || *t
            == ScalarType::F64,
        _ => false,
    }
}

/// Whether every parameter that the caller passes, of the WebAssembly types
/// `params` configured as `config` says, has a type that can be passed.
pub fn parameters_passable(params: &Vec<ScalarType>, config: &FunctionConfig) -> (r: bool)
    requires
        params.len() <= u32::MAX,
    ensures
        r == params_passable(params@, parameter_entries(config.params)),
{
    let ghost entries = parameter_entries(config.params);
    let default_param = Parameter { ty: None, kind: ParameterKind::FunctionParameter };
    let mut i: usize = 0;
    while i < params.len()
        invariant
            i <= params.len() <= u32::MAX,
            entries == parameter_entries(config.params),
            default_param.ty is None,
            default_param.kind == ParameterKind::FunctionParameter,
            forall|j: int|
                0 <= j < i && (#[trigger] parameter_config(entries, j as u32)).kind is FunctionParameter
                    ==> passable(parameter_type(params@[j], parameter_config(entries, j as u32)).0),
        decreases params.len() - i,
    {
        let idx = i as u32;
        let param = match get_parameter(&config.params, idx) {
            Some(p) => p,
            None => &default_param,
        };
        assert(*param == parameter_config(entries, idx));
        if !parameter_passable(params[i], param) {
            assert(idx as int == i as int);
            return false;
        }
        i = i + 1;
    }
    true
}

impl FunctionBuilder {
    /// As `new`, after checking that every parameter the caller passes can
    /// be passed: `None` where one cannot, and nothing is set up.
    pub fn new_checked(
        function_id: u32,
        export: Option<String>,
        config: &FunctionConfig,
        params: &Vec<ScalarType>,
        results: &Vec<ScalarType>,
        locals: &Vec<(u32, ScalarType)>,
        body: &Vec<Operator>,
        module: &mut ModuleBuilder,
    ) -> (r: Option<Result<Self, Error>>)
        requires
            results.len() < 2 ==> params.len() <= u32::MAX,
            results.len() < 2 ==> !(export is None && config.execution_model is Some),
            results.len() < 2 ==> forall|f: FunctionBuilder|
                #[trigger] f.set_up_from(function_id, export, *config, params@, results@, locals@, *old(module))
                    ==> body_run(body@, results@, *old(module), f).defined,
        ensures
            results.len() >= 2 ==> r == Some(Err::<Self, Error>(Error::MultipleResults)) && *final(module) == *old(module),
            results.len() < 2 && !params_passable(params@, parameter_entries(config.params)) ==> r is None
                && *final(module) == *old(module),
            results.len() < 2 && params_passable(params@, parameter_entries(config.params)) ==> r is Some,
    {
        if results.len() < 2 && !parameters_passable(params, config) {
            return None;
        }
        Some(Self::new(function_id, export, config, params, results, locals, body, module))
    }
}

/// Whether a function can be set up and its body translated: with fewer
/// than two results, its parameters can be counted and passed, an entry
/// point is exported, and every instruction of the body is one that is
/// translated.
pub open spec fn new_allowed(
    function_id: u32,
    export: Option<String>,
    config: FunctionConfig,
    params: Seq<ScalarType>,
    results: Seq<ScalarType>,
    locals: Seq<(u32, ScalarType)>,
    body: Seq<Operator>,
    module: ModuleBuilder,
) -> bool {
    results.len() < 2 ==> {
        &&& params.len() <= u32::MAX
        &&& params_passable(params, parameter_entries(config.params))
        &&& !(export is None && config.execution_model is Some)
        &&& forall|f: FunctionBuilder|
            #[trigger] f.set_up_from(function_id, export, config, params, results, locals, module) ==> body_run(
                body,
                results,
                module,
                f,
            ).defined
    }
}

/// What setting up and translating a function gives, the module being
/// `before` and then `after`: with two results or more an error and the
/// module unchanged; else the function set up from its type, locals and
/// configuration whose body was translated, or the error that translating
/// it gave.
pub open spec fn built_function(
    r: Result<FunctionBuilder, Error>,
    function_id: u32,
    export: Option<String>,
    config: FunctionConfig,
    params: Seq<ScalarType>,
    results: Seq<ScalarType>,
    locals: Seq<(u32, ScalarType)>,
    body: Seq<Operator>,
    before: ModuleBuilder,
    after: ModuleBuilder,
) -> bool {
    &&& results.len() >= 2 ==> r == Err::<FunctionBuilder, Error>(Error::MultipleResults) && after == before
    &&& results.len() < 2 ==> match r {
        Ok(f) => exists|f0: FunctionBuilder|
            {
                let run = body_run(body, results, before, f0);
                &&& #[trigger] f0.set_up_from(function_id, export, config, params, results, locals, before)
                &&& f.same_but_body(f0)
                &&& run.result is Ok
                &&& f.anchors@ == run.shared.anchors
                &&& f.next_label == run.shared.labels
                &&& f.local_variables@ == run.shared.locals
                &&& entry_interface(f) == run.shared.interface
                &&& after.same_but_capabilities(before)
                &&& (after.capabilities is Static) == run.shared.caps_static
                &&& capability_list(after.capabilities) == run.shared.caps
            },
        Err(e) => exists|f0: FunctionBuilder|
            {
                let run = body_run(body, results, before, f0);
                &&& #[trigger] f0.set_up_from(function_id, export, config, params, results, locals, before)
                &&& run.result == Err::<(), Error>(e)
                &&& after.same_but_capabilities(before)
                &&& (after.capabilities is Static) == run.shared.caps_static
                &&& capability_list(after.capabilities) == run.shared.caps
            },
    }
}

impl FunctionBuilder {
    /// Sets up a function of WebAssembly parameter types `params`, result
    /// types `results` and local groups `locals` (a count and a type each):
    /// its parameters and locals become variables as `config` says, and an
    /// exported function with an execution model becomes an entry point
    /// named by its export. Then its body `body` is translated as a block
    /// that ends by returning the result, inside no other block.
    pub fn new(
        function_id: u32,
        export: Option<String>,
        config: &FunctionConfig,
        params: &Vec<ScalarType>,
        results: &Vec<ScalarType>,
        locals: &Vec<(u32, ScalarType)>,
        body: &Vec<Operator>,
        module: &mut ModuleBuilder,
    ) -> (r: Result<Self, Error>)
        requires
            new_allowed(function_id, export, *config, params@, results@, locals@, body@, *old(module)),
        ensures
            built_function(r, function_id, export, *config, params@, results@, locals@, body@, *old(module), *final(module)),
    {
        if results.len() >= 2 {
            return Err(Error::MultipleResults);
        }
        let return_type = if results.len() == 0 {
            None
        } else {
            Some(Type::Scalar(results[0]))
        };
        let end_type = if results.len() == 0 {
            None
        } else {
            Some(Type::Scalar(results[0]))
        };
        let setup = set_up_parameters(config, params, module);
        let ParameterSetup { parameters, locals: mut local_variables, outside, interface, inits } = setup;
        push_locals(locals, module.wasm_memory64, &mut local_variables);
        let entry_point = match (export, config.execution_model) {
            (Some(name), Some(execution_model)) => {
                let mut execution_modes: Vec<ExecutionMode> = Vec::new();
                let mut k: usize = 0;
                while k < config.execution_modes.len()
                    invariant
                        k <= config.execution_modes.len(),
                        execution_modes@ == config.execution_modes@.take(k as int),
                    decreases config.execution_modes.len() - k,
                {
                    execution_modes.push(config.execution_modes[k]);
                    k = k + 1;
                    assert(execution_modes@ =~= config.execution_modes@.take(k as int));
                }
                assert(execution_modes@ =~= config.execution_modes@);
                Some(EntryPoint { execution_model, execution_modes, name, interface })
            },
            _ => None,
        };
        let mut result = FunctionBuilder {
            function_id,
            entry_point,
            parameters,
            local_variables,
            return_type,
            anchors: Vec::new(),
            variable_initializers: inits,
            outside_vars: outside,
            next_label: 0,
        };
        let ghost set_up = result;
        assert(set_up.set_up_from(function_id, export, *config, params@, results@, locals@, *old(module)));
        assert(shared_of(result, *module) == initial_shared(*old(module), set_up)) by {
            assert(result.anchors@ =~= Seq::<Operation>::empty());
        }
        match translate_block(body, 0, body.len(), Vec::new(), End::Return(end_type), &mut result, module) {
            Ok(_) => {},
            Err(e) => {
                assert(set_up.set_up_from(function_id, export, *config, params@, results@, locals@, *old(module)));
                return Err(e);
            },
        }
        assert(set_up.set_up_from(function_id, export, *config, params@, results@, locals@, *old(module)));
        Ok(result)
    }
}

/// The labels of the blocks open before `anchors[n]`, innermost last: a
/// label opens a block, and an operation that ends a block closes the
/// innermost one.
pub open spec fn open_labels(anchors: Seq<Operation>, n: int) -> Seq<Rc<Label>>
    decreases n,
{
    if n <= 0 {
        Seq::empty()
    } else {
        let before = open_labels(anchors, n - 1);
        match anchors[n - 1] {
            Operation::Label(l) => before.push(l),
            a => if terminates_block(a) && before.len() > 0 {
                before.drop_last()
            } else {
                before
            },
        }
    }
}

/// The index of the first label with id `id` at or after `k`, or the
/// number of anchors.
pub open spec fn label_index(anchors: Seq<Operation>, id: u64, k: int) -> int
    decreases anchors.len() - k,
{
    if k < 0 || k >= anchors.len() {
        anchors.len() as int
    } else if anchors[k] matches Operation::Label(l) && l.id == id {
        k
    } else {
        label_index(anchors, id, k + 1)
    }
}

/// The position after the operation that ends the block whose operations
/// start at `k`, `depth` blocks further in; or the number of anchors.
pub open spec fn block_close(anchors: Seq<Operation>, k: int, depth: nat) -> int
    decreases anchors.len() - k,
{
    if k < 0 || k >= anchors.len() {
        anchors.len() as int
    } else if anchors[k] is Label {
        block_close(anchors, k + 1, depth + 1)
    } else if terminates_block(anchors[k]) {
        if depth == 0 {
            k + 1
        } else {
            block_close(anchors, k + 1, (depth - 1) as nat)
        }
    } else {
        block_close(anchors, k + 1, depth)
    }
}

fn is_label_with(op: &Operation, id: u64) -> (r: bool)
    ensures
        r == (*op matches Operation::Label(l) && l.id == id),
{
    match op {
        Operation::Label(l) => l.id == id,
        _ => false,
    }
}

proof fn lemma_block_close_bounds(anchors: Seq<Operation>, k: int, depth: nat)
    requires
        0 <= k <= anchors.len(),
    ensures
        k <= block_close(anchors, k, depth) <= anchors.len(),
    decreases anchors.len() - k,
{
    if k < anchors.len() {
        if anchors[k] is Label {
            lemma_block_close_bounds(anchors, k + 1, depth + 1);
        } else if terminates_block(anchors[k]) {
            if depth != 0 {
                lemma_block_close_bounds(anchors, k + 1, (depth - 1) as nat);
            }
        } else {
            lemma_block_close_bounds(anchors, k + 1, depth);
        }
    }
}

impl FunctionBuilder {
    /// The label of the innermost block that the anchor at `index` is in.
    pub fn block_of(&self, index: usize) -> (r: Option<Rc<Label>>)
        ensures
            r == (if index < self.anchors@.len() && open_labels(self.anchors@, index as int).len() > 0 {
                Some(open_labels(self.anchors@, index as int).last())
            } else {
                None::<Rc<Label>>
            }),
    {
        if index >= self.anchors.len() {
            return None;
        }
        let mut current: Vec<Rc<Label>> = Vec::new();
        let mut i: usize = 0;
        while i < index
            invariant
                i <= index < self.anchors@.len(),
                current@ == open_labels(self.anchors@, i as int),
            decreases index - i,
        {
            match &self.anchors[i] {
                Operation::Label(l) => {
                    current.push(l.clone());
                },
                a => {
                    if a.is_block_terminating() && current.len() > 0 {
                        current.pop();
                    }
                },
            }
            i = i + 1;
        }
        let n = current.len();
        if n == 0 {
            None
        } else {
            Some(current[n - 1].clone())
        }
    }

    /// The anchors of the block that `label` starts, as a range of
    /// indices: from after the label up to and including the operation
    /// that ends it. The range is empty where no anchor is the label.
    pub fn block(&self, label: &Label) -> (r: (usize, usize))
        ensures
            ({
                let li = label_index(self.anchors@, label.id, 0);
                r == (if li >= self.anchors@.len() {
                    (self.anchors@.len() as usize, self.anchors@.len() as usize)
                } else {
                    ((li + 1) as usize, block_close(self.anchors@, li + 1, 0) as usize)
                })
            }),
    {
        let n = self.anchors.len();
        let mut i: usize = 0;
        while i < n && !is_label_with(&self.anchors[i], label.id)
            invariant
                i <= n == self.anchors@.len(),
                label_index(self.anchors@, label.id, i as int) == label_index(self.anchors@, label.id, 0),
            decreases n - i,
        {
            i = i + 1;
        }
        if i == n {
            return (n, n);
        }
        let start = i + 1;
        proof {
            lemma_block_close_bounds(self.anchors@, start as int, 0);
        }
        let mut depth: usize = 0;
        let mut k = start;
        while k < n
            invariant
                start <= k <= n == self.anchors@.len(),
                start as int == label_index(self.anchors@, label.id, 0) + 1,
                block_close(self.anchors@, start as int, 0) <= n,
                depth <= k - start,
                block_close(self.anchors@, k as int, depth as nat) == block_close(self.anchors@, start as int, 0),
            decreases n - k,
        {
            let a = &self.anchors[k];
            match a {
                Operation::Label(_) => {
                    depth = depth + 1;
                },
                _ => {
                    if a.is_block_terminating() {
                        if depth == 0 {
                            return (start, k + 1);
                        }
                        depth = depth - 1;
                    }
                },
            }
            k = k + 1;
        }
        (start, n)
    }
}

} // verus!
