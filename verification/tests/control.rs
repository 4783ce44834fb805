use std::rc::Rc;
use wasm2spirv::block::{BlockBuilder, Operator, TranslationResult};
use wasm2spirv::variables::translate_variables;
use wasm2spirv::config::{AddressingModel, CapabilityModel, Config, MemoryGrowErrorKind};
use wasm2spirv::decorator::VariableDecorator;
use wasm2spirv::error::Error;
use wasm2spirv::function::{Either, FunctionConfig, FunctionConfigBuilder, ParameterKind};
use wasm2spirv::function_builder::{FunctionBuilder, Label, Operation, Storeable};
use wasm2spirv::module::{GlobalVariable, ModuleBuilder};
use wasm2spirv::values::integer::Integer;
use wasm2spirv::values::pointer::Pointer;
use wasm2spirv::spv::{
    EXECUTION_MODEL_GL_COMPUTE, MEMORY_MODEL_GLSL450, STORAGE_CLASS_FUNCTION, STORAGE_CLASS_STORAGE_BUFFER,
};
use wasm2spirv::types::{PointerSize, ScalarType, Type};
use wasm2spirv::values::bool::BoolSource;
use wasm2spirv::values::integer::ConstantSource;
use wasm2spirv::values::pointer::PointerSource;
use wasm2spirv::values::Value;
use wasm2spirv::version::{TargetPlatform, Version};

fn module(memory64: bool) -> ModuleBuilder {
    let config = Config::builder(
        TargetPlatform::Vulkan(Version::new(1, 1)),
        CapabilityModel::dynamic(Vec::new()),
        Vec::new(),
        AddressingModel::Logical,
        MEMORY_MODEL_GLSL450,
    )
    .unwrap()
    .set_memory_grow_error(MemoryGrowErrorKind::Soft)
    .build();
    ModuleBuilder::new(config, memory64).unwrap()
}

fn build(
    params: Vec<ScalarType>,
    results: Vec<ScalarType>,
    locals: Vec<(u32, ScalarType)>,
    body: Vec<Operator>,
) -> Result<FunctionBuilder, Error> {
    let mut m = module(false);
    FunctionBuilder::new(7, None, &FunctionConfig::default(), &params, &results, &locals, &body, &mut m)
}

fn label_id(op: &Operation) -> Option<u64> {
    match op {
        Operation::Label(l) => Some(l.id),
        _ => None,
    }
}

fn branch_id(op: &Operation) -> Option<u64> {
    match op {
        Operation::Branch { label } => Some(label.id),
        _ => None,
    }
}

fn returned_constant(op: &Operation) -> Option<ConstantSource> {
    match op {
        Operation::Return { value: Some(Value::Integer(x)) } => x.get_constant_value().unwrap(),
        _ => None,
    }
}

#[test]
fn two_results_are_refused() {
    let r = build(Vec::new(), vec![ScalarType::I32, ScalarType::I32], Vec::new(), vec![Operator::End]);
    assert_eq!(r.unwrap_err(), Error::MultipleResults);
}

#[test]
fn parameters_and_locals_become_variables() {
    let f = build(
        vec![ScalarType::I32, ScalarType::F32],
        vec![ScalarType::I32],
        vec![(2, ScalarType::I32), (1, ScalarType::F64)],
        vec![Operator::I32Const { value: 1 }, Operator::I32Const { value: 2 }, Operator::I32Add, Operator::End],
    )
    .unwrap();
    assert_eq!(f.function_id, 7);
    assert_eq!(f.parameters.len(), 2);
    assert_eq!(f.variable_initializers.len(), 2);
    assert!(f.outside_vars.is_empty());
    assert!(f.entry_point.is_none());
    assert!(matches!(f.return_type, Some(Type::Scalar(ScalarType::I32))));
    assert_eq!(f.local_variables.len(), 5);
    for i in 0..2 {
        match &f.local_variables[i] {
            Storeable::Pointer { variable, integer_variable } => {
                assert_eq!(variable.storage_class, STORAGE_CLASS_FUNCTION);
                assert!(integer_variable.is_none());
            },
            other => panic!("{:?}", other),
        }
    }
    for i in 2..4 {
        assert!(matches!(&f.local_variables[i], Storeable::Schrodinger(s) if s.pointer.is_none() && s.integer.is_none()));
    }
    match &f.local_variables[4] {
        Storeable::Pointer { variable, .. } => assert!(matches!(variable.pointee, Type::Scalar(ScalarType::F64))),
        other => panic!("{:?}", other),
    }
    assert_eq!(f.anchors.len(), 1);
    assert_eq!(returned_constant(&f.anchors[0]), Some(ConstantSource::Short(3)));
}

#[test]
fn memory64_locals_that_hold_addresses_are_i64() {
    let mut m = module(true);
    let f = FunctionBuilder::new(
        0,
        None,
        &FunctionConfig::default(),
        &Vec::new(),
        &Vec::new(),
        &vec![(1, ScalarType::I32), (1, ScalarType::I64)],
        &vec![Operator::End],
        &mut m,
    )
    .unwrap();
    assert!(matches!(&f.local_variables[0], Storeable::Pointer { .. }));
    assert!(matches!(&f.local_variables[1], Storeable::Schrodinger(_)));
    assert!(matches!(&f.anchors[0], Operation::Return { value: None }));
}

#[test]
fn an_exported_entry_point_gets_its_interface() {
    let built = FunctionConfigBuilder::__new()
        .set_entry_point(EXECUTION_MODEL_GL_COMPUTE)
        .param(0)
        .set_kind(ParameterKind::DescriptorSet { storage_class: STORAGE_CLASS_STORAGE_BUFFER, set: 0, binding: 3 })
        .unwrap()
        .set_type(Type::Pointer {
            size: PointerSize::Skinny,
            storage_class: STORAGE_CLASS_STORAGE_BUFFER,
            pointee: Box::new(Type::Scalar(ScalarType::I32)),
        })
        .unwrap()
        .build()
        .__build();
    let config = match built {
        Either::Right(c) => c,
        Either::Left(_) => panic!("no configuration builder was given"),
    };
    let mut m = module(false);
    let f = FunctionBuilder::new(
        1,
        Some(String::from("main")),
        &config,
        &vec![ScalarType::I32],
        &Vec::new(),
        &Vec::new(),
        &vec![Operator::End],
        &mut m,
    )
    .unwrap();
    let ep = f.entry_point.as_ref().unwrap();
    assert_eq!(ep.name, "main");
    assert_eq!(ep.execution_model, EXECUTION_MODEL_GL_COMPUTE);
    // Vulkan 1.1 is SPIR-V 1.3: a storage buffer is outside the interface.
    assert!(ep.interface.is_empty());
    assert_eq!(f.outside_vars.len(), 1);
    let var = &f.outside_vars[0];
    assert_eq!(var.storage_class, STORAGE_CLASS_STORAGE_BUFFER);
    match &var.source {
        PointerSource::Variable { init, decorators } => {
            assert!(init.is_none());
            assert_eq!(**decorators, vec![VariableDecorator::DesctiptorSet(0), VariableDecorator::Binding(3)]);
        },
        other => panic!("{:?}", other),
    }
    assert!(f.parameters.is_empty());
    assert!(f.variable_initializers.is_empty());
    match &f.local_variables[0] {
        Storeable::Pointer { integer_variable, .. } => assert!(integer_variable.is_some()),
        other => panic!("{:?}", other),
    }
}

#[test]
fn a_block_closes_with_its_end_label() {
    let f = build(
        Vec::new(),
        Vec::new(),
        Vec::new(),
        vec![
            Operator::Block,
            Operator::I32Const { value: 1 },
            Operator::BrIf { relative_depth: 0 },
            Operator::I32Const { value: 5 },
            Operator::Drop,
            Operator::End,
            Operator::End,
        ],
    )
    .unwrap();
    let a = &f.anchors;
    assert_eq!(a.len(), 7);
    assert_eq!(branch_id(&a[0]), Some(0));
    assert_eq!(label_id(&a[1]), Some(0));
    match &a[2] {
        Operation::BranchConditional { condition, true_label, false_label } => {
            assert!(matches!(condition.source, BoolSource::Constant(true)));
            assert_eq!(true_label.id, 1);
            assert_eq!(false_label.id, 2);
        },
        other => panic!("{:?}", other),
    }
    assert_eq!(label_id(&a[3]), Some(2));
    // The block did not end in a branch, so one to its end label is added.
    assert_eq!(branch_id(&a[4]), Some(1));
    assert_eq!(label_id(&a[5]), Some(1));
    assert!(matches!(&a[6], Operation::Return { value: None }));
    assert_eq!(f.next_label, 3);
}

#[test]
fn a_loop_branches_back_to_its_start() {
    let f = build(
        Vec::new(),
        Vec::new(),
        Vec::new(),
        vec![Operator::Loop, Operator::Br { relative_depth: 0 }, Operator::End, Operator::End],
    )
    .unwrap();
    let a = &f.anchors;
    assert_eq!(a.len(), 4);
    assert_eq!(branch_id(&a[0]), Some(0));
    assert_eq!(label_id(&a[1]), Some(0));
    assert_eq!(branch_id(&a[2]), Some(0));
    assert!(matches!(&a[3], Operation::Return { value: None }));
}

#[test]
fn a_block_that_ends_in_a_branch_gets_no_second_one() {
    let f = build(
        Vec::new(),
        Vec::new(),
        Vec::new(),
        vec![Operator::Block, Operator::Br { relative_depth: 0 }, Operator::End, Operator::End],
    )
    .unwrap();
    let a = &f.anchors;
    assert_eq!(a.len(), 5);
    assert_eq!(branch_id(&a[2]), Some(1));
    assert_eq!(label_id(&a[3]), Some(1));
}

#[test]
fn a_branch_past_the_outermost_block_is_refused() {
    let r = build(Vec::new(), Vec::new(), Vec::new(), vec![Operator::Br { relative_depth: 0 }]);
    assert_eq!(r.unwrap_err(), Error::ElementNotFound);
}

#[test]
fn a_constant_selector_picks_an_operand() {
    let f = build(
        Vec::new(),
        vec![ScalarType::I32],
        Vec::new(),
        vec![
            Operator::I32Const { value: 10 },
            Operator::I32Const { value: 20 },
            Operator::I32Const { value: 0 },
            Operator::Select,
            Operator::End,
        ],
    )
    .unwrap();
    assert_eq!(returned_constant(&f.anchors[0]), Some(ConstantSource::Short(20)));
}

#[test]
fn return_pops_the_result() {
    let r = build(Vec::new(), vec![ScalarType::I32], Vec::new(), vec![Operator::Return]);
    assert_eq!(r.unwrap_err(), Error::EmptyStack);
}

#[test]
fn an_unknown_instruction_is_an_error() {
    let r = build(Vec::new(), Vec::new(), Vec::new(), vec![Operator::Other]);
    assert_eq!(r.unwrap_err(), Error::UnknownInstruction);
}

#[test]
fn instructions_after_the_end_are_not_read() {
    let f = build(Vec::new(), Vec::new(), Vec::new(), vec![Operator::End, Operator::Other]).unwrap();
    assert_eq!(f.anchors.len(), 1);
}

#[test]
fn split_branch_finds_the_matching_end() {
    let ops = vec![Operator::Block, Operator::Loop, Operator::End, Operator::End, Operator::End, Operator::Drop];
    assert_eq!(wasm2spirv::control::split_branch(&ops, 1, ops.len()), 4);
    assert_eq!(wasm2spirv::control::split_branch(&ops, 2, ops.len()), 3);
    assert_eq!(wasm2spirv::control::split_branch(&ops, 5, ops.len()), 6);
}

#[test]
fn labels_are_fresh() {
    let mut f = build(Vec::new(), Vec::new(), Vec::new(), vec![Operator::End]).unwrap();
    let a: Rc<Label> = f.new_label();
    let b = f.new_label();
    assert_ne!(a.id, b.id);
}

#[test]
fn blocks_of_anchors_follow_labels() {
    let f = build(
        Vec::new(),
        Vec::new(),
        Vec::new(),
        vec![
            Operator::Block,
            Operator::I32Const { value: 1 },
            Operator::BrIf { relative_depth: 0 },
            Operator::I32Const { value: 5 },
            Operator::Drop,
            Operator::End,
            Operator::End,
        ],
    )
    .unwrap();
    let ids: Vec<Option<u64>> = (0..8).map(|i| f.block_of(i).map(|l| l.id)).collect();
    assert_eq!(ids, vec![None, None, Some(0), None, Some(2), None, Some(1), None]);
    assert_eq!(f.block(&Label { id: 0 }), (2, 3));
    assert_eq!(f.block(&Label { id: 2 }), (4, 5));
    assert_eq!(f.block(&Label { id: 1 }), (6, 7));
    assert_eq!(f.block(&Label { id: 9 }), (7, 7));
}

fn with_functions(body: Vec<Operator>, results: Vec<ScalarType>) -> Result<FunctionBuilder, Error> {
    let mut m = module(false);
    m.functions.push(wasm2spirv::module::CallableFunction {
        function_id: 42,
        params: vec![ScalarType::I32, ScalarType::I32],
        results: vec![ScalarType::I32],
        builtin: None,
    });
    m.functions.push(wasm2spirv::module::CallableFunction {
        function_id: 43,
        params: vec![ScalarType::I64],
        results: Vec::new(),
        builtin: None,
    });
    FunctionBuilder::new(0, None, &FunctionConfig::default(), &Vec::new(), &results, &Vec::new(), &body, &mut m)
}

#[test]
fn a_call_takes_its_arguments_in_order() {
    let f = with_functions(
        vec![Operator::I32Const { value: 1 }, Operator::I32Const { value: 2 }, Operator::Call { function_index: 0 }, Operator::End],
        vec![ScalarType::I32],
    )
    .unwrap();
    match &f.anchors[0] {
        Operation::Return { value: Some(Value::Integer(x)) } => match &x.source {
            wasm2spirv::values::integer::IntegerSource::FunctionCall { function_id, args, kind } => {
                assert_eq!(*function_id, 42);
                assert_eq!(*kind, wasm2spirv::values::integer::IntegerKind::Short);
                let args = args.to_vec();
                assert_eq!(args.len(), 2);
                let c: Vec<Option<ConstantSource>> = args
                    .iter()
                    .map(|a| match a {
                        Value::Integer(i) => i.get_constant_value().unwrap(),
                        _ => None,
                    })
                    .collect();
                assert_eq!(c, vec![Some(ConstantSource::Short(1)), Some(ConstantSource::Short(2))]);
            },
            other => panic!("{:?}", other),
        },
        other => panic!("{:?}", other),
    }
}

#[test]
fn a_call_without_result_is_anchored() {
    let f = with_functions(vec![Operator::I64Const { value: 5 }, Operator::Call { function_index: 1 }, Operator::End], Vec::new())
        .unwrap();
    assert_eq!(f.anchors.len(), 2);
    match &f.anchors[0] {
        Operation::FunctionCall { function_id, args } => {
            assert_eq!(*function_id, 43);
            assert_eq!(args.to_vec().len(), 1);
        },
        other => panic!("{:?}", other),
    }
}

#[test]
fn a_call_to_an_unknown_function_is_refused() {
    let r = with_functions(vec![Operator::Call { function_index: 2 }], Vec::new());
    assert_eq!(r.unwrap_err(), Error::ElementNotFound);
    let r = with_functions(vec![Operator::I32Const { value: 1 }, Operator::Call { function_index: 0 }], vec![ScalarType::I32]);
    assert_eq!(r.unwrap_err(), Error::EmptyStack);
}

fn with_globals(body: Vec<Operator>, results: Vec<ScalarType>) -> Result<FunctionBuilder, Error> {
    let mut m = module(false);
    m.global_variables.push(GlobalVariable::Variable(Rc::new(Pointer::new_variable(
        PointerSize::Skinny,
        wasm2spirv::spv::STORAGE_CLASS_PRIVATE,
        Type::Scalar(ScalarType::I32),
        None,
        Rc::new(Vec::new()),
    ))));
    m.global_variables.push(GlobalVariable::Constant(Value::Integer(Rc::new(Integer::new_constant_u32(11)))));
    FunctionBuilder::new(0, None, &FunctionConfig::default(), &Vec::new(), &results, &Vec::new(), &body, &mut m)
}

#[test]
fn globals_are_loaded_and_stored() {
    let f = with_globals(
        vec![Operator::I32Const { value: 3 }, Operator::GlobalSet { global_index: 0 }, Operator::GlobalGet { global_index: 0 }, Operator::End],
        vec![ScalarType::I32],
    )
    .unwrap();
    assert_eq!(f.anchors.len(), 2);
    match &f.anchors[0] {
        Operation::Store { value: Value::Integer(x), log2_alignment: None, .. } => {
            assert_eq!(x.get_constant_value().unwrap(), Some(ConstantSource::Short(3)))
        },
        other => panic!("{:?}", other),
    }
    match &f.anchors[1] {
        Operation::Return { value: Some(Value::Integer(x)) } => {
            assert!(matches!(x.source, wasm2spirv::values::integer::IntegerSource::Loaded { .. }))
        },
        other => panic!("{:?}", other),
    }
}

#[test]
fn a_constant_global_is_read_but_not_written() {
    let f = with_globals(vec![Operator::GlobalGet { global_index: 1 }, Operator::End], vec![ScalarType::I32]).unwrap();
    assert_eq!(returned_constant(&f.anchors[0]), Some(ConstantSource::Short(11)));
    let r = with_globals(vec![Operator::I32Const { value: 3 }, Operator::GlobalSet { global_index: 1 }], Vec::new());
    assert_eq!(r.unwrap_err(), Error::ConstantGlobal);
    let r = with_globals(vec![Operator::GlobalGet { global_index: 2 }], Vec::new());
    assert_eq!(r.unwrap_err(), Error::ElementNotFound);
}

#[test]
fn locals_are_read_and_written_through_their_variables() {
    let f = build(
        vec![ScalarType::I32],
        Vec::new(),
        Vec::new(),
        vec![
            Operator::I32Const { value: 5 },
            Operator::LocalTee { local_index: 0 },
            Operator::LocalSet { local_index: 0 },
            Operator::LocalGet { local_index: 0 },
            Operator::Drop,
            Operator::End,
        ],
    )
    .unwrap();
    assert_eq!(f.anchors.len(), 3);
    for i in 0..2 {
        match &f.anchors[i] {
            Operation::Store { target, value: Value::Integer(x), log2_alignment: None } => {
                assert_eq!(target.storage_class, STORAGE_CLASS_FUNCTION);
                assert_eq!(x.get_constant_value().unwrap(), Some(ConstantSource::Short(5)));
            },
            other => panic!("{:?}", other),
        }
    }
    assert!(matches!(&f.anchors[2], Operation::Return { value: None }));
}

#[test]
fn local_get_pushes_the_variable() {
    let mut m = module(false);
    let mut f = FunctionBuilder::new(
        0,
        None,
        &FunctionConfig::default(),
        &vec![ScalarType::F32],
        &Vec::new(),
        &Vec::new(),
        &vec![Operator::End],
        &mut m,
    )
    .unwrap();
    let mut block = BlockBuilder::dummy();
    let r = translate_variables(&Operator::LocalGet { local_index: 0 }, &mut block, &mut f, &m);
    assert_eq!(r, Ok(TranslationResult::Found));
    assert_eq!(block.stack.len(), 1);
    match &block.stack[0] {
        Value::Pointer(p) => assert!(matches!(p.pointee, Type::Scalar(ScalarType::F32))),
        other => panic!("{:?}", other),
    }
    let r = translate_variables(&Operator::LocalGet { local_index: 1 }, &mut block, &mut f, &m);
    assert_eq!(r, Err(Error::ElementNotFound));
    assert_eq!(block.stack.len(), 1);
}

#[test]
fn a_local_set_without_an_operand_is_an_error() {
    let r = build(vec![ScalarType::I32], Vec::new(), Vec::new(), vec![Operator::LocalSet { local_index: 0 }]);
    assert_eq!(r.unwrap_err(), Error::EmptyStack);
}

#[test]
fn global_set_on_a_constant_global_keeps_the_stack() {
    let mut m = module(false);
    m.global_variables.push(GlobalVariable::Constant(Value::Integer(Rc::new(Integer::new_constant_u32(11)))));
    let mut f = FunctionBuilder::new(0, None, &FunctionConfig::default(), &Vec::new(), &Vec::new(), &Vec::new(), &vec![Operator::End], &mut m)
        .unwrap();
    let mut block = BlockBuilder::dummy();
    block.stack.push(Value::Integer(Rc::new(Integer::new_constant_u32(3))));
    let anchors = f.anchors.len();
    let r = translate_variables(&Operator::GlobalSet { global_index: 0 }, &mut block, &mut f, &m);
    assert_eq!(r, Err(Error::ConstantGlobal));
    assert_eq!(block.stack.len(), 1);
    assert_eq!(f.anchors.len(), anchors);
    let r = translate_variables(&Operator::GlobalSet { global_index: 1 }, &mut block, &mut f, &m);
    assert_eq!(r, Err(Error::ElementNotFound));
    let r = translate_variables(&Operator::I32Add, &mut block, &mut f, &m);
    assert_eq!(r, Ok(TranslationResult::NotFound));
    assert_eq!(translate_variables(&Operator::Drop, &mut block, &mut f, &m), Ok(TranslationResult::Found));
    assert_eq!(translate_variables(&Operator::Drop, &mut block, &mut f, &m), Err(Error::EmptyStack));
}

fn universal_module() -> ModuleBuilder {
    let config = Config::builder(
        TargetPlatform::Universal(Version::new(1, 3)),
        CapabilityModel::dynamic(Vec::new()),
        Vec::new(),
        AddressingModel::Logical,
        MEMORY_MODEL_GLSL450,
    )
    .unwrap()
    .build();
    ModuleBuilder::new(config, false).unwrap()
}

#[test]
fn a_new_module_has_no_functions_or_globals() {
    let m = universal_module();
    assert!(m.functions.is_empty());
    assert!(m.global_variables.is_empty());
}

#[test]
fn mutable_globals_are_constants_on_vulkan() {
    let mut m = module(false);
    assert_eq!(m.define_global(true, Type::Scalar(ScalarType::I32), &Operator::I32Const { value: 9 }), Ok(()));
    assert_eq!(m.define_global(false, Type::Scalar(ScalarType::I64), &Operator::I64Const { value: -1 }), Ok(()));
    assert_eq!(m.global_variables.len(), 2);
    match &m.global_variables[0] {
        GlobalVariable::Constant(Value::Integer(x)) => {
            assert_eq!(x.get_constant_value().unwrap(), Some(ConstantSource::Short(9)))
        },
        other => panic!("{:?}", other),
    }
    match &m.global_variables[1] {
        GlobalVariable::Constant(Value::Integer(x)) => {
            assert_eq!(x.get_constant_value().unwrap(), Some(ConstantSource::Long(u64::MAX)))
        },
        other => panic!("{:?}", other),
    }
}

#[test]
fn mutable_globals_are_variables_elsewhere() {
    let mut m = universal_module();
    assert_eq!(m.define_global(true, Type::Scalar(ScalarType::I32), &Operator::I32Const { value: 4 }), Ok(()));
    assert_eq!(m.define_global(false, Type::Scalar(ScalarType::I32), &Operator::I32Const { value: 5 }), Ok(()));
    match &m.global_variables[0] {
        GlobalVariable::Variable(p) => {
            assert_eq!(p.storage_class, wasm2spirv::spv::STORAGE_CLASS_CROSS_WORKGROUP);
            assert!(matches!(p.pointee, Type::Scalar(ScalarType::I32)));
            match &p.source {
                PointerSource::Variable { init: Some(Value::Integer(x)), decorators } => {
                    assert!(decorators.is_empty());
                    assert_eq!(x.get_constant_value().unwrap(), Some(ConstantSource::Short(4)));
                },
                other => panic!("{:?}", other),
            }
        },
        other => panic!("{:?}", other),
    }
    assert!(matches!(&m.global_variables[1], GlobalVariable::Constant(_)));
}

#[test]
fn a_global_needs_a_constant_initialiser() {
    let mut m = universal_module();
    assert_eq!(m.define_global(true, Type::Scalar(ScalarType::I32), &Operator::I32Add), Err(Error::EmptyStack));
    assert!(m.global_variables.is_empty());
}

#[test]
fn an_address_local_keeps_an_integer_in_its_integer_variable() {
    let f = build(
        Vec::new(),
        vec![ScalarType::I32],
        vec![(1, ScalarType::I32)],
        vec![Operator::I32Const { value: 5 }, Operator::LocalSet { local_index: 0 }, Operator::LocalGet { local_index: 0 }, Operator::End],
    )
    .unwrap();
    let integer_variable = match &f.local_variables[0] {
        Storeable::Schrodinger(s) => {
            assert!(s.pointer.is_none() && s.offset.is_none());
            s.integer.clone().unwrap()
        },
        other => panic!("{:?}", other),
    };
    assert_eq!(integer_variable.storage_class, STORAGE_CLASS_FUNCTION);
    assert!(matches!(integer_variable.pointee, Type::Scalar(ScalarType::I32)));
    assert_eq!(f.anchors.len(), 2);
    match &f.anchors[0] {
        Operation::Store { target, value: Value::Integer(x), .. } => {
            assert!(Rc::ptr_eq(target, &integer_variable));
            assert_eq!(x.get_constant_value().unwrap(), Some(ConstantSource::Short(5)));
        },
        other => panic!("{:?}", other),
    }
    match &f.anchors[1] {
        Operation::Return { value: Some(Value::Integer(x)) } => match &x.source {
            wasm2spirv::values::integer::IntegerSource::Loaded { pointer, .. } => {
                assert!(Rc::ptr_eq(pointer, &integer_variable))
            },
            other => panic!("{:?}", other),
        },
        other => panic!("{:?}", other),
    }
}

#[test]
fn reading_an_address_local_that_holds_nothing_is_an_error() {
    let r = build(Vec::new(), Vec::new(), vec![(1, ScalarType::I32)], vec![Operator::LocalGet { local_index: 0 }]);
    assert_eq!(r.unwrap_err(), Error::Unexpected);
}

fn offset_pointer(offset: u32) -> Rc<Pointer> {
    Rc::new(Pointer::new(
        wasm2spirv::values::pointer::PointerKind::Fat { byte_offset: Some(Rc::new(Integer::new_constant_u32(offset))) },
        STORAGE_CLASS_STORAGE_BUFFER,
        Type::Scalar(ScalarType::F32),
        PointerSource::FunctionParam,
    ))
}

#[test]
fn an_address_local_keeps_a_pointer_and_its_offset_apart() {
    let mut m = module(false);
    let mut f = FunctionBuilder::new(0, None, &FunctionConfig::default(), &Vec::new(), &Vec::new(), &vec![(1, ScalarType::I32)], &vec![Operator::End], &mut m)
        .unwrap();
    let before = f.anchors.len();
    let mut block = BlockBuilder::dummy();
    block.stack.push(Value::Pointer(offset_pointer(8)));
    assert_eq!(translate_variables(&Operator::LocalTee { local_index: 0 }, &mut block, &mut f, &m), Ok(TranslationResult::Found));
    assert_eq!(block.stack.len(), 1);
    let (pointer_variable, offset_variable) = match &f.local_variables[0] {
        Storeable::Schrodinger(s) => (s.pointer.clone().unwrap(), s.offset.clone().unwrap()),
        other => panic!("{:?}", other),
    };
    match &pointer_variable.pointee {
        Type::Pointer { size, storage_class, pointee } => {
            assert!(matches!(size, PointerSize::Fat));
            assert_eq!(*storage_class, STORAGE_CLASS_STORAGE_BUFFER);
            assert!(matches!(**pointee, Type::Scalar(ScalarType::F32)));
        },
        other => panic!("{:?}", other),
    }
    assert_eq!(f.anchors.len(), before + 2);
    match &f.anchors[before] {
        Operation::Store { target, value: Value::Pointer(p), .. } => {
            assert!(Rc::ptr_eq(target, &pointer_variable));
            assert!(matches!(p.kind, wasm2spirv::values::pointer::PointerKind::Fat { byte_offset: None }));
        },
        other => panic!("{:?}", other),
    }
    match &f.anchors[before + 1] {
        Operation::Store { target, value: Value::Integer(x), .. } => {
            assert!(Rc::ptr_eq(target, &offset_variable));
            assert_eq!(x.get_constant_value().unwrap(), Some(ConstantSource::Short(8)));
        },
        other => panic!("{:?}", other),
    }
    // An integer stored next is kept beside the pointer; reading gives both.
    block.stack.push(Value::Integer(Rc::new(Integer::new_constant_u32(3))));
    assert_eq!(translate_variables(&Operator::LocalSet { local_index: 0 }, &mut block, &mut f, &m), Ok(TranslationResult::Found));
    assert_eq!(translate_variables(&Operator::LocalGet { local_index: 0 }, &mut block, &mut f, &m), Ok(TranslationResult::Found));
    match block.stack.last().unwrap() {
        Value::Schrodinger { pointer_variable: p, loaded_integer } => {
            assert!(matches!(p.kind, wasm2spirv::values::pointer::PointerKind::Fat { byte_offset: Some(_) }));
            assert!(matches!(loaded_integer.source, wasm2spirv::values::integer::IntegerSource::Loaded { .. }));
        },
        other => panic!("{:?}", other),
    }
    // Taken as an address it is the integer.
    let v = block.stack_pop(Type::Scalar(ScalarType::I32), &m).unwrap();
    assert!(matches!(v, Value::Integer(_)));
}

#[test]
fn a_pointer_without_offset_resets_the_stored_offset() {
    let mut m = module(false);
    let mut f = FunctionBuilder::new(0, None, &FunctionConfig::default(), &Vec::new(), &Vec::new(), &vec![(1, ScalarType::I32)], &vec![Operator::End], &mut m)
        .unwrap();
    let mut block = BlockBuilder::dummy();
    block.stack.push(Value::Pointer(offset_pointer(4)));
    translate_variables(&Operator::LocalSet { local_index: 0 }, &mut block, &mut f, &m).unwrap();
    let before = f.anchors.len();
    let plain = Rc::new(Pointer::new(
        wasm2spirv::values::pointer::PointerKind::Fat { byte_offset: None },
        STORAGE_CLASS_STORAGE_BUFFER,
        Type::Scalar(ScalarType::F32),
        PointerSource::FunctionParam,
    ));
    block.stack.push(Value::Pointer(plain));
    translate_variables(&Operator::LocalSet { local_index: 0 }, &mut block, &mut f, &m).unwrap();
    assert_eq!(f.anchors.len(), before + 2);
    match &f.anchors[before + 1] {
        Operation::Store { value: Value::Integer(x), .. } => {
            assert_eq!(x.get_constant_value().unwrap(), Some(ConstantSource::Short(0)))
        },
        other => panic!("{:?}", other),
    }
    block.stack.push(Value::Float(Rc::new(wasm2spirv::values::float::Float::new_constant_single(0))));
    assert_eq!(translate_variables(&Operator::LocalSet { local_index: 0 }, &mut block, &mut f, &m), Err(Error::Unexpected));
}
