use std::rc::Rc;
use wasm2spirv::block::{BlockBuilder, Operator, TranslationResult};
use wasm2spirv::config::{AddressingModel, CapabilityModel, Config};
use wasm2spirv::control::translate_control_flow;
use wasm2spirv::decorator::VariableDecorator;
use wasm2spirv::error::Error;
use wasm2spirv::function::FunctionConfigBuilder;
use wasm2spirv::function_builder::{parameters_passable, FunctionBuilder, Operation};
use wasm2spirv::import::{translate_spir_global, ImportType};
use wasm2spirv::module::{Builtin, GlobalVariable, ModuleBuilder};
use wasm2spirv::spv::{
    BUILTIN_FRAG_DEPTH, BUILTIN_GLOBAL_INVOCATION_ID, EXECUTION_MODEL_GL_COMPUTE, MEMORY_MODEL_GLSL450,
    STORAGE_CLASS_INPUT, STORAGE_CLASS_OUTPUT,
};
use wasm2spirv::types::{CompositeType, ScalarType, Type};
use wasm2spirv::values::integer::{ConstantSource, Integer, IntegerSource};
use wasm2spirv::values::Value;
use wasm2spirv::version::{TargetPlatform, Version};
use wasm2spirv::wasm::{build_module, WasmModule};

fn config(addressing_model: AddressingModel) -> Config {
    Config::builder(
        TargetPlatform::Vulkan(Version::new(1, 1)),
        CapabilityModel::dynamic(Vec::new()),
        Vec::new(),
        addressing_model,
        MEMORY_MODEL_GLSL450,
    )
    .unwrap()
    .function(1)
    .set_entry_point(EXECUTION_MODEL_GL_COMPUTE)
    .build()
    .build()
}

fn module() -> ModuleBuilder {
    ModuleBuilder::new(config(AddressingModel::Logical), false).unwrap()
}

#[test]
fn builtins_become_decorated_variables() {
    let mut m = module();
    let f = translate_spir_global("gl_GlobalInvocationID", ImportType::Function(0), &mut m).unwrap().unwrap();
    assert_eq!(m.hidden_global_variables.len(), 1);
    let var = m.hidden_global_variables[0].clone();
    assert_eq!(var.storage_class, STORAGE_CLASS_INPUT);
    assert!(matches!(var.pointee, Type::Composite(CompositeType::Vector(ScalarType::I32, 3))));
    match &var.source {
        wasm2spirv::values::pointer::PointerSource::Variable { decorators, init: None } => {
            assert_eq!(decorators.as_slice(), &[VariableDecorator::BuiltIn(BUILTIN_GLOBAL_INVOCATION_ID)])
        },
        other => panic!("{:?}", other),
    }
    assert!(matches!(f.builtin, Some(Builtin::Uint3Input { builtin: BUILTIN_GLOBAL_INVOCATION_ID, .. })));
    assert_eq!(f.params, vec![ScalarType::I32]);
    assert_eq!(f.results, vec![ScalarType::I32]);

    let f = translate_spir_global("gl_FragDepth", ImportType::Function(1), &mut m).unwrap().unwrap();
    assert_eq!(m.hidden_global_variables[1].storage_class, STORAGE_CLASS_OUTPUT);
    assert!(matches!(f.builtin, Some(Builtin::Output { builtin: BUILTIN_FRAG_DEPTH, .. })));
    assert!(f.results.is_empty());
}

#[test]
fn unknown_or_misused_builtins() {
    let mut m = module();
    assert!(translate_spir_global("gl_Nothing", ImportType::Function(0), &mut m).unwrap().is_none());
    assert_eq!(translate_spir_global("gl_FragDepth", ImportType::Other, &mut m).unwrap_err(), Error::Unexpected);
    assert!(m.hidden_global_variables.is_empty());
}

fn sample_wasm() -> WasmModule {
    WasmModule {
        memory64: false,
        types: vec![(vec![ScalarType::I32], vec![ScalarType::I32]), (Vec::new(), Vec::new())],
        imports: vec![(String::from("spir_global"), String::from("gl_GlobalInvocationID"), ImportType::Function(0))],
        globals: vec![(false, Type::Scalar(ScalarType::I32), Operator::I32Const { value: 7 })],
        functions: vec![1],
        exports: vec![(String::from("main"), 1)],
        bodies: vec![(
            vec![(1, ScalarType::I32)],
            vec![
                Operator::I32Const { value: 0 },
                Operator::Call { function_index: 0 },
                Operator::LocalSet { local_index: 0 },
                Operator::I32Const { value: 1 },
                Operator::Call { function_index: 0 },
                Operator::Drop,
                Operator::End,
            ],
        )],
    }
}

#[test]
fn a_module_is_built_with_its_builtins_globals_and_functions() {
    let (m, fs) = build_module(config(AddressingModel::Logical), &sample_wasm()).unwrap();
    assert_eq!(m.functions.len(), 2);
    assert!(m.functions[0].builtin.is_some());
    assert_eq!(m.functions[1].function_id, 1);
    assert!(m.functions[1].builtin.is_none());
    assert_eq!(m.global_variables.len(), 1);
    match &m.global_variables[0] {
        GlobalVariable::Constant(Value::Integer(x)) => {
            assert_eq!(x.get_constant_value().unwrap(), Some(ConstantSource::Short(7)))
        },
        other => panic!("{:?}", other),
    }
    assert_eq!(fs.len(), 1);
    let f = &fs[0];
    assert_eq!(f.function_id, 1);
    let ep = f.entry_point.as_ref().unwrap();
    assert_eq!(ep.name, "main");
    // The built-in joins the interface once, however often it is called.
    assert_eq!(ep.interface.len(), 1);
    assert!(Rc::ptr_eq(&ep.interface[0], &m.hidden_global_variables[0]));
    // The component read is stored into the local's integer variable.
    match &f.anchors[0] {
        Operation::Store { value: Value::Integer(x), .. } => match &x.source {
            IntegerSource::Extracted { index, .. } => {
                assert_eq!(index.get_constant_value().unwrap(), Some(ConstantSource::Short(0)))
            },
            other => panic!("{:?}", other),
        },
        other => panic!("{:?}", other),
    }
}

#[test]
fn module_building_fails_at_the_first_failing_step() {
    let r = build_module(config(AddressingModel::PhysicalStorageBuffer), &sample_wasm());
    assert_eq!(r.unwrap_err(), Error::InvalidAddressingModel);
    let mut wasm = sample_wasm();
    wasm.imports[0].2 = ImportType::Other;
    assert_eq!(build_module(config(AddressingModel::Logical), &wasm).unwrap_err(), Error::Unexpected);
    let mut wasm = sample_wasm();
    wasm.functions[0] = 9;
    assert_eq!(build_module(config(AddressingModel::Logical), &wasm).unwrap_err(), Error::Unexpected);
    let mut wasm = sample_wasm();
    wasm.globals[0].2 = Operator::I32Add;
    assert_eq!(build_module(config(AddressingModel::Logical), &wasm).unwrap_err(), Error::EmptyStack);
    let mut wasm = sample_wasm();
    wasm.bodies[0].1 = vec![Operator::Drop];
    assert_eq!(build_module(config(AddressingModel::Logical), &wasm).unwrap_err(), Error::EmptyStack);
}

#[test]
fn an_output_builtin_stores_its_argument() {
    let mut m = module();
    let f = translate_spir_global("gl_FragDepth", ImportType::Function(0), &mut m).unwrap().unwrap();
    m.functions.push(f);
    let mut func = FunctionBuilder::new(
        0,
        None,
        &wasm2spirv::function::FunctionConfig::default(),
        &Vec::new(),
        &Vec::new(),
        &Vec::new(),
        &vec![Operator::End],
        &mut m,
    )
    .unwrap();
    let mut block = BlockBuilder::dummy();
    block.stack.push(Value::Integer(Rc::new(Integer::new_constant_u32(1))));
    let before = func.anchors.len();
    let r = translate_control_flow(&Operator::Call { function_index: 0 }, &mut block, &mut func, &mut m);
    assert_eq!(r, Ok(TranslationResult::Found));
    assert_eq!(func.anchors.len(), before + 1);
    match &func.anchors[before] {
        Operation::Store { target, .. } => assert!(Rc::ptr_eq(target, &m.hidden_global_variables[0])),
        other => panic!("{:?}", other),
    }
}

#[test]
fn parameters_that_cannot_be_passed_are_refused() {
    let bad = FunctionConfigBuilder::__new().param(0).set_type(Type::Scalar(ScalarType::Bool)).unwrap().build().inner;
    let good = FunctionConfigBuilder::__new().param(0).set_type(Type::Scalar(ScalarType::I64)).unwrap().build().inner;
    let params = vec![ScalarType::I32];
    assert!(!parameters_passable(&params, &bad));
    assert!(parameters_passable(&params, &good));
    let mut m = module();
    let r = FunctionBuilder::new_checked(0, None, &bad, &params, &Vec::new(), &Vec::new(), &vec![Operator::End], &mut m);
    assert!(r.is_none());
    let r = FunctionBuilder::new_checked(0, None, &good, &params, &Vec::new(), &Vec::new(), &vec![Operator::End], &mut m);
    assert!(matches!(r, Some(Ok(_))));
}
