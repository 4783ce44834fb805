use std::rc::Rc;
use wasm2spirv::block::{translate_all, BlockBuilder, Operator, TranslationResult};
use wasm2spirv::config::{AddressingModel, CapabilityModel, Config, MemoryGrowErrorKind};
use wasm2spirv::error::Error;
use wasm2spirv::module::ModuleBuilder;
use wasm2spirv::spv::MEMORY_MODEL_GLSL450;
use wasm2spirv::values::bool::{BoolSource, Comparison, Equality};
use wasm2spirv::values::integer::{ConstantSource, Integer, IntegerKind, IntegerSource};
use wasm2spirv::values::Value;
use wasm2spirv::version::{TargetPlatform, Version};

fn module(policy: MemoryGrowErrorKind, memory64: bool) -> ModuleBuilder {
    let config = Config::builder(
        TargetPlatform::Vulkan(Version::new(1, 1)),
        CapabilityModel::dynamic(Vec::new()),
        Vec::new(),
        AddressingModel::Logical,
        MEMORY_MODEL_GLSL450,
    )
    .unwrap()
    .set_memory_grow_error(policy)
    .build();
    ModuleBuilder::new(config, memory64).unwrap()
}

fn run(ops: &[Operator], block: &mut BlockBuilder, m: &ModuleBuilder) -> Result<(), Error> {
    for op in ops {
        match translate_all(op, block, m)? {
            TranslationResult::Found => {},
            other => panic!("{:?} gave {:?}", op, other),
        }
    }
    Ok(())
}

fn top_constant(block: &BlockBuilder) -> Option<ConstantSource> {
    match block.stack.last() {
        Some(Value::Integer(x)) => x.get_constant_value().unwrap(),
        _ => None,
    }
}

#[test]
fn constants_fold_through_arithmetic() {
    let m = module(MemoryGrowErrorKind::Soft, false);
    let mut block = BlockBuilder::dummy();
    run(
        &[
            Operator::I32Const { value: 6 },
            Operator::I32Const { value: 7 },
            Operator::I32Mul,
            Operator::I32Const { value: -2 },
            Operator::I32Add,
        ],
        &mut block,
        &m,
    )
    .unwrap();
    assert_eq!(block.stack.len(), 1);
    assert_eq!(top_constant(&block), Some(ConstantSource::Short(40)));
}

#[test]
fn logic_and_conversions_translate() {
    let m = module(MemoryGrowErrorKind::Soft, false);
    let mut block = BlockBuilder::dummy();
    run(
        &[
            Operator::I64Const { value: -1 },
            Operator::I32WrapI64,
            Operator::I32Const { value: 28 },
            Operator::I32ShrU,
            Operator::I32Popcnt,
            Operator::I64ExtendI32S,
        ],
        &mut block,
        &m,
    )
    .unwrap();
    assert_eq!(top_constant(&block), Some(ConstantSource::Long(4)));
}

#[test]
fn comparisons_push_booleans() {
    let m = module(MemoryGrowErrorKind::Soft, false);
    let mut block = BlockBuilder::dummy();
    block.stack_push(Value::Integer(Rc::new(Integer::new(IntegerSource::FunctionParam(IntegerKind::Short)))));
    run(&[Operator::I32Const { value: 3 }, Operator::I32LtS], &mut block, &m).unwrap();
    match block.stack.last() {
        Some(Value::Bool(b)) => assert!(matches!(
            b.source,
            BoolSource::IntComparison { kind: Comparison::Lt, signed: true, .. }
        )),
        other => panic!("{:?}", other),
    }
    let mut block = BlockBuilder::dummy();
    run(&[Operator::I64Const { value: 0 }, Operator::I64Eqz], &mut block, &m).unwrap();
    match block.stack.last() {
        Some(Value::Bool(b)) => assert!(matches!(b.source, BoolSource::IntEquality { kind: Equality::Eq, .. })),
        other => panic!("{:?}", other),
    }
}

#[test]
fn an_empty_stack_is_an_error() {
    let m = module(MemoryGrowErrorKind::Soft, false);
    let mut block = BlockBuilder::dummy();
    assert_eq!(translate_all(&Operator::I32Add, &mut block, &m), Err(Error::EmptyStack));
    assert_eq!(translate_all(&Operator::I64Eqz, &mut block, &m), Err(Error::EmptyStack));
}

#[test]
fn mismatched_operands_are_refused() {
    let m = module(MemoryGrowErrorKind::Soft, false);
    let mut block = BlockBuilder::dummy();
    run(&[Operator::I64Const { value: 1 }, Operator::I32Const { value: 1 }], &mut block, &m).unwrap();
    assert_eq!(translate_all(&Operator::I32And, &mut block, &m), Err(Error::InvalidOperand));
}

#[test]
fn memory_size_and_growth() {
    let m = module(MemoryGrowErrorKind::Soft, true);
    let mut block = BlockBuilder::dummy();
    run(&[Operator::MemorySize], &mut block, &m).unwrap();
    assert_eq!(top_constant(&block), Some(ConstantSource::Long(0)));
    run(&[Operator::MemoryGrow], &mut block, &m).unwrap();
    assert_eq!(block.stack.len(), 1);
    assert_eq!(top_constant(&block), Some(ConstantSource::Long(u64::MAX)));
    let mut empty = BlockBuilder::dummy();
    assert_eq!(translate_all(&Operator::MemoryGrow, &mut empty, &m), Err(Error::EmptyStack));
    let hard = module(MemoryGrowErrorKind::Hard, false);
    assert_eq!(translate_all(&Operator::MemoryGrow, &mut block, &hard), Err(Error::CannotAllocate));
}

#[test]
fn unknown_instructions_are_not_found() {
    let m = module(MemoryGrowErrorKind::Soft, false);
    let mut block = BlockBuilder::dummy();
    assert_eq!(translate_all(&Operator::Other, &mut block, &m), Ok(TranslationResult::NotFound));
    assert!(block.stack.is_empty());
}

#[test]
fn division_by_zero_constant_is_refused() {
    let m = module(MemoryGrowErrorKind::Soft, false);
    let mut block = BlockBuilder::dummy();
    run(&[Operator::I32Const { value: 1 }, Operator::I32Const { value: 0 }], &mut block, &m).unwrap();
    assert_eq!(translate_all(&Operator::I32DivU, &mut block, &m), Err(Error::DivisionByZero));
}
