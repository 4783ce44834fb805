use std::rc::Rc;
use wasm2spirv::block::{BlockBuilder, Operator, TranslationResult};
use wasm2spirv::config::{AddressingModel, CapabilityModel, Config, MemoryGrowErrorKind};
use wasm2spirv::error::Error;
use wasm2spirv::function::FunctionConfig;
use wasm2spirv::function_builder::{FunctionBuilder, Operation};
use wasm2spirv::memory::translate_memory_access;
use wasm2spirv::module::ModuleBuilder;
use wasm2spirv::spv::{CAPABILITY_GENERIC_POINTER, MEMORY_MODEL_GLSL450, STORAGE_CLASS_STORAGE_BUFFER};
use wasm2spirv::types::{ScalarType, Type};
use wasm2spirv::values::integer::{BinarySource, ConstantSource, Integer, IntegerSource};
use wasm2spirv::values::pointer::{Pointer, PointerKind, PointerSource};
use wasm2spirv::values::Value;
use wasm2spirv::version::{TargetPlatform, Version};

fn module(capabilities: CapabilityModel) -> ModuleBuilder {
    let config = Config::builder(
        TargetPlatform::Vulkan(Version::new(1, 1)),
        capabilities,
        Vec::new(),
        AddressingModel::Logical,
        MEMORY_MODEL_GLSL450,
    )
    .unwrap()
    .set_memory_grow_error(MemoryGrowErrorKind::Soft)
    .build();
    ModuleBuilder::new(config, false).unwrap()
}

fn function(m: &mut ModuleBuilder) -> FunctionBuilder {
    FunctionBuilder::new(0, None, &FunctionConfig::default(), &Vec::new(), &Vec::new(), &Vec::new(), &vec![Operator::End], m)
        .unwrap()
}

fn fat_pointer() -> Rc<Pointer> {
    Rc::new(Pointer::new(
        PointerKind::Fat { byte_offset: None },
        STORAGE_CLASS_STORAGE_BUFFER,
        Type::Scalar(ScalarType::F32),
        PointerSource::FunctionParam,
    ))
}

fn offset_of(p: &Pointer) -> Option<ConstantSource> {
    match &p.kind {
        PointerKind::Fat { byte_offset: Some(x) } => x.get_constant_value().unwrap(),
        _ => None,
    }
}

#[test]
fn a_load_moves_the_address_by_its_offset() {
    let mut m = module(CapabilityModel::dynamic(Vec::new()));
    let mut f = function(&mut m);
    let mut block = BlockBuilder::dummy();
    block.stack.push(Value::Pointer(fat_pointer()));
    let r = translate_memory_access(&Operator::I32Load { offset: 8, align: 2 }, &mut block, &mut f, &mut m);
    assert_eq!(r, Ok(TranslationResult::Found));
    assert_eq!(block.stack.len(), 1);
    match &block.stack[0] {
        Value::Integer(x) => match &x.source {
            IntegerSource::Loaded { pointer, log2_alignment } => {
                assert_eq!(*log2_alignment, Some(2));
                assert!(matches!(pointer.pointee, Type::Scalar(ScalarType::I32)));
                assert_eq!(offset_of(pointer), Some(ConstantSource::Short(8)));
            },
            other => panic!("{:?}", other),
        },
        other => panic!("{:?}", other),
    }
}

#[test]
fn a_store_adds_a_store_operation() {
    let mut m = module(CapabilityModel::dynamic(Vec::new()));
    let mut f = function(&mut m);
    let before = f.anchors.len();
    let mut block = BlockBuilder::dummy();
    block.stack.push(Value::Pointer(fat_pointer()));
    block.stack.push(Value::Integer(Rc::new(Integer::new_constant_u32(7))));
    let r = translate_memory_access(&Operator::I32Store { offset: 0, align: 0 }, &mut block, &mut f, &mut m);
    assert_eq!(r, Ok(TranslationResult::Found));
    assert!(block.stack.is_empty());
    assert_eq!(f.anchors.len(), before + 1);
    match &f.anchors[before] {
        Operation::Store { target, value: Value::Integer(x), log2_alignment } => {
            assert_eq!(*log2_alignment, Some(0));
            assert_eq!(offset_of(target), Some(ConstantSource::Short(0)));
            assert_eq!(x.get_constant_value().unwrap(), Some(ConstantSource::Short(7)));
        },
        other => panic!("{:?}", other),
    }
}

#[test]
fn an_integer_address_needs_generic_pointers() {
    let mut m = module(CapabilityModel::Static(Vec::new()));
    let mut f = function(&mut m);
    let mut block = BlockBuilder::dummy();
    block.stack.push(Value::Integer(Rc::new(Integer::new_constant_u32(16))));
    let r = translate_memory_access(&Operator::F32Load { offset: 0, align: 2 }, &mut block, &mut f, &mut m);
    assert_eq!(r, Err(Error::CapabilityNotEnabled(CAPABILITY_GENERIC_POINTER)));
}

#[test]
fn a_load_without_an_address_is_an_error() {
    let mut m = module(CapabilityModel::dynamic(Vec::new()));
    let mut f = function(&mut m);
    let mut block = BlockBuilder::dummy();
    let r = translate_memory_access(&Operator::I64Load { offset: 0, align: 3 }, &mut block, &mut f, &mut m);
    assert_eq!(r, Err(Error::EmptyStack));
}

#[test]
fn other_instructions_are_not_memory_accesses() {
    let mut m = module(CapabilityModel::dynamic(Vec::new()));
    let mut f = function(&mut m);
    let mut block = BlockBuilder::dummy();
    let r = translate_memory_access(&Operator::Drop, &mut block, &mut f, &mut m);
    assert_eq!(r, Ok(TranslationResult::NotFound));
}

#[test]
fn a_byte_load_shifts_and_masks_the_word() {
    let mut m = module(CapabilityModel::dynamic(Vec::new()));
    let mut f = function(&mut m);
    let mut block = BlockBuilder::dummy();
    block.stack.push(Value::Pointer(fat_pointer()));
    let r = translate_memory_access(&Operator::I32Load8U { offset: 5, align: 0 }, &mut block, &mut f, &mut m);
    assert_eq!(r, Ok(TranslationResult::Found));
    assert_eq!(block.stack.len(), 1);
    let byte = match &block.stack[0] {
        Value::Integer(x) => x.clone(),
        other => panic!("{:?}", other),
    };
    let (shifted, mask) = match &byte.source {
        IntegerSource::Binary { source: BinarySource::And, op1, op2 } => (op1.clone(), op2.clone()),
        other => panic!("{:?}", other),
    };
    assert_eq!(mask.get_constant_value().unwrap(), Some(ConstantSource::Short(0xff)));
    match &shifted.source {
        IntegerSource::Binary { source: BinarySource::UShr, op1, op2 } => {
            assert_eq!(op2.get_constant_value().unwrap(), Some(ConstantSource::Short(16)));
            match &op1.source {
                IntegerSource::Loaded { pointer, log2_alignment } => {
                    assert_eq!(*log2_alignment, Some(0));
                    assert!(matches!(pointer.pointee, Type::Scalar(ScalarType::I32)));
                    assert_eq!(offset_of(pointer), Some(ConstantSource::Short(5)));
                },
                other => panic!("{:?}", other),
            }
        },
        other => panic!("{:?}", other),
    }
}

#[test]
fn a_byte_load_at_a_word_boundary_takes_the_top_byte() {
    let mut m = module(CapabilityModel::dynamic(Vec::new()));
    let mut f = function(&mut m);
    let mut block = BlockBuilder::dummy();
    block.stack.push(Value::Pointer(fat_pointer()));
    let r = translate_memory_access(&Operator::I32Load8U { offset: 8, align: 0 }, &mut block, &mut f, &mut m);
    assert_eq!(r, Ok(TranslationResult::Found));
    match &block.stack[0] {
        Value::Integer(x) => match &x.source {
            IntegerSource::Binary { source: BinarySource::And, op1, .. } => match &op1.source {
                IntegerSource::Binary { source: BinarySource::UShr, op2, .. } => {
                    assert_eq!(op2.get_constant_value().unwrap(), Some(ConstantSource::Short(24)))
                },
                other => panic!("{:?}", other),
            },
            other => panic!("{:?}", other),
        },
        other => panic!("{:?}", other),
    }
    let mut empty = BlockBuilder::dummy();
    let r = translate_memory_access(&Operator::I64Load8U { offset: 0, align: 0 }, &mut empty, &mut f, &mut m);
    assert_eq!(r, Err(Error::EmptyStack));
}
