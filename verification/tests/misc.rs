use wasm2spirv::bindings::{
    bytes_to_words, decode_execution_mode, handle_error, w2s_allocator_layout, w2s_capabilities,
    w2s_capability_model, w2s_target, w2s_target_platform, words_from_data,
};
use wasm2spirv::capabilities::{
    builtin_capabilities, execution_model_capabilities, instruction_capabilities,
    memory_access_capabilities, storage_class_capabilities, Instruction, Operand,
};
use wasm2spirv::config::{AddressingModel, CapabilityModel, Config, MemoryGrowErrorKind};
use wasm2spirv::error::Error;
use wasm2spirv::extended_is::{ExtendedIs, ExtendedSet, OpenCLInstr};
use wasm2spirv::function::ExecutionMode;
use wasm2spirv::module::ModuleBuilder;
use wasm2spirv::rate_limit::{LimitHandler, LimitInfo, Limiter, RateLimit, RequestAction};
use wasm2spirv::spv::{
    ADDRESSING_MODEL_PHYSICAL32,
    BUILTIN_GLOBAL_INVOCATION_ID,
    CAPABILITY_ADDRESSES,
    CAPABILITY_GENERIC_POINTER,
    CAPABILITY_INT64,
    CAPABILITY_KERNEL,
    CAPABILITY_SHADER,
    CAPABILITY_VULKAN_MEMORY_MODEL,
    EXECUTION_MODEL_KERNEL,
    EXECUTION_MODE_DEPTH_REPLACING,
    EXECUTION_MODE_INVOCATIONS,
    EXECUTION_MODE_LOCAL_SIZE,
    MEMORY_ACCESS_NON_PRIVATE_POINTER,
    MEMORY_MODEL_OPENCL,
    MEMORY_MODEL_VULKAN,
    STORAGE_CLASS_FUNCTION,
    STORAGE_CLASS_GENERIC,
    STORAGE_CLASS_PHYSICAL_STORAGE_BUFFER,
    STORAGE_CLASS_UNIFORM,
};
use wasm2spirv::types::{CompositeType, PointerSize, ScalarType, Type};
use wasm2spirv::version::{TargetPlatform, Version};

#[test]
fn vulkan_versions_map_to_spirv_versions() {
    let cases = [((1, 0), (1, 0)), ((1, 1), (1, 3)), ((1, 2), (1, 5)), ((1, 3), (1, 6)), ((2, 0), (1, 6))];
    for ((a, b), (c, d)) in cases {
        assert_eq!(TargetPlatform::Vulkan(Version::new(a, b)).spirv_version(), Version::new(c, d));
    }
    assert_eq!(TargetPlatform::Universal(Version::new(1, 4)).spirv_version(), Version::new(1, 4));
    assert!(TargetPlatform::Vulkan(Version::new(1, 0)).is_vulkan());
    assert!(!TargetPlatform::Universal(Version::new(1, 0)).is_vulkan());
}

#[test]
fn only_vulkan_imports_glsl() {
    let vk = TargetPlatform::Vulkan(Version::new(1, 1)).extended_is().unwrap();
    assert_eq!(vk.kind, ExtendedSet::GLSL450);
    assert_eq!(vk.kind.name(), "GLSL.std.450");
    assert_eq!(TargetPlatform::Universal(Version::new(1, 1)).extended_is(), None);
    assert_eq!(ExtendedIs::new(ExtendedSet::OpenCL).kind.name(), "OpenCL.std");
    assert_eq!(OpenCLInstr::Popcount.code(), 166);
}

#[test]
fn scalar_sizes() {
    assert_eq!(ScalarType::I32.byte_size(), Some(4));
    assert_eq!(ScalarType::F64.byte_size(), Some(8));
    assert_eq!(ScalarType::Bool.byte_size(), None);
    assert_eq!(CompositeType::vector(ScalarType::F32, 4), CompositeType::Vector(ScalarType::F32, 4));
    assert_eq!(ScalarType::I64.required_capabilities(), vec![CAPABILITY_INT64]);
}

#[test]
fn module_addressing_models() {
    let build = |model: AddressingModel, memory64: bool| {
        let config = Config::builder(
            TargetPlatform::Universal(Version::new(1, 5)),
            CapabilityModel::default(),
            Vec::new(),
            model,
            MEMORY_MODEL_OPENCL,
        )
        .unwrap()
        .build();
        ModuleBuilder::new(config, memory64)
    };
    let m = build(AddressingModel::Physical, false).unwrap();
    assert_eq!(m.addressing_model, ADDRESSING_MODEL_PHYSICAL32);
    assert_eq!(m.spirv_address_bits(STORAGE_CLASS_FUNCTION), Some(32));
    assert_eq!(m.spirv_address_bytes(STORAGE_CLASS_FUNCTION), Some(4));
    assert_eq!(m.wasm_address_bytes(), 4);
    let m = build(AddressingModel::PhysicalStorageBuffer, true).unwrap();
    assert_eq!(m.spirv_address_bits(STORAGE_CLASS_PHYSICAL_STORAGE_BUFFER), Some(64));
    assert_eq!(m.spirv_address_bits(STORAGE_CLASS_FUNCTION), None);
    assert_eq!(m.isize_type(), ScalarType::I64);
    assert_eq!(build(AddressingModel::PhysicalStorageBuffer, false).unwrap_err(), Error::InvalidAddressingModel);
    let m = build(AddressingModel::Logical, false).unwrap();
    assert_eq!(m.version, Version::new(1, 5));
    assert!(m.extended_is.is_empty());
}

#[test]
fn capabilities_of_operands() {
    assert_eq!(storage_class_capabilities(STORAGE_CLASS_GENERIC), vec![CAPABILITY_GENERIC_POINTER]);
    assert_eq!(storage_class_capabilities(STORAGE_CLASS_FUNCTION), vec![]);
    assert_eq!(execution_model_capabilities(EXECUTION_MODEL_KERNEL), vec![CAPABILITY_KERNEL]);
    assert_eq!(builtin_capabilities(BUILTIN_GLOBAL_INVOCATION_ID), vec![]);
    assert_eq!(memory_access_capabilities(MEMORY_ACCESS_NON_PRIVATE_POINTER | 1), vec![CAPABILITY_VULKAN_MEMORY_MODEL]);
    assert_eq!(memory_access_capabilities(3), vec![]);
    let instr = Instruction {
        class_capabilities: vec![CAPABILITY_ADDRESSES],
        operands: vec![Operand::StorageClass(STORAGE_CLASS_UNIFORM), Operand::Other, Operand::MemoryModel(MEMORY_MODEL_VULKAN)],
    };
    assert_eq!(
        instruction_capabilities(&instr),
        vec![CAPABILITY_ADDRESSES, CAPABILITY_SHADER, CAPABILITY_VULKAN_MEMORY_MODEL]
    );
}

#[test]
fn a_client_gets_one_more_request_than_its_rate() {
    let info = LimitInfo::new(2, 1_000, LimitHandler::Fail);
    assert_eq!(RateLimit::new(info).specific_info, info);
    let mut limiter = Limiter::new(info, 0);
    assert_eq!(limiter.request(10), RequestAction::Proceed);
    assert_eq!(limiter.request(20), RequestAction::Proceed);
    assert_eq!(limiter.request(30), RequestAction::Proceed);
    assert_eq!(limiter.request(40), RequestAction::Refuse(Error::RateLimitExceeded));
    assert_eq!(limiter.request(2_100), RequestAction::Proceed);
}

#[test]
fn a_waiting_client_waits_for_the_interval() {
    let info = LimitInfo::new(0, 500, LimitHandler::Wait);
    let mut limiter = Limiter::new(info, 100);
    assert_eq!(limiter.request(100), RequestAction::Proceed);
    assert_eq!(limiter.request(200), RequestAction::WaitUntil(600));
    assert_eq!(limiter.attempt(), RequestAction::WaitUntil(600));
}

#[test]
fn c_targets_and_capabilities_convert() {
    let t = w2s_target { platform: w2s_target_platform::Vulkan, version: Version::new(1, 2) };
    assert_eq!(t.to_target_platform(), TargetPlatform::Vulkan(Version::new(1, 2)));
    let c = w2s_capabilities { model: w2s_capability_model::Static, capabilities: vec![CAPABILITY_SHADER] };
    assert_eq!(c.to_capability_model(), CapabilityModel::Static(vec![CAPABILITY_SHADER]));
}

#[test]
fn words_are_read_from_bytes() {
    assert_eq!(bytes_to_words(&[1, 2, 3]).unwrap_err(), Error::NotWholeWords);
    let words = bytes_to_words(&[1, 0, 0, 0, 0, 0, 0, 2]).unwrap();
    assert_eq!(words, vec![u32::from_ne_bytes([1, 0, 0, 0]), u32::from_ne_bytes([0, 0, 0, 2])]);
    let data = [1u8, 0, 0, 0, 2, 0, 0, 0, 3, 0, 0, 0, 4, 0, 0, 0];
    assert_eq!(words_from_data(&data, 3, true).unwrap_err(), Error::InvalidWordCount);
    assert_eq!(words_from_data(&data, 3, false).unwrap().len(), 3);
}

#[test]
fn execution_modes_are_decoded_from_bytes() {
    let size = [8u8, 0, 0, 0, 8, 0, 0, 0, 1, 0, 0, 0];
    let expected = ExecutionMode::LocalSize(
        u32::from_ne_bytes([8, 0, 0, 0]),
        u32::from_ne_bytes([8, 0, 0, 0]),
        u32::from_ne_bytes([1, 0, 0, 0]),
    );
    assert_eq!(decode_execution_mode(EXECUTION_MODE_LOCAL_SIZE, &size, true), Ok(expected));
    assert_eq!(decode_execution_mode(EXECUTION_MODE_INVOCATIONS, &size, true), Err(Error::InvalidWordCount));
    assert_eq!(decode_execution_mode(EXECUTION_MODE_DEPTH_REPLACING, &[], true), Ok(ExecutionMode::DepthReplacing));
    assert_eq!(decode_execution_mode(5, &[], true), Err(Error::UnsupportedExecutionMode));
}

#[test]
fn failed_calls_keep_their_error() {
    let mut last = None;
    assert_eq!(handle_error(Ok::<u8, Error>(3), &mut last), Some(3));
    assert_eq!(last, None);
    assert_eq!(handle_error(Err::<u8, Error>(Error::Mismatch), &mut last), None);
    assert_eq!(last, Some(Error::Mismatch));
    assert_eq!(Error::Mismatch.message(), "Mismatched value");
}

#[test]
fn allocation_layouts_keep_the_alignment_exponent() {
    let l = w2s_allocator_layout::from_size_align(24, 8);
    assert_eq!(l, w2s_allocator_layout { size: 24, log2_align: 3 });
}

#[test]
fn memory_grow_policies_round_trip_as_numbers() {
    assert_eq!(MemoryGrowErrorKind::try_from_primitive(0), Ok(MemoryGrowErrorKind::Hard));
    assert_eq!(MemoryGrowErrorKind::Soft.to_primitive(), 1);
    assert_eq!(AddressingModel::try_from_primitive(3), Err(Error::UnknownAddressingModel));
}

#[test]
fn compile_time_byte_sizes() {
    let config = Config::builder(
        TargetPlatform::Universal(Version::new(1, 5)),
        CapabilityModel::default(),
        Vec::new(),
        AddressingModel::Physical,
        MEMORY_MODEL_OPENCL,
    )
    .unwrap()
    .build();
    let m = ModuleBuilder::new(config, true).unwrap();
    assert_eq!(Type::Composite(CompositeType::Vector(ScalarType::F32, 4)).comptime_byte_size(&m), Some(16));
    assert_eq!(Type::Scalar(ScalarType::I64).comptime_byte_size(&m), Some(8));
    assert_eq!(Type::Scalar(ScalarType::Bool).comptime_byte_size(&m), None);
    let p = Type::pointer(PointerSize::Skinny, STORAGE_CLASS_FUNCTION, Type::Scalar(ScalarType::I32));
    assert_eq!(p.comptime_byte_size(&m), Some(8));
    assert_eq!(ScalarType::Isize(&m), ScalarType::I64);
}
