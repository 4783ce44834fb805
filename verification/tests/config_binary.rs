use wasm2spirv::binary::deserialize::BinaryDeserialize;
use wasm2spirv::binary::serialize::BinarySerialize;
use wasm2spirv::config::{AddressingModel, CapabilityModel, Config, MemoryGrowErrorKind, WasmFeatures};
use wasm2spirv::error::Error;
use wasm2spirv::function::{ExecutionMode, FunctionConfig, Parameter, ParameterKind};
use wasm2spirv::spv::{
    CAPABILITY_FLOAT64, CAPABILITY_INT64, CAPABILITY_SHADER, EXECUTION_MODEL_GL_COMPUTE,
    MEMORY_MODEL_GLSL450, STORAGE_CLASS_STORAGE_BUFFER,
};
use wasm2spirv::str::Str;
use wasm2spirv::types::{PointerSize, ScalarType, Type};
use wasm2spirv::version::{TargetPlatform, Version};

fn sample() -> Config {
    Config::builder(
        TargetPlatform::Vulkan(Version::new(1, 2)),
        CapabilityModel::Static(vec![CAPABILITY_SHADER, CAPABILITY_INT64]),
        vec![Str::from_string(String::from("SPV_KHR_variable_pointers"))],
        AddressingModel::PhysicalStorageBuffer,
        MEMORY_MODEL_GLSL450,
    )
    .unwrap()
    .set_features(WasmFeatures { memory64: true, saturating_float_to_int: false })
    .set_memory_grow_error(MemoryGrowErrorKind::Hard)
    .function(3)
    .set_entry_point(EXECUTION_MODEL_GL_COMPUTE)
    .add_exec_mode(ExecutionMode::LocalSize(8, 4, 1))
    .param(0)
    .set_type(Type::pointer(PointerSize::Fat, STORAGE_CLASS_STORAGE_BUFFER, Type::Scalar(ScalarType::F32)))
    .unwrap()
    .set_kind(ParameterKind::DescriptorSet { storage_class: STORAGE_CLASS_STORAGE_BUFFER, set: 0, binding: 2 })
    .unwrap()
    .build()
    .build()
    .build()
}

#[test]
fn a_configuration_reads_back_as_written() {
    let config = sample();
    let mut bytes = Vec::new();
    config.serialize_into(&mut bytes).unwrap();
    let (back, end) = Config::deserialize_from(&bytes, 0).unwrap();
    assert_eq!(end, bytes.len());
    assert_eq!(back.platform, config.platform);
    assert_eq!(back.features, config.features);
    assert_eq!(back.addressing_model, config.addressing_model);
    assert_eq!(back.memory_model, config.memory_model);
    assert_eq!(back.capabilities, config.capabilities);
    assert_eq!(back.extensions, config.extensions);
    assert_eq!(back.memory_grow_error, MemoryGrowErrorKind::Hard);
    assert_eq!(back.functions.len(), 1);
    let f = back.functions.get(&3).unwrap();
    assert_eq!(f.execution_model, Some(EXECUTION_MODEL_GL_COMPUTE));
    assert_eq!(f.execution_modes, vec![ExecutionMode::LocalSize(8, 4, 1)]);
    let p = f.params.get(&0).unwrap();
    assert_eq!(p.kind, ParameterKind::DescriptorSet { storage_class: STORAGE_CLASS_STORAGE_BUFFER, set: 0, binding: 2 });
    assert_eq!(
        p.ty,
        Some(Type::pointer(PointerSize::Fat, STORAGE_CLASS_STORAGE_BUFFER, Type::Scalar(ScalarType::F32)))
    );
}

#[test]
fn reading_starts_at_the_given_position() {
    let config = sample();
    let mut bytes = vec![0xaa, 0xbb];
    config.serialize_into(&mut bytes).unwrap();
    let (back, end) = Config::deserialize_from(&bytes, 2).unwrap();
    assert_eq!(end, bytes.len());
    assert_eq!(back.platform, TargetPlatform::Vulkan(Version::new(1, 2)));
}

#[test]
fn a_truncated_encoding_is_refused() {
    let config = sample();
    let mut bytes = Vec::new();
    config.serialize_into(&mut bytes).unwrap();
    for cut in [0, 1, 5, bytes.len() - 1] {
        assert_eq!(Config::deserialize_from(&bytes[..cut], 0).unwrap_err(), Error::UnexpectedEof);
    }
}

#[test]
fn bad_tags_are_refused() {
    assert_eq!(bool::deserialize_from(&[2], 0).unwrap_err(), Error::InvalidBool);
    assert_eq!(bool::deserialize_from(&[1], 0), Ok((true, 1)));
    assert_eq!(AddressingModel::deserialize_from(&[9, 0], 0).unwrap_err(), Error::UnknownAddressingModel);
    assert_eq!(MemoryGrowErrorKind::deserialize_from(&[0, 0], 0), Ok((MemoryGrowErrorKind::Hard, 2)));
    assert_eq!(MemoryGrowErrorKind::deserialize_from(&[1, 0], 0), Ok((MemoryGrowErrorKind::Soft, 2)));
    assert_eq!(ScalarType::deserialize_from(&[7, 0], 0).unwrap_err(), Error::UnknownScalarType);
}

#[test]
fn unknown_capabilities_are_refused() {
    let mut bytes = Vec::new();
    CapabilityModel::Dynamic(vec![CAPABILITY_FLOAT64]).serialize_into(&mut bytes).unwrap();
    let (back, _) = CapabilityModel::deserialize_from(&bytes, 0).unwrap();
    assert_eq!(back, CapabilityModel::Dynamic(vec![CAPABILITY_FLOAT64]));
    let n = bytes.len();
    bytes[n - 4..].copy_from_slice(&0xdead_beefu32.to_le_bytes());
    assert_eq!(CapabilityModel::deserialize_from(&bytes, 0).unwrap_err(), Error::UnknownCapability);
}

#[test]
fn strings_must_be_utf8() {
    let mut bytes = Vec::new();
    Str::from_string(String::from("héllo")).serialize_into(&mut bytes).unwrap();
    let (back, end) = Str::deserialize_from(&bytes, 0).unwrap();
    assert_eq!(back.as_str(), "héllo");
    assert_eq!(end, bytes.len());
    let bad = [2u8, 0, 0, 0, 0xc3, 0x28];
    assert_eq!(Str::deserialize_from(&bad, 0).unwrap_err(), Error::InvalidUtf8);
}

#[test]
fn wasm_features_are_bits() {
    let f = WasmFeatures { memory64: true, saturating_float_to_int: true };
    assert_eq!(f.into_integer(), 3);
    assert_eq!(WasmFeatures::from_integer(2), WasmFeatures { memory64: false, saturating_float_to_int: true });
}

#[test]
fn later_function_configurations_replace_earlier_ones() {
    let mut first = FunctionConfig::default();
    first.execution_model = Some(0);
    let mut second = FunctionConfig::default();
    second.execution_model = Some(4);
    let config = Config::builder(
        TargetPlatform::Universal(Version::new(1, 0)),
        CapabilityModel::default(),
        Vec::new(),
        AddressingModel::Logical,
        MEMORY_MODEL_GLSL450,
    )
    .unwrap()
    .append_functions(vec![(1, first), (2, FunctionConfig::default()), (1, second)])
    .build();
    assert_eq!(config.functions.len(), 2);
    assert_eq!(config.functions.get(&1).unwrap().execution_model, Some(4));
}

#[test]
fn capability_models_require_capabilities() {
    let mut fixed = CapabilityModel::Static(vec![CAPABILITY_SHADER]);
    assert_eq!(fixed.require(CAPABILITY_SHADER), Ok(()));
    assert_eq!(fixed.require(CAPABILITY_INT64), Err(Error::CapabilityNotEnabled(CAPABILITY_INT64)));
    let mut open = CapabilityModel::default();
    assert_eq!(open.iter(), &[CAPABILITY_INT64, CAPABILITY_FLOAT64]);
    open.require(CAPABILITY_SHADER).unwrap();
    open.require(CAPABILITY_SHADER).unwrap();
    assert_eq!(open.into_vec(), vec![CAPABILITY_INT64, CAPABILITY_FLOAT64, CAPABILITY_SHADER]);
}

#[test]
fn parameters_default_to_function_parameters() {
    let p = Parameter::default();
    assert_eq!(p.ty, None);
    assert_eq!(p.kind, ParameterKind::FunctionParameter);
    assert_eq!(ParameterKind::Input(2).storage_class(), wasm2spirv::spv::STORAGE_CLASS_INPUT);
}

#[test]
fn execution_mode_tags_past_local_size_hint_are_refused() {
    assert_eq!(ExecutionMode::deserialize_from(&[6, 0], 0).unwrap_err(), Error::UnknownExecutionMode);
    assert_eq!(ExecutionMode::deserialize_from(&[9, 0], 0).unwrap_err(), Error::UnknownExecutionMode);
    let mut bytes = Vec::new();
    ExecutionMode::LocalSizeHint(1, 2, 3).serialize_into(&mut bytes).unwrap();
    assert_eq!(bytes[0], 5);
    assert_eq!(ExecutionMode::deserialize_from(&bytes, 0), Ok((ExecutionMode::LocalSizeHint(1, 2, 3), bytes.len())));
}

#[test]
fn depth_replacing_is_not_serialised() {
    let mut bytes = Vec::new();
    assert_eq!(ExecutionMode::DepthReplacing.serialize_into(&mut bytes).unwrap_err(), Error::UnknownExecutionMode);
}

#[test]
fn a_missing_capability_is_named() {
    let e = Error::CapabilityNotEnabled(CAPABILITY_SHADER);
    assert_eq!(e.to_string(), "Unable to enable Shader");
    assert_eq!(Error::CapabilityNotEnabled(CAPABILITY_INT64).to_string(), "Unable to enable Int64");
    assert_eq!(Error::ConstantGlobal.to_string(), Error::ConstantGlobal.message());
}
