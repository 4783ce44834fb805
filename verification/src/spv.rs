//! SPIR-V enumerants as the numbers that the SPIR-V specification gives them.
//! The numeric form is what the compiler reads, compares and encodes; which
//! numbers name an enumerant is asked of the `spirv` crate.
use vstd::prelude::*;

verus! {

/// A SPIR-V `Capability` enumerant.
pub type Capability = u32;
/// A SPIR-V `StorageClass` enumerant.
pub type StorageClass = u32;
/// A SPIR-V `ExecutionModel` enumerant.
pub type ExecutionModel = u32;
/// A SPIR-V `MemoryModel` enumerant.
pub type MemoryModel = u32;
/// A SPIR-V `BuiltIn` enumerant.
pub type BuiltIn = u32;
/// A SPIR-V `AddressingModel` enumerant.
pub type SpirvAddressingModel = u32;
/// A SPIR-V `ExecutionMode` enumerant.
pub type SpirvExecutionMode = u32;
/// A SPIR-V `MemoryAccess` mask.
pub type MemoryAccess = u32;

pub const CAPABILITY_SHADER: Capability = 1;
pub const CAPABILITY_GEOMETRY: Capability = 2;
pub const CAPABILITY_TESSELLATION: Capability = 3;
pub const CAPABILITY_ADDRESSES: Capability = 4;
pub const CAPABILITY_KERNEL: Capability = 6;
pub const CAPABILITY_FLOAT64: Capability = 10;
pub const CAPABILITY_INT64: Capability = 11;
pub const CAPABILITY_ATOMIC_STORAGE: Capability = 21;
pub const CAPABILITY_GENERIC_POINTER: Capability = 38;
pub const CAPABILITY_VULKAN_MEMORY_MODEL: Capability = 5345;
pub const CAPABILITY_PHYSICAL_STORAGE_BUFFER_ADDRESSES: Capability = 5347;

pub const STORAGE_CLASS_UNIFORM_CONSTANT: StorageClass = 0;
pub const STORAGE_CLASS_INPUT: StorageClass = 1;
pub const STORAGE_CLASS_UNIFORM: StorageClass = 2;
pub const STORAGE_CLASS_OUTPUT: StorageClass = 3;
pub const STORAGE_CLASS_WORKGROUP: StorageClass = 4;
pub const STORAGE_CLASS_CROSS_WORKGROUP: StorageClass = 5;
pub const STORAGE_CLASS_PRIVATE: StorageClass = 6;
pub const STORAGE_CLASS_FUNCTION: StorageClass = 7;
pub const STORAGE_CLASS_GENERIC: StorageClass = 8;
pub const STORAGE_CLASS_PUSH_CONSTANT: StorageClass = 9;
pub const STORAGE_CLASS_ATOMIC_COUNTER: StorageClass = 10;
pub const STORAGE_CLASS_STORAGE_BUFFER: StorageClass = 12;
pub const STORAGE_CLASS_PHYSICAL_STORAGE_BUFFER: StorageClass = 5349;

pub const EXECUTION_MODEL_VERTEX: ExecutionModel = 0;
pub const EXECUTION_MODEL_TESSELLATION_CONTROL: ExecutionModel = 1;
pub const EXECUTION_MODEL_TESSELLATION_EVALUATION: ExecutionModel = 2;
pub const EXECUTION_MODEL_GEOMETRY: ExecutionModel = 3;
pub const EXECUTION_MODEL_FRAGMENT: ExecutionModel = 4;
pub const EXECUTION_MODEL_GL_COMPUTE: ExecutionModel = 5;
pub const EXECUTION_MODEL_KERNEL: ExecutionModel = 6;

pub const MEMORY_MODEL_SIMPLE: MemoryModel = 0;
pub const MEMORY_MODEL_GLSL450: MemoryModel = 1;
pub const MEMORY_MODEL_OPENCL: MemoryModel = 2;
pub const MEMORY_MODEL_VULKAN: MemoryModel = 3;

pub const ADDRESSING_MODEL_LOGICAL: SpirvAddressingModel = 0;
pub const ADDRESSING_MODEL_PHYSICAL32: SpirvAddressingModel = 1;
pub const ADDRESSING_MODEL_PHYSICAL64: SpirvAddressingModel = 2;
pub const ADDRESSING_MODEL_PHYSICAL_STORAGE_BUFFER64: SpirvAddressingModel = 5348;

pub const BUILTIN_POSITION: BuiltIn = 0;
pub const BUILTIN_POINT_SIZE: BuiltIn = 1;
pub const BUILTIN_VERTEX_ID: BuiltIn = 5;
pub const BUILTIN_INSTANCE_ID: BuiltIn = 6;
pub const BUILTIN_FRAG_COORD: BuiltIn = 15;
pub const BUILTIN_POINT_COORD: BuiltIn = 16;
pub const BUILTIN_SAMPLE_MASK: BuiltIn = 20;
pub const BUILTIN_FRAG_DEPTH: BuiltIn = 22;
pub const BUILTIN_HELPER_INVOCATION: BuiltIn = 23;
pub const BUILTIN_NUM_WORKGROUPS: BuiltIn = 24;
pub const BUILTIN_WORKGROUP_SIZE: BuiltIn = 25;
pub const BUILTIN_WORKGROUP_ID: BuiltIn = 26;
pub const BUILTIN_LOCAL_INVOCATION_ID: BuiltIn = 27;
pub const BUILTIN_GLOBAL_INVOCATION_ID: BuiltIn = 28;

pub const EXECUTION_MODE_INVOCATIONS: SpirvExecutionMode = 0;
pub const EXECUTION_MODE_PIXEL_CENTER_INTEGER: SpirvExecutionMode = 6;
pub const EXECUTION_MODE_ORIGIN_UPPER_LEFT: SpirvExecutionMode = 7;
pub const EXECUTION_MODE_ORIGIN_LOWER_LEFT: SpirvExecutionMode = 8;
pub const EXECUTION_MODE_DEPTH_REPLACING: SpirvExecutionMode = 12;
pub const EXECUTION_MODE_LOCAL_SIZE: SpirvExecutionMode = 17;
pub const EXECUTION_MODE_LOCAL_SIZE_HINT: SpirvExecutionMode = 18;

pub const MEMORY_ACCESS_MAKE_POINTER_AVAILABLE: MemoryAccess = 0x8;
pub const MEMORY_ACCESS_MAKE_POINTER_VISIBLE: MemoryAccess = 0x10;
pub const MEMORY_ACCESS_NON_PRIVATE_POINTER: MemoryAccess = 0x20;

/// Whether `spirv::Capability::from_u32` knows the number `n`.
pub uninterp spec fn is_capability(n: u32) -> bool;

/// The numbers that `spirv::StorageClass::from_u32` accepts.
pub open spec fn is_storage_class(n: u32) -> bool {
    n <= 12 || n == 4172 || n == 4491 || n == 5068 || (5328 <= n <= 5329) || (5338 <= n <= 5339) || (5342 <= n
        <= 5343) || n == 5349 || n == 5385 || n == 5402 || n == 5411 || n == 5605 || (5936 <= n <= 5937)
}

/// The numbers that `spirv::MemoryModel::from_u32` accepts.
pub open spec fn is_memory_model(n: u32) -> bool {
    n <= 3
}

/// The numbers that `spirv::ExecutionModel::from_u32` accepts.
pub open spec fn is_execution_model(n: u32) -> bool {
    n <= 6 || (5267 <= n <= 5268) || (5313 <= n <= 5318) || (5364 <= n <= 5365)
}

/// Calls `spirv::Capability::from_u32`: it returns `Some` exactly for the
/// numbers of the enumerants that the crate lists, which this crate names
/// `is_capability` without listing them.
#[verifier::external_body]
pub(crate) fn capability_from_u32(n: u32) -> (r: Option<Capability>)
    ensures
        r == (if is_capability(n) { Some(n) } else { None }),
{
    spirv::Capability::from_u32(n).map(|c| c as u32)
}

/// Calls `spirv::StorageClass::from_u32`: `Some` exactly for the numbers
/// that `is_storage_class` lists.
#[verifier::external_body]
pub(crate) fn storage_class_from_u32(n: u32) -> (r: Option<StorageClass>)
    ensures
        r == (if is_storage_class(n) { Some(n) } else { None }),
{
    spirv::StorageClass::from_u32(n).map(|c| c as u32)
}

/// Calls `spirv::MemoryModel::from_u32`, which accepts the numbers 0 to 3.
#[verifier::external_body]
pub(crate) fn memory_model_from_u32(n: u32) -> (r: Option<MemoryModel>)
    ensures
        r == (if is_memory_model(n) { Some(n) } else { None }),
{
    spirv::MemoryModel::from_u32(n).map(|c| c as u32)
}

/// Calls `spirv::ExecutionModel::from_u32`, which accepts 0 to 6, 5267 to
/// 5268, 5313 to 5318 and 5364 to 5365.
#[verifier::external_body]
pub(crate) fn execution_model_from_u32(n: u32) -> (r: Option<ExecutionModel>)
    ensures
        r == (if is_execution_model(n) { Some(n) } else { None }),
{
    spirv::ExecutionModel::from_u32(n).map(|c| c as u32)
}

} // verus!
