//! The capabilities that the operands of SPIR-V instructions need.
use vstd::prelude::*;
use crate::spv::{
    Capability,
    StorageClass,
    SpirvAddressingModel,
    MemoryModel,
    ExecutionModel,
    BuiltIn,
    SpirvExecutionMode,
    MemoryAccess,
    ADDRESSING_MODEL_PHYSICAL32,
    ADDRESSING_MODEL_PHYSICAL64,
    ADDRESSING_MODEL_PHYSICAL_STORAGE_BUFFER64,
    BUILTIN_FRAG_COORD,
    BUILTIN_FRAG_DEPTH,
    BUILTIN_HELPER_INVOCATION,
    BUILTIN_INSTANCE_ID,
    BUILTIN_POINT_COORD,
    BUILTIN_POINT_SIZE,
    BUILTIN_POSITION,
    BUILTIN_SAMPLE_MASK,
    BUILTIN_VERTEX_ID,
    CAPABILITY_ADDRESSES,
    CAPABILITY_ATOMIC_STORAGE,
    CAPABILITY_GENERIC_POINTER,
    CAPABILITY_GEOMETRY,
    CAPABILITY_KERNEL,
    CAPABILITY_PHYSICAL_STORAGE_BUFFER_ADDRESSES,
    CAPABILITY_SHADER,
    CAPABILITY_TESSELLATION,
    CAPABILITY_VULKAN_MEMORY_MODEL,
    EXECUTION_MODEL_FRAGMENT,
    EXECUTION_MODEL_GEOMETRY,
    EXECUTION_MODEL_GL_COMPUTE,
    EXECUTION_MODEL_KERNEL,
    EXECUTION_MODEL_TESSELLATION_CONTROL,
    EXECUTION_MODEL_TESSELLATION_EVALUATION,
    EXECUTION_MODEL_VERTEX,
    EXECUTION_MODE_DEPTH_REPLACING,
    EXECUTION_MODE_INVOCATIONS,
    EXECUTION_MODE_LOCAL_SIZE_HINT,
    EXECUTION_MODE_ORIGIN_LOWER_LEFT,
    EXECUTION_MODE_ORIGIN_UPPER_LEFT,
    EXECUTION_MODE_PIXEL_CENTER_INTEGER,
    MEMORY_ACCESS_MAKE_POINTER_AVAILABLE,
    MEMORY_ACCESS_MAKE_POINTER_VISIBLE,
    MEMORY_ACCESS_NON_PRIVATE_POINTER,
    MEMORY_MODEL_GLSL450,
    MEMORY_MODEL_OPENCL,
    MEMORY_MODEL_SIMPLE,
    MEMORY_MODEL_VULKAN,
    STORAGE_CLASS_ATOMIC_COUNTER,
    STORAGE_CLASS_GENERIC,
    STORAGE_CLASS_OUTPUT,
    STORAGE_CLASS_PHYSICAL_STORAGE_BUFFER,
    STORAGE_CLASS_PRIVATE,
    STORAGE_CLASS_PUSH_CONSTANT,
    STORAGE_CLASS_STORAGE_BUFFER,
    STORAGE_CLASS_UNIFORM,
};

verus! {

/// The capabilities that a storage class needs.
pub open spec fn spec_storage_class_capabilities(sc: StorageClass) -> Seq<Capability> {
    if sc == STORAGE_CLASS_UNIFORM || sc == STORAGE_CLASS_OUTPUT || sc == STORAGE_CLASS_PRIVATE || sc
        == STORAGE_CLASS_PUSH_CONSTANT || sc == STORAGE_CLASS_STORAGE_BUFFER {
        seq![CAPABILITY_SHADER]
    } else if sc == STORAGE_CLASS_PHYSICAL_STORAGE_BUFFER {
        seq![CAPABILITY_PHYSICAL_STORAGE_BUFFER_ADDRESSES]
    } else if sc == STORAGE_CLASS_ATOMIC_COUNTER {
        seq![CAPABILITY_ATOMIC_STORAGE]
    } else if sc == STORAGE_CLASS_GENERIC {
        seq![CAPABILITY_GENERIC_POINTER]
    } else {
        Seq::empty()
    }
}

/// The capabilities that an addressing model needs.
pub open spec fn spec_addressing_model_capabilities(am: SpirvAddressingModel) -> Seq<Capability> {
    if am == ADDRESSING_MODEL_PHYSICAL32 || am == ADDRESSING_MODEL_PHYSICAL64 {
        seq![CAPABILITY_ADDRESSES]
    } else if am == ADDRESSING_MODEL_PHYSICAL_STORAGE_BUFFER64 {
        seq![CAPABILITY_PHYSICAL_STORAGE_BUFFER_ADDRESSES]
    } else {
        Seq::empty()
    }
}

/// The capabilities that a memory model needs.
pub open spec fn spec_memory_model_capabilities(mm: MemoryModel) -> Seq<Capability> {
    if mm == MEMORY_MODEL_SIMPLE || mm == MEMORY_MODEL_GLSL450 {
        seq![CAPABILITY_SHADER]
    } else if mm == MEMORY_MODEL_OPENCL {
        seq![CAPABILITY_KERNEL]
    } else if mm == MEMORY_MODEL_VULKAN {
        seq![CAPABILITY_VULKAN_MEMORY_MODEL]
    } else {
        Seq::empty()
    }
}

/// The capabilities that an execution mode needs.
pub open spec fn spec_execution_mode_capabilities(em: SpirvExecutionMode) -> Seq<Capability> {
    if em == EXECUTION_MODE_INVOCATIONS {
        seq![CAPABILITY_GEOMETRY]
    } else if em == EXECUTION_MODE_PIXEL_CENTER_INTEGER || em == EXECUTION_MODE_DEPTH_REPLACING || em
        == EXECUTION_MODE_ORIGIN_UPPER_LEFT || em == EXECUTION_MODE_ORIGIN_LOWER_LEFT {
        seq![CAPABILITY_SHADER]
    } else if em == EXECUTION_MODE_LOCAL_SIZE_HINT {
        seq![CAPABILITY_KERNEL]
    } else {
        Seq::empty()
    }
}

/// The capabilities that an execution model needs.
pub open spec fn spec_execution_model_capabilities(em: ExecutionModel) -> Seq<Capability> {
    if em == EXECUTION_MODEL_FRAGMENT || em == EXECUTION_MODEL_GL_COMPUTE || em == EXECUTION_MODEL_VERTEX {
        seq![CAPABILITY_SHADER]
    } else if em == EXECUTION_MODEL_TESSELLATION_EVALUATION || em == EXECUTION_MODEL_TESSELLATION_CONTROL {
        seq![CAPABILITY_TESSELLATION]
    } else if em == EXECUTION_MODEL_GEOMETRY {
        seq![CAPABILITY_GEOMETRY]
    } else if em == EXECUTION_MODEL_KERNEL {
        seq![CAPABILITY_KERNEL]
    } else {
        Seq::empty()
    }
}

/// The capabilities that a built-in variable needs.
pub open spec fn spec_builtin_capabilities(b: BuiltIn) -> Seq<Capability> {
    if b == BUILTIN_POSITION || b == BUILTIN_POINT_SIZE || b == BUILTIN_VERTEX_ID || b == BUILTIN_INSTANCE_ID
        || b == BUILTIN_FRAG_COORD || b == BUILTIN_POINT_COORD || b == BUILTIN_SAMPLE_MASK || b
        == BUILTIN_FRAG_DEPTH || b == BUILTIN_HELPER_INVOCATION {
        seq![CAPABILITY_SHADER]
    } else {
        Seq::empty()
    }
}

/// The memory-access flags that belong to the Vulkan memory model.
pub open spec fn vulkan_memory_access_mask() -> u32 {
    MEMORY_ACCESS_MAKE_POINTER_AVAILABLE | MEMORY_ACCESS_MAKE_POINTER_VISIBLE | MEMORY_ACCESS_NON_PRIVATE_POINTER
}

/// The capabilities that a set of memory-access flags needs.
pub open spec fn spec_memory_access_capabilities(ma: MemoryAccess) -> Seq<Capability> {
    if ma & 0x38 != 0 {
        seq![CAPABILITY_VULKAN_MEMORY_MODEL]
    } else {
        Seq::empty()
    }
}

pub fn storage_class_capabilities(storage_class: StorageClass) -> (r: Vec<Capability>)
    ensures
        r@ == spec_storage_class_capabilities(storage_class),
{
    let sc = storage_class;
    if sc == STORAGE_CLASS_UNIFORM || sc == STORAGE_CLASS_OUTPUT || sc == STORAGE_CLASS_PRIVATE || sc
        == STORAGE_CLASS_PUSH_CONSTANT || sc == STORAGE_CLASS_STORAGE_BUFFER {
        vec![CAPABILITY_SHADER]
    } else if sc == STORAGE_CLASS_PHYSICAL_STORAGE_BUFFER {
        vec![CAPABILITY_PHYSICAL_STORAGE_BUFFER_ADDRESSES]
    } else if sc == STORAGE_CLASS_ATOMIC_COUNTER {
        vec![CAPABILITY_ATOMIC_STORAGE]
    } else if sc == STORAGE_CLASS_GENERIC {
        vec![CAPABILITY_GENERIC_POINTER]
    } else {
        Vec::new()
    }
}

pub fn addressing_model_capabilities(addressing_model: SpirvAddressingModel) -> (r: Vec<Capability>)
    ensures
        r@ == spec_addressing_model_capabilities(addressing_model),
{
    let am = addressing_model;
    if am == ADDRESSING_MODEL_PHYSICAL32 || am == ADDRESSING_MODEL_PHYSICAL64 {
        vec![CAPABILITY_ADDRESSES]
    } else if am == ADDRESSING_MODEL_PHYSICAL_STORAGE_BUFFER64 {
        vec![CAPABILITY_PHYSICAL_STORAGE_BUFFER_ADDRESSES]
    } else {
        Vec::new()
    }
}

pub fn memory_model_capabilities(memory_model: MemoryModel) -> (r: Vec<Capability>)
    ensures
        r@ == spec_memory_model_capabilities(memory_model),
{
    let mm = memory_model;
    if mm == MEMORY_MODEL_SIMPLE || mm == MEMORY_MODEL_GLSL450 {
        vec![CAPABILITY_SHADER]
    } else if mm == MEMORY_MODEL_OPENCL {
        vec![CAPABILITY_KERNEL]
    } else if mm == MEMORY_MODEL_VULKAN {
        vec![CAPABILITY_VULKAN_MEMORY_MODEL]
    } else {
        Vec::new()
    }
}

pub fn execution_mode_capabilities(execution_mode: SpirvExecutionMode) -> (r: Vec<Capability>)
    ensures
        r@ == spec_execution_mode_capabilities(execution_mode),
{
    let em = execution_mode;
    if em == EXECUTION_MODE_INVOCATIONS {
        vec![CAPABILITY_GEOMETRY]
    } else if em == EXECUTION_MODE_PIXEL_CENTER_INTEGER || em == EXECUTION_MODE_DEPTH_REPLACING || em
        == EXECUTION_MODE_ORIGIN_UPPER_LEFT || em == EXECUTION_MODE_ORIGIN_LOWER_LEFT {
        vec![CAPABILITY_SHADER]
    } else if em == EXECUTION_MODE_LOCAL_SIZE_HINT {
        vec![CAPABILITY_KERNEL]
    } else {
        Vec::new()
    }
}

pub fn execution_model_capabilities(execution_model: ExecutionModel) -> (r: Vec<Capability>)
    ensures
        r@ == spec_execution_model_capabilities(execution_model),
{
    let em = execution_model;
    if em == EXECUTION_MODEL_FRAGMENT || em == EXECUTION_MODEL_GL_COMPUTE || em == EXECUTION_MODEL_VERTEX {
        vec![CAPABILITY_SHADER]
    } else if em == EXECUTION_MODEL_TESSELLATION_EVALUATION || em == EXECUTION_MODEL_TESSELLATION_CONTROL {
        vec![CAPABILITY_TESSELLATION]
    } else if em == EXECUTION_MODEL_GEOMETRY {
        vec![CAPABILITY_GEOMETRY]
    } else if em == EXECUTION_MODEL_KERNEL {
        vec![CAPABILITY_KERNEL]
    } else {
        Vec::new()
    }
}

pub fn builtin_capabilities(builtin: BuiltIn) -> (r: Vec<Capability>)
    ensures
        r@ == spec_builtin_capabilities(builtin),
{
    let b = builtin;
    if b == BUILTIN_POSITION || b == BUILTIN_POINT_SIZE || b == BUILTIN_VERTEX_ID || b == BUILTIN_INSTANCE_ID
        || b == BUILTIN_FRAG_COORD || b == BUILTIN_POINT_COORD || b == BUILTIN_SAMPLE_MASK || b
        == BUILTIN_FRAG_DEPTH || b == BUILTIN_HELPER_INVOCATION {
        vec![CAPABILITY_SHADER]
    } else {
        Vec::new()
    }
}

pub fn memory_access_capabilities(memory_access: MemoryAccess) -> (r: Vec<Capability>)
    ensures
        r@ == spec_memory_access_capabilities(memory_access),
{
    let mask = MEMORY_ACCESS_MAKE_POINTER_AVAILABLE | MEMORY_ACCESS_MAKE_POINTER_VISIBLE
        | MEMORY_ACCESS_NON_PRIVATE_POINTER;
    assert(MEMORY_ACCESS_MAKE_POINTER_AVAILABLE | MEMORY_ACCESS_MAKE_POINTER_VISIBLE
        | MEMORY_ACCESS_NON_PRIVATE_POINTER == 0x38u32) by (bit_vector);
    if memory_access & mask != 0 {
        vec![CAPABILITY_VULKAN_MEMORY_MODEL]
    } else {
        Vec::new()
    }
}

/// An operand of a SPIR-V instruction, as far as capabilities go.
#[derive(Debug, Clone, Copy, PartialEq, Eq, Structural)]
pub enum Operand {
    AddressingModel(SpirvAddressingModel),
    BuiltIn(BuiltIn),
    StorageClass(StorageClass),
    MemoryModel(MemoryModel),
    ExecutionModel(ExecutionModel),
    ExecutionMode(SpirvExecutionMode),
    MemoryAccess(MemoryAccess),
    FunctionControl(u32),
    /// An operand that needs no capability.
    Other,
}

/// The capabilities that an operand needs.
pub open spec fn spec_operand_capabilities(op: Operand) -> Seq<Capability> {
    match op {
        Operand::AddressingModel(x) => spec_addressing_model_capabilities(x),
        Operand::BuiltIn(x) => spec_builtin_capabilities(x),
        Operand::StorageClass(x) => spec_storage_class_capabilities(x),
        Operand::MemoryModel(x) => spec_memory_model_capabilities(x),
        Operand::ExecutionModel(x) => spec_execution_model_capabilities(x),
        Operand::ExecutionMode(x) => spec_execution_mode_capabilities(x),
        Operand::MemoryAccess(x) => spec_memory_access_capabilities(x),
        _ => Seq::empty(),
    }
}

pub fn operand_capabilities(op: &Operand) -> (r: Vec<Capability>)
    ensures
        r@ == spec_operand_capabilities(*op),
{
    match op {
        Operand::AddressingModel(x) => addressing_model_capabilities(*x),
        Operand::BuiltIn(x) => builtin_capabilities(*x),
        Operand::StorageClass(x) => storage_class_capabilities(*x),
        Operand::MemoryModel(x) => memory_model_capabilities(*x),
        Operand::ExecutionModel(x) => execution_model_capabilities(*x),
        Operand::ExecutionMode(x) => execution_mode_capabilities(*x),
        Operand::MemoryAccess(x) => memory_access_capabilities(*x),
        _ => Vec::new(),
    }
}

/// The capabilities of the operands `ops`, in order.
pub open spec fn spec_operands_capabilities(ops: Seq<Operand>) -> Seq<Capability>
    decreases ops.len(),
{
    if ops.len() == 0 {
        Seq::empty()
    } else {
        spec_operands_capabilities(ops.drop_last()) + spec_operand_capabilities(ops.last())
    }
}

/// An instruction as far as capabilities go: the capabilities of its
/// opcode and its operands.
#[derive(Debug, Clone)]
pub struct Instruction {
    pub class_capabilities: Vec<Capability>,
    pub operands: Vec<Operand>,
}

/// The capabilities that an instruction needs: those of its opcode, then
/// those of its operands in order.
pub fn instruction_capabilities(instr: &Instruction) -> (r: Vec<Capability>)
    ensures
        r@ == instr.class_capabilities@ + spec_operands_capabilities(instr.operands@),
{
    let mut r: Vec<Capability> = Vec::new();
    let mut i: usize = 0;
    while i < instr.class_capabilities.len()
        invariant
            i <= instr.class_capabilities@.len(),
            r@ == instr.class_capabilities@.take(i as int),
        decreases instr.class_capabilities@.len() - i,
    {
        r.push(instr.class_capabilities[i]);
        proof {
            assert(r@ =~= instr.class_capabilities@.take(i + 1));
        }
        i = i + 1;
    }
    proof {
        assert(instr.class_capabilities@.take(i as int) =~= instr.class_capabilities@);
    }
    let mut j: usize = 0;
    while j < instr.operands.len()
        invariant
            j <= instr.operands@.len(),
            r@ == instr.class_capabilities@ + spec_operands_capabilities(instr.operands@.take(j as int)),
        decreases instr.operands@.len() - j,
    {
        let caps = operand_capabilities(&instr.operands[j]);
        let mut k: usize = 0;
        let ghost before = r@;
        while k < caps.len()
            invariant
                k <= caps@.len(),
                r@ == before + caps@.take(k as int),
            decreases caps@.len() - k,
        {
            r.push(caps[k]);
            proof {
                assert(r@ =~= before + caps@.take(k + 1));
            }
            k = k + 1;
        }
        proof {
            assert(caps@.take(k as int) =~= caps@);
            assert(instr.operands@.take(j + 1).drop_last() =~= instr.operands@.take(j as int));
            assert(r@ =~= instr.class_capabilities@ + spec_operands_capabilities(instr.operands@.take(j + 1)));
        }
        j = j + 1;
    }
    proof {
        assert(instr.operands@.take(j as int) =~= instr.operands@);
    }
    r
}

} // verus!
