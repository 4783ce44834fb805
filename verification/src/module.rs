//! What the value graph reads of the module under construction: the target,
//! the capability model, the addressing model and the memory width.
use vstd::prelude::*;
use crate::config::{AddressingModel, CapabilityModel, Config, MemoryGrowErrorKind};
use crate::error::Error;
use crate::extended_is::ExtendedIs;
use crate::spv::{
    BuiltIn, MemoryModel, SpirvAddressingModel, StorageClass, ADDRESSING_MODEL_LOGICAL,
    ADDRESSING_MODEL_PHYSICAL32, ADDRESSING_MODEL_PHYSICAL64,
    ADDRESSING_MODEL_PHYSICAL_STORAGE_BUFFER64, STORAGE_CLASS_CROSS_WORKGROUP, STORAGE_CLASS_PHYSICAL_STORAGE_BUFFER,
};
use crate::str::Str;
use crate::block::{spec_pop, spec_translate_constants, translate_constants, BlockBuilder, Operator};
use crate::types::{type_clone, PointerSize, ScalarType, Type};
use crate::values::pointer::PointerSource;
use crate::values::integer::IntegerKind;
use crate::values::pointer::Pointer;
use crate::values::Value;
use std::rc::Rc;
use crate::version::{spec_spirv_version, TargetPlatform, Version};

verus! {

/// A built-in variable that an imported function writes or reads, with the
/// built-in that decorates it.
#[derive(Debug)]
pub enum Builtin {
    /// A call stores its 32-bit float argument into the output variable.
    Output { variable: Rc<Pointer>, builtin: BuiltIn },
    /// A call gives the component, chosen by its 32-bit integer argument, of
    /// the input vector of three 32-bit integers.
    Uint3Input { variable: Rc<Pointer>, builtin: BuiltIn },
}

/// A function of the module that instructions can call: its id, and the
/// types of its parameters and results; an imported built-in is called by
/// reading or writing its variable.
#[derive(Debug)]
pub struct CallableFunction {
    pub function_id: u32,
    pub params: Vec<ScalarType>,
    pub results: Vec<ScalarType>,
    pub builtin: Option<Builtin>,
}

/// A global variable of the module: a variable, or a constant value.
#[derive(Debug)]
pub enum GlobalVariable {
    Variable(Rc<Pointer>),
    Constant(Value),
}

/// The module-wide settings of a compilation.
#[derive(Debug)]
pub struct ModuleBuilder {
    pub platform: TargetPlatform,
    pub version: Version,
    pub extended_is: Vec<ExtendedIs>,
    pub capabilities: CapabilityModel,
    pub extensions: Vec<Str<'static>>,
    /// The SPIR-V addressing model.
    pub addressing_model: SpirvAddressingModel,
    pub memory_model: MemoryModel,
    pub memory_grow_error: MemoryGrowErrorKind,
    /// Whether the WebAssembly memory uses 64-bit addresses.
    pub wasm_memory64: bool,
    /// The functions that instructions call by index.
    pub functions: Vec<CallableFunction>,
    /// The global variables that instructions read and write by index.
    pub global_variables: Vec<GlobalVariable>,
    /// The variables of imported built-ins, which no index names.
    pub hidden_global_variables: Vec<Rc<Pointer>>,
}

/// The initial value of a global of type `ty` whose initialiser is the
/// constant instruction `init`; an instruction that is no constant leaves
/// no value.
pub open spec fn spec_global_init(init: Operator, ty: Type, am: SpirvAddressingModel, memory64: bool) -> Result<Value, Error> {
    spec_pop(spec_translate_constants(init, Seq::empty()).0, ty, am, memory64).1
}

/// Whether `g` is the global that a definition gives on `platform`: a
/// constant unless it is mutable on a platform other than Vulkan, in which
/// case a cross-workgroup variable without decorations that starts with
/// `init`.
pub open spec fn is_defined_global(g: GlobalVariable, platform: TargetPlatform, mutable: bool, ty: Type, init: Value) -> bool {
    if mutable && platform is Universal {
        match g {
            GlobalVariable::Variable(p) => {
                &&& p.kind == PointerSize::Skinny.spec_pointer_kind()
                &&& p.storage_class == STORAGE_CLASS_CROSS_WORKGROUP
                &&& p.pointee == ty
                &&& p.source == PointerSource::Variable { init: Some(init), decorators: p.source->decorators }
                &&& p.source->decorators@.len() == 0
            },
            GlobalVariable::Constant(_) => false,
        }
    } else {
        g == GlobalVariable::Constant(init)
    }
}

/// The SPIR-V addressing model that a configured addressing model gives for a
/// memory of the given width, if the two fit together.
pub open spec fn spec_spirv_addressing_model(model: AddressingModel, memory64: bool) -> Option<SpirvAddressingModel> {
    match model {
        AddressingModel::Logical => Some(ADDRESSING_MODEL_LOGICAL),
        AddressingModel::Physical => if memory64 {
            Some(ADDRESSING_MODEL_PHYSICAL64)
        } else {
            Some(ADDRESSING_MODEL_PHYSICAL32)
        },
        AddressingModel::PhysicalStorageBuffer => if memory64 {
            Some(ADDRESSING_MODEL_PHYSICAL_STORAGE_BUFFER64)
        } else {
            None
        },
    }
}

/// The width in bits of a pointer of `storage_class` under an addressing
/// model; logical pointers have none.
pub open spec fn spec_address_bits(addressing_model: SpirvAddressingModel, storage_class: StorageClass) -> Option<u32> {
    if addressing_model == ADDRESSING_MODEL_PHYSICAL32 {
        Some(32)
    } else if addressing_model == ADDRESSING_MODEL_PHYSICAL64 || (storage_class
        == STORAGE_CLASS_PHYSICAL_STORAGE_BUFFER && addressing_model
        == ADDRESSING_MODEL_PHYSICAL_STORAGE_BUFFER64) {
        Some(64)
    } else {
        None
    }
}

/// The width in bytes of a pointer of `storage_class`.
pub open spec fn spec_address_bytes(addressing_model: SpirvAddressingModel, storage_class: StorageClass) -> Option<u32> {
    match spec_address_bits(addressing_model, storage_class) {
        Some(bits) => Some(bits / 8),
        None => None,
    }
}

impl ModuleBuilder {
    /// Starts a module for `config`, whose WebAssembly memory is 64-bit when
    /// `wasm_memory64` holds. Fails when the addressing model needs 64-bit
    /// addresses that the memory does not have.
    pub fn new(config: Config, wasm_memory64: bool) -> (r: Result<ModuleBuilder, Error>)
        ensures
            match spec_spirv_addressing_model(config.addressing_model, wasm_memory64) {
                Some(am) => r matches Ok(m) && m.addressing_model == am && m.platform == config.platform
                    && m.version == spec_spirv_version(config.platform) && m.wasm_memory64 == wasm_memory64
                    && m.capabilities == config.capabilities && m.extensions@ == config.extensions@
                    && m.memory_model == config.memory_model && m.memory_grow_error == config.memory_grow_error
                    && m.functions@.len() == 0 && m.global_variables@.len() == 0
                    && m.hidden_global_variables@.len() == 0
                    && m.extended_is@ == (if config.platform is Vulkan {
                        seq![ExtendedIs { kind: crate::extended_is::ExtendedSet::GLSL450 }]
                    } else {
                        Seq::<ExtendedIs>::empty()
                    }),
                None => r == Err::<ModuleBuilder, Error>(Error::InvalidAddressingModel),
            },
    {
        let addressing_model = match (config.addressing_model, wasm_memory64) {
            (AddressingModel::Logical, _) => ADDRESSING_MODEL_LOGICAL,
            (AddressingModel::Physical, false) => ADDRESSING_MODEL_PHYSICAL32,
            (AddressingModel::Physical, true) => ADDRESSING_MODEL_PHYSICAL64,
            (AddressingModel::PhysicalStorageBuffer, true) => ADDRESSING_MODEL_PHYSICAL_STORAGE_BUFFER64,
            _ => return Err(Error::InvalidAddressingModel),
        };
        let mut extended_is: Vec<ExtendedIs> = Vec::new();
        match config.platform.extended_is() {
            Some(x) => extended_is.push(x),
            None => {},
        }
        Ok(ModuleBuilder {
            platform: config.platform,
            version: config.platform.spirv_version(),
            extended_is,
            capabilities: config.capabilities,
            extensions: config.extensions,
            addressing_model,
            memory_model: config.memory_model,
            memory_grow_error: config.memory_grow_error,
            wasm_memory64,
            functions: Vec::new(),
            global_variables: Vec::new(),
            hidden_global_variables: Vec::new(),
        })
    }

    /// Whether `other` differs from this module in its global variables at
    /// most.
    pub open spec fn same_but_globals(self, other: ModuleBuilder) -> bool {
        &&& self.platform == other.platform
        &&& self.version == other.version
        &&& self.extended_is@ == other.extended_is@
        &&& self.capabilities == other.capabilities
        &&& self.extensions@ == other.extensions@
        &&& self.addressing_model == other.addressing_model
        &&& self.memory_model == other.memory_model
        &&& self.memory_grow_error == other.memory_grow_error
        &&& self.wasm_memory64 == other.wasm_memory64
        &&& self.functions@ == other.functions@
        &&& self.hidden_global_variables@ == other.hidden_global_variables@
    }

    /// Defines the next global variable of the module: of type `ty`, with
    /// the constant instruction `init` as its initial value. A global that
    /// is not mutable is a constant; so is a mutable one on Vulkan, which has
    /// no mutable global variables; elsewhere a mutable global is a
    /// cross-workgroup variable that starts with the value.
    pub fn define_global(&mut self, mutable: bool, ty: Type, init: &Operator) -> (r: Result<(), Error>)
        ensures
            final(self).same_but_globals(*old(self)),
            match spec_global_init(*init, ty, old(self).addressing_model, old(self).wasm_memory64) {
                Ok(v) => r is Ok && final(self).global_variables@.len() == old(self).global_variables@.len() + 1
                    && final(self).global_variables@.drop_last() == old(self).global_variables@ && is_defined_global(
                    final(self).global_variables@.last(),
                    old(self).platform,
                    mutable,
                    ty,
                    v,
                ),
                Err(e) => r == Err::<(), Error>(e) && final(self).global_variables@ == old(self).global_variables@,
            },
    {
        let mut block = BlockBuilder::dummy();
        let _ = translate_constants(init, &mut block);
        let init_value = match block.stack_pop(type_clone(&ty), self) {
            Ok(v) => v,
            Err(e) => return Err(e),
        };
        let global = if mutable {
            match self.platform {
                TargetPlatform::Vulkan(_) => GlobalVariable::Constant(init_value),
                TargetPlatform::Universal(_) => GlobalVariable::Variable(
                    Rc::new(
                        Pointer::new_variable(
                            PointerSize::Skinny,
                            STORAGE_CLASS_CROSS_WORKGROUP,
                            ty,
                            Some(init_value),
                            Rc::new(Vec::new()),
                        ),
                    ),
                ),
            }
        } else {
            GlobalVariable::Constant(init_value)
        };
        self.global_variables.push(global);
        Ok(())
    }

    /// Whether `other` differs from this module in its capabilities at most.
    pub open spec fn same_but_capabilities(self, other: ModuleBuilder) -> bool {
        &&& self.platform == other.platform
        &&& self.version == other.version
        &&& self.extended_is@ == other.extended_is@
        &&& self.extensions@ == other.extensions@
        &&& self.addressing_model == other.addressing_model
        &&& self.memory_model == other.memory_model
        &&& self.memory_grow_error == other.memory_grow_error
        &&& self.wasm_memory64 == other.wasm_memory64
        &&& self.functions@ == other.functions@
        &&& self.global_variables@ == other.global_variables@
        &&& self.hidden_global_variables@ == other.hidden_global_variables@
    }

    /// The scalar type of a WebAssembly address.
    pub fn isize_type(&self) -> (r: ScalarType)
        ensures
            r == (if self.wasm_memory64 { ScalarType::I64 } else { ScalarType::I32 }),
    {
        if self.wasm_memory64 {
            ScalarType::I64
        } else {
            ScalarType::I32
        }
    }

    /// The integer kind of a WebAssembly address.
    pub fn isize_integer_kind(&self) -> (r: IntegerKind)
        ensures
            r == (if self.wasm_memory64 { IntegerKind::Long } else { IntegerKind::Short }),
    {
        if self.wasm_memory64 {
            IntegerKind::Long
        } else {
            IntegerKind::Short
        }
    }

    /// The width in bits of a SPIR-V pointer of `storage_class`.
    pub fn spirv_address_bits(&self, storage_class: StorageClass) -> (r: Option<u32>)
        ensures
            r == spec_address_bits(self.addressing_model, storage_class),
    {
        if self.addressing_model == ADDRESSING_MODEL_PHYSICAL32 {
            Some(32)
        } else if self.addressing_model == ADDRESSING_MODEL_PHYSICAL64 || (storage_class
            == STORAGE_CLASS_PHYSICAL_STORAGE_BUFFER && self.addressing_model
            == ADDRESSING_MODEL_PHYSICAL_STORAGE_BUFFER64) {
            Some(64)
        } else {
            None
        }
    }

    /// The width in bytes of a SPIR-V pointer of `storage_class`.
    pub fn spirv_address_bytes(&self, storage_class: StorageClass) -> (r: Option<u32>)
        ensures
            r == spec_address_bytes(self.addressing_model, storage_class),
    {
        match self.spirv_address_bits(storage_class) {
            Some(bits) => Some(bits / 8),
            None => None,
        }
    }

    /// The width in bits of a WebAssembly address.
    pub fn wasm_address_bits(&self) -> (r: u32)
        ensures
            r == (if self.wasm_memory64 { 64u32 } else { 32u32 }),
    {
        if self.wasm_memory64 {
            64
        } else {
            32
        }
    }

    /// The width in bytes of a WebAssembly address.
    pub fn wasm_address_bytes(&self) -> (r: u32)
        ensures
            r == (if self.wasm_memory64 { 8u32 } else { 4u32 }),
    {
        self.wasm_address_bits() / 8
    }
}

} // verus!
