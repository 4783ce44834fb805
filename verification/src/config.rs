//! The compiler's configuration and its builder.
use vstd::prelude::*;
use vector_mapp::vec::VecMap;
use crate::error::Error;
use crate::function::{FunctionConfig, FunctionConfigBuilder};
use crate::spv::{Capability, MemoryModel, CAPABILITY_FLOAT64, CAPABILITY_INT64};
use crate::str::Str;
use crate::vecmap::{appended, function_entries, inserted, insert_function, new_function_map};
use crate::version::TargetPlatform;

verus! {

/// What happens when a `memory.grow` instruction is found.
#[derive(Debug, Clone, Copy, PartialEq, Eq, Structural, Hash)]
pub enum MemoryGrowErrorKind {
    /// The compilation fails.
    Hard,
    /// The instruction always returns -1, as the WebAssembly specification
    /// allows.
    Soft,
}

/// The number that a memory-grow error kind is stored as.
pub open spec fn memory_grow_error_code(k: MemoryGrowErrorKind) -> i32 {
    match k {
        MemoryGrowErrorKind::Hard => 0,
        MemoryGrowErrorKind::Soft => 1,
    }
}

impl MemoryGrowErrorKind {
    pub fn default() -> (r: Self)
        ensures
            r == MemoryGrowErrorKind::Soft,
    {
        MemoryGrowErrorKind::Soft
    }

    pub fn try_from_primitive(n: i32) -> (r: Result<Self, Error>)
        ensures
            match r {
                Ok(k) => memory_grow_error_code(k) == n,
                Err(e) => (n < 0 || n > 1) && e == Error::UnknownMemoryGrowErrorKind,
            },
    {
        match n {
            0 => Ok(MemoryGrowErrorKind::Hard),
            1 => Ok(MemoryGrowErrorKind::Soft),
            _ => Err(Error::UnknownMemoryGrowErrorKind),
        }
    }

    pub fn to_primitive(self) -> (r: i32)
        ensures
            r == memory_grow_error_code(self),
    {
        match self {
            MemoryGrowErrorKind::Hard => 0,
            MemoryGrowErrorKind::Soft => 1,
        }
    }
}

/// The addressing model that a configuration asks for.
#[derive(Debug, Clone, Copy, PartialEq, Eq, Structural, Hash)]
pub enum AddressingModel {
    Logical,
    Physical,
    PhysicalStorageBuffer,
}

/// The number that an addressing model is stored as.
pub open spec fn addressing_model_code(m: AddressingModel) -> u32 {
    match m {
        AddressingModel::Logical => 0,
        AddressingModel::Physical => 1,
        AddressingModel::PhysicalStorageBuffer => 2,
    }
}

impl AddressingModel {
    pub fn default() -> (r: Self)
        ensures
            r == AddressingModel::Logical,
    {
        AddressingModel::Logical
    }

    pub fn try_from_primitive(n: u32) -> (r: Result<Self, Error>)
        ensures
            match r {
                Ok(m) => addressing_model_code(m) == n,
                Err(e) => n > 2 && e == Error::UnknownAddressingModel,
            },
    {
        match n {
            0 => Ok(AddressingModel::Logical),
            1 => Ok(AddressingModel::Physical),
            2 => Ok(AddressingModel::PhysicalStorageBuffer),
            _ => Err(Error::UnknownAddressingModel),
        }
    }

    pub fn to_primitive(self) -> (r: u32)
        ensures
            r == addressing_model_code(self),
    {
        match self {
            AddressingModel::Logical => 0,
            AddressingModel::Physical => 1,
            AddressingModel::PhysicalStorageBuffer => 2,
        }
    }
}

/// The WebAssembly proposals that the input module may use.
#[derive(Debug, Clone, Copy, PartialEq, Eq, Structural)]
pub struct WasmFeatures {
    pub memory64: bool,
    pub saturating_float_to_int: bool,
}

impl WasmFeatures {
    pub fn default() -> (r: Self)
        ensures
            !r.memory64,
            !r.saturating_float_to_int,
    {
        WasmFeatures { memory64: false, saturating_float_to_int: false }
    }
}

/// Which capabilities a module may declare.
#[derive(Debug, Clone, PartialEq, Eq)]
pub enum CapabilityModel {
    /// The compilation fails if a required capability isn't listed.
    Static(Vec<Capability>),
    /// The compiler adds capabilities whenever they are required.
    Dynamic(Vec<Capability>),
}

/// The capabilities that a model lists.
pub open spec fn capability_list(m: CapabilityModel) -> Seq<Capability> {
    match m {
        CapabilityModel::Static(x) => x@,
        CapabilityModel::Dynamic(x) => x@,
    }
}

/// The model after requiring `c`: a dynamic model gains `c` if it lacks it.
pub open spec fn required(m: CapabilityModel, c: Capability) -> Seq<Capability> {
    match m {
        CapabilityModel::Static(x) => x@,
        CapabilityModel::Dynamic(x) => if x@.contains(c) {
            x@
        } else {
            x@.push(c)
        },
    }
}

fn contains_capability(v: &Vec<Capability>, c: Capability) -> (r: bool)
    ensures
        r == v@.contains(c),
{
    let mut i: usize = 0;
    while i < v.len()
        invariant
            i <= v.len(),
            forall|j: int| 0 <= j < i ==> v@[j] != c,
        decreases v.len() - i,
    {
        if v[i] == c {
            return true;
        }
        i = i + 1;
    }
    false
}

impl CapabilityModel {
    /// `self` is what `before` becomes when `c` is required of it.
    pub open spec fn require_result(self, before: CapabilityModel, c: Capability) -> bool {
        &&& (self is Static) == (before is Static)
        &&& capability_list(self) == required(before, c)
    }

    pub fn dynamic(values: Vec<Capability>) -> (r: Self)
        ensures
            r == CapabilityModel::Dynamic(values),
    {
        CapabilityModel::Dynamic(values)
    }

    pub fn default() -> (r: Self)
        ensures
            r is Dynamic,
            capability_list(r) == seq![CAPABILITY_INT64, CAPABILITY_FLOAT64],
    {
        Self::dynamic(vec![CAPABILITY_INT64, CAPABILITY_FLOAT64])
    }

    /// The capabilities the model lists, in order.
    pub fn iter(&self) -> (r: &[Capability])
        ensures
            r@ == capability_list(*self),
    {
        match self {
            CapabilityModel::Static(x) => x.as_slice(),
            CapabilityModel::Dynamic(x) => x.as_slice(),
        }
    }

    pub fn into_vec(self) -> (r: Vec<Capability>)
        ensures
            r@ == capability_list(self),
    {
        match self {
            CapabilityModel::Static(x) => x,
            CapabilityModel::Dynamic(x) => x,
        }
    }

    /// Requires a capability: a static model fails unless it lists it; a
    /// dynamic model adds it if it is not listed yet.
    pub fn require(&mut self, capability: Capability) -> (r: Result<(), Error>)
        ensures
            r is Err <==> (*old(self) is Static && !capability_list(*old(self)).contains(capability)),
            r matches Err(e) ==> e == Error::CapabilityNotEnabled(capability),
            (*final(self) is Static) == (*old(self) is Static),
            capability_list(*final(self)) == required(*old(self), capability),
            capability_list(*final(self)).contains(capability) || r is Err,
    {
        self.require_mut(capability)
    }

    /// The same as `require`.
    pub fn require_mut(&mut self, capability: Capability) -> (r: Result<(), Error>)
        ensures
            r is Err <==> (*old(self) is Static && !capability_list(*old(self)).contains(capability)),
            r matches Err(e) ==> e == Error::CapabilityNotEnabled(capability),
            (*final(self) is Static) == (*old(self) is Static),
            capability_list(*final(self)) == required(*old(self), capability),
            capability_list(*final(self)).contains(capability) || r is Err,
    {
        match self {
            CapabilityModel::Static(x) => {
                if !contains_capability(x, capability) {
                    return Err(Error::CapabilityNotEnabled(capability));
                }
            },
            CapabilityModel::Dynamic(x) => {
                if !contains_capability(x, capability) {
                    x.push(capability);
                    assert(x@[x@.len() - 1] == capability);
                }
            },
        }
        Ok(())
    }
}

/// The compiler's configuration.
#[derive(Debug, Clone)]
#[non_exhaustive]
pub struct Config {
    pub platform: TargetPlatform,
    pub features: WasmFeatures,
    pub addressing_model: AddressingModel,
    pub memory_model: MemoryModel,
    pub capabilities: CapabilityModel,
    pub extensions: Vec<Str<'static>>,
    pub memory_grow_error: MemoryGrowErrorKind,
    pub functions: VecMap<u32, FunctionConfig>,
}

/// Builds a configuration.
#[derive(Debug, Clone)]
pub struct ConfigBuilder {
    pub inner: Config,
}

impl Config {
    pub fn builder(
        platform: TargetPlatform,
        capabilities: CapabilityModel,
        extensions: Vec<Str<'static>>,
        addressing_model: AddressingModel,
        memory_model: MemoryModel,
    ) -> (r: Result<ConfigBuilder, Error>)
        ensures
            r matches Ok(b) && {
                &&& b.inner.platform == platform
                &&& b.inner.features == WasmFeatures { memory64: false, saturating_float_to_int: false }
                &&& b.inner.addressing_model == addressing_model
                &&& b.inner.memory_model == memory_model
                &&& b.inner.capabilities == capabilities
                &&& b.inner.extensions == extensions
                &&& b.inner.memory_grow_error == MemoryGrowErrorKind::Soft
                &&& function_entries(b.inner.functions).len() == 0
            },
    {
        let inner = Config {
            platform,
            features: WasmFeatures::default(),
            addressing_model,
            memory_model,
            functions: new_function_map(),
            capabilities,
            extensions,
            memory_grow_error: MemoryGrowErrorKind::default(),
        };
        Ok(ConfigBuilder { inner })
    }
}

impl ConfigBuilder {
    pub fn set_addressing_model(self, addressing_model: AddressingModel) -> (r: Self)
        ensures
            r.inner == (Config { addressing_model, ..self.inner }),
    {
        let mut this = self;
        this.inner.addressing_model = addressing_model;
        this
    }

    pub fn set_memory_model(self, memory_model: MemoryModel) -> (r: Self)
        ensures
            r.inner == (Config { memory_model, ..self.inner }),
    {
        let mut this = self;
        this.inner.memory_model = memory_model;
        this
    }

    pub fn set_memory_grow_error(self, memory_grow_error: MemoryGrowErrorKind) -> (r: Self)
        ensures
            r.inner == (Config { memory_grow_error, ..self.inner }),
    {
        let mut this = self;
        this.inner.memory_grow_error = memory_grow_error;
        this
    }

    pub fn set_features(self, features: WasmFeatures) -> (r: Self)
        ensures
            r.inner == (Config { features, ..self.inner }),
    {
        let mut this = self;
        this.inner.features = features;
        this
    }

    /// A builder for the configuration of function `f_idx`, which `build`
    /// hands back to this builder.
    pub fn function(self, f_idx: u32) -> (r: FunctionConfigBuilder)
        ensures
            r.config == Some((f_idx, self)),
            r.inner.execution_model is None,
            r.inner.execution_modes@.len() == 0,
            crate::vecmap::parameter_entries(r.inner.params).len() == 0,
    {
        FunctionConfigBuilder { inner: FunctionConfig::default(), config: Some((f_idx, self)) }
    }

    /// Inserts each function configuration in turn, a later one replacing an
    /// earlier one with the same index.
    pub fn append_functions(self, f: Vec<(u32, FunctionConfig)>) -> (r: Self)
        ensures
            function_entries(r.inner.functions) == appended(function_entries(self.inner.functions), f@),
            r.inner.platform == self.inner.platform,
            r.inner.features == self.inner.features,
            r.inner.addressing_model == self.inner.addressing_model,
            r.inner.memory_model == self.inner.memory_model,
            r.inner.capabilities == self.inner.capabilities,
            r.inner.extensions == self.inner.extensions,
            r.inner.memory_grow_error == self.inner.memory_grow_error,
    {
        let mut this = self;
        let mut rest = f;
        let ghost orig = rest@;
        let ghost mut done: int = 0;
        while rest.len() > 0
            invariant
                0 <= done <= orig.len(),
                rest@ == orig.skip(done),
                function_entries(this.inner.functions) == appended(function_entries(self.inner.functions), orig.take(done)),
                this.inner.platform == self.inner.platform,
                this.inner.features == self.inner.features,
                this.inner.addressing_model == self.inner.addressing_model,
                this.inner.memory_model == self.inner.memory_model,
                this.inner.capabilities == self.inner.capabilities,
                this.inner.extensions == self.inner.extensions,
                this.inner.memory_grow_error == self.inner.memory_grow_error,
            decreases rest.len(),
        {
            let (k, v) = rest.remove(0);
            proof {
                assert(orig.take(done + 1).drop_last() =~= orig.take(done));
                assert(orig[done] == (k, v));
                done = done + 1;
                assert(rest@ =~= orig.skip(done));
            }
            let _ = insert_function(&mut this.inner.functions, k, v);
        }
        proof {
            assert(orig.take(done) =~= orig);
        }
        this
    }

    pub fn build(self) -> (r: Config)
        ensures
            r == self.inner,
    {
        self.inner
    }

    pub fn set_memory_grow_error_boxed(self: Box<Self>, memory_grow_error: MemoryGrowErrorKind) -> (r: Box<Self>)
        ensures
            r.inner == (Config { memory_grow_error, ..self.inner }),
    {
        let mut this = self;
        this.inner.memory_grow_error = memory_grow_error;
        this
    }

    pub fn set_features_boxed(self: Box<Self>, features: WasmFeatures) -> (r: Box<Self>)
        ensures
            r.inner == (Config { features, ..self.inner }),
    {
        let mut this = self;
        this.inner.features = features;
        this
    }

    pub fn append_functions_boxed(self: Box<Self>, f: Vec<(u32, FunctionConfig)>) -> (r: Box<Self>)
        ensures
            function_entries(r.inner.functions) == appended(function_entries(self.inner.functions), f@),
            r.inner.platform == self.inner.platform,
            r.inner.capabilities == self.inner.capabilities,
            r.inner.extensions == self.inner.extensions,
            r.inner.memory_grow_error == self.inner.memory_grow_error,
            r.inner.features == self.inner.features,
            r.inner.addressing_model == self.inner.addressing_model,
            r.inner.memory_model == self.inner.memory_model,
    {
        Box::new((*self).append_functions(f))
    }

    pub fn build_boxed(self: Box<Self>) -> (r: Box<Config>)
        ensures
            *r == self.inner,
    {
        Box::new((*self).inner)
    }
}

} // verus!
