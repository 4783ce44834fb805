//! The values that encodings are stated over: each configuration type seen
//! through its contents, with vectors as sequences and maps as their pairs.
use vstd::prelude::*;
use crate::config::{AddressingModel, CapabilityModel, Config, MemoryGrowErrorKind, WasmFeatures};
use crate::function::{ExecutionMode, FunctionConfig, Parameter, ParameterKind};
use crate::spv::{Capability, ExecutionModel, MemoryModel};
use crate::str::Str;
use crate::types::{CompositeType, PointerSize, ScalarType, Type};
use crate::vecmap::{function_entries, parameter_entries};
use crate::version::{TargetPlatform, Version};

verus! {

impl DeepView for Version {
    type V = Version;

    open spec fn deep_view(&self) -> Version {
        *self
    }
}

impl DeepView for TargetPlatform {
    type V = TargetPlatform;

    open spec fn deep_view(&self) -> TargetPlatform {
        *self
    }
}

impl DeepView for WasmFeatures {
    type V = WasmFeatures;

    open spec fn deep_view(&self) -> WasmFeatures {
        *self
    }
}

impl DeepView for AddressingModel {
    type V = AddressingModel;

    open spec fn deep_view(&self) -> AddressingModel {
        *self
    }
}

impl DeepView for MemoryGrowErrorKind {
    type V = MemoryGrowErrorKind;

    open spec fn deep_view(&self) -> MemoryGrowErrorKind {
        *self
    }
}

impl DeepView for ExecutionMode {
    type V = ExecutionMode;

    open spec fn deep_view(&self) -> ExecutionMode {
        *self
    }
}

impl DeepView for ScalarType {
    type V = ScalarType;

    open spec fn deep_view(&self) -> ScalarType {
        *self
    }
}

impl DeepView for CompositeType {
    type V = CompositeType;

    open spec fn deep_view(&self) -> CompositeType {
        *self
    }
}

impl DeepView for PointerSize {
    type V = PointerSize;

    open spec fn deep_view(&self) -> PointerSize {
        *self
    }
}

impl DeepView for Type {
    type V = Type;

    open spec fn deep_view(&self) -> Type {
        *self
    }
}

impl DeepView for ParameterKind {
    type V = ParameterKind;

    open spec fn deep_view(&self) -> ParameterKind {
        *self
    }
}

impl DeepView for Parameter {
    type V = Parameter;

    open spec fn deep_view(&self) -> Parameter {
        *self
    }
}

impl<'a> DeepView for Str<'a> {
    type V = Seq<char>;

    open spec fn deep_view(&self) -> Seq<char> {
        self@
    }
}

/// A capability model seen as its kind and its list.
pub struct CapabilityModelView {
    pub is_static: bool,
    pub capabilities: Seq<Capability>,
}

impl DeepView for CapabilityModel {
    type V = CapabilityModelView;

    open spec fn deep_view(&self) -> CapabilityModelView {
        match self {
            CapabilityModel::Static(x) => CapabilityModelView { is_static: true, capabilities: x@ },
            CapabilityModel::Dynamic(x) => CapabilityModelView { is_static: false, capabilities: x@ },
        }
    }
}

/// A function configuration seen through its contents.
pub struct FunctionConfigView {
    pub execution_model: Option<ExecutionModel>,
    pub execution_modes: Seq<ExecutionMode>,
    pub params: Seq<(u32, Parameter)>,
}

impl DeepView for FunctionConfig {
    type V = FunctionConfigView;

    open spec fn deep_view(&self) -> FunctionConfigView {
        FunctionConfigView {
            execution_model: self.execution_model,
            execution_modes: self.execution_modes@,
            params: parameter_entries(self.params),
        }
    }
}

/// The pairs of a function map, each configuration seen through its contents.
pub open spec fn function_views(s: Seq<(u32, FunctionConfig)>) -> Seq<(u32, FunctionConfigView)> {
    s.map_values(|p: (u32, FunctionConfig)| (p.0, p.1.deep_view()))
}

/// A configuration seen through its contents.
pub struct ConfigView {
    pub platform: TargetPlatform,
    pub features: WasmFeatures,
    pub addressing_model: AddressingModel,
    pub memory_model: MemoryModel,
    pub capabilities: CapabilityModelView,
    pub extensions: Seq<Seq<char>>,
    pub memory_grow_error: MemoryGrowErrorKind,
    pub functions: Seq<(u32, FunctionConfigView)>,
}

impl DeepView for Config {
    type V = ConfigView;

    open spec fn deep_view(&self) -> ConfigView {
        ConfigView {
            platform: self.platform,
            features: self.features,
            addressing_model: self.addressing_model,
            memory_model: self.memory_model,
            capabilities: self.capabilities.deep_view(),
            extensions: self.extensions.deep_view(),
            memory_grow_error: self.memory_grow_error,
            functions: function_views(function_entries(self.functions)),
        }
    }
}

} // verus!
