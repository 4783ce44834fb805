//! Per-function configuration: entry points, execution modes and parameters.
use vstd::prelude::*;
use vector_mapp::vec::VecMap;
use crate::config::ConfigBuilder;
use crate::spv::{
    ExecutionModel, StorageClass, STORAGE_CLASS_FUNCTION, STORAGE_CLASS_INPUT,
    STORAGE_CLASS_OUTPUT,
};
use crate::types::Type;
use crate::vecmap::{
    function_entries, inserted, insert_function, insert_parameter, new_parameter_map,
    parameter_entries,
};

verus! {

/// A SPIR-V execution mode with its operands.
#[derive(Debug, Clone, Copy, PartialEq, Eq, Structural)]
pub enum ExecutionMode {
    Invocations(u32),
    PixelCenterInteger,
    OriginUpperLeft,
    OriginLowerLeft,
    LocalSize(u32, u32, u32),
    LocalSizeHint(u32, u32, u32),
    DepthReplacing,
}

/// Where a function parameter comes from.
#[derive(Debug, Clone, Copy, PartialEq, Eq, Structural)]
pub enum ParameterKind {
    FunctionParameter,
    Input(u32),
    Output(u32),
    DescriptorSet { storage_class: StorageClass, set: u32, binding: u32 },
}

/// The storage class of the variable that holds a parameter of this kind.
pub open spec fn spec_parameter_storage_class(k: ParameterKind) -> StorageClass {
    match k {
        ParameterKind::FunctionParameter => STORAGE_CLASS_FUNCTION,
        ParameterKind::Input(_) => STORAGE_CLASS_INPUT,
        ParameterKind::Output(_) => STORAGE_CLASS_OUTPUT,
        ParameterKind::DescriptorSet { storage_class, .. } => storage_class,
    }
}

impl ParameterKind {
    pub fn default() -> (r: ParameterKind)
        ensures
            r == ParameterKind::FunctionParameter,
    {
        ParameterKind::FunctionParameter
    }

    pub fn storage_class(&self) -> (r: StorageClass)
        ensures
            r == spec_parameter_storage_class(*self),
    {
        match self {
            ParameterKind::FunctionParameter => STORAGE_CLASS_FUNCTION,
            ParameterKind::Input(_) => STORAGE_CLASS_INPUT,
            ParameterKind::Output(_) => STORAGE_CLASS_OUTPUT,
            ParameterKind::DescriptorSet { storage_class, .. } => *storage_class,
        }
    }
}

/// The configuration of one function parameter: an optional type that
/// replaces the WebAssembly one, and where the parameter comes from.
#[derive(Debug, Clone)]
pub struct Parameter {
    pub ty: Option<Type>,
    pub kind: ParameterKind,
}

impl Parameter {
    pub fn new(ty: Option<Type>, kind: ParameterKind) -> (r: Self)
        ensures
            r.ty == ty,
            r.kind == kind,
    {
        Self { ty, kind }
    }

    pub fn default() -> (r: Self)
        ensures
            r.ty is None,
            r.kind == ParameterKind::FunctionParameter,
    {
        Self { ty: None, kind: ParameterKind::FunctionParameter }
    }
}

/// The configuration of one function.
#[derive(Debug, Clone)]
pub struct FunctionConfig {
    pub execution_model: Option<ExecutionModel>,
    pub execution_modes: Vec<ExecutionMode>,
    pub params: VecMap<u32, Parameter>,
}

impl FunctionConfig {
    pub fn default() -> (r: Self)
        ensures
            r.execution_model is None,
            r.execution_modes@ == Seq::<ExecutionMode>::empty(),
            parameter_entries(r.params) == Seq::<(u32, Parameter)>::empty(),
    {
        Self { execution_model: None, execution_modes: Vec::new(), params: new_parameter_map() }
    }
}

/// A sum of two values.
pub enum Either<L, R> {
    Left(L),
    Right(R),
}

/// Builds a function configuration, either on its own or as part of a
/// configuration builder that it returns to.
#[derive(Debug, Clone)]
pub struct FunctionConfigBuilder {
    pub inner: FunctionConfig,
    pub config: Option<(u32, ConfigBuilder)>,
}

/// Builds a parameter configuration and returns to its function builder.
pub struct ParameterBuilder {
    pub inner: Parameter,
    pub idx: u32,
    pub function: FunctionConfigBuilder,
}

impl FunctionConfigBuilder {
    /// A builder that belongs to no configuration builder.
    pub fn __new() -> (r: Self)
        ensures
            r.config is None,
            r.inner.execution_model is None,
            r.inner.execution_modes@.len() == 0,
            parameter_entries(r.inner.params).len() == 0,
    {
        Self { inner: FunctionConfig::default(), config: None }
    }

    pub fn param(self, idx: u32) -> (r: ParameterBuilder)
        ensures
            r.idx == idx,
            r.function == self,
            r.inner.ty is None,
            r.inner.kind == ParameterKind::FunctionParameter,
    {
        ParameterBuilder { inner: Parameter::default(), function: self, idx }
    }

    pub fn add_exec_mode(self, exec_mode: ExecutionMode) -> (r: Self)
        ensures
            r.config == self.config,
            r.inner.execution_model == self.inner.execution_model,
            r.inner.params == self.inner.params,
            r.inner.execution_modes@ == self.inner.execution_modes@.push(exec_mode),
    {
        let mut this = self;
        this.inner.execution_modes.push(exec_mode);
        this
    }

    pub fn set_entry_point(self, exec_model: ExecutionModel) -> (r: Self)
        ensures
            r.config == self.config,
            r.inner.execution_model == Some(exec_model),
            r.inner.execution_modes == self.inner.execution_modes,
            r.inner.params == self.inner.params,
    {
        let mut this = self;
        this.inner.execution_model = Some(exec_model);
        this
    }

    /// Hands the function configuration to the configuration builder that
    /// this builder came from, under its function index.
    pub fn build(self) -> (r: ConfigBuilder)
        requires
            self.config is Some,
        ensures
            ({
                let (idx, config) = self.config.unwrap();
                &&& function_entries(r.inner.functions) == inserted(
                    function_entries(config.inner.functions),
                    idx,
                    self.inner,
                )
                &&& r.inner.platform == config.inner.platform
                &&& r.inner.features == config.inner.features
                &&& r.inner.addressing_model == config.inner.addressing_model
                &&& r.inner.memory_model == config.inner.memory_model
                &&& r.inner.capabilities == config.inner.capabilities
                &&& r.inner.extensions == config.inner.extensions
                &&& r.inner.memory_grow_error == config.inner.memory_grow_error
            }),
    {
        match self.__build() {
            Either::Left(config) => config,
            Either::Right(_) => vstd::pervasive::unreached(),
        }
    }

    /// The configuration builder with this function added, or the function
    /// configuration itself where the builder belongs to none.
    pub fn __build(self) -> (r: Either<ConfigBuilder, FunctionConfig>)
        ensures
            match (r, self.config) {
                (Either::Left(b), Some((idx, config))) => {
                    &&& function_entries(b.inner.functions) == inserted(
                        function_entries(config.inner.functions),
                        idx,
                        self.inner,
                    )
                    &&& b.inner.platform == config.inner.platform
                    &&& b.inner.features == config.inner.features
                    &&& b.inner.addressing_model == config.inner.addressing_model
                    &&& b.inner.memory_model == config.inner.memory_model
                    &&& b.inner.capabilities == config.inner.capabilities
                    &&& b.inner.extensions == config.inner.extensions
                    &&& b.inner.memory_grow_error == config.inner.memory_grow_error
                },
                (Either::Right(f), None) => f == self.inner,
                _ => false,
            },
    {
        match self.config {
            Some((idx, config)) => {
                let mut config = config;
                let _ = insert_function(&mut config.inner.functions, idx, self.inner);
                Either::Left(config)
            },
            None => Either::Right(self.inner),
        }
    }
}

impl ParameterBuilder {
    pub fn set_type(self, ty: Type) -> (r: Result<Self, crate::error::Error>)
        ensures
            r matches Ok(b) && b.inner.ty == Some(ty) && b.inner.kind == self.inner.kind
                && b.idx == self.idx && b.function == self.function,
    {
        let mut this = self;
        this.inner.ty = Some(ty);
        Ok(this)
    }

    pub fn set_kind(self, kind: ParameterKind) -> (r: Result<Self, crate::error::Error>)
        ensures
            r matches Ok(b) && b.inner.kind == kind && b.inner.ty == self.inner.ty
                && b.idx == self.idx && b.function == self.function,
    {
        let mut this = self;
        this.inner.kind = kind;
        Ok(this)
    }

    pub fn build(self) -> (r: FunctionConfigBuilder)
        ensures
            parameter_entries(r.inner.params) == inserted(
                parameter_entries(self.function.inner.params),
                self.idx,
                self.inner,
            ),
            r.inner.execution_model == self.function.inner.execution_model,
            r.inner.execution_modes == self.function.inner.execution_modes,
            r.config == self.function.config,
    {
        let mut function = self.function;
        let _ = insert_parameter(&mut function.inner.params, self.idx, self.inner);
        function
    }
}

} // verus!
