//! A WebAssembly module, as its sections give it, built into the parts of
//! a SPIR-V module: the built-ins it imports, its functions, its globals
//! and the translation of each function body.
use vstd::prelude::*;
use crate::block::Operator;
use crate::config::Config;
use crate::error::Error;
use crate::function::FunctionConfig;
use crate::function_builder::{built_function, is_variable, new_allowed, FunctionBuilder};
use crate::import::{builtin_of_name, builtin_shape, is_builtin_function, translate_spir_global, ImportType};
use crate::module::{
    is_defined_global, spec_global_init, spec_spirv_addressing_model, CallableFunction, ModuleBuilder,
};
use crate::types::{type_clone, ScalarType, Type};
use crate::vecmap::{function_entries, get_function, lookup, parameter_entries};
use crate::version::spec_spirv_version;

verus! {

/// A WebAssembly module as its sections give it.
pub struct WasmModule {
    /// Whether its memory uses 64-bit addresses.
    pub memory64: bool,
    /// The function types: parameter types and result types.
    pub types: Vec<(Vec<ScalarType>, Vec<ScalarType>)>,
    /// The imports: the module imported from, the name, and what it is.
    pub imports: Vec<(String, String, ImportType)>,
    /// The globals it defines: whether each is mutable, its type, and the
    /// constant instruction that initialises it.
    pub globals: Vec<(bool, Type, Operator)>,
    /// The functions it defines, by the index of each one's type.
    pub functions: Vec<u32>,
    /// The exported functions: the name and the function's index.
    pub exports: Vec<(String, u32)>,
    /// The bodies of the functions it defines, in order: the local groups
    /// (a count and a type each) and the instructions.
    pub bodies: Vec<(Vec<(u32, ScalarType)>, Vec<Operator>)>,
}

/// The number of function bodies that are translated: one for each defined
/// function that has a body.
pub open spec fn body_count(wasm: WasmModule) -> int {
    if wasm.bodies@.len() < wasm.functions@.len() {
        wasm.bodies@.len() as int
    } else {
        wasm.functions@.len() as int
    }
}

/// The index among all functions of the `k`-th defined function: the
/// imported ones come first.
pub open spec fn body_id(wasm: WasmModule, k: int) -> u32 {
    (wasm.imports@.len() + k) as u32
}

/// The parameter and result types of the `k`-th defined function.
pub open spec fn type_of_function(wasm: WasmModule, k: int) -> (Seq<ScalarType>, Seq<ScalarType>) {
    let t = wasm.functions@[k] as int;
    (wasm.types@[t].0@, wasm.types@[t].1@)
}

/// The name under which the function of index `i` is first exported among
/// `exports[j..]`.
pub open spec fn export_name(exports: Seq<(String, u32)>, i: u32, j: int) -> Option<Seq<char>>
    decreases exports.len() - j,
{
    if j < 0 || j >= exports.len() {
        None
    } else if exports[j].1 == i {
        Some(exports[j].0@)
    } else {
        export_name(exports, i, j + 1)
    }
}

/// Whether `export` names the function of index `i` as the module first
/// exports it.
pub open spec fn export_for(export: Option<String>, wasm: WasmModule, i: u32) -> bool {
    match (export, export_name(wasm.exports@, i, 0)) {
        (None, None) => true,
        (Some(s), Some(n)) => s@ == n,
        _ => false,
    }
}

/// Whether `fc` is the configuration of the function of index `i`: the
/// one that `config` gives it, or the default one.
pub open spec fn config_for(fc: FunctionConfig, config: Config, i: u32) -> bool {
    match lookup(function_entries(config.functions), i) {
        Some(c) => fc == c,
        None => fc.execution_model is None && fc.execution_modes@ == Seq::<crate::function::ExecutionMode>::empty()
            && parameter_entries(fc.params) == Seq::<(u32, crate::function::Parameter)>::empty(),
    }
}

/// Whether every import is a built-in of `spir_global`, the only imports
/// that are translated.
pub open spec fn imports_supported(wasm: WasmModule) -> bool {
    forall|j: int|
        0 <= j < wasm.imports@.len() ==> (#[trigger] wasm.imports@[j]).0@ == "spir_global"@ && builtin_of_name(
            wasm.imports@[j].1@,
        ) is Some
}

/// Whether every import is imported as a function.
pub open spec fn imports_are_functions(wasm: WasmModule) -> bool {
    forall|j: int| 0 <= j < wasm.imports@.len() ==> (#[trigger] wasm.imports@[j]).2 is Function
}

/// Whether every defined function's type index names a type.
pub open spec fn types_valid(wasm: WasmModule) -> bool {
    forall|k: int| 0 <= k < wasm.functions@.len() ==> (#[trigger] wasm.functions@[k]) < wasm.types@.len()
}

/// Whether the first `n` globals have initial values.
pub open spec fn globals_ok_until(wasm: WasmModule, n: int, am: u32, memory64: bool) -> bool {
    forall|k: int|
        0 <= k < n ==> spec_global_init((#[trigger] wasm.globals@[k]).2, wasm.globals@[k].1, am, memory64) is Ok
}

/// Whether `m` has the settings that `config` gives a module whose memory
/// is 64-bit when `memory64` holds.
pub open spec fn module_settings(m: ModuleBuilder, config: Config, memory64: bool) -> bool {
    &&& spec_spirv_addressing_model(config.addressing_model, memory64) == Some(m.addressing_model)
    &&& m.platform == config.platform
    &&& m.version == spec_spirv_version(config.platform)
    &&& m.wasm_memory64 == memory64
    &&& m.extensions@ == config.extensions@
    &&& m.memory_model == config.memory_model
    &&& m.memory_grow_error == config.memory_grow_error
    &&& m.extended_is@ == (if config.platform is Vulkan {
        seq![crate::extended_is::ExtendedIs { kind: crate::extended_is::ExtendedSet::GLSL450 }]
    } else {
        Seq::<crate::extended_is::ExtendedIs>::empty()
    })
}

/// Whether `f` is the `k`-th defined function: its index, its type, and no
/// built-in.
pub open spec fn is_defined_function(f: CallableFunction, wasm: WasmModule, k: int) -> bool {
    &&& f.function_id == body_id(wasm, k)
    &&& f.params@ == type_of_function(wasm, k).0
    &&& f.results@ == type_of_function(wasm, k).1
    &&& f.builtin is None
}

/// Whether `m` holds the imported built-ins, with their variables, and
/// then the defined functions.
pub open spec fn functions_made(m: ModuleBuilder, wasm: WasmModule) -> bool {
    let n = wasm.imports@.len();
    &&& m.hidden_global_variables@.len() == n
    &&& m.functions@.len() == n + wasm.functions@.len()
    &&& forall|j: int|
        0 <= j < n ==> {
            let (output, b) = builtin_of_name((#[trigger] wasm.imports@[j]).1@).unwrap();
            &&& is_variable(*m.hidden_global_variables@[j], builtin_shape(output, b))
            &&& is_builtin_function(m.functions@[j], output, b, m.hidden_global_variables@[j])
        }
    &&& forall|k: int| 0 <= k < wasm.functions@.len() ==> is_defined_function(#[trigger] m.functions@[n + k], wasm, k)
}

/// Whether `m` holds the globals of the module, each with its initial
/// value.
pub open spec fn globals_made(m: ModuleBuilder, wasm: WasmModule) -> bool {
    &&& m.global_variables@.len() == wasm.globals@.len()
    &&& forall|k: int|
        0 <= k < wasm.globals@.len() ==> match spec_global_init(
            (#[trigger] wasm.globals@[k]).2,
            wasm.globals@[k].1,
            m.addressing_model,
            m.wasm_memory64,
        ) {
            Ok(v) => is_defined_global(m.global_variables@[k], m.platform, wasm.globals@[k].0, wasm.globals@[k].1, v),
            Err(_) => false,
        }
}

/// Whether `m` is the module set up from `config` and `wasm` before any
/// function body is translated, whatever its capabilities.
pub open spec fn module_set_up(m: ModuleBuilder, config: Config, wasm: WasmModule) -> bool {
    &&& module_settings(m, config, wasm.memory64)
    &&& functions_made(m, wasm)
    &&& globals_made(m, wasm)
}

/// Whether every function body can be translated: with the configuration
/// and export of its function, in any module set up from `config` and
/// `wasm`, whatever its capabilities.
pub open spec fn bodies_translatable(config: Config, wasm: WasmModule) -> bool {
    forall|k: int, m: ModuleBuilder, fc: FunctionConfig, export: Option<String>|
        #![trigger module_set_up(m, config, wasm), config_for(fc, config, body_id(wasm, k)), export_for(export, wasm, body_id(wasm, k))]
        0 <= k < body_count(wasm) && module_set_up(m, config, wasm) && config_for(fc, config, body_id(wasm, k))
            && export_for(export, wasm, body_id(wasm, k)) ==> new_allowed(
            body_id(wasm, k),
            export,
            fc,
            type_of_function(wasm, k).0,
            type_of_function(wasm, k).1,
            wasm.bodies@[k].0@,
            wasm.bodies@[k].1@,
            m,
        )
}

/// Whether `r` is what building the `k`-th function body gives, the module
/// being `before` and then `after`.
pub open spec fn step_built(
    r: Result<FunctionBuilder, Error>,
    k: int,
    config: Config,
    wasm: WasmModule,
    before: ModuleBuilder,
    after: ModuleBuilder,
) -> bool {
    exists|fc: FunctionConfig, export: Option<String>|
        #![trigger config_for(fc, config, body_id(wasm, k)), export_for(export, wasm, body_id(wasm, k))]
        config_for(fc, config, body_id(wasm, k)) && export_for(export, wasm, body_id(wasm, k)) && built_function(
            r,
            body_id(wasm, k),
            export,
            fc,
            type_of_function(wasm, k).0,
            type_of_function(wasm, k).1,
            wasm.bodies@[k].0@,
            wasm.bodies@[k].1@,
            before,
            after,
        )
}

/// Whether the functions `fs` are the first function bodies built in turn,
/// the module going through `mods`, from the module set up with the
/// configured capabilities.
pub open spec fn built_chain(config: Config, wasm: WasmModule, mods: Seq<ModuleBuilder>, fs: Seq<FunctionBuilder>) -> bool {
    &&& mods.len() == fs.len() + 1
    &&& fs.len() <= body_count(wasm)
    &&& module_set_up(mods[0], config, wasm)
    &&& mods[0].capabilities == config.capabilities
    &&& forall|k: int| 0 <= k < fs.len() ==> step_built(Ok(#[trigger] fs[k]), k, config, wasm, mods[k], mods[k + 1])
}

/// Whether `m`, `hidden` and `functions` hold the first `j` imported
/// built-ins.
pub open spec fn imports_made_until(m: ModuleBuilder, wasm: WasmModule, j: int) -> bool {
    &&& m.hidden_global_variables@.len() == j
    &&& m.functions@.len() == j
    &&& forall|i: int|
        0 <= i < j ==> {
            let (output, b) = builtin_of_name((#[trigger] wasm.imports@[i]).1@).unwrap();
            &&& is_variable(*m.hidden_global_variables@[i], builtin_shape(output, b))
            &&& is_builtin_function(m.functions@[i], output, b, m.hidden_global_variables@[i])
        }
}

/// Whether the set-up steps before the function bodies all succeed: the
/// addressing model is valid, every import is a function, every type index
/// names a type and every global has an initial value.
pub open spec fn set_up_succeeds(config: Config, wasm: WasmModule) -> bool {
    match spec_spirv_addressing_model(config.addressing_model, wasm.memory64) {
        Some(am) => imports_are_functions(wasm) && types_valid(wasm) && globals_ok_until(
            wasm,
            wasm.globals@.len() as int,
            am,
            wasm.memory64,
        ),
        None => false,
    }
}

/// The types `v`, copied.
fn copy_types(v: &Vec<ScalarType>) -> (r: Vec<ScalarType>)
    ensures
        r@ == v@,
{
    let mut r: Vec<ScalarType> = Vec::new();
    let mut i: usize = 0;
    while i < v.len()
        invariant
            i <= v.len(),
            r@ == v@.take(i as int),
        decreases v.len() - i,
    {
        r.push(v[i]);
        i = i + 1;
        assert(r@ =~= v@.take(i as int));
    }
    assert(v@.take(v@.len() as int) =~= v@);
    r
}

/// The name under which the function of index `i` is first exported.
fn find_export(exports: &Vec<(String, u32)>, i: u32) -> (r: Option<String>)
    ensures
        match r {
            None => export_name(exports@, i, 0) is None,
            Some(s) => export_name(exports@, i, 0) == Some(s@),
        },
{
    let mut j: usize = 0;
    while j < exports.len()
        invariant
            j <= exports.len(),
            export_name(exports@, i, 0) == export_name(exports@, i, j as int),
        decreases exports.len() - j,
    {
        if exports[j].1 == i {
            return Some(exports[j].0.clone());
        }
        j = j + 1;
    }
    None
}

/// Builds the module that `config` and `wasm` give: the settings, then the
/// built-ins that it imports and the functions that it defines, then its
/// globals in order, then each function body in turn, translated with its
/// function's configuration and export. Fails at the first step that
/// fails: an invalid addressing model, a built-in imported as anything but
/// a function, a type index that names no type, a global without an
/// initial value, or a function body that cannot be translated.
pub fn build_module(config: Config, wasm: &WasmModule) -> (r: Result<(ModuleBuilder, Vec<FunctionBuilder>), Error>)
    requires
        wasm.imports@.len() + wasm.functions@.len() <= u32::MAX,
        imports_supported(*wasm),
        bodies_translatable(config, *wasm),
    ensures
        spec_spirv_addressing_model(config.addressing_model, wasm.memory64) is None ==> r == Err::<
            (ModuleBuilder, Vec<FunctionBuilder>),
            Error,
        >(Error::InvalidAddressingModel),
        spec_spirv_addressing_model(config.addressing_model, wasm.memory64) is Some && !imports_are_functions(*wasm)
            ==> r == Err::<(ModuleBuilder, Vec<FunctionBuilder>), Error>(Error::Unexpected),
        spec_spirv_addressing_model(config.addressing_model, wasm.memory64) is Some && imports_are_functions(*wasm)
            && !types_valid(*wasm) ==> r == Err::<(ModuleBuilder, Vec<FunctionBuilder>), Error>(Error::Unexpected),
        forall|k: int|
            #![trigger wasm.globals@[k]]
            spec_spirv_addressing_model(config.addressing_model, wasm.memory64) is Some && imports_are_functions(*wasm)
                && types_valid(*wasm) && 0 <= k < wasm.globals@.len() && globals_ok_until(
                *wasm,
                k,
                spec_spirv_addressing_model(config.addressing_model, wasm.memory64).unwrap(),
                wasm.memory64,
            ) && spec_global_init(
                wasm.globals@[k].2,
                wasm.globals@[k].1,
                spec_spirv_addressing_model(config.addressing_model, wasm.memory64).unwrap(),
                wasm.memory64,
            ) is Err ==> r == Err::<(ModuleBuilder, Vec<FunctionBuilder>), Error>(
                spec_global_init(
                    wasm.globals@[k].2,
                    wasm.globals@[k].1,
                    spec_spirv_addressing_model(config.addressing_model, wasm.memory64).unwrap(),
                    wasm.memory64,
                )->Err_0,
            ),
        match r {
            Ok((m, fs)) => set_up_succeeds(config, *wasm) && fs@.len() == body_count(*wasm) && exists|
                mods: Seq<ModuleBuilder>,
            | #[trigger] built_chain(config, *wasm, mods, fs@) && mods.last() == m,
            Err(e) => set_up_succeeds(config, *wasm) ==> exists|
                mods: Seq<ModuleBuilder>,
                fs: Seq<FunctionBuilder>,
                after: ModuleBuilder,
            |
                #![trigger built_chain(config, *wasm, mods, fs), step_built(Err(e), fs.len() as int, config, *wasm, mods.last(), after)]
                built_chain(config, *wasm, mods, fs) && fs.len() < body_count(*wasm) && step_built(
                    Err(e),
                    fs.len() as int,
                    config,
                    *wasm,
                    mods.last(),
                    after,
                ),
        },
{
    let ghost config0 = config;
    let functions_map = config.functions;
    let module_config = Config { functions: crate::vecmap::new_function_map(), ..config };
    let mut module = match ModuleBuilder::new(module_config, wasm.memory64) {
        Ok(m) => m,
        Err(e) => return Err(e),
    };
    let ghost am = module.addressing_model;
    let m64 = wasm.memory64;
    // The built-ins that the module imports.
    let n = wasm.imports.len();
    let mut j: usize = 0;
    while j < n
        invariant
            j <= n == wasm.imports@.len(),
            n + wasm.functions@.len() <= u32::MAX,
            imports_supported(*wasm),
            module_settings(module, config0, m64),
            config0 == config,
            m64 == wasm.memory64,
            module.capabilities == config0.capabilities,
            module.global_variables@.len() == 0,
            imports_made_until(module, *wasm, j as int),
            forall|i: int| 0 <= i < j ==> (#[trigger] wasm.imports@[i]).2 is Function,
        decreases n - j,
    {
        let import = &wasm.imports[j];
        assert(wasm.imports@[j as int] == *import);
        match translate_spir_global(import.1.as_str(), import.2, &mut module) {
            Ok(Some(f)) => {
                module.functions.push(f);
            },
            Ok(None) => {
                assert(builtin_of_name(wasm.imports@[j as int].1@) is Some);
                return Err(Error::Unexpected);
            },
            Err(e) => {
                assert(!(wasm.imports@[j as int].2 is Function));
                return Err(e);
            },
        }
        j = j + 1;
    }
    // The functions that it defines.
    let mut k: usize = 0;
    while k < wasm.functions.len()
        invariant
            k <= wasm.functions@.len(),
            n == wasm.imports@.len(),
            n + wasm.functions@.len() <= u32::MAX,
            imports_supported(*wasm),
            imports_are_functions(*wasm),
            module_settings(module, config0, m64),
            config0 == config,
            m64 == wasm.memory64,
            module.capabilities == config0.capabilities,
            module.global_variables@.len() == 0,
            module.hidden_global_variables@.len() == n,
            module.functions@.len() == n + k,
            forall|i: int|
                0 <= i < n ==> {
                    let (output, b) = builtin_of_name((#[trigger] wasm.imports@[i]).1@).unwrap();
                    &&& is_variable(*module.hidden_global_variables@[i], builtin_shape(output, b))
                    &&& is_builtin_function(module.functions@[i], output, b, module.hidden_global_variables@[i])
                },
            forall|i: int| 0 <= i < k ==> (#[trigger] wasm.functions@[i]) < wasm.types@.len(),
            forall|i: int| 0 <= i < k ==> is_defined_function(#[trigger] module.functions@[n + i], *wasm, i),
        decreases wasm.functions@.len() - k,
    {
        let t = wasm.functions[k];
        if t as usize >= wasm.types.len() {
            assert(!((wasm.functions@[k as int]) < wasm.types@.len()));
            return Err(Error::Unexpected);
        }
        let params = copy_types(&wasm.types[t as usize].0);
        let results = copy_types(&wasm.types[t as usize].1);
        let f = CallableFunction { function_id: (n + k) as u32, params, results, builtin: None };
        assert(is_defined_function(f, *wasm, k as int));
        module.functions.push(f);
        assert(module.functions@[n + k] == f);
        k = k + 1;
    }
    assert(functions_made(module, *wasm));
    // The globals that it defines.
    let mut g: usize = 0;
    while g < wasm.globals.len()
        invariant
            g <= wasm.globals@.len(),
            module_settings(module, config0, m64),
            config0 == config,
            m64 == wasm.memory64,
            am == module.addressing_model,
            module.capabilities == config0.capabilities,
            functions_made(module, *wasm),
            module.global_variables@.len() == g,
            globals_ok_until(*wasm, g as int, am, m64),
            imports_are_functions(*wasm),
            types_valid(*wasm),
            forall|i: int|
                0 <= i < g ==> match spec_global_init(
                    (#[trigger] wasm.globals@[i]).2,
                    wasm.globals@[i].1,
                    module.addressing_model,
                    module.wasm_memory64,
                ) {
                    Ok(v) => is_defined_global(module.global_variables@[i], module.platform, wasm.globals@[i].0, wasm.globals@[i].1, v),
                    Err(_) => false,
                },
        decreases wasm.globals@.len() - g,
    {
        let global = &wasm.globals[g];
        assert(wasm.globals@[g as int] == *global);
        match module.define_global(global.0, type_clone(&global.1), &global.2) {
            Ok(()) => {},
            Err(e) => return Err(e),
        }
        g = g + 1;
    }
    assert(module_set_up(module, config0, *wasm));
    // The function bodies, in turn.
    let count = if wasm.bodies.len() < wasm.functions.len() {
        wasm.bodies.len()
    } else {
        wasm.functions.len()
    };
    let mut fs: Vec<FunctionBuilder> = Vec::new();
    let ghost mut mods: Seq<ModuleBuilder> = seq![module];
    let mut b: usize = 0;
    while b < count
        invariant
            b <= count == body_count(*wasm),
            n == wasm.imports@.len(),
            n + wasm.functions@.len() <= u32::MAX,
            functions_map == config0.functions,
            config0 == config,
            set_up_succeeds(config0, *wasm),
            bodies_translatable(config0, *wasm),
            module_set_up(module, config0, *wasm),
            built_chain(config0, *wasm, mods, fs@),
            fs@.len() == b,
            mods.last() == module,
        decreases count - b,
    {
        let id = (n + b) as u32;
        assert(id == body_id(*wasm, b as int));
        assert(is_defined_function(module.functions@[n + b], *wasm, b as int));
        let params = copy_types(&module.functions[id as usize].params);
        let results = copy_types(&module.functions[id as usize].results);
        let default_config = FunctionConfig::default();
        let fc = match get_function(&functions_map, id) {
            Some(c) => c,
            None => &default_config,
        };
        let export = find_export(&wasm.exports, id);
        let ghost export_g = export;
        assert(config_for(*fc, config0, id));
        assert(export_for(export, *wasm, id));
        let body = &wasm.bodies[b];
        assert(wasm.bodies@[b as int] == *body);
        let ghost before = module;
        let res = FunctionBuilder::new(id, export, fc, &params, &results, &body.0, &body.1, &mut module);
        assert(step_built(res, b as int, config0, *wasm, before, module));
        match res {
            Ok(f) => {
                let ghost fs0 = fs@;
                let ghost mods0 = mods;
                proof {
                    mods = mods.push(module);
                }
                fs.push(f);
                assert(built_chain(config0, *wasm, mods, fs@)) by {
                    assert forall|i: int| 0 <= i < fs@.len() implies step_built(
                        Ok(#[trigger] fs@[i]),
                        i,
                        config0,
                        *wasm,
                        mods[i],
                        mods[i + 1],
                    ) by {
                        if i < b {
                            assert(fs@[i] == fs0[i]);
                            assert(mods[i] == mods0[i] && mods[i + 1] == mods0[i + 1]);
                        } else {
                            assert(fs@[i] == f);
                        }
                    }
                }
            },
            Err(e) => {
                assert(built_chain(config0, *wasm, mods, fs@));
                return Err(e);
            },
        }
        b = b + 1;
    }
    Ok((module, fs))
}

} // verus!
