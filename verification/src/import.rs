//! The built-ins that a module imports from `spir_global`: each becomes a
//! function whose calls read or write a built-in variable.
use vstd::prelude::*;
use vstd::string::StringExecFns;
use std::rc::Rc;
use crate::decorator::VariableDecorator;
use crate::error::Error;
use crate::function_builder::{is_variable, VariableShape};
use crate::module::{Builtin, CallableFunction, ModuleBuilder};
use crate::spv::{
    BuiltIn, BUILTIN_FRAG_DEPTH, BUILTIN_GLOBAL_INVOCATION_ID, BUILTIN_LOCAL_INVOCATION_ID, BUILTIN_NUM_WORKGROUPS,
    BUILTIN_WORKGROUP_ID, BUILTIN_WORKGROUP_SIZE, STORAGE_CLASS_INPUT, STORAGE_CLASS_OUTPUT,
};
use crate::types::{CompositeType, PointerSize, ScalarType, Type};
use crate::values::pointer::Pointer;

verus! {

/// What an import of a module is: a function of the type with the given
/// index, or anything else (a table, a memory, a global or a tag).
#[derive(Debug, Clone, Copy, PartialEq, Eq, Structural)]
pub enum ImportType {
    Function(u32),
    Other,
}

/// The built-in that an import from `spir_global` named `name` stands
/// for: whether it is an output (else an input vector of three integers),
/// and the built-in.
pub open spec fn builtin_of_name(name: Seq<char>) -> Option<(bool, BuiltIn)> {
    if name == "gl_FragDepth"@ {
        Some((true, BUILTIN_FRAG_DEPTH))
    } else if name == "gl_NumWorkGroups"@ {
        Some((false, BUILTIN_NUM_WORKGROUPS))
    } else if name == "gl_WorkGroupID"@ {
        Some((false, BUILTIN_WORKGROUP_ID))
    } else if name == "gl_WorkGroupSize"@ {
        Some((false, BUILTIN_WORKGROUP_SIZE))
    } else if name == "gl_LocalInvocationID"@ {
        Some((false, BUILTIN_LOCAL_INVOCATION_ID))
    } else if name == "gl_GlobalInvocationID"@ {
        Some((false, BUILTIN_GLOBAL_INVOCATION_ID))
    } else {
        None
    }
}

/// The shape of the variable of a built-in: an output 32-bit float, or an
/// input vector of three 32-bit integers, decorated as the built-in.
pub open spec fn builtin_shape(output: bool, b: BuiltIn) -> VariableShape {
    VariableShape {
        size: PointerSize::Skinny,
        storage_class: if output { STORAGE_CLASS_OUTPUT } else { STORAGE_CLASS_INPUT },
        ty: if output {
            Type::Scalar(ScalarType::F32)
        } else {
            Type::Composite(CompositeType::Vector(ScalarType::I32, 3))
        },
        decorators: seq![VariableDecorator::BuiltIn(b)],
    }
}

/// Whether `f` is the function that an import of the built-in `b` gives,
/// writing (`output`) or reading the variable `variable`.
pub open spec fn is_builtin_function(f: CallableFunction, output: bool, b: BuiltIn, variable: Rc<Pointer>) -> bool {
    &&& f.builtin == Some(
        if output {
            Builtin::Output { variable, builtin: b }
        } else {
            Builtin::Uint3Input { variable, builtin: b }
        },
    )
    &&& f.params@ == seq![if output { ScalarType::F32 } else { ScalarType::I32 }]
    &&& f.results@ == (if output { Seq::<ScalarType>::empty() } else { seq![ScalarType::I32] })
}

/// Whether `other` differs from `m` in the variables of its imported
/// built-ins at most.
pub open spec fn same_but_hidden(m: ModuleBuilder, other: ModuleBuilder) -> bool {
    &&& m.platform == other.platform
    &&& m.version == other.version
    &&& m.extended_is@ == other.extended_is@
    &&& m.capabilities == other.capabilities
    &&& m.extensions@ == other.extensions@
    &&& m.addressing_model == other.addressing_model
    &&& m.memory_model == other.memory_model
    &&& m.memory_grow_error == other.memory_grow_error
    &&& m.wasm_memory64 == other.wasm_memory64
    &&& m.functions@ == other.functions@
    &&& m.global_variables@ == other.global_variables@
}

/// Whether `name` is `lit`.
fn name_is(name: &str, lit: &str) -> (r: bool)
    ensures
        r == (name@ == lit@),
{
    let a = name.to_owned();
    let b = <String as StringExecFns>::from_str(lit);
    a == b
}

/// Translates an import from `spir_global` named `name` of type `ty`: a
/// name of no built-in gives nothing; a built-in imported as anything but a
/// function is an error; otherwise the built-in's variable is made, kept
/// among the module's hidden variables, and the function that reads or
/// writes it is given.
pub fn translate_spir_global(name: &str, ty: ImportType, module: &mut ModuleBuilder) -> (r: Result<Option<CallableFunction>, Error>)
    ensures
        match builtin_of_name(name@) {
            None => r == Ok::<Option<CallableFunction>, Error>(None) && *final(module) == *old(module),
            Some((output, b)) => if ty is Function {
                r matches Ok(Some(f)) && final(module).hidden_global_variables@.len() == old(module).hidden_global_variables@.len() + 1
                    && final(module).hidden_global_variables@.drop_last() == old(module).hidden_global_variables@
                    && is_variable(*final(module).hidden_global_variables@.last(), builtin_shape(output, b))
                    && is_builtin_function(f, output, b, final(module).hidden_global_variables@.last())
                    && same_but_hidden(*final(module), *old(module))
            } else {
                r == Err::<Option<CallableFunction>, Error>(Error::Unexpected) && *final(module) == *old(module)
            },
        },
{
    let (output, b) = if name_is(name, "gl_FragDepth") {
        (true, BUILTIN_FRAG_DEPTH)
    } else if name_is(name, "gl_NumWorkGroups") {
        (false, BUILTIN_NUM_WORKGROUPS)
    } else if name_is(name, "gl_WorkGroupID") {
        (false, BUILTIN_WORKGROUP_ID)
    } else if name_is(name, "gl_WorkGroupSize") {
        (false, BUILTIN_WORKGROUP_SIZE)
    } else if name_is(name, "gl_LocalInvocationID") {
        (false, BUILTIN_LOCAL_INVOCATION_ID)
    } else if name_is(name, "gl_GlobalInvocationID") {
        (false, BUILTIN_GLOBAL_INVOCATION_ID)
    } else {
        return Ok(None);
    };
    match ty {
        ImportType::Function(_) => {},
        ImportType::Other => return Err(Error::Unexpected),
    }
    let mut decorators: Vec<VariableDecorator> = Vec::new();
    decorators.push(VariableDecorator::BuiltIn(b));
    let (storage_class, pointee) = if output {
        (STORAGE_CLASS_OUTPUT, Type::Scalar(ScalarType::F32))
    } else {
        (STORAGE_CLASS_INPUT, Type::Composite(CompositeType::Vector(ScalarType::I32, 3)))
    };
    let variable = Rc::new(Pointer::new_variable(PointerSize::Skinny, storage_class, pointee, None, Rc::new(decorators)));
    assert(decorators@ =~= seq![VariableDecorator::BuiltIn(b)]);
    module.hidden_global_variables.push(variable.clone());
    let mut params: Vec<ScalarType> = Vec::new();
    let mut results: Vec<ScalarType> = Vec::new();
    let builtin = if output {
        params.push(ScalarType::F32);
        Builtin::Output { variable, builtin: b }
    } else {
        params.push(ScalarType::I32);
        results.push(ScalarType::I32);
        Builtin::Uint3Input { variable, builtin: b }
    };
    assert(params@ =~= seq![if output { ScalarType::F32 } else { ScalarType::I32 }]);
    assert(results@ =~= (if output { Seq::<ScalarType>::empty() } else { seq![ScalarType::I32] }));
    Ok(Some(CallableFunction { function_id: 0, params, results, builtin: Some(builtin) }))
}

} // verus!
