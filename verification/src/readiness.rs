//! Tests of what the translator asks of a program tree before it reads it:
//! that vectors have one argument, that type parameters are declared where a
//! tag is made of them, and that no signer stands where a payload would
//! hold it. A tree that has passed type checking meets all of them.

use crate::ast::{
    AttributeKind, BaseType, BaseTypeKind, BuiltinTypeName, CommandKind, ExpShape, Function, FunctionBodyKind,
    FunctionName, ModuleDefinition, ModuleIdent, Program, SingleType, SingleTypeKind,
    StatementKind, StructDefinition, StructFields, Type, TypeKind, TypeName, Var,
};
use crate::ast_to_ts::{
    expands_methods, is_translation, module_ready, struct_parts_ready, translate_module,
};
use crate::declarations::struct_ready;
use crate::function_directives::{carries_query, is_query_directive, published, query_ready};
use crate::functions::function_ready;
use crate::parameters::params_ready;
use crate::payload::{
    element_encodable, encodable, is_base_type_signer, is_type_signer, params_encodable,
    single_is_signer,
};
use crate::shared::{
    index_of, signature_names, struct_names_of, struct_tparam_names, tag_ready, tparam_names,
    Context, Diagnostics,
};
use crate::struct_directives::{
    carries_methods, directives_ready, fields_ready, find_module, functions_ready,
    is_method_directive, program_ready,
};
use crate::text::{is_text, texts};
use crate::value_types::{base_of, full_type_ready, type_ready};
use std::rc::Rc;
use vstd::prelude::*;

verus! {

/// Whether each vector in a type has one argument.
pub fn is_type_ready(ty: &BaseType) -> (r: bool)
    ensures
        r == type_ready(*ty),
    decreases *ty,
{
    match &ty.value {
        BaseTypeKind::Apply { name, args } => match name {
            TypeName::Builtin(builtin) => match builtin {
                BuiltinTypeName::Vector => {
                    if args.len() != 1 {
                        return false;
                    }
                    assert(decreases_to!(*ty => ty.value));
                    assert(decreases_to!(ty.value => ty.value->args));
                    assert(decreases_to!(*args => args[0]));
                    is_type_ready(&args[0])
                },
                _ => true,
            },
            TypeName::ModuleType(_, _) => {
                let mut i: usize = 0;
                while i < args.len()
                    invariant
                        i <= args.len(),
                        ty.value == (BaseTypeKind::Apply { name: *name, args: *args }),
                        *name is ModuleType,
                        forall|j: int| 0 <= j < i ==> type_ready(#[trigger] args@[j]),
                    decreases args.len() - i,
                {
                    assert(decreases_to!(*ty => ty.value));
                    assert(decreases_to!(ty.value => ty.value->args));
                    assert(decreases_to!(*args => args[i as int]));
                    if !is_type_ready(&args[i]) {
                        return false;
                    }
                    i = i + 1;
                }
                true
            },
        },
        _ => true,
    }
}

/// Whether a tag can be made of a type whose type parameters are looked up
/// in `names`.
pub fn is_tag_ready(ty: &BaseType, names: &Vec<String>) -> (r: bool)
    ensures
        r == tag_ready(*ty, texts(names@)),
    decreases *ty,
{
    match &ty.value {
        BaseTypeKind::Param(tp) => index_of(names, &tp.user_specified_name.value).is_some(),
        BaseTypeKind::Apply { name, args } => match name {
            TypeName::Builtin(builtin) => match builtin {
                BuiltinTypeName::Vector => {
                    if args.len() != 1 {
                        return false;
                    }
                    assert(decreases_to!(*ty => ty.value));
                    assert(decreases_to!(ty.value => ty.value->args));
                    assert(decreases_to!(*args => args[0]));
                    is_tag_ready(&args[0], names)
                },
                _ => true,
            },
            TypeName::ModuleType(_, _) => {
                let mut i: usize = 0;
                while i < args.len()
                    invariant
                        i <= args.len(),
                        ty.value == (BaseTypeKind::Apply { name: *name, args: *args }),
                        *name is ModuleType,
                        forall|j: int| 0 <= j < i ==> tag_ready(#[trigger] args@[j], texts(names@)),
                    decreases args.len() - i,
                {
                    assert(decreases_to!(*ty => ty.value));
                    assert(decreases_to!(ty.value => ty.value->args));
                    assert(decreases_to!(*args => args[i as int]));
                    if !is_tag_ready(&args[i], names) {
                        return false;
                    }
                    i = i + 1;
                }
                true
            },
        },
        _ => true,
    }
}

/// Whether the elements of a vector can be asked for their encoding in a
/// payload.
pub fn is_element_encodable(elem: &BaseType) -> (r: bool)
    ensures
        r == element_encodable(*elem),
{
    match &elem.value {
        BaseTypeKind::Apply { name, args } => match name {
            TypeName::Builtin(builtin) => match builtin {
                BuiltinTypeName::Signer => false,
                BuiltinTypeName::Vector => args.len() == 1 && !is_base_type_signer(&args[0]),
                _ => true,
            },
            _ => true,
        },
        _ => true,
    }
}

/// Whether a type can be asked for its encoding in a payload.
pub fn is_encodable(ty: &BaseType) -> (r: bool)
    ensures
        r == encodable(*ty),
{
    match &ty.value {
        BaseTypeKind::Apply { name, args } => match name {
            TypeName::Builtin(builtin) => match builtin {
                BuiltinTypeName::Signer => false,
                BuiltinTypeName::Vector => args.len() == 1 && is_element_encodable(&args[0]),
                _ => true,
            },
            _ => true,
        },
        _ => true,
    }
}

/// The base type of a single type, behind the reference if it is one.
pub fn base_type_of(ty: &SingleType) -> (r: &BaseType)
    ensures
        *r == base_of(*ty),
{
    match &ty.value {
        SingleTypeKind::Base(b) => b,
        SingleTypeKind::Ref(_, b) => b,
    }
}

/// Whether the type of each parameter can be named.
pub fn are_params_ready(params: &Vec<(Var, SingleType)>) -> (r: bool)
    ensures
        r == params_ready(params@),
{
    let mut i: usize = 0;
    while i < params.len()
        invariant
            i <= params.len(),
            forall|j: int| 0 <= j < i ==> type_ready(base_of((#[trigger] params@[j]).1)),
        decreases params.len() - i,
    {
        if !is_type_ready(base_type_of(&params[i].1)) {
            return false;
        }
        i = i + 1;
    }
    true
}

/// Whether each parameter that is no signer can be asked for its encoding.
pub fn are_params_encodable(params: &Vec<(Var, SingleType)>) -> (r: bool)
    ensures
        r == params_encodable(params@),
{
    let mut i: usize = 0;
    while i < params.len()
        invariant
            i <= params.len(),
            forall|j: int|
                0 <= j < i && !single_is_signer((#[trigger] params@[j]).1) ==> encodable(
                    base_of(params@[j].1),
                ),
        decreases params.len() - i,
    {
        if !is_type_signer(&params[i].1) && !is_encodable(base_type_of(&params[i].1)) {
            return false;
        }
        i = i + 1;
    }
    true
}

/// Whether the type of a result can be named.
pub fn is_full_type_ready(ty: &Type) -> (r: bool)
    ensures
        r == full_type_ready(*ty),
{
    match &ty.value {
        TypeKind::Unit => true,
        TypeKind::Single(s) => is_type_ready(base_type_of(s)),
        TypeKind::Multiple(ss) => {
            let mut i: usize = 0;
            while i < ss.len()
                invariant
                    i <= ss.len(),
                    ty.value == TypeKind::Multiple(*ss),
                    forall|j: int| 0 <= j < i ==> type_ready(base_of(#[trigger] ss@[j])),
                decreases ss.len() - i,
            {
                if !is_type_ready(base_type_of(&ss[i])) {
                    return false;
                }
                i = i + 1;
            }
            true
        },
    }
}

/// The type of the resource that the last statement of a function's body
/// publishes, where the body ends with just that.
pub fn published_type(f: &Rc<Function>) -> (r: Option<&BaseType>)
    ensures
        match r {
            Some(base) => published(*f) == Some(*base),
            None => published(*f) is None,
        },
{
    match &f.body.value {
        FunctionBodyKind::Defined { locals: _, body } => {
            if body.len() == 0 {
                return None;
            }
            match &body[body.len() - 1].value {
                StatementKind::Command(cmd) => match &cmd.value {
                    CommandKind::Return { from_user: _, exp } => match &exp.shape {
                        ExpShape::MoveTo(base) => Some(base),
                        _ => None,
                    },
                    _ => None,
                },
                _ => None,
            }
        },
        _ => None,
    }
}

/// Whether the companion of a query can be written for a function while
/// the context `c` holds the signature in force.
pub fn is_query_ready(f: &Rc<Function>, c: &Context) -> (r: bool)
    ensures
        r == query_ready(*f, signature_names(c.current_function_signature)),
{
    if !are_params_ready(&f.signature.parameters) {
        return false;
    }
    match published_type(f) {
        Some(base) => {
            let names = match &c.current_function_signature {
                Some(sig) => tparam_names(&sig.type_parameters),
                None => Vec::new(),
            };
            assert(texts(names@) =~= signature_names(c.current_function_signature));
            is_tag_ready(base, &names)
        },
        None => true,
    }
}

/// Whether a function can be translated.
pub fn is_function_ready(f: &Rc<Function>) -> (r: bool)
    ensures
        r == function_ready(*f),
{
    if !are_params_ready(&f.signature.parameters) {
        return false;
    }
    if !is_full_type_ready(&f.signature.return_type) {
        return false;
    }
    if f.entry.is_some() && !are_params_encodable(&f.signature.parameters) {
        return false;
    }
    if !has_query_directive(f) {
        return true;
    }
    match published_type(f) {
        Some(base) => {
            let names = tparam_names(&f.signature.type_parameters);
            is_tag_ready(base, &names)
        },
        None => true,
    }
}

/// Whether a function carries a `query` directive that is expanded.
pub fn has_query_directive(f: &Rc<Function>) -> (r: bool)
    ensures
        r == carries_query(*f),
{
    let mut i: usize = 0;
    while i < f.attributes.len()
        invariant
            i <= f.attributes.len(),
            forall|j: int| 0 <= j < i ==> !is_query_directive(#[trigger] f.attributes@[j]),
        decreases f.attributes.len() - i,
    {
        if is_text(&f.attributes[i].0.value, "query") && matches!(
            f.attributes[i].1.value,
            AttributeKind::Name(_)
        ) {
            assert(is_query_directive(f.attributes@[i as int]));
            return true;
        }
        i = i + 1;
    }
    false
}

/// Whether a struct carries a `method` directive that is expanded.
pub fn has_method_directive(sdef: &StructDefinition) -> (r: bool)
    ensures
        r == carries_methods(*sdef),
{
    let mut i: usize = 0;
    while i < sdef.attributes.len()
        invariant
            i <= sdef.attributes.len(),
            forall|j: int| 0 <= j < i ==> !is_method_directive(#[trigger] sdef.attributes@[j]),
        decreases sdef.attributes.len() - i,
    {
        if is_text(&sdef.attributes[i].0.value, "method") && matches!(
            sdef.attributes[i].1.value,
            AttributeKind::Parameterized(_, _)
        ) {
            assert(is_method_directive(sdef.attributes@[i as int]));
            return true;
        }
        i = i + 1;
    }
    false
}

/// Whether the functions of module `cur` can be looked up in `program`.
pub fn is_program_ready(program: &Rc<Program>, cur: &ModuleIdent) -> (r: bool)
    ensures
        r == program_ready(*program, *cur),
{
    match find_module(program, cur) {
        Some(k) => are_functions_ready(&program.modules[k].1.functions),
        None => false,
    }
}

/// Whether the types of a struct's fields can be named and given tags.
pub fn is_struct_ready(sdef: &StructDefinition) -> (r: bool)
    ensures
        r == struct_parts_ready(*sdef),
{
    match &sdef.fields {
        StructFields::Native(_) => true,
        StructFields::Defined(fields) => {
            let names = struct_tparam_names(&sdef.type_parameters);
            let mut i: usize = 0;
            while i < fields.len()
                invariant
                    i <= fields.len(),
                    sdef.fields == StructFields::Defined(*fields),
                    texts(names@) == struct_names_of(sdef.type_parameters@),
                    forall|j: int| 0 <= j < i ==> type_ready((#[trigger] fields@[j]).1),
                    forall|j: int|
                        0 <= j < i ==> tag_ready(
                            (#[trigger] fields@[j]).1,
                            struct_names_of(sdef.type_parameters@),
                        ),
                decreases fields.len() - i,
            {
                if !is_type_ready(&fields[i].1) {
                    assert(sdef.fields->Defined_0 == *fields);
                    assert(!type_ready(sdef.fields->Defined_0@[i as int].1));
                    return false;
                }
                if !is_tag_ready(&fields[i].1, &names) {
                    assert(sdef.fields->Defined_0 == *fields);
                    assert(!tag_ready(
                        sdef.fields->Defined_0@[i as int].1,
                        struct_names_of(sdef.type_parameters@),
                    ));
                    return false;
                }
                i = i + 1;
            }
            true
        },
    }
}

/// Whether the type of each field of a struct can be named.
pub fn are_fields_ready(sdef: &StructDefinition) -> (r: bool)
    ensures
        r == fields_ready(*sdef),
{
    match &sdef.fields {
        StructFields::Native(_) => true,
        StructFields::Defined(fields) => {
            let mut i: usize = 0;
            while i < fields.len()
                invariant
                    i <= fields.len(),
                    sdef.fields == StructFields::Defined(*fields),
                    forall|j: int| 0 <= j < i ==> type_ready((#[trigger] fields@[j]).1),
                decreases fields.len() - i,
            {
                if !is_type_ready(&fields[i].1) {
                    assert(sdef.fields->Defined_0 == *fields);
                    assert(!type_ready(sdef.fields->Defined_0@[i as int].1));
                    return false;
                }
                i = i + 1;
            }
            true
        },
    }
}

/// Whether each function of a list has parameters whose types can be named.
pub fn are_functions_ready(functions: &Vec<(FunctionName, Rc<Function>)>) -> (r: bool)
    ensures
        r == functions_ready(functions@),
{
    let mut i: usize = 0;
    while i < functions.len()
        invariant
            i <= functions.len(),
            forall|j: int|
                0 <= j < i ==> params_ready((#[trigger] functions@[j]).1.signature.parameters@),
        decreases functions.len() - i,
    {
        if !are_params_ready(&functions[i].1.signature.parameters) {
            return false;
        }
        i = i + 1;
    }
    true
}

/// Whether a struct has fields: it is not native.
pub fn has_fields(sdef: &StructDefinition) -> (r: bool)
    ensures
        r == (sdef.fields is Defined),
{
    match &sdef.fields {
        StructFields::Native(_) => false,
        StructFields::Defined(_) => true,
    }
}

/// Whether the directives of a struct can be expanded in the context `c`.
pub fn are_directives_ready(c: &Context, sdef: &StructDefinition) -> (r: bool)
    ensures
        r == directives_ready(*c, *sdef),
{
    let cur = match &c.current_module {
        Some(cur) => cur,
        None => {
            return false;
        },
    };
    if !are_fields_ready(sdef) {
        return false;
    }
    !has_method_directive(sdef) || is_program_ready(&c.program, cur)
}

/// Whether a struct can be translated in the context `c`.
pub fn is_struct_translatable(c: &Context, sdef: &StructDefinition) -> (r: bool)
    ensures
        r == struct_ready(*c, *sdef),
{
    match &sdef.fields {
        StructFields::Native(_) => c.current_module.is_some(),
        StructFields::Defined(_) => are_directives_ready(c, sdef) && is_struct_ready(sdef),
    }
}

/// Whether a module can be translated as module `cur` of `program`.
pub fn is_module_ready(program: &Rc<Program>, cur: &ModuleIdent, module: &ModuleDefinition) -> (r:
    bool)
    ensures
        r == module_ready(*program, *cur, *module),
{
    let looked_up = is_program_ready(program, cur);
    let mut i: usize = 0;
    while i < module.constants.len()
        invariant
            i <= module.constants.len(),
            forall|j: int|
                0 <= j < i ==> type_ready((#[trigger] module.constants@[j]).1.signature),
        decreases module.constants.len() - i,
    {
        if !is_type_ready(&module.constants[i].1.signature) {
            return false;
        }
        i = i + 1;
    }
    let mut i: usize = 0;
    while i < module.structs.len()
        invariant
            i <= module.structs.len(),
            looked_up == program_ready(*program, *cur),
            forall|j: int|
                0 <= j < i ==> struct_parts_ready(*(#[trigger] module.structs@[j]).1),
            forall|j: int|
                0 <= j < i && expands_methods(*(#[trigger] module.structs@[j]).1)
                    ==> program_ready(*program, *cur),
        decreases module.structs.len() - i,
    {
        if !is_struct_ready(&module.structs[i].1) {
            return false;
        }
        if has_fields(&module.structs[i].1) && has_method_directive(&module.structs[i].1)
            && !looked_up {
            assert(expands_methods(*module.structs@[i as int].1));
            return false;
        }
        i = i + 1;
    }
    let mut i: usize = 0;
    while i < module.functions.len()
        invariant
            i <= module.functions.len(),
            forall|j: int| 0 <= j < i ==> function_ready((#[trigger] module.functions@[j]).1),
        decreases module.functions.len() - i,
    {
        if !is_function_ready(&module.functions[i].1) {
            return false;
        }
        i = i + 1;
    }
    true
}

/// Translates a module where the tree can be read, and says `None`, leaving
/// the context as it is, where it cannot.
pub fn try_translate_module(mident: ModuleIdent, mdef: &ModuleDefinition, c: &mut Context) -> (r:
    Option<Result<(String, String), Diagnostics>>)
    ensures
        r is Some <==> module_ready(old(c).program, mident, *mdef),
        match r {
            Some(outcome) => is_translation(outcome, *old(c), *final(c), mident, *mdef),
            None => *final(c) == *old(c),
        },
{
    if !is_module_ready(&c.program, &mident, mdef) {
        return None;
    }
    Some(translate_module(mident, mdef, c))
}

} // verus!
