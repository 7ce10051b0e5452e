//! How the arguments of an entry function are encoded into the payload of a
//! transaction: atomic values, vectors of them, and vectors of such vectors.

use crate::ast::{
    BaseType, BaseTypeKind, BuiltinTypeName, FunctionSignature, Loc, SingleType, SingleTypeKind,
    TypeName, Var,
};
use crate::shared::{derr, failure, term_is, DiagnosticView, TermResult};
use crate::text::{rename, renamed};
use crate::value_types::base_of;
use vstd::prelude::*;

verus! {

/// The built-in type that `ty` applies, with the type arguments.
pub open spec fn builtin_of(ty: BaseType) -> Option<(BuiltinTypeName, Vec<BaseType>)> {
    match ty.value {
        BaseTypeKind::Apply { name: TypeName::Builtin(builtin), args } => Some((builtin, args)),
        _ => None,
    }
}

/// Whether `ty` is the signer type.
pub open spec fn base_is_signer(ty: BaseType) -> bool {
    match builtin_of(ty) {
        Some((builtin, _)) => builtin == BuiltinTypeName::Signer,
        None => false,
    }
}

/// Whether `ty` is the signer type or a reference to it.
pub open spec fn single_is_signer(ty: SingleType) -> bool {
    base_is_signer(base_of(ty))
}

/// Whether `builtin` is a type of atomic values that a payload can hold.
pub open spec fn is_payload_atomic(builtin: BuiltinTypeName) -> bool {
    builtin != BuiltinTypeName::Signer && builtin != BuiltinTypeName::Vector
}

/// Whether the elements of a vector inside a vector can be asked for their
/// encoding: they are no signers.
pub open spec fn nested_encodable(inner_ty: BaseType) -> bool {
    !base_is_signer(inner_ty)
}

/// Whether the elements of a vector can be asked for their encoding: they
/// are no signers, and where they are vectors, these have one argument,
/// which is no signer.
pub open spec fn element_encodable(elem: BaseType) -> bool {
    match elem.value {
        BaseTypeKind::Apply { name: TypeName::Builtin(builtin), args } => match builtin {
            BuiltinTypeName::Signer => false,
            BuiltinTypeName::Vector => args@.len() == 1 && nested_encodable(args@[0]),
            _ => true,
        },
        _ => true,
    }
}

/// Whether `ty` can be asked for its encoding: no signer is reached in it,
/// and each vector that is reached has one argument.
pub open spec fn encodable(ty: BaseType) -> bool {
    match ty.value {
        BaseTypeKind::Apply { name: TypeName::Builtin(builtin), args } => match builtin {
            BuiltinTypeName::Signer => false,
            BuiltinTypeName::Vector => args@.len() == 1 && element_encodable(args@[0]),
            _ => true,
        },
        _ => true,
    }
}

/// The error for what a vector inside a vector cannot hold.
pub open spec fn unsupported_nesting(inner_ty: BaseType) -> DiagnosticView {
    failure(inner_ty.loc, "Unsupported vector-in-vector type"@)
}

/// The function that encodes a vector inside a vector, whose elements have
/// the type `inner_ty`: they have to be atomic values.
pub open spec fn nested_handler(inner_ty: BaseType) -> Result<Seq<char>, DiagnosticView> {
    match inner_ty.value {
        BaseTypeKind::Apply { name: TypeName::Builtin(builtin), args } => match builtin {
            BuiltinTypeName::U8 => Ok("array => $.u8ArrayArg(array)"@),
            BuiltinTypeName::Vector => Err(unsupported_nesting(inner_ty)),
            _ => Ok("array => array.map(ele => $.payloadArg(ele))"@),
        },
        _ => Err(unsupported_nesting(inner_ty)),
    }
}

/// The expression that encodes the vector parameter `name`, whose elements
/// have the type `elem`; `loc` is the place of the parameter's type.
pub open spec fn vector_handler(name: Seq<char>, elem: BaseType, loc: Loc) -> Result<
    Seq<char>,
    DiagnosticView,
> {
    match elem.value {
        BaseTypeKind::Apply { name: TypeName::Builtin(builtin), args } => match builtin {
            BuiltinTypeName::U8 => Ok("$.u8ArrayArg("@ + name + ")"@),
            BuiltinTypeName::Vector => if args@.len() > 0 {
                match nested_handler(args@[0]) {
                    Ok(inner) => Ok(name + ".map("@ + inner + ")"@),
                    Err(d) => Err(d),
                }
            } else {
                Ok(name)
            },
            _ => Ok(name + ".map(element => $.payloadArg(element))"@),
        },
        _ => Err(
            failure(loc, "This vector type is not supported as parameter of a script function"@),
        ),
    }
}

/// The expression that encodes the parameter `name` of type `ty` for a
/// payload, or the error for a type that a payload cannot hold.
pub open spec fn payload_handler(name: Seq<char>, ty: SingleType) -> Result<
    Seq<char>,
    DiagnosticView,
> {
    match base_of(ty).value {
        BaseTypeKind::Apply { name: TypeName::Builtin(builtin), args } => match builtin {
            BuiltinTypeName::Vector => if args@.len() > 0 {
                vector_handler(renamed(name), args@[0], ty.loc)
            } else {
                Ok(renamed(name))
            },
            _ => Ok("$.payloadArg("@ + renamed(name) + ")"@),
        },
        _ => Err(failure(ty.loc, "This type is not supported as parameter of script function"@)),
    }
}

/// Whether each parameter that is no signer can be encoded for a payload.
pub open spec fn payload_shape(params: Seq<(Var, SingleType)>) -> bool {
    forall|i: int|
        0 <= i < params.len() && !single_is_signer((#[trigger] params[i]).1) ==> payload_handler(
            params[i].0.value@,
            params[i].1,
        ) is Ok
}

/// Whether each parameter that is no signer can be asked for its encoding.
pub open spec fn params_encodable(params: Seq<(Var, SingleType)>) -> bool {
    forall|i: int|
        0 <= i < params.len() && !single_is_signer((#[trigger] params[i]).1) ==> encodable(
            base_of(params[i].1),
        )
}

/// The built-in type that a base type applies, with its type arguments;
/// `Err(false)` for any other type.
pub fn extract_builtin_from_base_type(ty: &BaseType) -> (r: Result<
    (&BuiltinTypeName, &Vec<BaseType>),
    bool,
>)
    ensures
        match r {
            Ok(found) => builtin_of(*ty) == Some((*found.0, *found.1)),
            Err(e) => !e && builtin_of(*ty) is None,
        },
{
    if let BaseTypeKind::Apply { name, args } = &ty.value {
        if let TypeName::Builtin(builtin) = name {
            return Ok((builtin, args));
        }
    }
    Err(false)
}

/// The built-in type that a single type applies, behind the reference if it
/// is one.
pub fn extract_builtin_type(ty: &SingleType) -> (r: Result<
    (&BuiltinTypeName, &Vec<BaseType>),
    bool,
>)
    ensures
        match r {
            Ok(found) => builtin_of(base_of(*ty)) == Some((*found.0, *found.1)),
            Err(e) => !e && builtin_of(base_of(*ty)) is None,
        },
{
    match &ty.value {
        SingleTypeKind::Base(base_ty) => extract_builtin_from_base_type(base_ty),
        SingleTypeKind::Ref(_, base_ty) => extract_builtin_from_base_type(base_ty),
    }
}

/// Whether a base type is the signer type.
pub fn is_base_type_signer(ty: &BaseType) -> (r: bool)
    ensures
        r == base_is_signer(*ty),
{
    match &ty.value {
        BaseTypeKind::Apply { name, args: _ } => match name {
            TypeName::Builtin(builtin) => {
                match builtin {
                    BuiltinTypeName::Signer => true,
                    _ => false,
                }
            },
            _ => false,
        },
        _ => false,
    }
}

/// Whether a type is the signer type or a reference to it.
pub fn is_type_signer(ty: &SingleType) -> (r: bool)
    ensures
        r == single_is_signer(*ty),
{
    match &ty.value {
        SingleTypeKind::Base(base_ty) => is_base_type_signer(base_ty),
        SingleTypeKind::Ref(_, base_ty) => is_base_type_signer(base_ty),
    }
}

/// The function that encodes a vector inside a vector. A payload holds
/// vectors of at most two levels.
pub fn get_ts_handler_for_vector_in_vector(inner_ty: &BaseType) -> (r: TermResult)
    requires
        nested_encodable(*inner_ty),
    ensures
        term_is(r, nested_handler(*inner_ty)),
{
    if let Ok((builtin, _inner_ty_args)) = extract_builtin_from_base_type(inner_ty) {
        match builtin {
            BuiltinTypeName::U8 => Ok(String::from_str("array => $.u8ArrayArg(array)")),
            BuiltinTypeName::Vector => Err(derr(inner_ty.loc, "Unsupported vector-in-vector type")),
            _ => Ok(String::from_str("array => array.map(ele => $.payloadArg(ele))")),
        }
    } else {
        Err(derr(inner_ty.loc, "Unsupported vector-in-vector type"))
    }
}

/// The expression that encodes one parameter of an entry function for a
/// payload. A signer is never encoded.
pub fn get_ts_handler_for_script_function_param(name: &Var, ty: &SingleType) -> (r: TermResult)
    requires
        encodable(base_of(*ty)),
    ensures
        term_is(r, payload_handler(name.value@, *ty)),
{
    let name = rename(name.value.as_str());
    if let Ok((builtin, ty_args)) = extract_builtin_type(ty) {
        match builtin {
            BuiltinTypeName::Vector => {
                assert(element_encodable(ty_args@[0]));
                if let Ok((inner_builtin, inner_ty_args)) = extract_builtin_from_base_type(
                    &ty_args[0],
                ) {
                    match inner_builtin {
                        BuiltinTypeName::U8 => {
                            let mut out = String::from_str("$.u8ArrayArg(");
                            out.append(name.as_str());
                            out.append(")");
                            Ok(out)
                        },
                        BuiltinTypeName::Vector => {
                            match get_ts_handler_for_vector_in_vector(&inner_ty_args[0]) {
                                Ok(inner_map) => {
                                    let mut out = name;
                                    out.append(".map(");
                                    out.append(inner_map.as_str());
                                    out.append(")");
                                    Ok(out)
                                },
                                Err(d) => Err(d),
                            }
                        },
                        _ => {
                            let mut out = name;
                            out.append(".map(element => $.payloadArg(element))");
                            Ok(out)
                        },
                    }
                } else {
                    Err(
                        derr(
                            ty.loc,
                            "This vector type is not supported as parameter of a script function",
                        ),
                    )
                }
            },
            _ => {
                let mut out = String::from_str("$.payloadArg(");
                out.append(name.as_str());
                out.append(")");
                Ok(out)
            },
        }
    } else {
        Err(derr(ty.loc, "This type is not supported as parameter of script function"))
    }
}

/// Whether a payload can be built for a function: each of its parameters is
/// a signer or can be encoded.
pub fn script_function_has_valid_parameter(sig: &FunctionSignature) -> (r: bool)
    requires
        params_encodable(sig.parameters@),
    ensures
        r == payload_shape(sig.parameters@),
{
    let mut i: usize = 0;
    while i < sig.parameters.len()
        invariant
            i <= sig.parameters.len(),
            params_encodable(sig.parameters@),
            forall|j: int|
                0 <= j < i && !single_is_signer((#[trigger] sig.parameters@[j]).1)
                    ==> payload_handler(sig.parameters@[j].0.value@, sig.parameters@[j].1) is Ok,
        decreases sig.parameters.len() - i,
    {
        let var = &sig.parameters[i].0;
        let ty = &sig.parameters[i].1;
        if !is_type_signer(ty) {
            let ts_handler = get_ts_handler_for_script_function_param(var, ty);
            if ts_handler.is_err() {
                return false;
            }
        }
        i = i + 1;
    }
    true
}

} // verus!
