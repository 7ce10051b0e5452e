//! The names that types have in the target language, where a value of the
//! type is declared: in fields, parameters, results and constants.

use crate::ast::{
    BaseType, BaseTypeKind, BuiltinTypeName, ModuleIdent, SingleType, SingleTypeKind, Type,
    TypeKind, TypeName,
};
use crate::shared::{
    derr, failure, format_qualified_name, lemma_follows_none, lemma_follows_then, qualified,
    reference, term_is, unresolved, Context, DiagnosticView, Effects, TermResult,
};
use crate::text::{join, joined, texts};
use vstd::prelude::*;

verus! {

/// The target-language name of a built-in type that takes no argument.
pub open spec fn builtin_ts(builtin: BuiltinTypeName) -> Seq<char> {
    match builtin {
        BuiltinTypeName::Address => "HexString"@,
        BuiltinTypeName::Signer => "HexString"@,
        BuiltinTypeName::U8 => "U8"@,
        BuiltinTypeName::U64 => "U64"@,
        BuiltinTypeName::U128 => "U128"@,
        BuiltinTypeName::Bool => "boolean"@,
        BuiltinTypeName::Vector => "any[]"@,
    }
}

/// Whether each vector in `ty` has one argument.
pub open spec fn type_ready(ty: BaseType) -> bool
    decreases ty,
{
    match ty.value {
        BaseTypeKind::Apply { name, args } => match name {
            TypeName::Builtin(BuiltinTypeName::Vector) => args@.len() == 1 && type_ready(args@[0]),
            TypeName::Builtin(_) => true,
            TypeName::ModuleType(_, _) => forall|i: int|
                0 <= i < args@.len() ==> type_ready(#[trigger] args@[i]),
        },
        _ => true,
    }
}

/// The name of `ty` inside module `cur`: `any` for a type parameter, the
/// element's name and `[]` for a vector, the qualified name for a struct; an
/// unresolved type is an error.
pub open spec fn base_ts(ty: BaseType, cur: ModuleIdent) -> Result<Seq<char>, DiagnosticView>
    decreases ty,
{
    match ty.value {
        BaseTypeKind::Param(_) => Ok("any"@),
        BaseTypeKind::Apply { name, args } => match name {
            TypeName::Builtin(BuiltinTypeName::Vector) => if args@.len() > 0 {
                match base_ts(args@[0], cur) {
                    Ok(inner) => Ok(inner + "[]"@),
                    Err(d) => Err(d),
                }
            } else {
                Ok(builtin_ts(BuiltinTypeName::Vector))
            },
            TypeName::Builtin(builtin) => Ok(builtin_ts(builtin)),
            TypeName::ModuleType(mident, sname) => Ok(qualified(cur, mident, sname.value@)),
        },
        _ => Err(unresolved(ty.loc)),
    }
}

/// The imports that naming `ty` inside module `cur` needs.
pub open spec fn base_refs(ty: BaseType, cur: ModuleIdent) -> Effects
    decreases ty,
{
    match ty.value {
        BaseTypeKind::Apply { name, args } => match name {
            TypeName::Builtin(BuiltinTypeName::Vector) => if args@.len() > 0 {
                base_refs(args@[0], cur)
            } else {
                Effects::none()
            },
            TypeName::Builtin(_) => Effects::none(),
            TypeName::ModuleType(mident, _) => reference(cur, mident),
        },
        _ => Effects::none(),
    }
}

/// The base type of a single type, behind the reference if it is one.
pub open spec fn base_of(ty: SingleType) -> BaseType {
    match ty.value {
        SingleTypeKind::Base(b) => b,
        SingleTypeKind::Ref(_, b) => b,
    }
}

/// `done`, followed by the names of the types from position `i` on, or the
/// first error among them.
pub open spec fn singles_ts(
    ss: Seq<SingleType>,
    i: int,
    cur: ModuleIdent,
    done: Seq<Seq<char>>,
) -> Result<Seq<Seq<char>>, DiagnosticView>
    decreases ss.len() - i,
{
    if i < 0 || i >= ss.len() {
        Ok(done)
    } else {
        match base_ts(base_of(ss[i]), cur) {
            Ok(t) => singles_ts(ss, i + 1, cur, done.push(t)),
            Err(d) => Err(d),
        }
    }
}

/// The imports that naming the first `n` of `ss` needs.
pub open spec fn singles_refs(ss: Seq<SingleType>, n: int, cur: ModuleIdent) -> Effects
    decreases n,
{
    if n <= 0 || n > ss.len() {
        Effects::none()
    } else {
        singles_refs(ss, n - 1, cur).plus(base_refs(base_of(ss[n - 1]), cur))
    }
}

/// The name of a result type: `void` for unit, the single type's name, or the
/// names of a tuple's types between square brackets.
pub open spec fn type_ts(ty: Type, cur: ModuleIdent) -> Result<Seq<char>, DiagnosticView> {
    match ty.value {
        TypeKind::Unit => Ok("void"@),
        TypeKind::Single(s) => base_ts(base_of(s), cur),
        TypeKind::Multiple(ss) => match singles_ts(ss@, 0, cur, Seq::empty()) {
            Ok(parts) => Ok("["@ + joined(parts, ", "@) + "]"@),
            Err(d) => Err(d),
        },
    }
}

/// The imports that naming a result type needs.
pub open spec fn type_refs(ty: Type, cur: ModuleIdent) -> Effects {
    match ty.value {
        TypeKind::Unit => Effects::none(),
        TypeKind::Single(s) => base_refs(base_of(s), cur),
        TypeKind::Multiple(ss) => singles_refs(ss@, ss@.len() as int, cur),
    }
}

/// Whether each vector in a result type has one argument.
pub open spec fn full_type_ready(ty: Type) -> bool {
    match ty.value {
        TypeKind::Unit => true,
        TypeKind::Single(s) => type_ready(base_of(s)),
        TypeKind::Multiple(ss) => forall|i: int|
            0 <= i < ss@.len() ==> type_ready(base_of(#[trigger] ss@[i])),
    }
}

/// The error for a constant whose type is not built in.
pub open spec fn not_a_constant_type(ty: BaseType) -> DiagnosticView {
    failure(ty.loc, "Only builtin types supported as constants"@)
}

/// The name of a constant's type: a built-in type, or a vector of one.
pub open spec fn constant_ts(ty: BaseType) -> Result<Seq<char>, DiagnosticView>
    decreases ty,
{
    match ty.value {
        BaseTypeKind::Apply { name, args } => match name {
            TypeName::Builtin(BuiltinTypeName::Vector) => if args@.len() > 0 {
                match constant_ts(args@[0]) {
                    Ok(inner) => Ok(inner + "[]"@),
                    Err(d) => Err(d),
                }
            } else {
                Ok(builtin_ts(BuiltinTypeName::Vector))
            },
            TypeName::Builtin(builtin) => Ok(builtin_ts(builtin)),
            TypeName::ModuleType(_, _) => Err(not_a_constant_type(ty)),
        },
        _ => Err(not_a_constant_type(ty)),
    }
}

/// The target-language name of a built-in type that takes no argument.
pub fn builtin_to_tstype(builtin: BuiltinTypeName) -> (r: String)
    ensures
        r@ == builtin_ts(builtin),
{
    match builtin {
        BuiltinTypeName::Address => String::from_str("HexString"),
        BuiltinTypeName::Signer => String::from_str("HexString"),
        BuiltinTypeName::U8 => String::from_str("U8"),
        BuiltinTypeName::U64 => String::from_str("U64"),
        BuiltinTypeName::U128 => String::from_str("U128"),
        BuiltinTypeName::Bool => String::from_str("boolean"),
        BuiltinTypeName::Vector => String::from_str("any[]"),
    }
}

/// Names a type as the current module sees it, and records the import that a
/// struct of another module needs.
pub fn base_type_to_tstype(base_ty: &BaseType, c: &mut Context) -> (r: TermResult)
    requires
        old(c).current_module is Some,
        type_ready(*base_ty),
    ensures
        term_is(r, base_ts(*base_ty, old(c).current_module->0)),
        r is Ok ==> final(c).follows(*old(c), base_refs(*base_ty, old(c).current_module->0)),
        r is Err ==> *final(c) == *old(c),
        final(c).reached(*old(c), Effects::none()),
    decreases *base_ty,
{
    proof {
        lemma_follows_none(*c);
    }
    match &base_ty.value {
        BaseTypeKind::Param(_) => Ok(String::from_str("any")),
        BaseTypeKind::Apply { name, args } => match name {
            TypeName::Builtin(builtin) => match builtin {
                BuiltinTypeName::Vector => {
                    assert(decreases_to!(*base_ty => base_ty.value));
                    assert(decreases_to!(base_ty.value => base_ty.value->args));
                    assert(decreases_to!(*args => args[0]));
                    match base_type_to_tstype(&args[0], c) {
                        Ok(inner) => {
                            let mut out = inner;
                            out.append("[]");
                            Ok(out)
                        },
                        Err(d) => Err(d),
                    }
                },
                _ => Ok(builtin_to_tstype(*builtin)),
            },
            TypeName::ModuleType(mident, sname) => Ok(
                format_qualified_name(mident, sname.value.as_str(), c),
            ),
        },
        _ => Err(derr(base_ty.loc, "Received Unresolved Type")),
    }
}

/// Names the type of a parameter or local: a reference is named as what it
/// refers to.
pub fn single_type_to_tstype(ty: &SingleType, c: &mut Context) -> (r: TermResult)
    requires
        old(c).current_module is Some,
        type_ready(base_of(*ty)),
    ensures
        term_is(r, base_ts(base_of(*ty), old(c).current_module->0)),
        r is Ok ==> final(c).follows(*old(c), base_refs(base_of(*ty), old(c).current_module->0)),
        r is Err ==> *final(c) == *old(c),
        final(c).reached(*old(c), Effects::none()),
{
    match &ty.value {
        SingleTypeKind::Base(base_ty) => base_type_to_tstype(base_ty, c),
        SingleTypeKind::Ref(_, base_ty) => base_type_to_tstype(base_ty, c),
    }
}

/// Names the type of a function's result.
pub fn type_to_tstype(ty: &Type, c: &mut Context) -> (r: TermResult)
    requires
        old(c).current_module is Some,
        full_type_ready(*ty),
    ensures
        term_is(r, type_ts(*ty, old(c).current_module->0)),
        r is Ok ==> final(c).follows(*old(c), type_refs(*ty, old(c).current_module->0)),
        final(c).grown(*old(c)),
        final(c).reached(*old(c), Effects::none()),
{
    let ghost cur = c.current_module->0;
    match &ty.value {
        TypeKind::Unit => {
            proof {
                lemma_follows_none(*c);
            }
            Ok(String::from_str("void"))
        },
        TypeKind::Single(s) => single_type_to_tstype(s, c),
        TypeKind::Multiple(ss) => {
            let mut parts: Vec<String> = Vec::new();
            let mut i: usize = 0;
            assert(texts(parts@) =~= Seq::<Seq<char>>::empty());
            proof {
                lemma_follows_none(*c);
            }
            while i < ss.len()
                invariant
                    i <= ss.len(),
                    c.current_module == Some(cur),
                    old(c).current_module == Some(cur),
                    ty.value == TypeKind::Multiple(*ss),
                    forall|k: int| 0 <= k < ss@.len() ==> type_ready(base_of(#[trigger] ss@[k])),
                    singles_ts(ss@, i as int, cur, texts(parts@)) == singles_ts(
                        ss@,
                        0,
                        cur,
                        Seq::empty(),
                    ),
                    c.follows(*old(c), singles_refs(ss@, i as int, cur)),
                    c.reached(*old(c), Effects::none()),
                decreases ss.len() - i,
            {
                let ghost before = texts(parts@);
                let ghost c1 = *c;
                match single_type_to_tstype(&ss[i], c) {
                    Ok(t) => {
                        parts.push(t);
                        assert(texts(parts@) =~= before.push(t@));
                    },
                    Err(d) => {
                        return Err(d);
                    },
                }
                proof {
                    lemma_follows_then(
                        *old(c),
                        c1,
                        *c,
                        singles_refs(ss@, i as int, cur),
                        base_refs(base_of(ss@[i as int]), cur),
                    );
                }
                i = i + 1;
            }
            let mut out = String::from_str("[");
            out.append(join(&parts, ", ").as_str());
            out.append("]");
            Ok(out)
        },
    }
}

/// Names the type of a constant. Only built-in types and vectors of them
/// can be the type of a constant.
pub fn ts_constant_type(ty: &BaseType, c: &mut Context) -> (r: TermResult)
    requires
        type_ready(*ty),
    ensures
        term_is(r, constant_ts(*ty)),
        *final(c) == *old(c),
    decreases *ty,
{
    match &ty.value {
        BaseTypeKind::Apply { name, args } => match name {
            TypeName::Builtin(builtin_type_name) => match builtin_type_name {
                BuiltinTypeName::Vector => {
                    assert(decreases_to!(*ty => ty.value));
                    assert(decreases_to!(ty.value => ty.value->args));
                    assert(decreases_to!(*args => args[0]));
                    match ts_constant_type(&args[0], c) {
                        Ok(inner) => {
                            let mut out = inner;
                            out.append("[]");
                            Ok(out)
                        },
                        Err(d) => Err(d),
                    }
                },
                _ => Ok(builtin_to_tstype(*builtin_type_name)),
            },
            _ => Err(derr(ty.loc, "Only builtin types supported as constants")),
        },
        _ => Err(derr(ty.loc, "Only builtin types supported as constants")),
    }
}

} // verus!
