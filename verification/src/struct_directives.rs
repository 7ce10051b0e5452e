//! The directives that a struct can carry: `method`, which gives the
//! generated class a method for a function of the module, and
//! `show_iter_table`, which gives it a reader for a field that holds an
//! iterable table.

use crate::ast::{
    Attribute, AttributeKind, Attributes, BaseType, BaseTypeKind, Field, Function, FunctionName,
    FunctionSignature, Loc, ModuleDefinition, ModuleIdent, Name, Program, SingleType,
    SingleTypeKind, StructDefinition,
    StructFields, StructName, StructTypeParameter, TParam, TypeKind, TypeName, Var,
};
use crate::parameters::{parameters_refs, parameters_run, params_ready, write_parameters};
use crate::shared::{
    address_hex, derr, failure, format_address_hex, format_function_name, function_name_term,
    is_same_module, lemma_directive_names_differ, lemma_follows_none, lemma_follows_reached,
    lemma_follows_then, lemma_reached_more, lemma_reached_then, same_module, share, wrote,
    Context, Diagnostic, DiagnosticView, Effects, WriteResult,
};
use crate::text::{is_text, join, joined, same_text, texts};
use crate::tsgen_writer::{TsgenWriter, WriterView};
use crate::value_types::{base_of, base_refs, base_ts, base_type_to_tstype, type_ready};
use std::rc::Rc;
use vstd::prelude::*;

verus! {

/// The first position from `i` on at which `modules` holds the module `cur`.
pub open spec fn module_index(
    modules: Seq<(ModuleIdent, ModuleDefinition)>,
    cur: ModuleIdent,
    i: int,
) -> Option<int>
    decreases modules.len() - i,
{
    if i < 0 || i >= modules.len() {
        None
    } else if same_module(modules[i].0, cur) {
        Some(i)
    } else {
        module_index(modules, cur, i + 1)
    }
}

/// The first position from `i` on at which `functions` holds one named
/// `name`.
pub open spec fn function_index(
    functions: Seq<(FunctionName, Rc<Function>)>,
    name: Seq<char>,
    i: int,
) -> Option<int>
    decreases functions.len() - i,
{
    if i < 0 || i >= functions.len() {
        None
    } else if functions[i].0.value@ == name {
        Some(i)
    } else {
        function_index(functions, name, i + 1)
    }
}

/// The first position from `i` on at which `fields` holds one named `name`.
pub open spec fn field_index(fields: Seq<(Field, BaseType)>, name: Seq<char>, i: int) -> Option<
    int,
>
    decreases fields.len() - i,
{
    if i < 0 || i >= fields.len() {
        None
    } else if fields[i].0.value@ == name {
        Some(i)
    } else {
        field_index(fields, name, i + 1)
    }
}

/// The functions of module `cur` in `program`; none where the program does
/// not hold the module.
pub open spec fn functions_of(program: Rc<Program>, cur: ModuleIdent) -> Seq<
    (FunctionName, Rc<Function>),
> {
    match module_index(program.modules@, cur, 0) {
        Some(k) => program.modules@[k].1.functions@,
        None => Seq::empty(),
    }
}

/// The error for a function that does not take the struct first.
pub open spec fn first_parameter_error(sname: Name, name: Name) -> DiagnosticView {
    failure(name.loc, "This function should have &"@ + sname.value@ + " as its first parameter"@)
}

/// The error for type parameters that do not agree.
pub open spec fn mismatch(loc: Loc) -> DiagnosticView {
    failure(loc, "Mismatched type parameters"@)
}

/// The error for the first type parameter of a function, from position `i`
/// on, that is not named as the struct's type parameter at its position.
pub open spec fn tparams_error(fps: Seq<TParam>, sps: Seq<StructTypeParameter>, i: int) -> Option<
    DiagnosticView,
>
    decreases fps.len() - i,
{
    if i < 0 || i >= fps.len() {
        None
    } else if i >= sps.len() || sps[i].param.user_specified_name.value@
        != fps[i].user_specified_name.value@ {
        Some(mismatch(fps[i].user_specified_name.loc))
    } else {
        tparams_error(fps, sps, i + 1)
    }
}

/// Whether a type argument is the struct's type parameter `sp`.
pub open spec fn targ_matches(targ: BaseType, sp: StructTypeParameter) -> bool {
    match targ.value {
        BaseTypeKind::Param(tp) => sp.param.user_specified_name.value@
            == tp.user_specified_name.value@,
        _ => false,
    }
}

/// The error for the first type argument, from position `i` on, that is not
/// the struct's type parameter at its position.
pub open spec fn targs_error(targs: Seq<BaseType>, sps: Seq<StructTypeParameter>, i: int) -> Option<
    DiagnosticView,
>
    decreases targs.len() - i,
{
    if i < 0 || i >= targs.len() {
        None
    } else if i >= sps.len() || !targ_matches(targs[i], sps[i]) {
        Some(mismatch(targs[i].loc))
    } else {
        targs_error(targs, sps, i + 1)
    }
}

/// Why function `f`, which a `method` directive of struct `sname` names as
/// `name`, cannot be a method of the struct; `None` where it can. It has
/// to declare the type parameters of the struct, under the same names in
/// the same order, and its first parameter has to be the struct, or a
/// reference to it, applied to exactly those type parameters in that order.
pub open spec fn method_error(
    sname: Name,
    sdef: StructDefinition,
    name: Name,
    f: Function,
    cur: ModuleIdent,
) -> Option<DiagnosticView> {
    let sig = f.signature;
    if sig.type_parameters@.len() != sdef.type_parameters@.len() {
        Some(
            failure(
                name.loc,
                "This function should have the same type parameters as "@ + sname.value@,
            ),
        )
    } else if tparams_error(sig.type_parameters@, sdef.type_parameters@, 0) is Some {
        tparams_error(sig.type_parameters@, sdef.type_parameters@, 0)
    } else if sig.parameters@.len() < 1 {
        Some(first_parameter_error(sname, name))
    } else {
        let base = base_of(sig.parameters@[0].1);
        match base.value {
            BaseTypeKind::Apply { name: TypeName::ModuleType(mi, sname2), args } => if same_module(
                cur,
                mi,
            ) && sname.value@ == sname2.value@ {
                if args@.len() != sdef.type_parameters@.len() {
                    Some(mismatch(base.loc))
                } else {
                    targs_error(args@, sdef.type_parameters@, 0)
                }
            } else {
                Some(first_parameter_error(sname, name))
            },
            _ => Some(first_parameter_error(sname, name)),
        }
    }
}

/// The names of the parameters from position `from` on, as the source has
/// them.
pub open spec fn raw_names(params: Seq<(Var, SingleType)>, from: int) -> Seq<Seq<char>> {
    Seq::new(
        if params.len() > from {
            (params.len() - from) as nat
        } else {
            0
        },
        |i: int| params[from + i].0.value@,
    )
}

/// The line of a method that hands the call on to the function.
pub open spec fn method_call_line(fname: Seq<char>, sig: FunctionSignature, is_async: bool) -> Seq<
    char,
> {
    let args = joined(raw_names(sig.parameters@, 1), ", "@);
    "  return "@ + function_name_term(fname, is_async) + "(this, "@ + args + (if args.len() == 0 {
        ""@
    } else {
        ", "@
    }) + "cache"@ + (if sig.type_parameters@.len() == 0 {
        ""@
    } else {
        ", tags"@
    }) + ");"@
}

/// What the method for function `fname` writes: a method of the function's
/// name that takes the function's parameters but the first, and calls the
/// function with `this` in the first place.
pub open spec fn method_run(
    w: WriterView,
    fname: Name,
    func: Function,
    cur: ModuleIdent,
    is_async: bool,
) -> Result<WriterView, DiagnosticView> {
    let head = (if is_async {
        "async "@
    } else {
        ""@
    }) + fname.value@ + "("@;
    match parameters_run(w.new_line().writeln(head), *func.signature, cur, false, true) {
        Err(d) => Err(d),
        Ok(w2) => Ok(
            w2.writeln(") {"@).writeln("  const cache = new DummyCache();"@).writeln(
                "  const tags = (this.typeTag as StructTag).typeParams;"@,
            ).writeln(method_call_line(fname.value@, *func.signature, is_async)).writeln("}"@),
        ),
    }
}

/// What the method for function `fname` adds: the imports of its
/// parameters, and a record where the function returns a value.
pub open spec fn method_effects(
    sname: StructName,
    sdef: Rc<StructDefinition>,
    fname: Name,
    func: Function,
    cur: ModuleIdent,
) -> Effects {
    method_refs(func, cur).plus(printer_record(sname, sdef, fname, func, cur))
}

/// The imports that the parameters of a method need.
pub open spec fn method_refs(func: Function, cur: ModuleIdent) -> Effects {
    parameters_refs(*func.signature, cur, false, true)
}

/// The record of a method whose function returns a value.
pub open spec fn printer_record(
    sname: StructName,
    sdef: Rc<StructDefinition>,
    fname: Name,
    func: Function,
    cur: ModuleIdent,
) -> Effects {
    if func.signature.return_type.value is Unit {
        Effects::none()
    } else {
        Effects { printers: seq![(cur, sname, sdef, fname, func.signature)], ..Effects::none() }
    }
}

/// What one argument of a `method` directive writes: the method for the
/// function that it names, which has to be a function of the module that
/// can be a method of the struct.
pub open spec fn method_item_run(
    w: WriterView,
    sname: StructName,
    sdef: StructDefinition,
    attr: Attribute,
    functions: Seq<(FunctionName, Rc<Function>)>,
    cur: ModuleIdent,
    is_async: bool,
) -> Result<WriterView, DiagnosticView> {
    match attr.value {
        AttributeKind::Name(fname) => match function_index(functions, fname.value@, 0) {
            None => Err(failure(fname.loc, "This function does not exist in current module"@)),
            Some(k) => match method_error(sname, sdef, fname, *functions[k].1, cur) {
                Some(d) => Err(d),
                None => method_run(w, fname, *functions[k].1, cur, is_async),
            },
        },
        _ => Err(
            failure(attr.loc, "show directive expects only a list of function names as argument"@),
        ),
    }
}

/// What one argument of a `method` directive adds.
pub open spec fn method_item_effects(
    sname: StructName,
    sdef: Rc<StructDefinition>,
    attr: Attribute,
    functions: Seq<(FunctionName, Rc<Function>)>,
    cur: ModuleIdent,
) -> Effects {
    match attr.value {
        AttributeKind::Name(fname) => match function_index(functions, fname.value@, 0) {
            Some(k) => method_effects(sname, sdef, fname, *functions[k].1, cur),
            None => Effects::none(),
        },
        _ => Effects::none(),
    }
}

/// What the arguments of a `method` directive from position `i` on write.
pub open spec fn methods_run(
    w: WriterView,
    sname: StructName,
    sdef: StructDefinition,
    attrs: Seq<(Name, Attribute)>,
    i: int,
    functions: Seq<(FunctionName, Rc<Function>)>,
    cur: ModuleIdent,
    is_async: bool,
) -> Result<WriterView, DiagnosticView>
    decreases attrs.len() - i,
{
    if i < 0 || i >= attrs.len() {
        Ok(w)
    } else {
        match method_item_run(w, sname, sdef, attrs[i].1, functions, cur, is_async) {
            Ok(w1) => methods_run(w1, sname, sdef, attrs, i + 1, functions, cur, is_async),
            Err(d) => Err(d),
        }
    }
}

/// What the first `n` arguments of a `method` directive add.
pub open spec fn methods_effects(
    sname: StructName,
    sdef: Rc<StructDefinition>,
    attrs: Seq<(Name, Attribute)>,
    n: int,
    functions: Seq<(FunctionName, Rc<Function>)>,
    cur: ModuleIdent,
) -> Effects
    decreases n,
{
    if n <= 0 || n > attrs.len() {
        Effects::none()
    } else {
        methods_effects(sname, sdef, attrs, n - 1, functions, cur).plus(
            method_item_effects(sname, sdef, attrs[n - 1].1, functions, cur),
        )
    }
}

/// Whether an argument of a `method` directive is refused before anything
/// is written for it: it is no bare name, it names no function of the
/// module, or the function cannot be a method of the struct.
pub open spec fn method_item_refused(
    sname: StructName,
    sdef: StructDefinition,
    attr: Attribute,
    functions: Seq<(FunctionName, Rc<Function>)>,
    cur: ModuleIdent,
) -> bool {
    match attr.value {
        AttributeKind::Name(fname) => match function_index(functions, fname.value@, 0) {
            None => true,
            Some(k) => method_error(sname, sdef, fname, *functions[k].1, cur) is Some,
        },
        _ => true,
    }
}

/// Where the expansion of a `method` directive stops, from position `i` on:
/// the position of the first argument that fails, and what the arguments
/// before it have written; the length of the list, and all that was written,
/// where none fails.
pub open spec fn methods_stop(
    w: WriterView,
    sname: StructName,
    sdef: StructDefinition,
    attrs: Seq<(Name, Attribute)>,
    i: int,
    functions: Seq<(FunctionName, Rc<Function>)>,
    cur: ModuleIdent,
    is_async: bool,
) -> (int, WriterView)
    decreases attrs.len() - i,
{
    if i < 0 || i >= attrs.len() {
        (i, w)
    } else {
        match method_item_run(w, sname, sdef, attrs[i].1, functions, cur, is_async) {
            Ok(w1) => methods_stop(w1, sname, sdef, attrs, i + 1, functions, cur, is_async),
            Err(_) => (i, w),
        }
    }
}

/// What the arguments of a `method` directive add that stand before the
/// first that fails, where the directive is expanded on the writer `start`.
pub open spec fn methods_added(
    start: WriterView,
    sname: StructName,
    sdef: Rc<StructDefinition>,
    attrs: Seq<(Name, Attribute)>,
    functions: Seq<(FunctionName, Rc<Function>)>,
    cur: ModuleIdent,
    is_async: bool,
) -> Effects {
    methods_effects(
        sname,
        sdef,
        attrs,
        methods_stop(start, sname, *sdef, attrs, 0, functions, cur, is_async).0,
        functions,
        cur,
    )
}

/// Whether `after` and `written` are what a `method` directive that failed
/// leaves of the context `before` and the writer `start`: the records are
/// those of the arguments before the one that failed, and no other; and
/// where that one was refused before anything was written for it, the
/// writer holds what the arguments before it wrote, and the context what
/// they added.
pub open spec fn methods_stopped(
    start: WriterView,
    written: WriterView,
    before: Context,
    after: Context,
    sname: StructName,
    sdef: Rc<StructDefinition>,
    attrs: Seq<(Name, Attribute)>,
    functions: Seq<(FunctionName, Rc<Function>)>,
    cur: ModuleIdent,
    is_async: bool,
) -> bool {
    let stop = methods_stop(start, sname, *sdef, attrs, 0, functions, cur, is_async);
    let added = methods_added(start, sname, sdef, attrs, functions, cur, is_async);
    &&& 0 <= stop.0 < attrs.len()
    &&& after.reached(before, added)
    &&& method_item_refused(sname, *sdef, attrs[stop.0].1, functions, cur) ==> written == stop.1
        && after.follows(before, added)
}

/// Where the expansion of a `show_iter_table` directive stops, from position
/// `i` on: the position of the first argument that fails, and what the
/// arguments before it have written.
pub open spec fn shows_stop(
    w: WriterView,
    sname: StructName,
    sdef: StructDefinition,
    attrs: Seq<(Name, Attribute)>,
    i: int,
    cur: ModuleIdent,
) -> (int, WriterView)
    decreases attrs.len() - i,
{
    if i < 0 || i >= attrs.len() {
        (i, w)
    } else {
        match show_item_run(w, sname, sdef, attrs[i].1, cur) {
            Ok(w1) => shows_stop(w1, sname, sdef, attrs, i + 1, cur),
            Err(_) => (i, w),
        }
    }
}

/// What the arguments of a `show_iter_table` directive add that stand before
/// the first that fails, where the directive is expanded on the writer
/// `start`.
pub open spec fn shows_added(
    start: WriterView,
    sname: StructName,
    sdef: Rc<StructDefinition>,
    attrs: Seq<(Name, Attribute)>,
    cur: ModuleIdent,
) -> Effects {
    shows_effects(sname, sdef, attrs, shows_stop(start, sname, *sdef, attrs, 0, cur).0, cur)
}

/// Whether `after` and `written` are what a `show_iter_table` directive that
/// failed leaves of the context `before` and the writer `start`: the writer
/// holds what the arguments before the one that failed wrote, and the
/// records are theirs; nothing is written or recorded for the one that
/// failed.
pub open spec fn shows_stopped(
    start: WriterView,
    written: WriterView,
    before: Context,
    after: Context,
    sname: StructName,
    sdef: Rc<StructDefinition>,
    attrs: Seq<(Name, Attribute)>,
    cur: ModuleIdent,
) -> bool {
    let stop = shows_stop(start, sname, *sdef, attrs, 0, cur);
    &&& 0 <= stop.0 < attrs.len()
    &&& written == stop.1
    &&& after.reached(before, shows_added(start, sname, sdef, attrs, cur))
}

/// Whether each function of a module has parameters whose types can be
/// named.
pub open spec fn functions_ready(functions: Seq<(FunctionName, Rc<Function>)>) -> bool {
    forall|k: int|
        0 <= k < functions.len() ==> params_ready((#[trigger] functions[k]).1.signature.parameters@)
}

/// The type arguments of `ty`, where it is the iterable table of the
/// standard library.
pub open spec fn iter_table_args(ty: BaseType) -> Option<Seq<BaseType>> {
    match ty.value {
        BaseTypeKind::Apply { name: TypeName::ModuleType(mi, sname), args } => if address_hex(
            mi.address,
        ) == "0x1"@ && mi.module.value@ == "iterable_table"@ && sname.value@ == "IterableTable"@ {
            Some(args@)
        } else {
            None
        },
        _ => None,
    }
}

/// The reader for the iterable table in field `field`, whose keys and values
/// have the types `key` and `value`.
pub open spec fn show_lines(
    w: WriterView,
    sname: Seq<char>,
    field: Seq<char>,
    key: Seq<char>,
    value: Seq<char>,
) -> WriterView {
    w.writeln(
        "async getIterTableEntries_"@ + field + "(client: AptosClient, repo: AptosParserRepo) {"@,
    ).writeln("  const cache = new DummyCache();"@).writeln(
        "  const tags = (this.typeTag as StructTag).typeParams;"@,
    ).writeln(
        "  const iterTableField = "@ + sname + ".fields.filter(f=>f.name === '"@ + field + "')[0]"@,
    ).writeln(
        "  const typedIterTable = this."@ + field + ".toTypedIterTable<"@ + key + ","@ + value
            + ">(iterTableField);"@,
    ).writeln("  return await typedIterTable.fetchAll(client, repo);"@).writeln("}"@)
}

/// What the reader for field `field_name` writes. The field has to be a
/// field of the struct, which is not native, and its type the iterable
/// table with its two type arguments.
pub open spec fn show_run(
    w: WriterView,
    sname: StructName,
    sdef: StructDefinition,
    field_name: Name,
    cur: ModuleIdent,
) -> Result<WriterView, DiagnosticView> {
    match sdef.fields {
        StructFields::Native(_) => Err(
            failure(field_name.loc, "cannot show iterable tables from native struct"@),
        ),
        StructFields::Defined(fields) => match field_index(fields@, field_name.value@, 0) {
            None => Err(
                failure(field_name.loc, "Field "@ + field_name.value@ + " does not exist"@),
            ),
            Some(k) => match iter_table_args(fields@[k].1) {
                None => Err(
                    failure(
                        field_name.loc,
                        "Field "@ + field_name.value@ + " is not an IterableTable"@,
                    ),
                ),
                Some(targs) => if targs.len() != 2 {
                    Err(failure(fields@[k].0.loc, "IterableTable should have 2 type arguments "@))
                } else {
                    match base_ts(targs[0], cur) {
                        Err(d) => Err(d),
                        Ok(key) => match base_ts(targs[1], cur) {
                            Err(d) => Err(d),
                            Ok(value) => Ok(
                                show_lines(
                                    w.new_line(),
                                    sname.value@,
                                    field_name.value@,
                                    key,
                                    value,
                                ),
                            ),
                        },
                    }
                },
            },
        },
    }
}

/// The record of a `show_iter_table` directive for field `field_name`.
pub open spec fn show_record(
    sname: StructName,
    sdef: Rc<StructDefinition>,
    field_name: Name,
    cur: ModuleIdent,
) -> Effects {
    Effects { shows: seq![(cur, sname, sdef, field_name)], ..Effects::none() }
}

/// What the reader for field `field_name` adds where it is written: the
/// imports of the key's and the value's type, and the record of the
/// directive. A field that is refused adds nothing.
pub open spec fn show_effects(
    sname: StructName,
    sdef: Rc<StructDefinition>,
    field_name: Name,
    cur: ModuleIdent,
) -> Effects {
    match sdef.fields {
        StructFields::Defined(fields) => match field_index(fields@, field_name.value@, 0) {
            Some(k) => match iter_table_args(fields@[k].1) {
                Some(targs) => if targs.len() == 2 {
                    base_refs(targs[0], cur).plus(base_refs(targs[1], cur)).plus(
                        show_record(sname, sdef, field_name, cur),
                    )
                } else {
                    Effects::none()
                },
                None => Effects::none(),
            },
            None => Effects::none(),
        },
        _ => Effects::none(),
    }
}

/// What one argument of a `show_iter_table` directive writes.
pub open spec fn show_item_run(
    w: WriterView,
    sname: StructName,
    sdef: StructDefinition,
    attr: Attribute,
    cur: ModuleIdent,
) -> Result<WriterView, DiagnosticView> {
    match attr.value {
        AttributeKind::Name(field_name) => show_run(w, sname, sdef, field_name, cur),
        _ => Err(
            failure(attr.loc, "show_iter_table directive expects only a field name as argument"@),
        ),
    }
}

/// What one argument of a `show_iter_table` directive adds.
pub open spec fn show_item_effects(
    sname: StructName,
    sdef: Rc<StructDefinition>,
    attr: Attribute,
    cur: ModuleIdent,
) -> Effects {
    match attr.value {
        AttributeKind::Name(field_name) => show_effects(sname, sdef, field_name, cur),
        _ => Effects::none(),
    }
}

/// What the arguments of a `show_iter_table` directive from position `i` on
/// write.
pub open spec fn shows_run(
    w: WriterView,
    sname: StructName,
    sdef: StructDefinition,
    attrs: Seq<(Name, Attribute)>,
    i: int,
    cur: ModuleIdent,
) -> Result<WriterView, DiagnosticView>
    decreases attrs.len() - i,
{
    if i < 0 || i >= attrs.len() {
        Ok(w)
    } else {
        match show_item_run(w, sname, sdef, attrs[i].1, cur) {
            Ok(w1) => shows_run(w1, sname, sdef, attrs, i + 1, cur),
            Err(d) => Err(d),
        }
    }
}

/// What the first `n` arguments of a `show_iter_table` directive add.
pub open spec fn shows_effects(
    sname: StructName,
    sdef: Rc<StructDefinition>,
    attrs: Seq<(Name, Attribute)>,
    n: int,
    cur: ModuleIdent,
) -> Effects
    decreases n,
{
    if n <= 0 || n > attrs.len() {
        Effects::none()
    } else {
        shows_effects(sname, sdef, attrs, n - 1, cur).plus(
            show_item_effects(sname, sdef, attrs[n - 1].1, cur),
        )
    }
}

/// Whether the type of each field of a struct can be named.
pub open spec fn fields_ready(sdef: StructDefinition) -> bool {
    match sdef.fields {
        StructFields::Defined(fields) => forall|i: int|
            0 <= i < fields@.len() ==> type_ready((#[trigger] fields@[i]).1),
        StructFields::Native(_) => true,
    }
}

/// What one directive of a struct writes. `cmd` is for functions, `method`
/// and `show_iter_table` take a list, and any other attribute is passed
/// over.
pub open spec fn struct_directive_run(
    w: WriterView,
    sname: StructName,
    sdef: StructDefinition,
    entry: (Name, Attribute),
    functions: Seq<(FunctionName, Rc<Function>)>,
    cur: ModuleIdent,
    is_async: bool,
) -> Result<WriterView, DiagnosticView> {
    let attr = entry.1;
    if entry.0.value@ == "cmd"@ {
        Err(failure(attr.loc, "the 'cmd' attribute cannot be used on structs"@))
    } else if entry.0.value@ == "method"@ {
        match attr.value {
            AttributeKind::Parameterized(_, inner) => methods_run(
                w.new_line(),
                sname,
                sdef,
                inner@,
                0,
                functions,
                cur,
                is_async,
            ),
            _ => Err(
                failure(
                    attr.loc,
                    "the 'method' attribute requires a list of function names as argument (e.g. $[method(show_x_as_y)]"@,
                ),
            ),
        }
    } else if entry.0.value@ == "show_iter_table"@ {
        match attr.value {
            AttributeKind::Parameterized(_, inner) => shows_run(
                w.new_line(),
                sname,
                sdef,
                inner@,
                0,
                cur,
            ),
            _ => Err(
                failure(
                    attr.loc,
                    "the 'show' requires a list of function names as argument (e.g. $[show(show_x_as_y)]"@,
                ),
            ),
        }
    } else {
        Ok(w)
    }
}

/// What one directive of a struct adds.
pub open spec fn struct_directive_effects(
    sname: StructName,
    sdef: Rc<StructDefinition>,
    entry: (Name, Attribute),
    functions: Seq<(FunctionName, Rc<Function>)>,
    cur: ModuleIdent,
) -> Effects {
    if entry.0.value@ == "method"@ {
        match entry.1.value {
            AttributeKind::Parameterized(_, inner) => methods_effects(
                sname,
                sdef,
                inner@,
                inner@.len() as int,
                functions,
                cur,
            ),
            _ => Effects::none(),
        }
    } else if entry.0.value@ == "show_iter_table"@ {
        match entry.1.value {
            AttributeKind::Parameterized(_, inner) => shows_effects(
                sname,
                sdef,
                inner@,
                inner@.len() as int,
                cur,
            ),
            _ => Effects::none(),
        }
    } else {
        Effects::none()
    }
}

/// What the directives of a struct from position `i` on write.
pub open spec fn struct_directives_from(
    w: WriterView,
    sname: StructName,
    sdef: StructDefinition,
    i: int,
    functions: Seq<(FunctionName, Rc<Function>)>,
    cur: ModuleIdent,
    is_async: bool,
) -> Result<WriterView, DiagnosticView>
    decreases sdef.attributes@.len() - i,
{
    if i < 0 || i >= sdef.attributes@.len() {
        Ok(w)
    } else {
        match struct_directive_run(
            w,
            sname,
            sdef,
            sdef.attributes@[i],
            functions,
            cur,
            is_async,
        ) {
            Ok(w1) => struct_directives_from(w1, sname, sdef, i + 1, functions, cur, is_async),
            Err(d) => Err(d),
        }
    }
}

/// Where the expansion of a struct's directives stops, from position `i`
/// on: the position of the first directive that fails, and what the
/// directives before it have written.
pub open spec fn struct_directives_stop(
    w: WriterView,
    sname: StructName,
    sdef: StructDefinition,
    i: int,
    functions: Seq<(FunctionName, Rc<Function>)>,
    cur: ModuleIdent,
    is_async: bool,
) -> (int, WriterView)
    decreases sdef.attributes@.len() - i,
{
    if i < 0 || i >= sdef.attributes@.len() {
        (i, w)
    } else {
        match struct_directive_run(
            w,
            sname,
            sdef,
            sdef.attributes@[i],
            functions,
            cur,
            is_async,
        ) {
            Ok(w1) => struct_directives_stop(w1, sname, sdef, i + 1, functions, cur, is_async),
            Err(_) => (i, w),
        }
    }
}

/// Whether `after` and `written` are what the directive `entry` of a struct,
/// which failed, leaves of the context `before` and the writer `start`,
/// where the directives before it have added `added`. A directive that is
/// refused as a whole writes and adds nothing; one that takes a list leaves
/// the empty line before it and what its list leaves.
pub open spec fn struct_directive_stopped(
    start: WriterView,
    written: WriterView,
    before: Context,
    after: Context,
    added: Effects,
    sname: StructName,
    sdef: Rc<StructDefinition>,
    entry: (Name, Attribute),
    functions: Seq<(FunctionName, Rc<Function>)>,
    cur: ModuleIdent,
    is_async: bool,
) -> bool {
    let refused = written == start && after.follows(before, added);
    if entry.0.value@ == "cmd"@ {
        refused
    } else if entry.0.value@ == "method"@ {
        match entry.1.value {
            AttributeKind::Parameterized(_, inner) => {
                let first = start.new_line();
                let stop = methods_stop(first, sname, *sdef, inner@, 0, functions, cur, is_async);
                let more = added.plus(
                    methods_added(first, sname, sdef, inner@, functions, cur, is_async),
                );
                &&& 0 <= stop.0 < inner@.len()
                &&& after.reached(before, more)
                &&& method_item_refused(sname, *sdef, inner@[stop.0].1, functions, cur)
                    ==> written == stop.1 && after.follows(before, more)
            },
            _ => refused,
        }
    } else if entry.0.value@ == "show_iter_table"@ {
        match entry.1.value {
            AttributeKind::Parameterized(_, inner) => {
                let first = start.new_line();
                let stop = shows_stop(first, sname, *sdef, inner@, 0, cur);
                let more = added.plus(shows_added(first, sname, sdef, inner@, cur));
                &&& 0 <= stop.0 < inner@.len()
                &&& written == stop.1
                &&& after.reached(before, more)
            },
            _ => refused,
        }
    } else {
        refused
    }
}

/// What has been added when the directive `entry` of a struct fails on the
/// writer `start`, where the directives before it have added `added`: that,
/// and what the arguments of its list add that stand before the first that
/// fails.
pub open spec fn struct_directive_added(
    start: WriterView,
    added: Effects,
    sname: StructName,
    sdef: Rc<StructDefinition>,
    entry: (Name, Attribute),
    functions: Seq<(FunctionName, Rc<Function>)>,
    cur: ModuleIdent,
    is_async: bool,
) -> Effects {
    if entry.0.value@ == "cmd"@ {
        added
    } else if entry.0.value@ == "method"@ {
        match entry.1.value {
            AttributeKind::Parameterized(_, inner) => added.plus(
                methods_added(start.new_line(), sname, sdef, inner@, functions, cur, is_async),
            ),
            _ => added,
        }
    } else if entry.0.value@ == "show_iter_table"@ {
        match entry.1.value {
            AttributeKind::Parameterized(_, inner) => added.plus(
                shows_added(start.new_line(), sname, sdef, inner@, cur),
            ),
            _ => added,
        }
    } else {
        added
    }
}

/// What has been added when the directives of a struct stop at the first
/// that fails.
pub open spec fn struct_directives_added(
    start: WriterView,
    sname: StructName,
    sdef: Rc<StructDefinition>,
    functions: Seq<(FunctionName, Rc<Function>)>,
    cur: ModuleIdent,
    is_async: bool,
) -> Effects {
    let stop = struct_directives_stop(start, sname, *sdef, 0, functions, cur, is_async);
    struct_directive_added(
        stop.1,
        struct_directives_effects(sname, sdef, stop.0, functions, cur),
        sname,
        sdef,
        sdef.attributes@[stop.0],
        functions,
        cur,
        is_async,
    )
}

/// Whether `after` and `written` are what the directives of a struct, one of
/// which failed, leave of the context `before` and the writer `start`.
pub open spec fn struct_directives_stopped(
    start: WriterView,
    written: WriterView,
    before: Context,
    after: Context,
    sname: StructName,
    sdef: Rc<StructDefinition>,
    functions: Seq<(FunctionName, Rc<Function>)>,
    cur: ModuleIdent,
    is_async: bool,
) -> bool {
    let stop = struct_directives_stop(start, sname, *sdef, 0, functions, cur, is_async);
    &&& 0 <= stop.0 < sdef.attributes@.len()
    &&& after.reached(
        before,
        struct_directives_added(start, sname, sdef, functions, cur, is_async),
    )
    &&& struct_directive_stopped(
        stop.1,
        written,
        before,
        after,
        struct_directives_effects(sname, sdef, stop.0, functions, cur),
        sname,
        sdef,
        sdef.attributes@[stop.0],
        functions,
        cur,
        is_async,
    )
}

/// What the first `n` directives of a struct add.
pub open spec fn struct_directives_effects(
    sname: StructName,
    sdef: Rc<StructDefinition>,
    n: int,
    functions: Seq<(FunctionName, Rc<Function>)>,
    cur: ModuleIdent,
) -> Effects
    decreases n,
{
    if n <= 0 || n > sdef.attributes@.len() {
        Effects::none()
    } else {
        struct_directives_effects(sname, sdef, n - 1, functions, cur).plus(
            struct_directive_effects(sname, sdef, sdef.attributes@[n - 1], functions, cur),
        )
    }
}

/// Whether a directive is a `method` directive that is expanded: it is named
/// `method` and takes a list.
pub open spec fn is_method_directive(entry: (Name, Attribute)) -> bool {
    entry.0.value@ == "method"@ && entry.1.value is Parameterized
}

/// Whether a struct carries a `method` directive that is expanded.
pub open spec fn carries_methods(sdef: StructDefinition) -> bool {
    exists|i: int|
        0 <= i < sdef.attributes@.len() && is_method_directive(#[trigger] sdef.attributes@[i])
}

/// Whether the functions of module `cur` can be looked up in `program`: the
/// program holds the module, and the types of its functions' parameters can
/// be named.
pub open spec fn program_ready(program: Rc<Program>, cur: ModuleIdent) -> bool {
    &&& module_index(program.modules@, cur, 0) is Some
    &&& functions_ready(functions_of(program, cur))
}

/// Whether a `method` directive can be expanded in the context `c`.
pub open spec fn methods_ready(c: Context) -> bool {
    c.current_module is Some && program_ready(c.program, c.current_module->0)
}

/// Whether the directives of a struct can be expanded: the types of the
/// struct's fields can be named, and where the struct carries a `method`
/// directive, the functions of the module can be looked up.
pub open spec fn directives_ready(c: Context, sdef: StructDefinition) -> bool {
    &&& c.current_module is Some
    &&& fields_ready(sdef)
    &&& carries_methods(sdef) ==> methods_ready(c)
}

/// Finds the module `cur` in a program.
pub fn find_module(program: &Program, cur: &ModuleIdent) -> (r: Option<usize>)
    ensures
        match r {
            Some(k) => module_index(program.modules@, *cur, 0) == Some(k as int) && k
                < program.modules@.len(),
            None => module_index(program.modules@, *cur, 0) is None,
        },
{
    let mut i: usize = 0;
    while i < program.modules.len()
        invariant
            i <= program.modules.len(),
            module_index(program.modules@, *cur, i as int) == module_index(
                program.modules@,
                *cur,
                0,
            ),
        decreases program.modules.len() - i,
    {
        if is_same_module(&program.modules[i].0, cur) {
            return Some(i);
        }
        i = i + 1;
    }
    None
}

/// Finds the function named `name` among `functions`.
pub fn find_function(functions: &Vec<(FunctionName, Rc<Function>)>, name: &Name) -> (r: Option<
    usize,
>)
    ensures
        match r {
            Some(k) => function_index(functions@, name.value@, 0) == Some(k as int) && k
                < functions@.len(),
            None => function_index(functions@, name.value@, 0) is None,
        },
{
    let mut i: usize = 0;
    while i < functions.len()
        invariant
            i <= functions.len(),
            function_index(functions@, name.value@, i as int) == function_index(
                functions@,
                name.value@,
                0,
            ),
        decreases functions.len() - i,
    {
        if same_text(&functions[i].0.value, &name.value) {
            return Some(i);
        }
        i = i + 1;
    }
    None
}

/// Finds the field named `name` among `fields`.
pub fn find_field(fields: &Vec<(Field, BaseType)>, name: &Name) -> (r: Option<usize>)
    ensures
        match r {
            Some(k) => field_index(fields@, name.value@, 0) == Some(k as int) && k < fields@.len(),
            None => field_index(fields@, name.value@, 0) is None,
        },
{
    let mut i: usize = 0;
    while i < fields.len()
        invariant
            i <= fields.len(),
            field_index(fields@, name.value@, i as int) == field_index(fields@, name.value@, 0),
        decreases fields.len() - i,
    {
        if same_text(&fields[i].0.value, &name.value) {
            return Some(i);
        }
        i = i + 1;
    }
    None
}

/// Makes the error for a function that does not take the struct first.
fn first_parameter_derr(sname: &StructName, name: &Name) -> (r: Diagnostic)
    ensures
        r@ == first_parameter_error(*sname, *name),
{
    let mut message = String::from_str("This function should have &");
    message.append(sname.value.as_str());
    message.append(" as its first parameter");
    derr(name.loc, message.as_str())
}

/// Checks that function `f`, which a `method` directive names as `name`, can
/// be a method of the struct.
pub fn validate_method(
    sname: &StructName,
    sdef: &StructDefinition,
    name: &Name,
    f: &Function,
    c: &mut Context,
) -> (r: WriteResult)
    requires
        old(c).current_module is Some,
    ensures
        match r {
            Ok(_) => method_error(*sname, *sdef, *name, *f, old(c).current_module->0) is None,
            Err(d) => method_error(*sname, *sdef, *name, *f, old(c).current_module->0) == Some(
                d@,
            ),
        },
        *final(c) == *old(c),
{
    let sig = &f.signature;
    if sig.type_parameters.len() != sdef.type_parameters.len() {
        let mut message = String::from_str(
            "This function should have the same type parameters as ",
        );
        message.append(sname.value.as_str());
        return Err(derr(name.loc, message.as_str()));
    }
    match check_tparams(&sig.type_parameters, &sdef.type_parameters) {
        Some(d) => {
            return Err(d);
        },
        None => {},
    }
    if sig.parameters.len() < 1 {
        return Err(first_parameter_derr(sname, name));
    }
    let base = match &sig.parameters[0].1.value {
        SingleTypeKind::Base(b) => b,
        SingleTypeKind::Ref(_, b) => b,
    };
    if let BaseTypeKind::Apply { name: typename, args: targs } = &base.value {
        match typename {
            TypeName::ModuleType(mi, sname2) => {
                let cur = c.module();
                if is_same_module(&cur, mi) && same_text(&sname.value, &sname2.value) {
                    if targs.len() != sdef.type_parameters.len() {
                        return Err(derr(base.loc, "Mismatched type parameters"));
                    }
                    match check_targs(targs, &sdef.type_parameters) {
                        Some(d) => {
                            return Err(d);
                        },
                        None => {},
                    }
                } else {
                    return Err(first_parameter_derr(sname, name));
                }
            },
            _ => {
                return Err(first_parameter_derr(sname, name));
            },
        }
    } else {
        return Err(first_parameter_derr(sname, name));
    }
    Ok(())
}

/// Looks for the first type parameter of a function that is not named as
/// the struct's type parameter at its position.
fn check_tparams(fps: &Vec<TParam>, sps: &Vec<StructTypeParameter>) -> (r: Option<
    Diagnostic,
>)
    ensures
        match r {
            Some(d) => tparams_error(fps@, sps@, 0) == Some(d@),
            None => tparams_error(fps@, sps@, 0) is None,
        },
{
    let mut idx: usize = 0;
    while idx < fps.len()
        invariant
            idx <= fps.len(),
            tparams_error(fps@, sps@, idx as int) == tparams_error(fps@, sps@, 0),
        decreases fps.len() - idx,
    {
        let tparam = &fps[idx];
        if idx >= sps.len() || !same_text(
            &sps[idx].param.user_specified_name.value,
            &tparam.user_specified_name.value,
        ) {
            return Some(derr(tparam.user_specified_name.loc, "Mismatched type parameters"));
        }
        idx = idx + 1;
    }
    None
}

/// Looks for the first type argument that is not the struct's type parameter
/// at its position.
fn check_targs(targs: &Vec<BaseType>, sps: &Vec<StructTypeParameter>) -> (r: Option<
    Diagnostic,
>)
    ensures
        match r {
            Some(d) => targs_error(targs@, sps@, 0) == Some(d@),
            None => targs_error(targs@, sps@, 0) is None,
        },
{
    let mut k: usize = 0;
    while k < targs.len()
        invariant
            k <= targs.len(),
            targs_error(targs@, sps@, k as int) == targs_error(targs@, sps@, 0),
        decreases targs.len() - k,
    {
        let tparam = &targs[k];
        if k >= sps.len() {
            return Some(derr(tparam.loc, "Mismatched type parameters"));
        }
        match &tparam.value {
            BaseTypeKind::Param(tp) => {
                if !same_text(
                    &sps[k].param.user_specified_name.value,
                    &tp.user_specified_name.value,
                ) {
                    return Some(derr(tparam.loc, "Mismatched type parameters"));
                }
            },
            _ => {
                return Some(derr(tparam.loc, "Mismatched type parameters"));
            },
        }
        k = k + 1;
    }
    None
}

/// The names of the parameters behind the first, as the source has them.
fn rest_names(sig: &FunctionSignature) -> (r: Vec<String>)
    ensures
        texts(r@) == raw_names(sig.parameters@, 1),
{
    let mut names: Vec<String> = Vec::new();
    let mut i: usize = 1;
    while i < sig.parameters.len()
        invariant
            1 <= i,
            sig.parameters.len() >= 1 ==> i <= sig.parameters.len(),
            sig.parameters.len() >= 1 ==> names@.len() == i - 1,
            sig.parameters.len() < 1 ==> names@.len() == 0,
            forall|j: int| 0 <= j < names@.len() ==> names@[j]@ == sig.parameters@[1 + j].0.value@,
        decreases sig.parameters.len() - i,
    {
        names.push(sig.parameters[i].0.value.clone());
        i = i + 1;
    }
    assert(texts(names@) =~= raw_names(sig.parameters@, 1));
    names
}

/// Writes the method for one function that a `method` directive names, and
/// records it where the function returns a value.
pub fn write_method(
    sname: &StructName,
    sdef: &Rc<StructDefinition>,
    fname: &Name,
    func: &Function,
    w: &mut TsgenWriter,
    c: &mut Context,
) -> (r: WriteResult)
    requires
        old(c).current_module is Some,
        params_ready(func.signature.parameters@),
    ensures
        wrote(
            r,
            final(w)@,
            method_run(
                old(w)@,
                *fname,
                *func,
                old(c).current_module->0,
                old(c).config.asynchronous,
            ),
        ),
        r is Ok ==> final(c).follows(
            *old(c),
            method_effects(*sname, *sdef, *fname, *func, old(c).current_module->0),
        ),
        r is Err ==> final(c).reached(*old(c), Effects::none()),
        r is Err ==> final(c).keeps_records(*old(c)),
        final(c).grown(*old(c)),
{
    let is_async = c.is_async();
    w.new_line();
    let mut head = String::from_str(if is_async {
        "async "
    } else {
        ""
    });
    head.append(fname.value.as_str());
    head.append("(");
    w.writeln(head.as_str());
    match write_parameters(&func.signature, w, c, false, true) {
        Ok(_) => {},
        Err(d) => {
            return Err(d);
        },
    }
    let ghost c1 = *c;
    w.writeln(") {");
    w.writeln("  const cache = new DummyCache();");
    w.writeln("  const tags = (this.typeTag as StructTag).typeParams;");
    let names = rest_names(&func.signature);
    let args_str = join(&names, ", ");
    let mut line = String::from_str("  return ");
    line.append(format_function_name(fname.value.as_str(), is_async).as_str());
    line.append("(this, ");
    line.append(args_str.as_str());
    line.append(if args_str.as_str().unicode_len() == 0 {
        ""
    } else {
        ", "
    });
    line.append("cache");
    line.append(if func.signature.type_parameters.len() == 0 {
        ""
    } else {
        ", tags"
    });
    line.append(");");
    w.writeln(line.as_str());
    w.writeln("}");
    let returns_unit = matches!(func.signature.return_type.value, TypeKind::Unit);
    if !returns_unit {
        let cur = c.module();
        c.add_printer_method(&cur, sname, sdef, fname, &func.signature);
    } else {
        proof {
            lemma_follows_none(*c);
        }
    }
    proof {
        let cur = old(c).current_module->0;
        lemma_follows_then(
            *old(c),
            c1,
            *c,
            method_refs(*func, cur),
            printer_record(*sname, *sdef, *fname, *func, cur),
        );
    }
    Ok(())
}

/// Expands a `method` directive: for each function that it names, checks
/// that the function can be a method of the struct, and writes the method.
/// It stops at the first argument that fails; one that is refused by the
/// check writes and records nothing.
pub fn handle_struct_method_directive(
    sname: &StructName,
    sdef: &Rc<StructDefinition>,
    inner_attrs: &Attributes,
    w: &mut TsgenWriter,
    c: &mut Context,
) -> (r: WriteResult)
    requires
        methods_ready(*old(c)),
    ensures
        wrote(
            r,
            final(w)@,
            methods_run(
                old(w)@,
                *sname,
                **sdef,
                inner_attrs@,
                0,
                functions_of(old(c).program, old(c).current_module->0),
                old(c).current_module->0,
                old(c).config.asynchronous,
            ),
        ),
        r is Ok ==> final(c).follows(
            *old(c),
            methods_effects(
                *sname,
                *sdef,
                inner_attrs@,
                inner_attrs@.len() as int,
                functions_of(old(c).program, old(c).current_module->0),
                old(c).current_module->0,
            ),
        ),
        r is Err ==> methods_stopped(
            old(w)@,
            final(w)@,
            *old(c),
            *final(c),
            *sname,
            *sdef,
            inner_attrs@,
            functions_of(old(c).program, old(c).current_module->0),
            old(c).current_module->0,
            old(c).config.asynchronous,
        ),
        final(c).grown(*old(c)),
{
    let ghost cur = c.current_module->0;
    let ghost functions = functions_of(c.program, cur);
    let ghost is_async = c.config.asynchronous;
    let program = share(&c.program);
    let here = c.module();
    let mdef = match find_module(&program, &here) {
        Some(k) => &program.modules[k].1,
        None => vstd::pervasive::unreached(),
    };
    assert(mdef.functions@ == functions);
    let mut i: usize = 0;
    proof {
        lemma_follows_none(*c);
    }
    while i < inner_attrs.len()
        invariant
            i <= inner_attrs.len(),
            c.current_module == Some(cur),
            old(c).current_module == Some(cur),
            c.program == old(c).program,
            c.config == old(c).config,
            is_async == c.config.asynchronous,
            functions == functions_of(old(c).program, cur),
            mdef.functions@ == functions,
            functions_ready(functions),
            methods_run(w@, *sname, **sdef, inner_attrs@, i as int, functions, cur, is_async)
                == methods_run(old(w)@, *sname, **sdef, inner_attrs@, 0, functions, cur, is_async),
            methods_stop(w@, *sname, **sdef, inner_attrs@, i as int, functions, cur, is_async)
                == methods_stop(old(w)@, *sname, **sdef, inner_attrs@, 0, functions, cur, is_async),
            old(c).config.asynchronous == is_async,
            c.follows(
                *old(c),
                methods_effects(*sname, *sdef, inner_attrs@, i as int, functions, cur),
            ),
        decreases inner_attrs.len() - i,
    {
        let pattr = &inner_attrs[i].1;
        let ghost c1 = *c;
        proof {
            lemma_follows_reached(
                *old(c),
                c1,
                methods_effects(*sname, *sdef, inner_attrs@, i as int, functions, cur),
            );
        }
        match &pattr.value {
            AttributeKind::Name(fname) => {
                let func = match find_function(&mdef.functions, fname) {
                    Some(k) => &mdef.functions[k].1,
                    None => {
                        return Err(
                            derr(fname.loc, "This function does not exist in current module"),
                        );
                    },
                };
                match validate_method(sname, sdef, fname, func, c) {
                    Ok(_) => {},
                    Err(d) => {
                        return Err(d);
                    },
                }
                match write_method(sname, sdef, fname, func, w, c) {
                    Ok(_) => {},
                    Err(d) => {
                        proof {
                            lemma_reached_more(
                                *old(c),
                                c1,
                                *c,
                                methods_effects(
                                    *sname,
                                    *sdef,
                                    inner_attrs@,
                                    i as int,
                                    functions,
                                    cur,
                                ),
                            );
                        }
                        return Err(d);
                    },
                }
            },
            _ => {
                return Err(
                    derr(
                        pattr.loc,
                        "show directive expects only a list of function names as argument",
                    ),
                );
            },
        }
        proof {
            lemma_follows_then(
                *old(c),
                c1,
                *c,
                methods_effects(*sname, *sdef, inner_attrs@, i as int, functions, cur),
                method_item_effects(*sname, *sdef, inner_attrs@[i as int].1, functions, cur),
            );
        }
        i = i + 1;
    }
    Ok(())
}

/// Writes the reader for one field that a `show_iter_table` directive
/// names, and records the directive. A field that is refused leaves the
/// writer as it was, and no record.
pub fn write_show_iter_table(
    sname: &StructName,
    sdef: &Rc<StructDefinition>,
    field_name: &Name,
    w: &mut TsgenWriter,
    c: &mut Context,
) -> (r: WriteResult)
    requires
        old(c).current_module is Some,
        fields_ready(**sdef),
    ensures
        wrote(
            r,
            final(w)@,
            show_run(old(w)@, *sname, **sdef, *field_name, old(c).current_module->0),
        ),
        r is Ok ==> final(c).follows(
            *old(c),
            show_effects(*sname, *sdef, *field_name, old(c).current_module->0),
        ),
        r is Err ==> final(w)@ == old(w)@,
        r is Err ==> final(c).reached(*old(c), Effects::none()),
        r is Err ==> final(c).keeps_records(*old(c)),
        final(c).grown(*old(c)),
{
    let ghost cur = c.current_module->0;
    let fields = match &sdef.fields {
        StructFields::Defined(fields) => fields,
        StructFields::Native(_) => {
            return Err(derr(field_name.loc, "cannot show iterable tables from native struct"));
        },
    };
    let k = match find_field(fields, field_name) {
        Some(k) => k,
        None => {
            let mut message = String::from_str("Field ");
            message.append(field_name.value.as_str());
            message.append(" does not exist");
            return Err(derr(field_name.loc, message.as_str()));
        },
    };
    let field_decl_name = &fields[k].0;
    let table_base = &fields[k].1;
    let table_targs_opt = match &table_base.value {
        BaseTypeKind::Apply { name: typename, args: targs } => match typename {
            TypeName::ModuleType(table_mi, table_sname) => {
                if !is_text(&format_address_hex(&table_mi.address), "0x1") || !is_text(
                    &table_mi.module.value,
                    "iterable_table",
                ) || !is_text(&table_sname.value, "IterableTable") {
                    None
                } else {
                    Some(targs)
                }
            },
            _ => None,
        },
        _ => None,
    };
    let table_targs = match table_targs_opt {
        Some(targs) => targs,
        None => {
            let mut message = String::from_str("Field ");
            message.append(field_name.value.as_str());
            message.append(" is not an IterableTable");
            return Err(derr(field_name.loc, message.as_str()));
        },
    };
    if table_targs.len() != 2 {
        return Err(derr(field_decl_name.loc, "IterableTable should have 2 type arguments "));
    }
    assert(type_ready(fields@[k as int].1));
    assert(type_ready(table_targs@[0]));
    assert(type_ready(table_targs@[1]));
    let key_ts_type = match base_type_to_tstype(&table_targs[0], c) {
        Ok(t) => t,
        Err(d) => {
            return Err(d);
        },
    };
    let ghost c1 = *c;
    let value_ts_type = match base_type_to_tstype(&table_targs[1], c) {
        Ok(t) => t,
        Err(d) => {
            proof {
                lemma_reached_more(*old(c), c1, *c, Effects::none());
            }
            return Err(d);
        },
    };
    let ghost c2 = *c;
    let here = c.module();
    c.add_show_iter_table(&here, sname, sdef, field_name);
    proof {
        lemma_follows_then(
            *old(c),
            c1,
            c2,
            base_refs(table_targs@[0], cur),
            base_refs(table_targs@[1], cur),
        );
        lemma_follows_then(
            *old(c),
            c2,
            *c,
            base_refs(table_targs@[0], cur).plus(base_refs(table_targs@[1], cur)),
            show_record(*sname, *sdef, *field_name, cur),
        );
    }
    w.new_line();
    let mut line = String::from_str("async getIterTableEntries_");
    line.append(field_name.value.as_str());
    line.append("(client: AptosClient, repo: AptosParserRepo) {");
    w.writeln(line.as_str());
    w.writeln("  const cache = new DummyCache();");
    w.writeln("  const tags = (this.typeTag as StructTag).typeParams;");
    let mut line = String::from_str("  const iterTableField = ");
    line.append(sname.value.as_str());
    line.append(".fields.filter(f=>f.name === '");
    line.append(field_name.value.as_str());
    line.append("')[0]");
    w.writeln(line.as_str());
    let mut line = String::from_str("  const typedIterTable = this.");
    line.append(field_name.value.as_str());
    line.append(".toTypedIterTable<");
    line.append(key_ts_type.as_str());
    line.append(",");
    line.append(value_ts_type.as_str());
    line.append(">(iterTableField);");
    w.writeln(line.as_str());
    w.writeln("  return await typedIterTable.fetchAll(client, repo);");
    w.writeln("}");
    Ok(())
}

/// Expands a `show_iter_table` directive: for each field that it names,
/// records the directive and writes the reader for the field. It stops at
/// the first field that is refused, of which nothing is written or recorded.
pub fn handle_struct_show_iter_table_directive(
    sname: &StructName,
    sdef: &Rc<StructDefinition>,
    inner_attrs: &Attributes,
    w: &mut TsgenWriter,
    c: &mut Context,
) -> (r: WriteResult)
    requires
        old(c).current_module is Some,
        fields_ready(**sdef),
    ensures
        wrote(
            r,
            final(w)@,
            shows_run(old(w)@, *sname, **sdef, inner_attrs@, 0, old(c).current_module->0),
        ),
        r is Ok ==> final(c).follows(
            *old(c),
            shows_effects(
                *sname,
                *sdef,
                inner_attrs@,
                inner_attrs@.len() as int,
                old(c).current_module->0,
            ),
        ),
        r is Err ==> shows_stopped(
            old(w)@,
            final(w)@,
            *old(c),
            *final(c),
            *sname,
            *sdef,
            inner_attrs@,
            old(c).current_module->0,
        ),
        final(c).grown(*old(c)),
{
    let ghost cur = c.current_module->0;
    let mut i: usize = 0;
    proof {
        lemma_follows_none(*c);
    }
    while i < inner_attrs.len()
        invariant
            i <= inner_attrs.len(),
            c.current_module == Some(cur),
            old(c).current_module == Some(cur),
            fields_ready(**sdef),
            shows_run(w@, *sname, **sdef, inner_attrs@, i as int, cur) == shows_run(
                old(w)@,
                *sname,
                **sdef,
                inner_attrs@,
                0,
                cur,
            ),
            shows_stop(w@, *sname, **sdef, inner_attrs@, i as int, cur) == shows_stop(
                old(w)@,
                *sname,
                **sdef,
                inner_attrs@,
                0,
                cur,
            ),
            c.follows(*old(c), shows_effects(*sname, *sdef, inner_attrs@, i as int, cur)),
        decreases inner_attrs.len() - i,
    {
        let pattr = &inner_attrs[i].1;
        let ghost c1 = *c;
        proof {
            lemma_follows_reached(
                *old(c),
                c1,
                shows_effects(*sname, *sdef, inner_attrs@, i as int, cur),
            );
        }
        match &pattr.value {
            AttributeKind::Name(field_name) => {
                match write_show_iter_table(sname, sdef, field_name, w, c) {
                    Ok(_) => {},
                    Err(d) => {
                        proof {
                            lemma_reached_more(
                                *old(c),
                                c1,
                                *c,
                                shows_effects(*sname, *sdef, inner_attrs@, i as int, cur),
                            );
                        }
                        return Err(d);
                    },
                }
            },
            _ => {
                return Err(
                    derr(
                        pattr.loc,
                        "show_iter_table directive expects only a field name as argument",
                    ),
                );
            },
        }
        proof {
            lemma_follows_then(
                *old(c),
                c1,
                *c,
                shows_effects(*sname, *sdef, inner_attrs@, i as int, cur),
                show_item_effects(*sname, *sdef, inner_attrs@[i as int].1, cur),
            );
        }
        i = i + 1;
    }
    Ok(())
}

/// Expands the directives of a struct, in their order, up to the first that
/// fails.
pub fn handle_struct_directives(
    sname: &StructName,
    sdef: &Rc<StructDefinition>,
    w: &mut TsgenWriter,
    c: &mut Context,
) -> (r: WriteResult)
    requires
        directives_ready(*old(c), **sdef),
    ensures
        wrote(
            r,
            final(w)@,
            struct_directives_from(
                old(w)@,
                *sname,
                **sdef,
                0,
                functions_of(old(c).program, old(c).current_module->0),
                old(c).current_module->0,
                old(c).config.asynchronous,
            ),
        ),
        r is Ok ==> final(c).follows(
            *old(c),
            struct_directives_effects(
                *sname,
                *sdef,
                sdef.attributes@.len() as int,
                functions_of(old(c).program, old(c).current_module->0),
                old(c).current_module->0,
            ),
        ),
        r is Err ==> struct_directives_stopped(
            old(w)@,
            final(w)@,
            *old(c),
            *final(c),
            *sname,
            *sdef,
            functions_of(old(c).program, old(c).current_module->0),
            old(c).current_module->0,
            old(c).config.asynchronous,
        ),
        final(c).grown(*old(c)),
{
    let ghost cur = c.current_module->0;
    let ghost functions = functions_of(c.program, cur);
    let ghost is_async = c.config.asynchronous;
    let attrs = &sdef.attributes;
    let mut i: usize = 0;
    proof {
        lemma_follows_none(*c);
    }
    while i < attrs.len()
        invariant
            i <= attrs.len(),
            *attrs == sdef.attributes,
            directives_ready(*c, **sdef),
            c.current_module == Some(cur),
            old(c).current_module == Some(cur),
            c.program == old(c).program,
            c.config == old(c).config,
            is_async == c.config.asynchronous,
            functions == functions_of(c.program, cur),
            struct_directives_from(w@, *sname, **sdef, i as int, functions, cur, is_async)
                == struct_directives_from(old(w)@, *sname, **sdef, 0, functions, cur, is_async),
            struct_directives_stop(w@, *sname, **sdef, i as int, functions, cur, is_async)
                == struct_directives_stop(old(w)@, *sname, **sdef, 0, functions, cur, is_async),
            c.follows(
                *old(c),
                struct_directives_effects(*sname, *sdef, i as int, functions, cur),
            ),
        decreases attrs.len() - i,
    {
        let name = &attrs[i].0;
        let attr = &attrs[i].1;
        let ghost c1 = *c;
        let ghost w1 = w@;
        let ghost added = struct_directives_effects(*sname, *sdef, i as int, functions, cur);
        proof {
            lemma_follows_reached(*old(c), c1, added);
        }
        if is_text(&name.value, "cmd") {
            return Err(derr(attr.loc, "the 'cmd' attribute cannot be used on structs"));
        } else if is_text(&name.value, "method") {
            match &attr.value {
                AttributeKind::Parameterized(_, inner_attrs) => {
                    assert(is_method_directive(sdef.attributes@[i as int]));
                    w.new_line();
                    match handle_struct_method_directive(sname, sdef, inner_attrs, w, c) {
                        Ok(_) => {},
                        Err(d) => {
                            proof {
                                let more = methods_added(
                                    w1.new_line(),
                                    *sname,
                                    *sdef,
                                    inner_attrs@,
                                    functions,
                                    cur,
                                    is_async,
                                );
                                lemma_reached_then(*old(c), c1, *c, added, more);
                                if c.follows(c1, more) {
                                    lemma_follows_then(*old(c), c1, *c, added, more);
                                }
                            }
                            return Err(d);
                        },
                    }
                },
                _ => {
                    return Err(
                        derr(
                            attr.loc,
                            "the 'method' attribute requires a list of function names as argument (e.g. $[method(show_x_as_y)]",
                        ),
                    );
                },
            }
        } else if is_text(&name.value, "show_iter_table") {
            match &attr.value {
                AttributeKind::Parameterized(_, inner_attrs) => {
                    w.new_line();
                    match handle_struct_show_iter_table_directive(sname, sdef, inner_attrs, w, c) {
                        Ok(_) => {},
                        Err(d) => {
                            proof {
                                let more = shows_added(
                                    w1.new_line(),
                                    *sname,
                                    *sdef,
                                    inner_attrs@,
                                    cur,
                                );
                                lemma_reached_then(*old(c), c1, *c, added, more);
                            }
                            return Err(d);
                        },
                    }
                },
                _ => {
                    return Err(
                        derr(
                            attr.loc,
                            "the 'show' requires a list of function names as argument (e.g. $[show(show_x_as_y)]",
                        ),
                    );
                },
            }
        } else {
            proof {
                lemma_follows_none(*c);
            }
        }
        proof {
            lemma_follows_then(
                *old(c),
                c1,
                *c,
                struct_directives_effects(*sname, *sdef, i as int, functions, cur),
                struct_directive_effects(*sname, *sdef, sdef.attributes@[i as int], functions, cur),
            );
        }
        i = i + 1;
    }
    Ok(())
}

/// A `method` directive whose first argument is refused emits nothing: the
/// writer and the context are left as they were.
pub proof fn lemma_refused_method_emits_nothing(
    start: WriterView,
    written: WriterView,
    before: Context,
    after: Context,
    sname: StructName,
    sdef: Rc<StructDefinition>,
    attrs: Seq<(Name, Attribute)>,
    functions: Seq<(FunctionName, Rc<Function>)>,
    cur: ModuleIdent,
    is_async: bool,
)
    requires
        attrs.len() >= 1,
        method_item_refused(sname, *sdef, attrs[0].1, functions, cur),
        methods_stopped(
            start,
            written,
            before,
            after,
            sname,
            sdef,
            attrs,
            functions,
            cur,
            is_async,
        ),
    ensures
        written == start,
        after.follows(before, Effects::none()),
        after.keeps_records(before),
{
}

/// A `show_iter_table` directive whose first argument fails writes nothing
/// and leaves no record.
pub proof fn lemma_refused_show_leaves_no_record(
    start: WriterView,
    written: WriterView,
    before: Context,
    after: Context,
    sname: StructName,
    sdef: Rc<StructDefinition>,
    attrs: Seq<(Name, Attribute)>,
    cur: ModuleIdent,
)
    requires
        attrs.len() >= 1,
        show_item_run(start, sname, *sdef, attrs[0].1, cur) is Err,
        shows_stopped(start, written, before, after, sname, sdef, attrs, cur),
    ensures
        written == start,
        after.keeps_records(before),
{
}

/// A function whose first parameter applies the struct to type arguments
/// that are not the struct's type parameters in their order cannot be a
/// method of the struct: it is refused, whatever else holds of it.
pub proof fn lemma_out_of_order_is_refused(
    sname: Name,
    sdef: StructDefinition,
    name: Name,
    f: Function,
    cur: ModuleIdent,
    at: int,
)
    requires
        f.signature.parameters@.len() >= 1,
        base_of(f.signature.parameters@[0].1).value is Apply,
        0 <= at < base_of(f.signature.parameters@[0].1).value->args@.len(),
        at >= sdef.type_parameters@.len() || !targ_matches(
            base_of(f.signature.parameters@[0].1).value->args@[at],
            sdef.type_parameters@[at],
        ),
    ensures
        method_error(sname, sdef, name, f, cur) is Some,
{
    let targs = base_of(f.signature.parameters@[0].1).value->args@;
    lemma_targs_error(targs, sdef.type_parameters@, 0, at);
}

proof fn lemma_targs_error(targs: Seq<BaseType>, sps: Seq<StructTypeParameter>, i: int, at: int)
    requires
        0 <= i <= at < targs.len(),
        at >= sps.len() || !targ_matches(targs[at], sps[at]),
    ensures
        targs_error(targs, sps, i) is Some,
    decreases at - i,
{
    if i < at {
        lemma_targs_error(targs, sps, i + 1, at);
    }
}

/// Whether the directive at position `a` of a struct is a `method`
/// directive whose argument at position `k` names a function of the module
/// that cannot be a method of the struct.
pub open spec fn names_refused_method(
    sname: StructName,
    sdef: StructDefinition,
    a: int,
    k: int,
    functions: Seq<(FunctionName, Rc<Function>)>,
    cur: ModuleIdent,
) -> bool {
    &&& 0 <= a < sdef.attributes@.len()
    &&& sdef.attributes@[a].0.value@ == "method"@
    &&& match sdef.attributes@[a].1.value {
        AttributeKind::Parameterized(_, inner) => {
            &&& 0 <= k < inner@.len()
            &&& match inner@[k].1.value {
                AttributeKind::Name(fname) => match function_index(functions, fname.value@, 0) {
                    Some(j) => method_error(sname, sdef, fname, *functions[j].1, cur) is Some,
                    None => false,
                },
                _ => false,
            }
        },
        _ => false,
    }
}

proof fn lemma_methods_refused(
    w: WriterView,
    sname: StructName,
    sdef: StructDefinition,
    attrs: Seq<(Name, Attribute)>,
    i: int,
    k: int,
    functions: Seq<(FunctionName, Rc<Function>)>,
    cur: ModuleIdent,
    is_async: bool,
)
    requires
        0 <= i <= k < attrs.len(),
        forall|w1: WriterView|
            #[trigger] method_item_run(w1, sname, sdef, attrs[k].1, functions, cur, is_async)
                is Err,
    ensures
        methods_run(w, sname, sdef, attrs, i, functions, cur, is_async) is Err,
    decreases k - i,
{
    if i < k {
        match method_item_run(w, sname, sdef, attrs[i].1, functions, cur, is_async) {
            Ok(w1) => {
                lemma_methods_refused(
                    w1,
                    sname,
                    sdef,
                    attrs,
                    i + 1,
                    k,
                    functions,
                    cur,
                    is_async,
                );
            },
            Err(_) => {},
        }
    } else {
        assert(method_item_run(w, sname, sdef, attrs[k].1, functions, cur, is_async) is Err);
    }
}

proof fn lemma_directives_refused(
    w: WriterView,
    sname: StructName,
    sdef: StructDefinition,
    i: int,
    a: int,
    functions: Seq<(FunctionName, Rc<Function>)>,
    cur: ModuleIdent,
    is_async: bool,
)
    requires
        0 <= i <= a < sdef.attributes@.len(),
        forall|w1: WriterView|
            #[trigger] struct_directive_run(
                w1,
                sname,
                sdef,
                sdef.attributes@[a],
                functions,
                cur,
                is_async,
            ) is Err,
    ensures
        struct_directives_from(w, sname, sdef, i, functions, cur, is_async) is Err,
    decreases a - i,
{
    if i < a {
        match struct_directive_run(
            w,
            sname,
            sdef,
            sdef.attributes@[i],
            functions,
            cur,
            is_async,
        ) {
            Ok(w1) => {
                lemma_directives_refused(w1, sname, sdef, i + 1, a, functions, cur, is_async);
            },
            Err(_) => {},
        }
    } else {
        assert(struct_directive_run(
            w,
            sname,
            sdef,
            sdef.attributes@[a],
            functions,
            cur,
            is_async,
        ) is Err);
    }
}

/// A `method` directive that names a function which cannot be a method of
/// the struct stops the expansion of the struct's directives, whatever was
/// written before.
pub proof fn lemma_refused_method_stops_the_directives(
    w: WriterView,
    sname: StructName,
    sdef: StructDefinition,
    a: int,
    k: int,
    functions: Seq<(FunctionName, Rc<Function>)>,
    cur: ModuleIdent,
    is_async: bool,
)
    requires
        names_refused_method(sname, sdef, a, k, functions, cur),
    ensures
        struct_directives_from(w, sname, sdef, 0, functions, cur, is_async) is Err,
{
    lemma_directive_names_differ();
    let entry = sdef.attributes@[a];
    let inner = entry.1.value->Parameterized_1;
    assert forall|w1: WriterView|
        #[trigger] struct_directive_run(w1, sname, sdef, entry, functions, cur, is_async)
            is Err by {
        assert forall|w2: WriterView|
            #[trigger] method_item_run(w2, sname, sdef, inner@[k].1, functions, cur, is_async)
                is Err by {}
        lemma_methods_refused(
            w1.new_line(),
            sname,
            sdef,
            inner@,
            0,
            k,
            functions,
            cur,
            is_async,
        );
    }
    lemma_directives_refused(w, sname, sdef, 0, a, functions, cur, is_async);
}

} // verus!
