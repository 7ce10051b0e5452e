//! The directives that a function can carry: `cmd`, which records an entry
//! function for the command line, and `query`, which adds a function that
//! simulates the call and decodes the resource that it publishes.

use crate::ast::{
    Attribute, AttributeKind, Attributes, BaseType, BaseTypeKind, CommandKind, ExpShape, Function,
    FunctionBodyKind, FunctionName, FunctionSignature, ModuleIdent, Name, SingleType,
    StatementKind, TypeName, Var,
};
use crate::parameters::{parameters_refs, parameters_run, params_ready, write_parameters};
use crate::payload::{is_type_signer, single_is_signer};
use crate::shared::{
    attribute_text, base_type_to_typetag, derr, extract_attribute_value_string, failure,
    lemma_directive_names_differ, lemma_follows_none, lemma_follows_reached,
    lemma_follows_then, lemma_reached_more, signature_names, tag_ready, tag_result, wrote,
    CmdView, Context, DiagnosticView, Effects, WriteResult,
};
use crate::text::{is_text, join, joined, texts};
use crate::tsgen_writer::{TsgenWriter, WriterView};
use std::rc::Rc;
use vstd::prelude::*;

verus! {

/// The description that the parameters of a `cmd` directive from position
/// `i` on give, where `desc` is what those before gave. The only parameter
/// is `desc`, with a byte string.
pub open spec fn cmd_desc(params: Seq<(Name, Attribute)>, i: int, desc: Option<Seq<char>>) -> Result<
    Option<Seq<char>>,
    DiagnosticView,
>
    decreases params.len() - i,
{
    if i < 0 || i >= params.len() {
        Ok(desc)
    } else if params[i].0.value@ == "desc"@ {
        match attribute_text(params[i].1) {
            Some(t) => cmd_desc(params, i + 1, Some(t)),
            None => Err(
                failure(
                    params[i].1.loc,
                    "desc needs to be assigned a byte string value (e.g. b\"description\")"@,
                ),
            ),
        }
    } else {
        Err(failure(params[i].0.loc, "Unrecognized parameter to cmd directive"@))
    }
}

/// The description that a `cmd` directive gives the function, or why the
/// directive is refused: it is for entry functions.
pub open spec fn cmd_result(fname: FunctionName, f: Rc<Function>, inner: Option<&Attributes>) -> Result<
    Option<Seq<char>>,
    DiagnosticView,
> {
    if f.entry is None {
        Err(failure(fname.loc, "the cmd attribute only works on public entry functions"@))
    } else {
        match inner {
            Some(params) => cmd_desc(params@, 0, None),
            None => Ok(None),
        }
    }
}

/// The record that a `cmd` directive leaves.
pub open spec fn cmd_effects(
    fname: FunctionName,
    f: Rc<Function>,
    inner: Option<&Attributes>,
    cur: ModuleIdent,
) -> Effects {
    match cmd_result(fname, f, inner) {
        Ok(desc) => Effects {
            cmds: seq![CmdView { mi: cur, fname: fname, func: f, desc: desc }],
            ..Effects::none()
        },
        Err(_) => Effects::none(),
    }
}

/// The message for a function that does not end as a query has to.
pub open spec fn query_shape_message() -> Seq<char> {
    "the query attribute can only be used on entry functions with a move_to<X>(signer, x); as the final statement"@
}

/// The arguments that the companion of a query hands to the payload
/// builder: the parameters that are no signers, and the type tags where the
/// function has type parameters.
pub open spec fn query_args(sig: FunctionSignature) -> Seq<Seq<char>> {
    let names = sig.parameters@.filter(|p: (Var, SingleType)| !single_is_signer(p.1)).map_values(
        |p: (Var, SingleType)| p.0.value@,
    );
    if sig.type_parameters@.len() == 0 {
        names
    } else {
        names.push("$p"@)
    }
}

/// What the companion of a query writes: a function that builds the
/// payload of the call, submits it as a simulation, and decodes from the
/// outcome the struct that the call publishes, whose type is `return_type`.
pub open spec fn query_function_run(
    w: WriterView,
    fname: FunctionName,
    f: Rc<Function>,
    return_type: BaseType,
    cur: ModuleIdent,
    names: Seq<Seq<char>>,
) -> Result<WriterView, DiagnosticView> {
    let w1 = w.writeln("export async function query_"@ + fname.value@ + "("@).increase_indent().writeln(
        "client: AptosClient,"@,
    ).writeln("account: AptosAccount,"@).writeln("repo: AptosParserRepo,"@);
    match parameters_run(w1, *f.signature, cur, true, false) {
        Err(d) => Err(d),
        Ok(w2) => {
            let w3 = w2.writeln("$p: TypeTag[],"@).decrease_indent().writeln(") {"@);
            match return_type.value {
                BaseTypeKind::Apply { name: TypeName::ModuleType(_, name), args: _ } => {
                    let w4 = w3.increase_indent().writeln(
                        "const payload = buildPayload_"@ + fname.value@ + "("@ + joined(
                            query_args(*f.signature),
                            ", "@,
                        ) + ");"@,
                    );
                    match tag_result(return_type, names, false) {
                        Err(d) => Err(d),
                        Ok(tag) => Ok(
                            w4.writeln("const outputTypeTag = "@ + tag + ";"@).writeln(
                                "const output = await $.simulatePayloadTx(client, account, payload);"@,
                            ).writeln(
                                "return $.takeSimulationValue<"@ + name.value@
                                    + ">(output, outputTypeTag, repo)"@,
                            ).decrease_indent().writeln("}"@),
                        ),
                    }
                },
                _ => Err(failure(return_type.loc, "Expect move_to to contain a struct type"@)),
            }
        },
    }
}

/// The type of the resource that the last statement of a function's body
/// publishes, where the body ends with just that.
pub open spec fn published(f: Rc<Function>) -> Option<BaseType> {
    match f.body.value {
        FunctionBodyKind::Defined { locals: _, body } => if body@.len() > 0 {
            match body@[body@.len() - 1].value {
                StatementKind::Command(cmd) => match cmd.value {
                    CommandKind::Return { from_user: _, exp } => match exp.shape {
                        ExpShape::MoveTo(base) => Some(base),
                        _ => None,
                    },
                    _ => None,
                },
                _ => None,
            }
        } else {
            None
        },
        _ => None,
    }
}

/// What a `query` directive writes: the companion of the function, which
/// has to be an entry function whose body ends by publishing a resource.
pub open spec fn query_run(
    w: WriterView,
    fname: FunctionName,
    f: Rc<Function>,
    cur: ModuleIdent,
    names: Seq<Seq<char>>,
) -> Result<WriterView, DiagnosticView> {
    if f.entry is None {
        Err(failure(fname.loc, "the query attribute only works on public entry functions"@))
    } else {
        match f.body.value {
            FunctionBodyKind::Native => Err(
                failure(
                    fname.loc,
                    "the query attribute can only be used on user-defined entry functions"@,
                ),
            ),
            FunctionBodyKind::Defined { locals: _, body } => if body@.len() == 0 {
                Err(failure(f.body.loc, query_shape_message()))
            } else {
                match published(f) {
                    Some(base) => query_function_run(w, fname, f, base, cur, names),
                    None => Err(failure(body@[body@.len() - 1].loc, query_shape_message())),
                }
            },
        }
    }
}

/// What a `query` directive adds: the imports of the companion's
/// parameters, and the record of the function.
pub open spec fn query_effects(fname: FunctionName, f: Rc<Function>, cur: ModuleIdent) -> Effects {
    query_refs(f, cur).plus(query_record(fname, f, cur))
}

/// The imports that the parameters of a query's companion need.
pub open spec fn query_refs(f: Rc<Function>, cur: ModuleIdent) -> Effects {
    parameters_refs(*f.signature, cur, true, false)
}

/// The record of a function that a `query` directive names.
pub open spec fn query_record(fname: FunctionName, f: Rc<Function>, cur: ModuleIdent) -> Effects {
    Effects {
        queries: seq![CmdView { mi: cur, fname: fname, func: f, desc: None }],
        ..Effects::none()
    }
}

/// Whether the companion of a query can be written for a function: the
/// types of its parameters can be named, and a tag can be made of the type
/// that it publishes.
pub open spec fn query_ready(f: Rc<Function>, names: Seq<Seq<char>>) -> bool {
    &&& params_ready(f.signature.parameters@)
    &&& match published(f) {
        Some(base) => tag_ready(base, names),
        None => true,
    }
}

/// Whether a `query` directive on a function is refused before anything is
/// written for it: the function is no entry function, or its body does not
/// end by publishing a resource.
pub open spec fn query_refused(f: Rc<Function>) -> bool {
    f.entry is None || published(f) is None
}

/// Whether a directive is a `query` directive that is expanded: it is named
/// `query` and takes nothing.
pub open spec fn is_query_directive(entry: (Name, Attribute)) -> bool {
    entry.0.value@ == "query"@ && entry.1.value is Name
}

/// Whether a function carries a `query` directive that is expanded.
pub open spec fn carries_query(f: Rc<Function>) -> bool {
    exists|i: int| 0 <= i < f.attributes@.len() && is_query_directive(#[trigger] f.attributes@[i])
}

/// What one directive of a function writes. `cmd` takes a list or nothing,
/// `query` takes nothing, `method` is for structs, and any other
/// attribute is passed over.
pub open spec fn function_directive_run(
    w: WriterView,
    fname: FunctionName,
    f: Rc<Function>,
    entry: (Name, Attribute),
    cur: ModuleIdent,
    names: Seq<Seq<char>>,
) -> Result<WriterView, DiagnosticView> {
    let attr = entry.1;
    if entry.0.value@ == "cmd"@ {
        match attr.value {
            AttributeKind::Parameterized(_, inner) => match cmd_result(fname, f, Some(&inner)) {
                Ok(_) => Ok(w.new_line()),
                Err(d) => Err(d),
            },
            AttributeKind::Name(_) => match cmd_result(fname, f, None) {
                Ok(_) => Ok(w.new_line()),
                Err(d) => Err(d),
            },
            AttributeKind::Assigned(_, _) => Err(
                failure(attr.loc, "the 'cmd' attribute cannot be assigned"@),
            ),
        }
    } else if entry.0.value@ == "query"@ {
        match attr.value {
            AttributeKind::Name(_) => query_run(w.new_line(), fname, f, cur, names),
            _ => Err(failure(attr.loc, "the 'query' attribute has no parameters"@)),
        }
    } else if entry.0.value@ == "method"@ {
        Err(failure(attr.loc, "the 'method' attribute can only be used on structs"@))
    } else {
        Ok(w)
    }
}

/// What one directive of a function adds.
pub open spec fn function_directive_effects(
    fname: FunctionName,
    f: Rc<Function>,
    entry: (Name, Attribute),
    cur: ModuleIdent,
) -> Effects {
    if entry.0.value@ == "cmd"@ {
        match entry.1.value {
            AttributeKind::Parameterized(_, inner) => cmd_effects(fname, f, Some(&inner), cur),
            AttributeKind::Name(_) => cmd_effects(fname, f, None, cur),
            _ => Effects::none(),
        }
    } else if entry.0.value@ == "query"@ {
        match entry.1.value {
            AttributeKind::Name(_) => query_effects(fname, f, cur),
            _ => Effects::none(),
        }
    } else {
        Effects::none()
    }
}

/// What a directive that fails leaves of the writer `w`, where nothing is
/// written for the directive itself: `w` where the directive is refused by
/// its name or by what it takes, `w` and the empty line before a `cmd`
/// directive or a `query` directive whose function is refused. `None`
/// where the directive fails while its text is written, and where it
/// cannot fail.
pub open spec fn function_directive_halt(
    w: WriterView,
    f: Rc<Function>,
    entry: (Name, Attribute),
) -> Option<WriterView> {
    if entry.0.value@ == "cmd"@ {
        match entry.1.value {
            AttributeKind::Assigned(_, _) => Some(w),
            _ => Some(w.new_line()),
        }
    } else if entry.0.value@ == "query"@ {
        match entry.1.value {
            AttributeKind::Name(_) => if query_refused(f) {
                Some(w.new_line())
            } else {
                None
            },
            _ => Some(w),
        }
    } else if entry.0.value@ == "method"@ {
        Some(w)
    } else {
        None
    }
}

/// Where the expansion of a function's directives stops, from position `i`
/// on: the position of the first directive that fails, and what the
/// directives before it have written.
pub open spec fn function_directives_stop(
    w: WriterView,
    fname: FunctionName,
    f: Rc<Function>,
    i: int,
    cur: ModuleIdent,
    names: Seq<Seq<char>>,
) -> (int, WriterView)
    decreases f.attributes@.len() - i,
{
    if i < 0 || i >= f.attributes@.len() {
        (i, w)
    } else {
        match function_directive_run(w, fname, f, f.attributes@[i], cur, names) {
            Ok(w1) => function_directives_stop(w1, fname, f, i + 1, cur, names),
            Err(_) => (i, w),
        }
    }
}

/// Whether `after` and `written` are what the directives of a function,
/// one of which failed, leave of the context `before` and the writer
/// `start`: the records are those of the directives before the one that
/// failed, and no other; and where nothing is written for that one, the
/// writer holds what those before it wrote, and the context what they
/// added.
pub open spec fn function_directives_stopped(
    start: WriterView,
    written: WriterView,
    before: Context,
    after: Context,
    fname: FunctionName,
    f: Rc<Function>,
    cur: ModuleIdent,
    names: Seq<Seq<char>>,
) -> bool {
    let stop = function_directives_stop(start, fname, f, 0, cur, names);
    let added = function_directives_effects(fname, f, stop.0, cur);
    &&& 0 <= stop.0 < f.attributes@.len()
    &&& after.reached(before, added)
    &&& match function_directive_halt(stop.1, f, f.attributes@[stop.0]) {
        Some(left) => written == left && after.follows(before, added),
        None => true,
    }
}

/// What the directives of a function from position `i` on write.
pub open spec fn function_directives_from(
    w: WriterView,
    fname: FunctionName,
    f: Rc<Function>,
    i: int,
    cur: ModuleIdent,
    names: Seq<Seq<char>>,
) -> Result<WriterView, DiagnosticView>
    decreases f.attributes@.len() - i,
{
    if i < 0 || i >= f.attributes@.len() {
        Ok(w)
    } else {
        match function_directive_run(w, fname, f, f.attributes@[i], cur, names) {
            Ok(w1) => function_directives_from(w1, fname, f, i + 1, cur, names),
            Err(d) => Err(d),
        }
    }
}

/// What the first `n` directives of a function add.
pub open spec fn function_directives_effects(
    fname: FunctionName,
    f: Rc<Function>,
    n: int,
    cur: ModuleIdent,
) -> Effects
    decreases n,
{
    if n <= 0 || n > f.attributes@.len() {
        Effects::none()
    } else {
        function_directives_effects(fname, f, n - 1, cur).plus(
            function_directive_effects(fname, f, f.attributes@[n - 1], cur),
        )
    }
}

/// Expands a `cmd` directive: records the entry function, with the
/// description that the directive gives it, to be offered on the command
/// line. Nothing is written.
pub fn handle_function_cmd_directive(
    fname: &FunctionName,
    f: &Rc<Function>,
    inner_attrs: Option<&Attributes>,
    _w: &mut TsgenWriter,
    c: &mut Context,
) -> (r: WriteResult)
    requires
        old(c).current_module is Some,
    ensures
        match r {
            Ok(_) => cmd_result(*fname, *f, inner_attrs) is Ok,
            Err(d) => cmd_result(*fname, *f, inner_attrs) == Err::<Option<Seq<char>>, DiagnosticView>(
                d@,
            ),
        },
        r is Ok ==> final(c).follows(
            *old(c),
            cmd_effects(*fname, *f, inner_attrs, old(c).current_module->0),
        ),
        r is Err ==> *final(c) == *old(c),
        *final(_w) == *old(_w),
{
    if f.entry.is_none() {
        return Err(derr(fname.loc, "the cmd attribute only works on public entry functions"));
    }
    let mut desc: Option<String> = None;
    if let Some(params) = inner_attrs {
        let mut i: usize = 0;
        while i < params.len()
            invariant
                i <= params.len(),
                inner_attrs == Some(params),
                f.entry is Some,
                cmd_desc(
                    params@,
                    i as int,
                    match desc {
                        Some(s) => Some(s@),
                        None => None,
                    },
                ) == cmd_desc(params@, 0, None),
            decreases params.len() - i,
        {
            let pname = &params[i].0;
            let pattr = &params[i].1;
            if is_text(&pname.value, "desc") {
                if let Some(str_desc) = extract_attribute_value_string(pattr) {
                    desc = Some(str_desc);
                } else {
                    return Err(
                        derr(
                            pattr.loc,
                            "desc needs to be assigned a byte string value (e.g. b\"description\")",
                        ),
                    );
                }
            } else {
                return Err(derr(pname.loc, "Unrecognized parameter to cmd directive"));
            }
            i = i + 1;
        }
    }
    let cur = c.module();
    c.add_cmd(&cur, fname, f, desc);
    Ok(())
}

/// The arguments that the companion of a query hands to the payload
/// builder.
fn query_arg_names(sig: &FunctionSignature) -> (r: Vec<String>)
    ensures
        texts(r@) == query_args(*sig),
{
    let ghost keep = |p: (Var, SingleType)| !single_is_signer(p.1);
    let ghost raw = |p: (Var, SingleType)| p.0.value@;
    let mut names: Vec<String> = Vec::new();
    let mut k: usize = 0;
    proof {
        reveal(Seq::filter);
        assert(sig.parameters@.take(0) =~= Seq::<(Var, SingleType)>::empty());
        assert(texts(names@) =~= sig.parameters@.take(0).filter(keep).map_values(raw));
    }
    while k < sig.parameters.len()
        invariant
            k <= sig.parameters.len(),
            keep == |p: (Var, SingleType)| !single_is_signer(p.1),
            raw == |p: (Var, SingleType)| p.0.value@,
            texts(names@) == sig.parameters@.take(k as int).filter(keep).map_values(raw),
        decreases sig.parameters.len() - k,
    {
        let ghost before = texts(names@);
        proof {
            reveal(Seq::filter);
            assert(sig.parameters@.take(k + 1).drop_last() =~= sig.parameters@.take(k as int));
        }
        if !is_type_signer(&sig.parameters[k].1) {
            names.push(sig.parameters[k].0.value.clone());
            assert(texts(names@) =~= before.push(sig.parameters@[k as int].0.value@));
            assert(sig.parameters@.take(k + 1).filter(keep) =~= sig.parameters@.take(
                k as int,
            ).filter(keep).push(sig.parameters@[k as int]));
            assert(texts(names@) =~= sig.parameters@.take(k + 1).filter(keep).map_values(raw));
        }
        k = k + 1;
    }
    assert(sig.parameters@.take(k as int) =~= sig.parameters@);
    if sig.type_parameters.len() != 0 {
        let ghost before = texts(names@);
        names.push(String::from_str("$p"));
        assert(texts(names@) =~= before.push("$p"@));
    }
    names
}

/// Writes the companion of a query: a function that simulates the call and
/// decodes the struct of type `return_type` that the call publishes.
pub fn write_query_function(
    fname: &FunctionName,
    f: &Rc<Function>,
    return_type: &BaseType,
    w: &mut TsgenWriter,
    c: &mut Context,
) -> (r: WriteResult)
    requires
        old(c).current_module is Some,
        params_ready(f.signature.parameters@),
        tag_ready(*return_type, signature_names(old(c).current_function_signature)),
    ensures
        wrote(
            r,
            final(w)@,
            query_function_run(
                old(w)@,
                *fname,
                *f,
                *return_type,
                old(c).current_module->0,
                signature_names(old(c).current_function_signature),
            ),
        ),
        r is Ok ==> final(c).follows(*old(c), query_refs(*f, old(c).current_module->0)),
        final(c).reached(*old(c), Effects::none()),
        final(c).grown(*old(c)),
{
    let mut head = String::from_str("export async function query_");
    head.append(fname.value.as_str());
    head.append("(");
    w.writeln(head.as_str());
    w.increase_indent();
    w.writeln("client: AptosClient,");
    w.writeln("account: AptosAccount,");
    w.writeln("repo: AptosParserRepo,");
    match write_parameters(&f.signature, w, c, true, false) {
        Ok(_) => {},
        Err(d) => {
            return Err(d);
        },
    }
    w.writeln("$p: TypeTag[],");
    w.decrease_indent();
    w.writeln(") {");
    let param_list = query_arg_names(&f.signature);
    let output_struct_name = match &return_type.value {
        BaseTypeKind::Apply { name: tn, args: _ } => match tn {
            TypeName::ModuleType(_, name) => name.value.clone(),
            _ => {
                return Err(derr(return_type.loc, "Expect move_to to contain a struct type"));
            },
        },
        _ => {
            return Err(derr(return_type.loc, "Expect move_to to contain a struct type"));
        },
    };
    w.increase_indent();
    let mut line = String::from_str("const payload = buildPayload_");
    line.append(fname.value.as_str());
    line.append("(");
    line.append(join(&param_list, ", ").as_str());
    line.append(");");
    w.writeln(line.as_str());
    let output_tag = match base_type_to_typetag(return_type, c) {
        Ok(t) => t,
        Err(d) => {
            return Err(d);
        },
    };
    let mut line = String::from_str("const outputTypeTag = ");
    line.append(output_tag.as_str());
    line.append(";");
    w.writeln(line.as_str());
    w.writeln("const output = await $.simulatePayloadTx(client, account, payload);");
    let mut line = String::from_str("return $.takeSimulationValue<");
    line.append(output_struct_name.as_str());
    line.append(">(output, outputTypeTag, repo)");
    w.writeln(line.as_str());
    w.decrease_indent();
    w.writeln("}");
    Ok(())
}

/// Expands a `query` directive: checks that the function is an entry
/// function whose body ends by publishing a resource, writes its companion,
/// and records the function. A function that is refused by the check leaves
/// the writer and the context as they were, and no failure leaves a record.
pub fn handle_function_query_directive(
    fname: &FunctionName,
    f: &Rc<Function>,
    w: &mut TsgenWriter,
    c: &mut Context,
) -> (r: WriteResult)
    requires
        old(c).current_module is Some,
        query_ready(*f, signature_names(old(c).current_function_signature)),
    ensures
        wrote(
            r,
            final(w)@,
            query_run(
                old(w)@,
                *fname,
                *f,
                old(c).current_module->0,
                signature_names(old(c).current_function_signature),
            ),
        ),
        r is Ok ==> final(c).follows(*old(c), query_effects(*fname, *f, old(c).current_module->0)),
        r is Err ==> final(c).reached(*old(c), Effects::none()),
        r is Err ==> final(c).keeps_records(*old(c)),
        r is Err && query_refused(*f) ==> final(w)@ == old(w)@ && *final(c) == *old(c),
        final(c).grown(*old(c)),
{
    if f.entry.is_none() {
        return Err(derr(fname.loc, "the query attribute only works on public entry functions"));
    }
    match &f.body.value {
        FunctionBodyKind::Native => Err(
            derr(
                fname.loc,
                "the query attribute can only be used on user-defined entry functions",
            ),
        ),
        FunctionBodyKind::Defined { locals: _, body } => {
            if body.len() == 0 {
                return Err(
                    derr(
                        f.body.loc,
                        "the query attribute can only be used on entry functions with a move_to<X>(signer, x); as the final statement",
                    ),
                );
            }
            let last_stmt = &body[body.len() - 1];
            let base = match &last_stmt.value {
                StatementKind::Command(command) => match &command.value {
                    CommandKind::Return { from_user: _, exp } => match &exp.shape {
                        ExpShape::MoveTo(base) => Some(base),
                        _ => None,
                    },
                    _ => None,
                },
                _ => None,
            };
            match base {
                Some(base) => {
                    match write_query_function(fname, f, base, w, c) {
                        Ok(_) => {},
                        Err(d) => {
                            return Err(d);
                        },
                    }
                    let ghost c1 = *c;
                    let cur = c.module();
                    c.add_query(&cur, fname, f);
                    proof {
                        lemma_follows_then(
                            *old(c),
                            c1,
                            *c,
                            query_refs(*f, cur),
                            query_record(*fname, *f, cur),
                        );
                    }
                    Ok(())
                },
                None => Err(
                    derr(
                        last_stmt.loc,
                        "the query attribute can only be used on entry functions with a move_to<X>(signer, x); as the final statement",
                    ),
                ),
            }
        },
    }
}

/// Expands the directives of a function, in their order, up to the first
/// that fails. A directive that is refused records nothing.
pub fn handle_function_directives(
    fname: &FunctionName,
    f: &Rc<Function>,
    w: &mut TsgenWriter,
    c: &mut Context,
) -> (r: WriteResult)
    requires
        old(c).current_module is Some,
        carries_query(*f) ==> query_ready(*f, signature_names(old(c).current_function_signature)),
    ensures
        wrote(
            r,
            final(w)@,
            function_directives_from(
                old(w)@,
                *fname,
                *f,
                0,
                old(c).current_module->0,
                signature_names(old(c).current_function_signature),
            ),
        ),
        r is Ok ==> final(c).follows(
            *old(c),
            function_directives_effects(
                *fname,
                *f,
                f.attributes@.len() as int,
                old(c).current_module->0,
            ),
        ),
        r is Err ==> function_directives_stopped(
            old(w)@,
            final(w)@,
            *old(c),
            *final(c),
            *fname,
            *f,
            old(c).current_module->0,
            signature_names(old(c).current_function_signature),
        ),
        final(c).grown(*old(c)),
{
    let ghost cur = c.current_module->0;
    let ghost names = signature_names(c.current_function_signature);
    let attrs = &f.attributes;
    let mut i: usize = 0;
    proof {
        lemma_follows_none(*c);
    }
    while i < attrs.len()
        invariant
            i <= attrs.len(),
            *attrs == f.attributes,
            c.current_module == Some(cur),
            old(c).current_module == Some(cur),
            c.current_function_signature == old(c).current_function_signature,
            names == signature_names(c.current_function_signature),
            carries_query(*f) ==> query_ready(*f, names),
            function_directives_from(w@, *fname, *f, i as int, cur, names)
                == function_directives_from(old(w)@, *fname, *f, 0, cur, names),
            function_directives_stop(w@, *fname, *f, i as int, cur, names)
                == function_directives_stop(old(w)@, *fname, *f, 0, cur, names),
            names == signature_names(old(c).current_function_signature),
            c.follows(*old(c), function_directives_effects(*fname, *f, i as int, cur)),
        decreases attrs.len() - i,
    {
        let name = &attrs[i].0;
        let attr = &attrs[i].1;
        let ghost c1 = *c;
        proof {
            lemma_follows_reached(
                *old(c),
                c1,
                function_directives_effects(*fname, *f, i as int, cur),
            );
        }
        if is_text(&name.value, "cmd") {
            match &attr.value {
                AttributeKind::Parameterized(_, inner_attrs) => {
                    w.new_line();
                    match handle_function_cmd_directive(fname, f, Some(inner_attrs), w, c) {
                        Ok(_) => {},
                        Err(d) => {
                            return Err(d);
                        },
                    }
                },
                AttributeKind::Name(_) => {
                    w.new_line();
                    match handle_function_cmd_directive(fname, f, None, w, c) {
                        Ok(_) => {},
                        Err(d) => {
                            return Err(d);
                        },
                    }
                },
                AttributeKind::Assigned(_, _) => {
                    return Err(derr(attr.loc, "the 'cmd' attribute cannot be assigned"));
                },
            }
        } else if is_text(&name.value, "query") {
            match &attr.value {
                AttributeKind::Name(_) => {
                    assert(is_query_directive(f.attributes@[i as int]));
                    w.new_line();
                    match handle_function_query_directive(fname, f, w, c) {
                        Ok(_) => {},
                        Err(d) => {
                            proof {
                                lemma_reached_more(
                                    *old(c),
                                    c1,
                                    *c,
                                    function_directives_effects(*fname, *f, i as int, cur),
                                );
                            }
                            return Err(d);
                        },
                    }
                },
                _ => {
                    return Err(derr(attr.loc, "the 'query' attribute has no parameters"));
                },
            }
        } else if is_text(&name.value, "method") {
            return Err(derr(attr.loc, "the 'method' attribute can only be used on structs"));
        } else {
            proof {
                lemma_follows_none(*c);
            }
        }
        proof {
            lemma_follows_then(
                *old(c),
                c1,
                *c,
                function_directives_effects(*fname, *f, i as int, cur),
                function_directive_effects(*fname, *f, f.attributes@[i as int], cur),
            );
        }
        i = i + 1;
    }
    Ok(())
}

/// A function whose body does not end by publishing a resource has no
/// companion: the `query` directive is refused.
pub proof fn lemma_query_needs_publish(
    w: WriterView,
    fname: FunctionName,
    f: Rc<Function>,
    cur: ModuleIdent,
    names: Seq<Seq<char>>,
)
    requires
        published(f) is None,
    ensures
        query_run(w, fname, f, cur, names) is Err,
{
}

/// Where the first directive of a function fails, no record is left of the
/// function; and where nothing is written for the directive, the context is
/// left as it was.
pub proof fn lemma_refused_directive_records_nothing(
    start: WriterView,
    written: WriterView,
    before: Context,
    after: Context,
    fname: FunctionName,
    f: Rc<Function>,
    cur: ModuleIdent,
    names: Seq<Seq<char>>,
)
    requires
        f.attributes@.len() >= 1,
        function_directive_run(start, fname, f, f.attributes@[0], cur, names) is Err,
        function_directives_stopped(start, written, before, after, fname, f, cur, names),
    ensures
        after.keeps_records(before),
        function_directive_halt(start, f, f.attributes@[0]) is Some ==> written
            == function_directive_halt(start, f, f.attributes@[0])->0 && after.follows(
            before,
            Effects::none(),
        ),
{
}

/// The directive at position `a` of a function.
pub open spec fn directive_at(f: Rc<Function>, a: int) -> (Name, Attribute) {
    f.attributes@[a]
}

/// Whether the directive at position `a` of a function is a `query`
/// directive, while the body of the function does not end by publishing a
/// resource.
pub open spec fn carries_refused_query(f: Rc<Function>, a: int) -> bool {
    &&& 0 <= a < f.attributes@.len()
    &&& f.attributes@[a].0.value@ == "query"@
    &&& f.attributes@[a].1.value is Name
    &&& published(f) is None
}

proof fn lemma_function_directives_refused(
    w: WriterView,
    fname: FunctionName,
    f: Rc<Function>,
    i: int,
    a: int,
    cur: ModuleIdent,
    names: Seq<Seq<char>>,
)
    requires
        0 <= i <= a,
        carries_refused_query(f, a),
        forall|w1: WriterView|
            #[trigger] function_directive_run(w1, fname, f, directive_at(f, a), cur, names) is Err,
    ensures
        function_directives_from(w, fname, f, i, cur, names) is Err,
    decreases a - i,
{
    if i < a {
        match function_directive_run(w, fname, f, directive_at(f, i), cur, names) {
            Ok(w1) => {
                lemma_function_directives_refused(w1, fname, f, i + 1, a, cur, names);
            },
            Err(_) => {},
        }
    } else {
        assert(function_directive_run(w, fname, f, directive_at(f, a), cur, names) is Err);
    }
}

/// A `query` directive on a function whose body does not end by publishing
/// a resource stops the expansion of the function's directives, whatever
/// was written before.
pub proof fn lemma_refused_query_stops_the_directives(
    w: WriterView,
    fname: FunctionName,
    f: Rc<Function>,
    a: int,
    cur: ModuleIdent,
    names: Seq<Seq<char>>,
)
    requires
        carries_refused_query(f, a),
    ensures
        function_directives_from(w, fname, f, 0, cur, names) is Err,
{
    lemma_directive_names_differ();
    assert forall|w1: WriterView|
        #[trigger] function_directive_run(w1, fname, f, directive_at(f, a), cur, names)
            is Err by {
        lemma_query_needs_publish(w1.new_line(), fname, f, cur, names);
    }
    lemma_function_directives_refused(w, fname, f, 0, a, cur, names);
}

} // verus!
