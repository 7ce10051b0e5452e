//! The translation of functions: the exported function itself, and for an
//! entry function whose arguments can be encoded the function that builds
//! the payload of a call.

use crate::ast::{
    Attribute, Function, FunctionBodyKind, FunctionName, FunctionSignature, ModuleIdent, Name,
    SingleType, Var,
};
use crate::function_directives::{
    carries_query, carries_refused_query, function_directives_effects, function_directives_from,
    function_directives_stop, handle_function_directives,
    lemma_refused_query_stops_the_directives, query_ready,
};
use crate::parameters::{parameters_refs, parameters_run, params_ready, write_parameters};
use crate::payload::{
    get_ts_handler_for_script_function_param, is_type_signer, params_encodable, payload_handler,
    payload_shape, script_function_has_valid_parameter, single_is_signer,
};
use crate::shared::{
    address_hex, format_address, format_address_hex, lemma_follows_none, lemma_follows_reached,
    lemma_follows_signed, lemma_follows_then, lemma_reached_after, lemma_reached_more,
    lemma_reached_then, names_of, package_name, share, signature_names, tparam_names, wrote,
    Context, DiagnosticView, Effects, WriteResult,
};
use crate::statements::{func_body_run, write_func_body};
use crate::text::{decimal, decimal_string, is_text, join, joined, rename, renamed, same_text, texts};
use crate::tsgen_writer::{TsgenWriter, WriterView};
use crate::value_types::{full_type_ready, type_refs, type_to_tstype, type_ts};
use std::rc::Rc;
use vstd::prelude::*;

verus! {

/// Whether `attrs` holds an attribute named `name`.
pub open spec fn has_attribute(attrs: Seq<(Name, Attribute)>, name: Seq<char>) -> bool {
    exists|i: int| 0 <= i < attrs.len() && (#[trigger] attrs[i]).0.value@ == name
}

/// Whether a function is a test: it carries the attribute `test`.
pub open spec fn is_test(func: Rc<Function>) -> bool {
    has_attribute(func.attributes@, "test"@)
}

/// Whether `params` holds a parameter named `name`.
pub open spec fn has_param(params: Seq<(Var, SingleType)>, name: Seq<char>) -> bool {
    exists|i: int| 0 <= i < params.len() && (#[trigger] params[i]).0.value@ == name
}

/// The locals of a function that are not its parameters.
pub open spec fn new_vars(locals: Seq<(Var, SingleType)>, params: Seq<(Var, SingleType)>) -> Seq<
    Var,
> {
    locals.filter(|l: (Var, SingleType)| !has_param(params, l.0.value@)).map_values(
        |l: (Var, SingleType)| l.0,
    )
}

/// The line that declares the array of type tags, with the names of the
/// type parameters in a comment.
pub open spec fn type_tags_line(sig: FunctionSignature) -> Seq<char> {
    "  $p: TypeTag[], /* <"@ + joined(names_of(sig.type_parameters@), ", "@) + ">*/"@
}

/// What the head of a function writes: the mark of a test, where tests are
/// marked, the exported name, the parameters, the data cache, the type
/// tags where the function has type parameters, and the type of the result,
/// which is a promise where functions are asynchronous.
pub open spec fn function_head_run(
    w: WriterView,
    name: FunctionName,
    func: Rc<Function>,
    cur: ModuleIdent,
    test: bool,
    is_async: bool,
) -> Result<WriterView, DiagnosticView> {
    let w0 = if test && is_test(func) {
        w.writeln("// #[test]"@)
    } else {
        w
    };
    let w1 = w0.writeln(
        "export "@ + (if is_async {
            "async "@
        } else {
            ""@
        }) + "function "@ + renamed(name.value@) + "_ ("@,
    );
    match parameters_run(w1, *func.signature, cur, false, false) {
        Err(d) => Err(d),
        Ok(w2) => {
            let w3 = w2.writeln("  $c: AptosDataCache,"@);
            let w4 = if func.signature.type_parameters@.len() > 0 {
                w3.writeln(type_tags_line(*func.signature))
            } else {
                w3
            };
            match type_ts(func.signature.return_type, cur) {
                Err(d) => Err(d),
                Ok(ret) => Ok(
                    w4.write("): "@).write(
                        if is_async {
                            "Promise<"@ + ret + ">"@
                        } else {
                            ret
                        },
                    ).write(" "@),
                ),
            }
        },
    }
}

/// The record of a test.
pub open spec fn test_record(name: FunctionName, func: Rc<Function>, test: bool) -> Effects {
    if test && is_test(func) {
        Effects { tests: seq![(name, func.signature)], ..Effects::none() }
    } else {
        Effects::none()
    }
}

/// The imports that the parameters of a function need.
pub open spec fn head_params_refs(func: Rc<Function>, cur: ModuleIdent) -> Effects {
    parameters_refs(*func.signature, cur, false, false)
}

/// The imports that the result type of a function needs.
pub open spec fn head_result_refs(func: Rc<Function>, cur: ModuleIdent) -> Effects {
    type_refs(func.signature.return_type, cur)
}

/// What the head of a function adds: the record of a test, and the imports
/// of the parameters' and the result's types.
pub open spec fn function_head_effects(
    name: FunctionName,
    func: Rc<Function>,
    cur: ModuleIdent,
    test: bool,
) -> Effects {
    test_record(name, func, test).plus(head_params_refs(func, cur)).plus(
        head_result_refs(func, cur),
    )
}

/// The reads of the first `n` type tags that a function was handed.
pub open spec fn tag_reads(n: nat) -> Seq<Seq<char>> {
    Seq::new(n, |i: int| "$p["@ + decimal(i as nat) + "]"@)
}

/// The names of the parameters in the target language.
pub open spec fn renamed_params(params: Seq<(Var, SingleType)>) -> Seq<Seq<char>> {
    Seq::new(params.len(), |i: int| renamed(params[i].0.value@))
}

/// The line by which a native function hands the call to the runtime: the
/// entry point is named by the package, the module and the function, and
/// takes the arguments, then the type tags where the function has type
/// parameters, then the data cache.
pub open spec fn native_call_line(name: FunctionName, func: Rc<Function>, cur: ModuleIdent) -> Seq<
    char,
> {
    let args = joined(renamed_params(func.signature.parameters@), ", "@);
    let n = func.signature.type_parameters@.len();
    "return $."@ + package_name(cur.address) + "_"@ + cur.module.value@ + "_"@ + name.value@ + "("@
        + args + (if args.len() == 0 {
        ""@
    } else {
        ", "@
    }) + (if n == 0 {
        ""@
    } else {
        "["@ + joined(tag_reads(n), ", "@) + "], "@
    }) + "$c"@ + ");"@
}

/// What the body of a function writes, and the empty line behind it.
pub open spec fn function_body_run(
    w: WriterView,
    name: FunctionName,
    func: Rc<Function>,
    cur: ModuleIdent,
) -> Result<WriterView, DiagnosticView> {
    match func.body.value {
        FunctionBodyKind::Native => Ok(
            w.open_block().writeln(native_call_line(name, func, cur)).close_block().new_line(),
        ),
        FunctionBodyKind::Defined { locals, body } => match func_body_run(
            w,
            body@,
            new_vars(locals@, func.signature.parameters@),
        ) {
            Ok(w1) => Ok(w1.new_line()),
            Err(d) => Err(d),
        },
    }
}

/// What the encodings of the parameters from position `i` on write, one on
/// a line; signers are left out.
pub open spec fn handlers_run(w: WriterView, params: Seq<(Var, SingleType)>, i: int) -> Result<
    WriterView,
    DiagnosticView,
>
    decreases params.len() - i,
{
    if i < 0 || i >= params.len() {
        Ok(w)
    } else if single_is_signer(params[i].1) {
        handlers_run(w, params, i + 1)
    } else {
        match payload_handler(params[i].0.value@, params[i].1) {
            Ok(h) => handlers_run(w.writeln("    "@ + h + ","@), params, i + 1),
            Err(d) => Err(d),
        }
    }
}

/// Whether each parameter is a signer.
pub open spec fn only_signers(params: Seq<(Var, SingleType)>) -> bool {
    forall|i: int| 0 <= i < params.len() ==> single_is_signer((#[trigger] params[i]).1)
}

/// What the payload builder of an entry function writes: a function that
/// takes the parameters that are no signers, and builds the payload from
/// the function's full name, the names of the type arguments, and the
/// encoded arguments in their order.
pub open spec fn payload_builder_run(
    w: WriterView,
    name: FunctionName,
    func: Rc<Function>,
    cur: ModuleIdent,
) -> Result<WriterView, DiagnosticView> {
    let sig = func.signature;
    let generic = sig.type_parameters@.len() > 0;
    match parameters_run(
        w.new_line().writeln("export function buildPayload_"@ + name.value@ + " ("@),
        *sig,
        cur,
        true,
        false,
    ) {
        Err(d) => Err(d),
        Ok(w2) => {
            let w3 = if generic {
                w2.writeln(type_tags_line(*sig))
            } else {
                w2
            };
            let w5 = w3.write(") "@).open_block().writeln(
                if generic {
                    "const typeParamStrings = $p.map(t=>$.getTypeTagFullname(t));"@
                } else {
                    "const typeParamStrings = [] as string[];"@
                },
            ).writeln("return $.buildPayload("@).writeln(
                "  \""@ + address_hex(cur.address) + "::"@ + cur.module.value@ + "::"@ + name.value@
                    + "\","@,
            ).writeln("  typeParamStrings,"@);
            if only_signers(sig.parameters@) {
                Ok(w5.writeln("  []"@).writeln(");"@).close_block().new_line())
            } else {
                match handlers_run(w5.writeln("  ["@), sig.parameters@, 0) {
                    Err(d) => Err(d),
                    Ok(w6) => Ok(w6.writeln("  ]"@).writeln(");"@).close_block().new_line()),
                }
            }
        },
    }
}

/// Whether a payload builder is written for a function: it is an entry
/// function, and each parameter is a signer or can be encoded.
pub open spec fn builds_payload(func: Rc<Function>) -> bool {
    func.entry is Some && payload_shape(func.signature.parameters@)
}

/// The imports that the parameters of a payload builder need.
pub open spec fn payload_refs(func: Rc<Function>, cur: ModuleIdent) -> Effects {
    if builds_payload(func) {
        parameters_refs(*func.signature, cur, true, false)
    } else {
        Effects::none()
    }
}

/// What a function writes behind its head: its body, the payload builder
/// where one is written, and what its directives write.
pub open spec fn function_inside_run(
    w: WriterView,
    name: FunctionName,
    func: Rc<Function>,
    cur: ModuleIdent,
) -> Result<WriterView, DiagnosticView> {
    match function_body_run(w, name, func, cur) {
        Err(d) => Err(d),
        Ok(w3) => match (if builds_payload(func) {
            payload_builder_run(w3, name, func, cur)
        } else {
            Ok(w3)
        }) {
            Err(d) => Err(d),
            Ok(w4) => function_directives_from(
                w4,
                name,
                func,
                0,
                cur,
                names_of(func.signature.type_parameters@),
            ),
        },
    }
}

/// What a function writes: its head, and what stands behind the head.
pub open spec fn function_run(
    w: WriterView,
    name: FunctionName,
    func: Rc<Function>,
    cur: ModuleIdent,
    test: bool,
    is_async: bool,
) -> Result<WriterView, DiagnosticView> {
    match function_head_run(w, name, func, cur, test, is_async) {
        Err(d) => Err(d),
        Ok(w1) => function_inside_run(w1, name, func, cur),
    }
}

/// What is recorded behind the head of a function that is not translated:
/// nothing where its body or its payload builder fails, and else what the
/// directives before the one that fails add.
pub open spec fn function_inside_recorded(
    w: WriterView,
    name: FunctionName,
    func: Rc<Function>,
    cur: ModuleIdent,
) -> Effects {
    match function_body_run(w, name, func, cur) {
        Err(_) => Effects::none(),
        Ok(w3) => match (if builds_payload(func) {
            payload_builder_run(w3, name, func, cur)
        } else {
            Ok(w3)
        }) {
            Err(_) => Effects::none(),
            Ok(w4) => function_directives_effects(
                name,
                func,
                function_directives_stop(
                    w4,
                    name,
                    func,
                    0,
                    cur,
                    names_of(func.signature.type_parameters@),
                ).0,
                cur,
            ),
        },
    }
}

/// What is recorded of a function that is not translated: the test that it
/// is, where tests are marked, and what is recorded behind its head.
pub open spec fn function_recorded(
    w: WriterView,
    name: FunctionName,
    func: Rc<Function>,
    cur: ModuleIdent,
    test: bool,
    is_async: bool,
) -> Effects {
    match function_head_run(w, name, func, cur, test, is_async) {
        Err(_) => test_record(name, func, test),
        Ok(w1) => test_record(name, func, test).plus(
            function_inside_recorded(w1, name, func, cur),
        ),
    }
}

/// What a function adds behind its head: the imports of the payload
/// builder's parameters, and what its directives add.
pub open spec fn function_inside_effects(
    name: FunctionName,
    func: Rc<Function>,
    cur: ModuleIdent,
) -> Effects {
    payload_refs(func, cur).plus(
        function_directives_effects(name, func, func.attributes@.len() as int, cur),
    )
}

/// What a function adds: what its head adds, and what is added behind the
/// head.
pub open spec fn function_effects(
    name: FunctionName,
    func: Rc<Function>,
    cur: ModuleIdent,
    test: bool,
) -> Effects {
    function_head_effects(name, func, cur, test).plus(function_inside_effects(name, func, cur))
}

/// Whether a function can be translated: the types of its parameters and of
/// its result can be named; where it is an entry function, its parameters
/// can be asked for their encoding; and where it carries a `query`
/// directive, the companion of the query can be written for it.
pub open spec fn function_ready(func: Rc<Function>) -> bool {
    &&& params_ready(func.signature.parameters@)
    &&& full_type_ready(func.signature.return_type)
    &&& func.entry is Some ==> params_encodable(func.signature.parameters@)
    &&& carries_query(func) ==> query_ready(func, names_of(func.signature.type_parameters@))
}

/// The signature that is in force while `func` is translated.
pub open spec fn signature_in_force(func: Rc<Function>) -> Option<Rc<FunctionSignature>> {
    Some(func.signature)
}

/// Whether a function carries the attribute `test`.
pub fn check_test(func: &Rc<Function>) -> (r: bool)
    ensures
        r == is_test(*func),
{
    let mut i: usize = 0;
    while i < func.attributes.len()
        invariant
            i <= func.attributes.len(),
            forall|j: int| 0 <= j < i ==> (#[trigger] func.attributes@[j]).0.value@ != "test"@,
        decreases func.attributes.len() - i,
    {
        if is_text(&func.attributes[i].0.value, "test") {
            return true;
        }
        i = i + 1;
    }
    false
}

/// Writes the head of a function, and records the function where it is a
/// test and tests are marked.
pub fn write_function_head(
    name: &FunctionName,
    func: &Rc<Function>,
    w: &mut TsgenWriter,
    c: &mut Context,
) -> (r: WriteResult)
    requires
        old(c).current_module is Some,
        params_ready(func.signature.parameters@),
        full_type_ready(func.signature.return_type),
    ensures
        wrote(
            r,
            final(w)@,
            function_head_run(
                old(w)@,
                *name,
                *func,
                old(c).current_module->0,
                old(c).config.test,
                old(c).config.asynchronous,
            ),
        ),
        r is Ok ==> final(c).follows(
            *old(c),
            function_head_effects(*name, *func, old(c).current_module->0, old(c).config.test),
        ),
        final(c).reached(*old(c), test_record(*name, *func, old(c).config.test)),
        final(c).grown(*old(c)),
{
    let ghost cur = c.current_module->0;
    let ghost test = c.config.test;
    if c.config.test && check_test(func) {
        c.tests.push((name.clone(), share(&func.signature)));
        w.writeln("// #[test]");
    }
    assert(c.follows(*old(c), test_record(*name, *func, test)));
    let ghost c1 = *c;
    proof {
        lemma_follows_reached(*old(c), c1, test_record(*name, *func, test));
    }
    let is_async = c.is_async();
    let mut line = String::from_str("export ");
    line.append(if is_async {
        "async "
    } else {
        ""
    });
    line.append("function ");
    line.append(rename(name.value.as_str()).as_str());
    line.append("_ (");
    w.writeln(line.as_str());
    match write_parameters(&func.signature, w, c, false, false) {
        Ok(_) => {},
        Err(d) => {
            proof {
                lemma_reached_more(*old(c), c1, *c, test_record(*name, *func, test));
            }
            return Err(d);
        },
    }
    let ghost c2 = *c;
    proof {
        lemma_reached_more(*old(c), c1, c2, test_record(*name, *func, test));
    }
    w.writeln("  $c: AptosDataCache,");
    if func.signature.type_parameters.len() > 0 {
        let names = tparam_names(&func.signature.type_parameters);
        let mut line = String::from_str("  $p: TypeTag[], /* <");
        line.append(join(&names, ", ").as_str());
        line.append(">*/");
        w.writeln(line.as_str());
    }
    w.write("): ");
    let ret_type_str = match type_to_tstype(&func.signature.return_type, c) {
        Ok(t) => t,
        Err(d) => {
            proof {
                lemma_reached_more(*old(c), c2, *c, test_record(*name, *func, test));
            }
            return Err(d);
        },
    };
    proof {
        lemma_reached_more(*old(c), c2, *c, test_record(*name, *func, test));
    }
    if is_async {
        let mut out = String::from_str("Promise<");
        out.append(ret_type_str.as_str());
        out.append(">");
        w.write(out.as_str());
    } else {
        w.write(ret_type_str.as_str());
    }
    w.write(" ");
    proof {
        lemma_follows_then(
            *old(c),
            c1,
            c2,
            test_record(*name, *func, test),
            head_params_refs(*func, cur),
        );
        lemma_follows_then(
            *old(c),
            c2,
            *c,
            test_record(*name, *func, test).plus(head_params_refs(*func, cur)),
            head_result_refs(*func, cur),
        );
    }
    Ok(())
}

/// Whether `params` holds a parameter named `name`.
fn is_parameter(params: &Vec<(Var, SingleType)>, name: &Name) -> (r: bool)
    ensures
        r == has_param(params@, name.value@),
{
    let mut i: usize = 0;
    while i < params.len()
        invariant
            i <= params.len(),
            forall|j: int| 0 <= j < i ==> (#[trigger] params@[j]).0.value@ != name.value@,
        decreases params.len() - i,
    {
        if same_text(&params[i].0.value, &name.value) {
            return true;
        }
        i = i + 1;
    }
    false
}

/// The locals of a function that are not its parameters.
fn locals_behind_parameters(
    locals: &Vec<(Var, SingleType)>,
    params: &Vec<(Var, SingleType)>,
) -> (r: Vec<Var>)
    ensures
        r@ == new_vars(locals@, params@),
{
    let ghost keep = |l: (Var, SingleType)| !has_param(params@, l.0.value@);
    let ghost pick = |l: (Var, SingleType)| l.0;
    let mut vars: Vec<Var> = Vec::new();
    let mut k: usize = 0;
    proof {
        reveal(Seq::filter);
        assert(locals@.take(0) =~= Seq::<(Var, SingleType)>::empty());
        assert(vars@ =~= locals@.take(0).filter(keep).map_values(pick));
    }
    while k < locals.len()
        invariant
            k <= locals.len(),
            keep == |l: (Var, SingleType)| !has_param(params@, l.0.value@),
            pick == |l: (Var, SingleType)| l.0,
            vars@ == locals@.take(k as int).filter(keep).map_values(pick),
        decreases locals.len() - k,
    {
        let ghost before = vars@;
        proof {
            reveal(Seq::filter);
            assert(locals@.take(k + 1).drop_last() =~= locals@.take(k as int));
        }
        if !is_parameter(params, &locals[k].0) {
            vars.push(locals[k].0.clone());
            assert(vars@ =~= before.push(locals@[k as int].0));
            assert(locals@.take(k + 1).filter(keep) =~= locals@.take(k as int).filter(keep).push(
                locals@[k as int],
            ));
            assert(vars@ =~= locals@.take(k + 1).filter(keep).map_values(pick));
        }
        k = k + 1;
    }
    assert(locals@.take(k as int) =~= locals@);
    vars
}

/// The names of the parameters in the target language.
fn renamed_parameter_names(params: &Vec<(Var, SingleType)>) -> (r: Vec<String>)
    ensures
        texts(r@) == renamed_params(params@),
{
    let mut names: Vec<String> = Vec::new();
    let mut i: usize = 0;
    while i < params.len()
        invariant
            i <= params.len(),
            names@.len() == i,
            forall|j: int| 0 <= j < i ==> names@[j]@ == renamed(params@[j].0.value@),
        decreases params.len() - i,
    {
        names.push(rename(params[i].0.value.as_str()));
        i = i + 1;
    }
    assert(texts(names@) =~= renamed_params(params@));
    names
}

/// The reads of the first `n` type tags that a function was handed.
fn type_tag_reads(n: usize) -> (r: Vec<String>)
    ensures
        texts(r@) == tag_reads(n as nat),
{
    let mut reads: Vec<String> = Vec::new();
    let mut i: usize = 0;
    while i < n
        invariant
            i <= n,
            reads@.len() == i,
            forall|j: int| 0 <= j < i ==> reads@[j]@ == "$p["@ + decimal(j as nat) + "]"@,
        decreases n - i,
    {
        let mut read = String::from_str("$p[");
        read.append(decimal_string(i).as_str());
        read.append("]");
        reads.push(read);
        i = i + 1;
    }
    assert(texts(reads@) =~= tag_reads(n as nat));
    reads
}

/// Writes the body of a function, and an empty line behind it. The body of
/// a native function is one call of the runtime.
pub fn write_function_body(
    name: &FunctionName,
    func: &Rc<Function>,
    w: &mut TsgenWriter,
    c: &mut Context,
) -> (r: WriteResult)
    requires
        old(c).current_module is Some,
    ensures
        wrote(r, final(w)@, function_body_run(old(w)@, *name, *func, old(c).current_module->0)),
        *final(c) == *old(c),
{
    match &func.body.value {
        FunctionBodyKind::Native => {
            let mident = c.module();
            let mut line = String::from_str("return $.");
            line.append(format_address(&mident.address).as_str());
            line.append("_");
            line.append(mident.module.value.as_str());
            line.append("_");
            line.append(name.value.as_str());
            line.append("(");
            let args = join(&renamed_parameter_names(&func.signature.parameters), ", ");
            line.append(args.as_str());
            line.append(if args.as_str().unicode_len() == 0 {
                ""
            } else {
                ", "
            });
            let num_tparams = func.signature.type_parameters.len();
            if num_tparams == 0 {
                line.append("");
            } else {
                let mut tags = String::from_str("[");
                tags.append(join(&type_tag_reads(num_tparams), ", ").as_str());
                tags.append("], ");
                line.append(tags.as_str());
            }
            line.append("$c");
            line.append(");");
            w.open_block();
            w.writeln(line.as_str());
            w.close_block();
        },
        FunctionBodyKind::Defined { locals, body } => {
            let vars = locals_behind_parameters(locals, &func.signature.parameters);
            match write_func_body(body, &vars, w, c) {
                Ok(_) => {},
                Err(d) => {
                    return Err(d);
                },
            }
        },
    }
    w.new_line();
    Ok(())
}

/// Whether each parameter is a signer.
fn has_only_signers(params: &Vec<(Var, SingleType)>) -> (r: bool)
    ensures
        r == only_signers(params@),
{
    let mut i: usize = 0;
    while i < params.len()
        invariant
            i <= params.len(),
            forall|j: int| 0 <= j < i ==> single_is_signer((#[trigger] params@[j]).1),
        decreases params.len() - i,
    {
        if !is_type_signer(&params[i].1) {
            return false;
        }
        i = i + 1;
    }
    true
}

/// Writes the payload builder of an entry function.
pub fn write_payload_builder(
    name: &FunctionName,
    func: &Rc<Function>,
    w: &mut TsgenWriter,
    c: &mut Context,
) -> (r: WriteResult)
    requires
        old(c).current_module is Some,
        params_ready(func.signature.parameters@),
        params_encodable(func.signature.parameters@),
    ensures
        wrote(r, final(w)@, payload_builder_run(old(w)@, *name, *func, old(c).current_module->0)),
        r is Ok ==> final(c).follows(
            *old(c),
            parameters_refs(*func.signature, old(c).current_module->0, true, false),
        ),
        final(c).reached(*old(c), Effects::none()),
        final(c).grown(*old(c)),
{
    let ghost cur = c.current_module->0;
    let num_tparams = func.signature.type_parameters.len();
    w.new_line();
    let mut line = String::from_str("export function buildPayload_");
    line.append(name.value.as_str());
    line.append(" (");
    w.writeln(line.as_str());
    match write_parameters(&func.signature, w, c, true, false) {
        Ok(_) => {},
        Err(d) => {
            return Err(d);
        },
    }
    if num_tparams > 0 {
        let names = tparam_names(&func.signature.type_parameters);
        let mut line = String::from_str("  $p: TypeTag[], /* <");
        line.append(join(&names, ", ").as_str());
        line.append(">*/");
        w.writeln(line.as_str());
    }
    w.write(") ");
    w.open_block();
    let mident = c.module();
    let address = format_address_hex(&mident.address);
    if num_tparams > 0 {
        w.writeln("const typeParamStrings = $p.map(t=>$.getTypeTagFullname(t));");
    } else {
        w.writeln("const typeParamStrings = [] as string[];");
    }
    w.writeln("return $.buildPayload(");
    let mut line = String::from_str("  \"");
    line.append(address.as_str());
    line.append("::");
    line.append(mident.module.value.as_str());
    line.append("::");
    line.append(name.value.as_str());
    line.append("\",");
    w.writeln(line.as_str());
    w.writeln("  typeParamStrings,");
    let params = &func.signature.parameters;
    if has_only_signers(params) {
        w.writeln("  []");
    } else {
        w.writeln("  [");
        let ghost start = w@;
        let mut i: usize = 0;
        while i < params.len()
            invariant
                i <= params.len(),
                *params == func.signature.parameters,
                old(c).current_module == Some(cur),
                c.grown(*old(c)),
                c.reached(*old(c), Effects::none()),
                params_encodable(params@),
                !only_signers(params@),
                handlers_run(w@, params@, i as int) == handlers_run(start, params@, 0),
                payload_builder_run(old(w)@, *name, *func, cur) == match handlers_run(
                    start,
                    params@,
                    0,
                ) {
                    Err(d) => Err::<WriterView, DiagnosticView>(d),
                    Ok(w6) => Ok::<WriterView, DiagnosticView>(
                        w6.writeln("  ]"@).writeln(");"@).close_block().new_line(),
                    ),
                },
            decreases params.len() - i,
        {
            if !is_type_signer(&params[i].1) {
                let handler = match get_ts_handler_for_script_function_param(
                    &params[i].0,
                    &params[i].1,
                ) {
                    Ok(h) => h,
                    Err(d) => {
                        return Err(d);
                    },
                };
                let mut line = String::from_str("    ");
                line.append(handler.as_str());
                line.append(",");
                w.writeln(line.as_str());
            }
            i = i + 1;
        }
        w.writeln("  ]");
    }
    w.writeln(");");
    w.close_block();
    w.new_line();
    Ok(())
}

/// Writes what stands behind the head of a function, whose signature is the
/// one in force.
fn write_function_inside(
    name: &FunctionName,
    func: &Rc<Function>,
    w: &mut TsgenWriter,
    c: &mut Context,
) -> (r: WriteResult)
    requires
        old(c).current_module is Some,
        function_ready(*func),
        old(c).current_function_signature == signature_in_force(*func),
    ensures
        wrote(
            r,
            final(w)@,
            function_inside_run(old(w)@, *name, *func, old(c).current_module->0),
        ),
        r is Ok ==> final(c).follows(
            *old(c),
            function_inside_effects(*name, *func, old(c).current_module->0),
        ),
        r is Err ==> final(c).reached(
            *old(c),
            function_inside_recorded(old(w)@, *name, *func, old(c).current_module->0),
        ),
        final(c).grown(*old(c)),
{
    let ghost cur = c.current_module->0;
    assert(signature_names(c.current_function_signature) =~= names_of(
        func.signature.type_parameters@,
    ));
    match write_function_body(name, func, w, c) {
        Ok(_) => {},
        Err(d) => {
            return Err(d);
        },
    }
    if func.entry.is_some() && script_function_has_valid_parameter(&func.signature) {
        match write_payload_builder(name, func, w, c) {
            Ok(_) => {},
            Err(d) => {
                return Err(d);
            },
        }
    } else {
        proof {
            lemma_follows_none(*c);
        }
    }
    let ghost c2 = *c;
    let ghost w4 = w@;
    assert(c2.reached(*old(c), Effects::none()));
    match handle_function_directives(name, func, w, c) {
        Ok(_) => {},
        Err(d) => {
            proof {
                lemma_reached_after(
                    *old(c),
                    c2,
                    *c,
                    function_directives_effects(
                        *name,
                        *func,
                        function_directives_stop(
                            w4,
                            *name,
                            *func,
                            0,
                            cur,
                            type_parameter_names(*func),
                        ).0,
                        cur,
                    ),
                );
            }
            return Err(d);
        },
    }
    proof {
        lemma_follows_then(
            *old(c),
            c2,
            *c,
            payload_refs(*func, cur),
            function_directives_effects(*name, *func, func.attributes@.len() as int, cur),
        );
    }
    Ok(())
}

/// Translates a function. While its body and directives are translated, its
/// signature is the one in force; afterwards none is.
pub fn write_function(
    name: &FunctionName,
    func: &Rc<Function>,
    w: &mut TsgenWriter,
    c: &mut Context,
) -> (r: WriteResult)
    requires
        old(c).current_module is Some,
        function_ready(*func),
    ensures
        wrote(
            r,
            final(w)@,
            function_run(
                old(w)@,
                *name,
                *func,
                old(c).current_module->0,
                old(c).config.test,
                old(c).config.asynchronous,
            ),
        ),
        r is Ok ==> final(c).follows(
            old(c).outside_function(),
            function_effects(*name, *func, old(c).current_module->0, old(c).config.test),
        ),
        r is Err ==> final(c).outside_function().reached(
            old(c).outside_function(),
            function_recorded(
                old(w)@,
                *name,
                *func,
                old(c).current_module->0,
                old(c).config.test,
                old(c).config.asynchronous,
            ),
        ),
        final(c).grown(*old(c)),
{
    let ghost cur = c.current_module->0;
    let ghost test = c.config.test;
    match write_function_head(name, func, w, c) {
        Ok(_) => {},
        Err(d) => {
            return Err(d);
        },
    }
    let ghost head = function_head_effects(*name, *func, cur, test);
    let ghost sig = signature_in_force(*func);
    proof {
        lemma_follows_signed(*old(c), *c, head, sig);
    }
    c.current_function_signature = Some(share(&func.signature));
    let ghost c1 = *c;
    assert(c1.follows(old(c).signed(sig), head));
    assert(c1.grown(*old(c)));
    let ghost w1 = w@;
    match write_function_inside(name, func, w, c) {
        Ok(_) => {},
        Err(d) => {
            proof {
                lemma_reached_then(
                    *old(c),
                    c1.signed(old(c).current_function_signature),
                    c.signed(old(c).current_function_signature),
                    test_record(*name, *func, test),
                    function_inside_recorded(w1, *name, *func, cur),
                );
            }
            return Err(d);
        },
    }
    let ghost c3 = *c;
    proof {
        lemma_follows_then(
            old(c).signed(sig),
            c1,
            c3,
            head,
            function_inside_effects(*name, *func, cur),
        );
        lemma_follows_signed(
            old(c).signed(sig),
            c3,
            function_effects(*name, *func, cur, test),
            None,
        );
    }
    c.current_function_signature = None;
    assert(*c == c3.signed(None));
    assert(old(c).signed(sig).signed(None) == old(c).outside_function());
    assert(c.grown(c3));
    Ok(())
}

/// A function that carries a `query` directive, while its body does not
/// end by publishing a resource, is not translated.
pub proof fn lemma_refused_query_stops_the_function(
    w: WriterView,
    name: FunctionName,
    func: Rc<Function>,
    a: int,
    cur: ModuleIdent,
    test: bool,
    is_async: bool,
)
    requires
        carries_refused_query(func, a),
    ensures
        function_run(w, name, func, cur, test, is_async) is Err,
{
    match function_head_run(w, name, func, cur, test, is_async) {
        Ok(w1) => match function_body_run(w1, name, func, cur) {
            Ok(w3) => {
                let built = if builds_payload(func) {
                    payload_builder_run(w3, name, func, cur)
                } else {
                    Ok(w3)
                };
                match built {
                    Ok(w4) => {
                        lemma_refused_query_stops_the_directives(
                            w4,
                            name,
                            func,
                            a,
                            cur,
                            type_parameter_names(func),
                        );
                    },
                    Err(_) => {},
                }
            },
            Err(_) => {},
        },
        Err(_) => {},
    }
}

/// The names of the type parameters of a function.
pub open spec fn type_parameter_names(func: Rc<Function>) -> Seq<Seq<char>> {
    names_of(func.signature.type_parameters@)
}

} // verus!
