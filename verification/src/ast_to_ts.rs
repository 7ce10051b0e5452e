//! The translation of a module into the text of one file: the bindings that
//! describe the module, its constants, structs and functions, the function
//! that registers the parsers of its structs, and the imports that the text
//! needs.

use crate::ast::{
    Block, Command, Constant, ConstantName, Function, FunctionName, ModuleDefinition, ModuleIdent,
    Name, Program, Statement, StructDefinition, StructFields, StructName, StructTypeParameter,
};
use crate::declarations::{
    constant_run, lemma_refused_method_stops_the_struct, struct_effects, struct_ready,
    struct_recorded, struct_run, struct_type_parameter_term, tparam_term, write_constant, write_struct,
};
use crate::function_directives::carries_refused_query;
use crate::functions::{
    function_effects, function_ready, function_recorded, function_run,
    lemma_refused_query_stops_the_function, write_function,
};
use crate::shared::{
    address_hex, cmd_views, format_address, format_address_hex, lemma_follows_grown,
    lemma_follows_next, lemma_follows_none, lemma_follows_reached, lemma_follows_signed,
    lemma_follows_then, lemma_grown_twice, lemma_reached_next, lemma_reached_signed,
    lemma_reached_then, lemma_unchanged_reached, module_noted, package_name, package_noted,
    package_views, struct_names_of, tag_ready, wrote, AstTsPrinter, Context, Diagnostic,
    DiagnosticView, Diagnostics, Effects, WriteResult,
};
use crate::statements::{
    block_run, command_run, statement_run, write_block, write_command, write_statement,
};
use crate::string_set::StringSet;
use crate::struct_directives::{
    carries_methods, fields_ready, functions_of, functions_ready, module_index,
    names_refused_method, program_ready,
};
use crate::text::{
    ascending, capitalize, capitalized, is_text, join, joined, lemma_ascending_unique, quote,
    quoted, rename, renamed, texts,
};
use crate::tsgen_writer::{TsgenWriter, WriterView};
use crate::value_types::type_ready;
use std::rc::Rc;
use vstd::prelude::*;

pub use crate::declarations::handle_special_structs;
pub use crate::function_directives::{
    handle_function_cmd_directive, handle_function_directives, handle_function_query_directive,
    write_query_function,
};
pub use crate::parameters::write_parameters;
pub use crate::payload::{
    extract_builtin_from_base_type, extract_builtin_type, get_ts_handler_for_script_function_param,
    get_ts_handler_for_vector_in_vector, is_base_type_signer, is_type_signer,
    script_function_has_valid_parameter,
};
pub use crate::statements::{
    identify_declared_vars_in_block, identify_declared_vars_in_cmd,
    identify_declared_vars_in_lvalue, identify_declared_vars_in_stmt, is_empty_block, is_exp_unit,
    write_func_body, write_simplify_constant_block,
};
pub use crate::struct_directives::{
    handle_struct_directives, handle_struct_method_directive,
    handle_struct_show_iter_table_directive, validate_method,
};
pub use crate::value_types::ts_constant_type;

verus! {

/// The class that reads a table of the standard library with typed keys and
/// values. It is added to the translation of the module that declares the
/// table.
pub const TABLE_HELPER_DECL: &'static str =
    "export class TypedTable<K, V> {\n  static buildFromField<K, V>(table: Table, field: FieldDeclType): TypedTable<K, V> {\n    const tag = field.typeTag;\n    if (!(tag instanceof StructTag)) {\n      throw new Error();\n    }\n    if (tag.getParamlessName() !== '0x1::table::Table') {\n      throw new Error();\n    }\n    if (tag.typeParams.length !== 2) {\n      throw new Error();\n    }\n    const [keyTag, valueTag] = tag.typeParams;\n    return new TypedTable<K, V>(table, keyTag, valueTag);\n  }\n\n  constructor(\n    public table: Table,\n    public keyTag: TypeTag,\n    public valueTag: TypeTag\n  ) {\n  }\n\n  async loadEntryRaw(client: AptosClient, key: K): Promise<any> {\n    return await client.getTableItem(this.table.handle.value.toString(), {\n      key_type: $.getTypeTagFullname(this.keyTag),\n      value_type: $.getTypeTagFullname(this.valueTag),\n      key: $.moveValueToOpenApiObject(key, this.keyTag),\n    });\n  }\n\n  async loadEntry(client: AptosClient, repo: AptosParserRepo, key: K): Promise<V> {\n    const rawVal = await this.loadEntryRaw(client, key);\n    return repo.parse(rawVal.data, this.valueTag);\n  }\n}\n";

/// The class that reads an iterable table of the standard library with
/// typed keys and values, entry by entry.
pub const ITERABLE_TABLE_HELPER_DECL: &'static str =
    "export class TypedIterableTable<K, V> {\n  static buildFromField<K, V>(table: IterableTable, field: FieldDeclType): TypedIterableTable<K, V> {\n    const tag = field.typeTag;\n    if (!(tag instanceof StructTag)) {\n      throw new Error();\n    }\n    if (tag.getParamlessName() !== '0x1::iterable_table::IterableTable') {\n      throw new Error();\n    }\n    if (tag.typeParams.length !== 2) {\n      throw new Error();\n    }\n    const [keyTag, valueTag] = tag.typeParams;\n    return new TypedIterableTable<K, V>(table, keyTag, valueTag);\n  }\n\n  iterValueTag: StructTag;\n\n  constructor(\n    public table: IterableTable,\n    public keyTag: TypeTag,\n    public valueTag: TypeTag\n  ) {\n    this.iterValueTag = new StructTag(moduleAddress, moduleName, \"IterableValue\", [keyTag, valueTag]);\n  }\n\n  async loadEntryRaw(client: AptosClient, key: K): Promise<any> {\n    return await client.getTableItem(this.table.inner.handle.value.toString(), {\n      key_type: $.getTypeTagFullname(this.keyTag),\n      value_type: $.getTypeTagFullname(this.iterValueTag),\n      key: $.moveValueToOpenApiObject(key, this.keyTag),\n    });\n  }\n\n  async loadEntry(client: AptosClient, repo: AptosParserRepo, key: K): Promise<IterableValue> {\n    const rawVal = await this.loadEntryRaw(client, key);\n    return repo.parse(rawVal.data, this.iterValueTag) as IterableValue;\n  }\n\n  async fetchAll(client: AptosClient, repo: AptosParserRepo): Promise<[K, V][]> {\n    const result: [K, V][] = [];\n    let next = this.table.head;\n    while (next && $.some(next)) {\n      const key = $.unwrap(next) as K;\n      const iterVal = await this.loadEntry(client, repo, key);\n      const value = iterVal.val as V;\n      result.push([key, value]);\n      next = iterVal.next;\n    }\n    return result;\n  }\n}\n";

/// After the bindings that describe a module have been written: the name of
/// its package, its address and its name.
pub open spec fn module_head(w: WriterView, name: ModuleIdent, module: ModuleDefinition) -> WriterView {
    w.export_const(
        "packageName"@,
        quoted(
            match module.package_name {
                Some(p) => p@,
                None => ""@,
            },
        ),
    ).export_const(
        "moduleAddress"@,
        "new HexString("@ + quoted(address_hex(name.address)) + ")"@,
    ).export_const("moduleName"@, quoted(name.module.value@)).new_line()
}

/// What the constants from position `i` on write.
pub open spec fn constants_run(w: WriterView, constants: Seq<(ConstantName, Constant)>, i: int) -> Result<
    WriterView,
    DiagnosticView,
>
    decreases constants.len() - i,
{
    if i < 0 || i >= constants.len() {
        Ok(w)
    } else {
        match constant_run(w, constants[i].0, constants[i].1) {
            Ok(w1) => constants_run(w1, constants, i + 1),
            Err(d) => Err(d),
        }
    }
}

/// What the structs from position `i` on write.
pub open spec fn structs_run(
    w: WriterView,
    structs: Seq<(StructName, Rc<StructDefinition>)>,
    i: int,
    functions: Seq<(FunctionName, Rc<Function>)>,
    cur: ModuleIdent,
    is_async: bool,
) -> Result<WriterView, DiagnosticView>
    decreases structs.len() - i,
{
    if i < 0 || i >= structs.len() {
        Ok(w)
    } else {
        match struct_run(w, structs[i].0, *structs[i].1, functions, cur, is_async) {
            Ok(w1) => structs_run(w1, structs, i + 1, functions, cur, is_async),
            Err(d) => Err(d),
        }
    }
}

/// What the first `n` structs add.
pub open spec fn structs_effects(
    structs: Seq<(StructName, Rc<StructDefinition>)>,
    n: int,
    functions: Seq<(FunctionName, Rc<Function>)>,
    cur: ModuleIdent,
) -> Effects
    decreases n,
{
    if n <= 0 || n > structs.len() {
        Effects::none()
    } else {
        structs_effects(structs, n - 1, functions, cur).plus(
            struct_effects(structs[n - 1].0, structs[n - 1].1, functions, cur),
        )
    }
}

/// Where the translation of the structs stops, from position `i` on: the
/// position of the first struct that fails, and what the structs before it
/// have written.
pub open spec fn structs_stop(
    w: WriterView,
    structs: Seq<(StructName, Rc<StructDefinition>)>,
    i: int,
    functions: Seq<(FunctionName, Rc<Function>)>,
    cur: ModuleIdent,
    is_async: bool,
) -> (int, WriterView)
    decreases structs.len() - i,
{
    if i < 0 || i >= structs.len() {
        (i, w)
    } else {
        match struct_run(w, structs[i].0, *structs[i].1, functions, cur, is_async) {
            Ok(w1) => structs_stop(w1, structs, i + 1, functions, cur, is_async),
            Err(_) => (i, w),
        }
    }
}

/// What is recorded of structs one of which is not translated: what the
/// structs before it add, and what is recorded of it.
pub open spec fn structs_recorded(
    start: WriterView,
    structs: Seq<(StructName, Rc<StructDefinition>)>,
    functions: Seq<(FunctionName, Rc<Function>)>,
    cur: ModuleIdent,
    is_async: bool,
) -> Effects {
    let stop = structs_stop(start, structs, 0, functions, cur, is_async);
    structs_effects(structs, stop.0, functions, cur).plus(
        struct_recorded(
            stop.1,
            structs[stop.0].0,
            structs[stop.0].1,
            functions,
            cur,
            is_async,
        ),
    )
}

/// What the functions from position `i` on write.
pub open spec fn functions_run(
    w: WriterView,
    functions: Seq<(FunctionName, Rc<Function>)>,
    i: int,
    cur: ModuleIdent,
    test: bool,
    is_async: bool,
) -> Result<WriterView, DiagnosticView>
    decreases functions.len() - i,
{
    if i < 0 || i >= functions.len() {
        Ok(w)
    } else {
        match function_run(w, functions[i].0, functions[i].1, cur, test, is_async) {
            Ok(w1) => functions_run(w1, functions, i + 1, cur, test, is_async),
            Err(d) => Err(d),
        }
    }
}

/// What the first `n` functions add.
pub open spec fn functions_effects(
    functions: Seq<(FunctionName, Rc<Function>)>,
    n: int,
    cur: ModuleIdent,
    test: bool,
) -> Effects
    decreases n,
{
    if n <= 0 || n > functions.len() {
        Effects::none()
    } else {
        functions_effects(functions, n - 1, cur, test).plus(
            function_effects(functions[n - 1].0, functions[n - 1].1, cur, test),
        )
    }
}

/// Where the translation of the functions stops, from position `i` on: the
/// position of the first function that fails, and what the functions before
/// it have written.
pub open spec fn functions_stop(
    w: WriterView,
    functions: Seq<(FunctionName, Rc<Function>)>,
    i: int,
    cur: ModuleIdent,
    test: bool,
    is_async: bool,
) -> (int, WriterView)
    decreases functions.len() - i,
{
    if i < 0 || i >= functions.len() {
        (i, w)
    } else {
        match function_run(w, functions[i].0, functions[i].1, cur, test, is_async) {
            Ok(w1) => functions_stop(w1, functions, i + 1, cur, test, is_async),
            Err(_) => (i, w),
        }
    }
}

/// What is recorded of functions one of which is not translated: what the
/// functions before it add, and what is recorded of it.
pub open spec fn functions_recorded(
    start: WriterView,
    functions: Seq<(FunctionName, Rc<Function>)>,
    cur: ModuleIdent,
    test: bool,
    is_async: bool,
) -> Effects {
    let stop = functions_stop(start, functions, 0, cur, test, is_async);
    functions_effects(functions, stop.0, cur, test).plus(
        function_recorded(
            stop.1,
            functions[stop.0].0,
            functions[stop.0].1,
            cur,
            test,
            is_async,
        ),
    )
}

/// The line that registers the parser of a struct under the struct's full
/// name: address, module and name.
pub open spec fn parser_registration(mident: ModuleIdent, sname: Seq<char>) -> Seq<char> {
    "  repo.addParser("@ + quoted(
        address_hex(mident.address) + "::"@ + mident.module.value@ + "::"@ + sname,
    ) + ", "@ + sname + "."@ + sname + "Parser);"@
}

/// After the registrations of the structs from position `i` on have been
/// written.
pub open spec fn registrations(
    w: WriterView,
    mident: ModuleIdent,
    structs: Seq<(StructName, Rc<StructDefinition>)>,
    i: int,
) -> WriterView
    decreases structs.len() - i,
{
    if i < 0 || i >= structs.len() {
        w
    } else {
        registrations(
            w.writeln(parser_registration(mident, structs[i].0.value@)),
            mident,
            structs,
            i + 1,
        )
    }
}

/// After the function that registers the parsers of a module's structs has
/// been written: one registration for each struct of the module.
pub open spec fn load_parsers(w: WriterView, mident: ModuleIdent, module: ModuleDefinition) -> WriterView {
    registrations(
        w.writeln("export function loadParsers(repo: AptosParserRepo) {"@),
        mident,
        module.structs@,
        0,
    ).writeln("}"@)
}

/// After the helper of a well-known module of the standard library has been
/// written: the typed table for the module `table` at address `0x1`, the
/// typed iterable table for the module `iterable_table` there, nothing for
/// any other module.
pub open spec fn special_module(w: WriterView, mi: ModuleIdent) -> WriterView {
    if address_hex(mi.address) == "0x1"@ {
        if mi.module.value@ == "table"@ {
            w.writeln(TABLE_HELPER_DECL@)
        } else if mi.module.value@ == "iterable_table"@ {
            w.writeln(ITERABLE_TABLE_HELPER_DECL@)
        } else {
            w
        }
    } else {
        w
    }
}

/// What a module writes: its head, its constants, structs and functions in
/// this order, the registration of its parsers, and the helper of a
/// well-known module.
pub open spec fn module_run(
    w: WriterView,
    name: ModuleIdent,
    module: ModuleDefinition,
    functions: Seq<(FunctionName, Rc<Function>)>,
    cur: ModuleIdent,
    test: bool,
    is_async: bool,
) -> Result<WriterView, DiagnosticView> {
    match constants_run(module_head(w, name, module), module.constants@, 0) {
        Err(d) => Err(d),
        Ok(w1) => match structs_run(w1.new_line(), module.structs@, 0, functions, cur, is_async) {
            Err(d) => Err(d),
            Ok(w2) => match functions_run(w2, module.functions@, 0, cur, test, is_async) {
                Err(d) => Err(d),
                Ok(w3) => Ok(special_module(load_parsers(w3, name, module), name)),
            },
        },
    }
}

/// What the structs and then the functions of a module write.
pub open spec fn declarations_run(
    w: WriterView,
    module: ModuleDefinition,
    functions: Seq<(FunctionName, Rc<Function>)>,
    cur: ModuleIdent,
    test: bool,
    is_async: bool,
) -> Result<WriterView, DiagnosticView> {
    match structs_run(w, module.structs@, 0, functions, cur, is_async) {
        Err(d) => Err(d),
        Ok(w2) => functions_run(w2, module.functions@, 0, cur, test, is_async),
    }
}

/// What is recorded of the structs and functions of a module, one of which
/// is not translated: what those before it add, and what is recorded of it.
pub open spec fn declarations_recorded(
    w: WriterView,
    module: ModuleDefinition,
    functions: Seq<(FunctionName, Rc<Function>)>,
    cur: ModuleIdent,
    test: bool,
    is_async: bool,
) -> Effects {
    match structs_run(w, module.structs@, 0, functions, cur, is_async) {
        Err(_) => structs_recorded(w, module.structs@, functions, cur, is_async),
        Ok(w2) => structs_effects(
            module.structs@,
            module.structs@.len() as int,
            functions,
            cur,
        ).plus(functions_recorded(w2, module.functions@, cur, test, is_async)),
    }
}

/// What is recorded of a module that is not translated: nothing where a
/// constant fails, and else what is recorded of its structs and functions.
pub open spec fn module_recorded(
    w: WriterView,
    name: ModuleIdent,
    module: ModuleDefinition,
    functions: Seq<(FunctionName, Rc<Function>)>,
    cur: ModuleIdent,
    test: bool,
    is_async: bool,
) -> Effects {
    match constants_run(module_head(w, name, module), module.constants@, 0) {
        Err(_) => Effects::none(),
        Ok(w1) => declarations_recorded(w1.new_line(), module, functions, cur, test, is_async),
    }
}

/// What a module adds: what its structs add, and then what its functions
/// add.
pub open spec fn module_effects(
    module: ModuleDefinition,
    functions: Seq<(FunctionName, Rc<Function>)>,
    cur: ModuleIdent,
    test: bool,
) -> Effects {
    structs_effects(module.structs@, module.structs@.len() as int, functions, cur).plus(
        functions_effects(module.functions@, module.functions@.len() as int, cur, test),
    )
}

/// Whether a module can be translated as module `cur` of `program`: each
/// vector in a type that is named has one argument, each type parameter
/// that a tag is made of is declared, no signer stands inside a vector that
/// a payload would hold, and where a struct with fields carries a `method`
/// directive, the program holds the module.
pub open spec fn module_ready(program: Rc<Program>, cur: ModuleIdent, module: ModuleDefinition) -> bool {
    &&& forall|i: int|
        0 <= i < module.constants@.len() ==> type_ready((#[trigger] module.constants@[i]).1.signature)
    &&& forall|i: int|
        0 <= i < module.structs@.len() ==> struct_parts_ready(*(#[trigger] module.structs@[i]).1)
    &&& forall|i: int|
        0 <= i < module.structs@.len() && expands_methods(*(#[trigger] module.structs@[i]).1)
            ==> program_ready(program, cur)
    &&& forall|i: int|
        0 <= i < module.functions@.len() ==> function_ready((#[trigger] module.functions@[i]).1)
}

/// Whether a struct has a `method` directive that is expanded: it has
/// fields, and carries the directive.
pub open spec fn expands_methods(sdef: StructDefinition) -> bool {
    sdef.fields is Defined && carries_methods(sdef)
}

/// Whether the types of a struct's fields can be named and given tags.
pub open spec fn struct_parts_ready(sdef: StructDefinition) -> bool {
    &&& fields_ready(sdef)
    &&& match sdef.fields {
        StructFields::Defined(fields) => forall|i: int|
            0 <= i < fields@.len() ==> tag_ready(
                (#[trigger] fields@[i]).1,
                struct_names_of(sdef.type_parameters@),
            ),
        StructFields::Native(_) => true,
    }
}

/// The context that a module's functions leave behind: outside any
/// function, where the module has a function.
pub open spec fn behind_functions(c: Context, functions: Seq<(FunctionName, Rc<Function>)>) -> Context {
    if functions.len() > 0 {
        c.outside_function()
    } else {
        c
    }
}

/// The lines that every file begins with: the imports from the runtime
/// library.
pub open spec fn preamble() -> Seq<Seq<char>> {
    seq![
        "import * as $ from \"@manahippo/move-to-ts\";"@,
        "import {AptosDataCache, AptosParserRepo, DummyCache} from \"@manahippo/move-to-ts\";"@,
        "import {U8, U64, U128} from \"@manahippo/move-to-ts\";"@,
        "import {u8, u64, u128} from \"@manahippo/move-to-ts\";"@,
        "import {TypeParamDeclType, FieldDeclType} from \"@manahippo/move-to-ts\";"@,
        "import {AtomicTypeTag, StructTag, TypeTag, VectorTag} from \"@manahippo/move-to-ts\";"@,
        "import {HexString, AptosClient, AptosAccount} from \"aptos\";"@,
    ]
}

/// The import of another package.
pub open spec fn package_import(name: Seq<char>) -> Seq<char> {
    "import * as "@ + capitalized(name) + " from \"../"@ + name + "\";"@
}

/// The import of a module of the same package.
pub open spec fn module_import(name: Seq<char>) -> Seq<char> {
    "import * as "@ + capitalized(name) + " from \"./"@ + name + "\";"@
}

/// The lines of a file: the preamble, one import for each package and one
/// for each module of the same package that the text refers to, in the
/// order of their listings, and the text.
pub open spec fn file_lines(pkgs: Seq<Seq<char>>, same: Seq<Seq<char>>, body: Seq<char>) -> Seq<
    Seq<char>,
> {
    preamble() + Seq::new(pkgs.len(), |i: int| package_import(pkgs[i])) + Seq::new(
        same.len(),
        |i: int| module_import(same[i]),
    ) + seq![body]
}

/// The text of a file: its lines, with a line break between each two.
pub open spec fn file_text(pkgs: Seq<Seq<char>>, same: Seq<Seq<char>>, body: Seq<char>) -> Seq<
    char,
> {
    joined(file_lines(pkgs, same, body), "\n"@)
}

/// The path of the file of a module: the name of its package, and in it the
/// module's name.
pub open spec fn file_name(mident: ModuleIdent) -> Seq<char> {
    package_name(mident.address) + "/"@ + mident.module.value@ + ".ts"@
}

/// Writes the function that registers the parsers of a module's structs.
pub fn write_load_parsers(
    mident: &ModuleIdent,
    module: &ModuleDefinition,
    w: &mut TsgenWriter,
    _c: &mut Context,
) -> (r: WriteResult)
    ensures
        r is Ok,
        final(w)@ == load_parsers(old(w)@, *mident, *module),
        *final(_c) == *old(_c),
{
    w.writeln("export function loadParsers(repo: AptosParserRepo) {");
    let ghost start = w@;
    let mut i: usize = 0;
    while i < module.structs.len()
        invariant
            i <= module.structs.len(),
            registrations(w@, *mident, module.structs@, i as int) == registrations(
                start,
                *mident,
                module.structs@,
                0,
            ),
        decreases module.structs.len() - i,
    {
        let sname = &module.structs[i].0;
        let mut paramless_name = format_address_hex(&mident.address);
        paramless_name.append("::");
        paramless_name.append(mident.module.value.as_str());
        paramless_name.append("::");
        paramless_name.append(sname.value.as_str());
        let mut line = String::from_str("  repo.addParser(");
        line.append(quote(paramless_name.as_str()).as_str());
        line.append(", ");
        line.append(sname.value.as_str());
        line.append(".");
        line.append(sname.value.as_str());
        line.append("Parser);");
        w.writeln(line.as_str());
        i = i + 1;
    }
    w.writeln("}");
    Ok(())
}

/// Adds the helper that is written by hand for a well-known module of the
/// standard library.
pub fn handle_special_module(
    mi: &ModuleIdent,
    _module: &ModuleDefinition,
    w: &mut TsgenWriter,
    _c: &mut Context,
) -> (r: WriteResult)
    ensures
        r is Ok,
        final(w)@ == special_module(old(w)@, *mi),
        *final(_c) == *old(_c),
{
    if is_text(&format_address_hex(&mi.address), "0x1") {
        if is_text(&mi.module.value, "table") {
            w.writeln(TABLE_HELPER_DECL);
        } else if is_text(&mi.module.value, "iterable_table") {
            w.writeln(ITERABLE_TABLE_HELPER_DECL);
        }
    }
    Ok(())
}

/// Translates the constants of a module.
fn write_constants(constants: &Vec<(ConstantName, Constant)>, w: &mut TsgenWriter, c: &mut Context) -> (r:
    WriteResult)
    requires
        forall|i: int|
            0 <= i < constants@.len() ==> type_ready((#[trigger] constants@[i]).1.signature),
    ensures
        wrote(r, final(w)@, constants_run(old(w)@, constants@, 0)),
        *final(c) == *old(c),
{
    let mut i: usize = 0;
    while i < constants.len()
        invariant
            i <= constants.len(),
            *c == *old(c),
            forall|i: int|
                0 <= i < constants@.len() ==> type_ready((#[trigger] constants@[i]).1.signature),
            constants_run(w@, constants@, i as int) == constants_run(old(w)@, constants@, 0),
        decreases constants.len() - i,
    {
        match write_constant(&constants[i].0, &constants[i].1, w, c) {
            Ok(_) => {},
            Err(d) => {
                return Err(d);
            },
        }
        i = i + 1;
    }
    Ok(())
}

/// Translates the structs of a module.
fn write_structs(
    structs: &Vec<(StructName, Rc<StructDefinition>)>,
    w: &mut TsgenWriter,
    c: &mut Context,
) -> (r: WriteResult)
    requires
        forall|i: int|
            0 <= i < structs@.len() ==> struct_ready(*old(c), *(#[trigger] structs@[i]).1),
    ensures
        wrote(
            r,
            final(w)@,
            structs_run(
                old(w)@,
                structs@,
                0,
                functions_of(old(c).program, old(c).current_module->0),
                old(c).current_module->0,
                old(c).config.asynchronous,
            ),
        ),
        r is Ok ==> final(c).follows(
            *old(c),
            structs_effects(
                structs@,
                structs@.len() as int,
                functions_of(old(c).program, old(c).current_module->0),
                old(c).current_module->0,
            ),
        ),
        r is Err ==> final(c).reached(
            *old(c),
            structs_recorded(
                old(w)@,
                structs@,
                functions_of(old(c).program, old(c).current_module->0),
                old(c).current_module->0,
                old(c).config.asynchronous,
            ),
        ),
        final(c).grown(*old(c)),
{
    let ghost cur = c.current_module->0;
    let ghost functions = functions_of(c.program, cur);
    let ghost is_async = c.config.asynchronous;
    let mut i: usize = 0;
    proof {
        lemma_follows_none(*c);
    }
    while i < structs.len()
        invariant
            i <= structs.len(),
            c.current_module == old(c).current_module,
            old(c).current_module->0 == cur,
            c.program == old(c).program,
            c.config == old(c).config,
            is_async == c.config.asynchronous,
            functions == functions_of(c.program, cur),
            forall|i: int|
                0 <= i < structs@.len() ==> struct_ready(*old(c), *(#[trigger] structs@[i]).1),
            structs_run(w@, structs@, i as int, functions, cur, is_async) == structs_run(
                old(w)@,
                structs@,
                0,
                functions,
                cur,
                is_async,
            ),
            structs_stop(w@, structs@, i as int, functions, cur, is_async) == structs_stop(
                old(w)@,
                structs@,
                0,
                functions,
                cur,
                is_async,
            ),
            c.follows(*old(c), structs_effects(structs@, i as int, functions, cur)),
        decreases structs.len() - i,
    {
        let ghost c1 = *c;
        let ghost w1 = w@;
        assert(struct_ready(*old(c), *structs@[i as int].1));
        match write_struct(&structs[i].0, &structs[i].1, w, c) {
            Ok(_) => {},
            Err(d) => {
                proof {
                    let before = structs_effects(structs@, i as int, functions, cur);
                    lemma_follows_reached(*old(c), c1, before);
                    lemma_reached_then(
                        *old(c),
                        c1,
                        *c,
                        before,
                        struct_recorded(
                            w1,
                            structs@[i as int].0,
                            structs@[i as int].1,
                            functions,
                            cur,
                            is_async,
                        ),
                    );
                }
                return Err(d);
            },
        }
        proof {
            lemma_follows_then(
                *old(c),
                c1,
                *c,
                structs_effects(structs@, i as int, functions, cur),
                struct_effects(structs@[i as int].0, structs@[i as int].1, functions, cur),
            );
        }
        i = i + 1;
    }
    Ok(())
}

/// Translates the functions of a module.
fn write_functions(
    functions: &Vec<(FunctionName, Rc<Function>)>,
    w: &mut TsgenWriter,
    c: &mut Context,
) -> (r: WriteResult)
    requires
        old(c).current_module is Some,
        forall|i: int| 0 <= i < functions@.len() ==> function_ready((#[trigger] functions@[i]).1),
    ensures
        wrote(
            r,
            final(w)@,
            functions_run(
                old(w)@,
                functions@,
                0,
                old(c).current_module->0,
                old(c).config.test,
                old(c).config.asynchronous,
            ),
        ),
        r is Ok ==> final(c).follows(
            behind_functions(*old(c), functions@),
            functions_effects(
                functions@,
                functions@.len() as int,
                old(c).current_module->0,
                old(c).config.test,
            ),
        ),
        r is Err ==> final(c).outside_function().reached(
            old(c).outside_function(),
            functions_recorded(
                old(w)@,
                functions@,
                old(c).current_module->0,
                old(c).config.test,
                old(c).config.asynchronous,
            ),
        ),
        final(c).grown(*old(c)),
{
    let ghost cur = c.current_module->0;
    let ghost test = c.config.test;
    let ghost is_async = c.config.asynchronous;
    let mut i: usize = 0;
    proof {
        lemma_follows_none(*c);
        lemma_follows_grown(*c, *c, Effects::none());
    }
    while i < functions.len()
        invariant
            i <= functions.len(),
            c.current_module == old(c).current_module,
            old(c).current_module == Some(cur),
            c.config == old(c).config,
            test == c.config.test,
            is_async == c.config.asynchronous,
            forall|i: int|
                0 <= i < functions@.len() ==> function_ready((#[trigger] functions@[i]).1),
            functions_run(w@, functions@, i as int, cur, test, is_async) == functions_run(
                old(w)@,
                functions@,
                0,
                cur,
                test,
                is_async,
            ),
            functions_stop(w@, functions@, i as int, cur, test, is_async) == functions_stop(
                old(w)@,
                functions@,
                0,
                cur,
                test,
                is_async,
            ),
            c.follows(
                if i == 0 {
                    *old(c)
                } else {
                    old(c).outside_function()
                },
                functions_effects(functions@, i as int, cur, test),
            ),
            c.grown(*old(c)),
        decreases functions.len() - i,
    {
        let ghost c1 = *c;
        let ghost w1 = w@;
        let r = write_function(&functions[i].0, &functions[i].1, w, c);
        proof {
            lemma_grown_twice(*old(c), c1, *c);
        }
        match r {
            Ok(_) => {},
            Err(d) => {
                proof {
                    lemma_reached_next(
                        *old(c),
                        c1,
                        *c,
                        i == 0,
                        functions_effects(functions@, i as int, cur, test),
                        function_recorded(
                            w1,
                            functions@[i as int].0,
                            functions@[i as int].1,
                            cur,
                            test,
                            is_async,
                        ),
                    );
                }
                return Err(d);
            },
        }
        proof {
            lemma_follows_next(
                *old(c),
                c1,
                *c,
                i == 0,
                functions_effects(functions@, i as int, cur, test),
                function_effects(functions@[i as int].0, functions@[i as int].1, cur, test),
            );
        }
        i = i + 1;
    }
    Ok(())
}

/// Translates the structs and then the functions of a module.
fn write_declarations(module: &ModuleDefinition, w: &mut TsgenWriter, c: &mut Context) -> (r:
    WriteResult)
    requires
        old(c).current_module is Some,
        module_ready(old(c).program, old(c).current_module->0, *module),
    ensures
        wrote(
            r,
            final(w)@,
            declarations_run(
                old(w)@,
                *module,
                functions_of(old(c).program, old(c).current_module->0),
                old(c).current_module->0,
                old(c).config.test,
                old(c).config.asynchronous,
            ),
        ),
        r is Ok ==> final(c).follows(
            behind_functions(*old(c), module.functions@),
            module_effects(
                *module,
                functions_of(old(c).program, old(c).current_module->0),
                old(c).current_module->0,
                old(c).config.test,
            ),
        ),
        r is Err ==> final(c).outside_function().reached(
            old(c).outside_function(),
            declarations_recorded(
                old(w)@,
                *module,
                functions_of(old(c).program, old(c).current_module->0),
                old(c).current_module->0,
                old(c).config.test,
                old(c).config.asynchronous,
            ),
        ),
        final(c).grown(*old(c)),
{
    let ghost cur = c.current_module->0;
    let ghost functions = functions_of(c.program, cur);
    let ghost test = c.config.test;
    let ghost is_async = c.config.asynchronous;
    let ghost se = structs_effects(module.structs@, module.structs@.len() as int, functions, cur);
    assert forall|i: int| 0 <= i < module.structs@.len() implies struct_ready(
        *c,
        *(#[trigger] module.structs@[i]).1,
    ) by {
        assert(struct_parts_ready(*module.structs@[i].1));
    }
    match write_structs(&module.structs, w, c) {
        Ok(_) => {},
        Err(d) => {
            proof {
                lemma_reached_signed(
                    *old(c),
                    *c,
                    structs_recorded(old(w)@, module.structs@, functions, cur, is_async),
                    None,
                );
            }
            return Err(d);
        },
    }
    let ghost c1 = *c;
    let ghost w2 = w@;
    match write_functions(&module.functions, w, c) {
        Ok(_) => {},
        Err(d) => {
            proof {
                lemma_grown_twice(*old(c), c1, *c);
                lemma_reached_next(
                    *old(c),
                    c1,
                    *c,
                    true,
                    se,
                    functions_recorded(w2, module.functions@, cur, test, is_async),
                );
            }
            return Err(d);
        },
    }
    proof {
        let fe = functions_effects(module.functions@, module.functions@.len() as int, cur, test);
        lemma_grown_twice(*old(c), c1, *c);
        if module.functions@.len() > 0 {
            lemma_follows_signed(*old(c), c1, se, None);
            lemma_follows_then(old(c).outside_function(), c1.outside_function(), *c, se, fe);
        } else {
            lemma_follows_then(*old(c), c1, *c, se, fe);
        }
    }
    Ok(())
}

/// Writes the bindings that describe a module.
fn write_module_head(name: &ModuleIdent, module: &ModuleDefinition, w: &mut TsgenWriter)
    ensures
        final(w)@ == module_head(old(w)@, *name, *module),
{
    let package_name = match &module.package_name {
        Some(p) => p.clone(),
        None => String::from_str(""),
    };
    w.export_const("packageName", quote(package_name.as_str()).as_str());
    let mut address = String::from_str("new HexString(");
    address.append(quote(format_address_hex(&name.address).as_str()).as_str());
    address.append(")");
    w.export_const("moduleAddress", address.as_str());
    w.export_const("moduleName", quote(name.module.value.as_str()).as_str());
    w.new_line();
}

/// Translates a module: writes its text, and adds to the context what the
/// module refers to and what its directives record.
pub fn write_module(
    name: &ModuleIdent,
    module: &ModuleDefinition,
    w: &mut TsgenWriter,
    c: &mut Context,
) -> (r: WriteResult)
    requires
        old(c).current_module is Some,
        module_ready(old(c).program, old(c).current_module->0, *module),
    ensures
        wrote(
            r,
            final(w)@,
            module_run(
                old(w)@,
                *name,
                *module,
                functions_of(old(c).program, old(c).current_module->0),
                old(c).current_module->0,
                old(c).config.test,
                old(c).config.asynchronous,
            ),
        ),
        r is Ok ==> final(c).follows(
            behind_functions(*old(c), module.functions@),
            module_effects(
                *module,
                functions_of(old(c).program, old(c).current_module->0),
                old(c).current_module->0,
                old(c).config.test,
            ),
        ),
        r is Err ==> final(c).outside_function().reached(
            old(c).outside_function(),
            module_recorded(
                old(w)@,
                *name,
                *module,
                functions_of(old(c).program, old(c).current_module->0),
                old(c).current_module->0,
                old(c).config.test,
                old(c).config.asynchronous,
            ),
        ),
        final(c).grown(*old(c)),
{
    write_module_head(name, module, w);
    match write_constants(&module.constants, w, c) {
        Ok(_) => {},
        Err(d) => {
            proof {
                lemma_unchanged_reached(*c);
            }
            return Err(d);
        },
    }
    w.new_line();
    match write_declarations(module, w, c) {
        Ok(_) => {},
        Err(d) => {
            return Err(d);
        },
    }
    match write_load_parsers(name, module, w, c) {
        Ok(_) => {},
        Err(d) => {
            return Err(d);
        },
    }
    match handle_special_module(name, module, w, c) {
        Ok(_) => {},
        Err(d) => {
            return Err(d);
        },
    }
    Ok(())
}

/// The imports of the packages of a listing.
fn package_import_lines(names: &StringSet, lines: &mut Vec<String>)
    ensures
        texts(final(lines)@) == texts(old(lines)@) + Seq::new(
            names@.len(),
            |i: int| package_import(names@[i]),
        ),
        ascending(names@),
{
    let ghost before = texts(lines@);
    let n = names.len();
    let mut i: usize = 0;
    assert(texts(lines@) =~= before + Seq::new(0, |i: int| package_import(names@[i])));
    while i < n
        invariant
            i <= n,
            n == names@.len(),
            texts(lines@) == before + Seq::new(i as nat, |i: int| package_import(names@[i])),
        decreases n - i,
    {
        let name = names.get(i);
        let mut line = String::from_str("import * as ");
        line.append(capitalize(name.as_str()).as_str());
        line.append(" from \"../");
        line.append(name.as_str());
        line.append("\";");
        let ghost prior = texts(lines@);
        lines.push(line);
        assert(texts(lines@) =~= prior.push(package_import(names@[i as int])));
        assert(texts(lines@) =~= before + Seq::new(
            (i + 1) as nat,
            |i: int| package_import(names@[i]),
        ));
        i = i + 1;
    }
}

/// The imports of the modules of a listing.
fn module_import_lines(names: &StringSet, lines: &mut Vec<String>)
    ensures
        texts(final(lines)@) == texts(old(lines)@) + Seq::new(
            names@.len(),
            |i: int| module_import(names@[i]),
        ),
        ascending(names@),
{
    let ghost before = texts(lines@);
    let n = names.len();
    let mut i: usize = 0;
    assert(texts(lines@) =~= before + Seq::new(0, |i: int| module_import(names@[i])));
    while i < n
        invariant
            i <= n,
            n == names@.len(),
            texts(lines@) == before + Seq::new(i as nat, |i: int| module_import(names@[i])),
        decreases n - i,
    {
        let name = names.get(i);
        let mut line = String::from_str("import * as ");
        line.append(capitalize(name.as_str()).as_str());
        line.append(" from \"./");
        line.append(name.as_str());
        line.append("\";");
        let ghost prior = texts(lines@);
        lines.push(line);
        assert(texts(lines@) =~= prior.push(module_import(names@[i as int])));
        assert(texts(lines@) =~= before + Seq::new(
            (i + 1) as nat,
            |i: int| module_import(names@[i]),
        ));
        i = i + 1;
    }
}

/// The lines that every file begins with.
fn preamble_lines() -> (r: Vec<String>)
    ensures
        texts(r@) == preamble(),
{
    let mut lines: Vec<String> = Vec::new();
    lines.push(String::from_str("import * as $ from \"@manahippo/move-to-ts\";"));
    lines.push(
        String::from_str(
            "import {AptosDataCache, AptosParserRepo, DummyCache} from \"@manahippo/move-to-ts\";",
        ),
    );
    lines.push(String::from_str("import {U8, U64, U128} from \"@manahippo/move-to-ts\";"));
    lines.push(String::from_str("import {u8, u64, u128} from \"@manahippo/move-to-ts\";"));
    lines.push(
        String::from_str("import {TypeParamDeclType, FieldDeclType} from \"@manahippo/move-to-ts\";"),
    );
    lines.push(
        String::from_str(
            "import {AtomicTypeTag, StructTag, TypeTag, VectorTag} from \"@manahippo/move-to-ts\";",
        ),
    );
    lines.push(String::from_str("import {HexString, AptosClient, AptosAccount} from \"aptos\";"));
    assert(texts(lines@) =~= preamble());
    lines
}

impl AstTsPrinter for Command {
    open spec fn ready(&self, c: Context) -> bool {
        true
    }

    open spec fn run(&self, w: WriterView, c: Context) -> Result<WriterView, DiagnosticView> {
        command_run(w, *self)
    }

    open spec fn left(&self, c: Context) -> Context {
        c
    }

    open spec fn adds(&self, c: Context) -> Effects {
        Effects::none()
    }

    open spec fn recorded(&self, w: WriterView, c: Context) -> Effects {
        Effects::none()
    }

    fn write_ts(&self, w: &mut TsgenWriter, c: &mut Context) -> (r: WriteResult) {
        proof {
            lemma_follows_none(*c);
            lemma_unchanged_reached(*c);
        }
        write_command(self, w, c)
    }
}

impl AstTsPrinter for Statement {
    open spec fn ready(&self, c: Context) -> bool {
        true
    }

    open spec fn run(&self, w: WriterView, c: Context) -> Result<WriterView, DiagnosticView> {
        statement_run(w, *self)
    }

    open spec fn left(&self, c: Context) -> Context {
        c
    }

    open spec fn adds(&self, c: Context) -> Effects {
        Effects::none()
    }

    open spec fn recorded(&self, w: WriterView, c: Context) -> Effects {
        Effects::none()
    }

    fn write_ts(&self, w: &mut TsgenWriter, c: &mut Context) -> (r: WriteResult) {
        proof {
            lemma_follows_none(*c);
            lemma_unchanged_reached(*c);
        }
        write_statement(self, w, c)
    }
}

impl AstTsPrinter for Block {
    open spec fn ready(&self, c: Context) -> bool {
        true
    }

    open spec fn run(&self, w: WriterView, c: Context) -> Result<WriterView, DiagnosticView> {
        block_run(w, self@)
    }

    open spec fn left(&self, c: Context) -> Context {
        c
    }

    open spec fn adds(&self, c: Context) -> Effects {
        Effects::none()
    }

    open spec fn recorded(&self, w: WriterView, c: Context) -> Effects {
        Effects::none()
    }

    fn write_ts(&self, w: &mut TsgenWriter, c: &mut Context) -> (r: WriteResult) {
        proof {
            lemma_follows_none(*c);
            lemma_unchanged_reached(*c);
        }
        write_block(self, w, c)
    }
}

/// The name of a constant, a function or a struct is written as it stands
/// in the target language.
impl AstTsPrinter for Name {
    open spec fn ready(&self, c: Context) -> bool {
        true
    }

    open spec fn run(&self, w: WriterView, c: Context) -> Result<WriterView, DiagnosticView> {
        Ok(w.write(renamed(self.value@)))
    }

    open spec fn left(&self, c: Context) -> Context {
        c
    }

    open spec fn adds(&self, c: Context) -> Effects {
        Effects::none()
    }

    open spec fn recorded(&self, w: WriterView, c: Context) -> Effects {
        Effects::none()
    }

    fn write_ts(&self, w: &mut TsgenWriter, c: &mut Context) -> (r: WriteResult) {
        proof {
            lemma_follows_none(*c);
        }
        w.write(rename(self.value.as_str()).as_str());
        Ok(())
    }
}

/// A type parameter of a struct is written as its description.
impl AstTsPrinter for StructTypeParameter {
    open spec fn ready(&self, c: Context) -> bool {
        true
    }

    open spec fn run(&self, w: WriterView, c: Context) -> Result<WriterView, DiagnosticView> {
        Ok(w.write(tparam_term(*self)))
    }

    open spec fn left(&self, c: Context) -> Context {
        c
    }

    open spec fn adds(&self, c: Context) -> Effects {
        Effects::none()
    }

    open spec fn recorded(&self, w: WriterView, c: Context) -> Effects {
        Effects::none()
    }

    fn write_ts(&self, w: &mut TsgenWriter, c: &mut Context) -> (r: WriteResult) {
        proof {
            lemma_follows_none(*c);
        }
        w.write(struct_type_parameter_term(self).as_str());
        Ok(())
    }
}

impl<'a> AstTsPrinter for (ConstantName, &'a Constant) {
    open spec fn ready(&self, c: Context) -> bool {
        type_ready(self.1.signature)
    }

    open spec fn run(&self, w: WriterView, c: Context) -> Result<WriterView, DiagnosticView> {
        constant_run(w, self.0, *self.1)
    }

    open spec fn left(&self, c: Context) -> Context {
        c
    }

    open spec fn adds(&self, c: Context) -> Effects {
        Effects::none()
    }

    open spec fn recorded(&self, w: WriterView, c: Context) -> Effects {
        Effects::none()
    }

    fn write_ts(&self, w: &mut TsgenWriter, c: &mut Context) -> (r: WriteResult) {
        proof {
            lemma_follows_none(*c);
            lemma_unchanged_reached(*c);
        }
        write_constant(&self.0, self.1, w, c)
    }
}

impl<'a> AstTsPrinter for (StructName, &'a Rc<StructDefinition>) {
    open spec fn ready(&self, c: Context) -> bool {
        struct_ready(c, **self.1)
    }

    open spec fn run(&self, w: WriterView, c: Context) -> Result<WriterView, DiagnosticView> {
        struct_run(
            w,
            self.0,
            **self.1,
            functions_of(c.program, c.current_module->0),
            c.current_module->0,
            c.config.asynchronous,
        )
    }

    open spec fn left(&self, c: Context) -> Context {
        c
    }

    open spec fn adds(&self, c: Context) -> Effects {
        struct_effects(
            self.0,
            *self.1,
            functions_of(c.program, c.current_module->0),
            c.current_module->0,
        )
    }

    open spec fn recorded(&self, w: WriterView, c: Context) -> Effects {
        struct_recorded(
            w,
            self.0,
            *self.1,
            functions_of(c.program, c.current_module->0),
            c.current_module->0,
            c.config.asynchronous,
        )
    }

    fn write_ts(&self, w: &mut TsgenWriter, c: &mut Context) -> (r: WriteResult) {
        let ghost e = self.recorded(w@, *c);
        let r = write_struct(&self.0, self.1, w, c);
        proof {
            if r is Err {
                lemma_reached_signed(*old(c), *c, e, None);
            }
        }
        r
    }
}

impl<'a> AstTsPrinter for (FunctionName, &'a Rc<Function>) {
    open spec fn ready(&self, c: Context) -> bool {
        c.current_module is Some && function_ready(*self.1)
    }

    open spec fn run(&self, w: WriterView, c: Context) -> Result<WriterView, DiagnosticView> {
        function_run(
            w,
            self.0,
            *self.1,
            c.current_module->0,
            c.config.test,
            c.config.asynchronous,
        )
    }

    open spec fn left(&self, c: Context) -> Context {
        c.outside_function()
    }

    open spec fn adds(&self, c: Context) -> Effects {
        function_effects(self.0, *self.1, c.current_module->0, c.config.test)
    }

    open spec fn recorded(&self, w: WriterView, c: Context) -> Effects {
        function_recorded(
            w,
            self.0,
            *self.1,
            c.current_module->0,
            c.config.test,
            c.config.asynchronous,
        )
    }

    fn write_ts(&self, w: &mut TsgenWriter, c: &mut Context) -> (r: WriteResult) {
        write_function(&self.0, self.1, w, c)
    }
}

impl<'a> AstTsPrinter for (ModuleIdent, &'a ModuleDefinition) {
    open spec fn ready(&self, c: Context) -> bool {
        c.current_module is Some && module_ready(c.program, c.current_module->0, *self.1)
    }

    open spec fn run(&self, w: WriterView, c: Context) -> Result<WriterView, DiagnosticView> {
        module_run(
            w,
            self.0,
            *self.1,
            functions_of(c.program, c.current_module->0),
            c.current_module->0,
            c.config.test,
            c.config.asynchronous,
        )
    }

    open spec fn left(&self, c: Context) -> Context {
        behind_functions(c, self.1.functions@)
    }

    open spec fn adds(&self, c: Context) -> Effects {
        module_effects(
            *self.1,
            functions_of(c.program, c.current_module->0),
            c.current_module->0,
            c.config.test,
        )
    }

    open spec fn recorded(&self, w: WriterView, c: Context) -> Effects {
        module_recorded(
            w,
            self.0,
            *self.1,
            functions_of(c.program, c.current_module->0),
            c.current_module->0,
            c.config.test,
            c.config.asynchronous,
        )
    }

    fn write_ts(&self, w: &mut TsgenWriter, c: &mut Context) -> (r: WriteResult) {
        write_module(&self.0, self.1, w, c)
    }
}

/// Translates a node into the text of a file: the preamble, the imports
/// that the translation recorded, in ascending order, and the translation.
pub fn to_ts_string<T: AstTsPrinter>(v: &T, c: &mut Context) -> (r: Result<String, Diagnostic>)
    requires
        v.ready(*old(c)),
    ensures
        match r {
            Ok(s) => v.run(WriterView::start(), *old(c)) is Ok && s@ == file_text(
                final(c).package_imports@,
                final(c).same_package_imports@,
                v.run(WriterView::start(), *old(c))->Ok_0.text,
            ),
            Err(d) => v.run(WriterView::start(), *old(c)) == Err::<WriterView, DiagnosticView>(d@),
        },
        r is Ok ==> final(c).follows(v.left(*old(c)), v.adds(*old(c))),
        r is Err ==> final(c).outside_function().reached(
            old(c).outside_function(),
            v.recorded(WriterView::start(), *old(c)),
        ),
        final(c).grown(*old(c)),
        r is Ok ==> ascending(final(c).package_imports@) && ascending(
            final(c).same_package_imports@,
        ),
{
    let mut writer = TsgenWriter::new();
    match v.write_ts(&mut writer, c) {
        Ok(_) => {},
        Err(d) => {
            return Err(d);
        },
    }
    let mut lines = preamble_lines();
    package_import_lines(&c.package_imports, &mut lines);
    module_import_lines(&c.same_package_imports, &mut lines);
    let ghost prior = texts(lines@);
    let body = writer.text();
    lines.push(body);
    assert(texts(lines@) =~= prior.push(body@));
    assert(texts(lines@) =~= file_lines(c.package_imports@, c.same_package_imports@, body@));
    Ok(join(&lines, "\n"))
}

/// Whether `after` is what translating `module` as module `mident` makes of
/// the context `before`: the module is the current one, it and its package
/// are among the visited ones, the imports are those that the module needs,
/// each listed once in ascending order, the tests are the module's, and
/// the records of its directives stand behind those that were there.
pub open spec fn translated(
    after: Context,
    before: Context,
    mident: ModuleIdent,
    module: ModuleDefinition,
) -> bool {
    let e = module_effects(
        module,
        functions_of(before.program, mident),
        mident,
        before.config.test,
    );
    &&& after.program == before.program
    &&& after.current_module == Some(mident)
    &&& after.current_function_signature == (if module.functions@.len() > 0 {
        None
    } else {
        before.current_function_signature
    })
    &&& after.config == before.config
    &&& after.visited_modules@ == module_noted(before.visited_modules@, mident)
    &&& package_views(after.visited_packages@) == package_noted(
        package_views(before.visited_packages@),
        package_name(mident.address),
        mident.address,
    )
    &&& after.same_package_imports@.to_set() =~= e.same
    &&& after.package_imports@.to_set() =~= e.pkgs
    &&& ascending(after.same_package_imports@)
    &&& ascending(after.package_imports@)
    &&& after.tests@ =~= e.tests
    &&& cmd_views(after.cmds@) =~= cmd_views(before.cmds@) + e.cmds
    &&& cmd_views(after.queries@) =~= cmd_views(before.queries@) + e.queries
    &&& after.printer_methods@ =~= before.printer_methods@ + e.printers
    &&& after.all_shows_iter_tables@ =~= before.all_shows_iter_tables@ + e.shows
}

/// Whether `after` is what a translation of `module` as module `mident` that
/// an error stopped makes of the context `before`: the module is the current
/// one, it and its package are among the visited ones, the tests are those
/// of the functions that were reached, and behind the records of the
/// directives that were there stand those that were expanded before the
/// error, and no other. The imports hold at least what was translated
/// before the error needs.
pub open spec fn stopped(
    after: Context,
    before: Context,
    mident: ModuleIdent,
    module: ModuleDefinition,
) -> bool {
    let e = module_recorded(
        WriterView::start(),
        mident,
        module,
        functions_of(before.program, mident),
        mident,
        before.config.test,
        before.config.asynchronous,
    );
    &&& after.program == before.program
    &&& after.current_module == Some(mident)
    &&& after.config == before.config
    &&& after.visited_modules@ == module_noted(before.visited_modules@, mident)
    &&& package_views(after.visited_packages@) == package_noted(
        package_views(before.visited_packages@),
        package_name(mident.address),
        mident.address,
    )
    &&& e.same.subset_of(after.same_package_imports@.to_set())
    &&& e.pkgs.subset_of(after.package_imports@.to_set())
    &&& after.tests@ =~= e.tests
    &&& cmd_views(after.cmds@) =~= cmd_views(before.cmds@) + e.cmds
    &&& cmd_views(after.queries@) =~= cmd_views(before.queries@) + e.queries
    &&& after.printer_methods@ =~= before.printer_methods@ + e.printers
    &&& after.all_shows_iter_tables@ =~= before.all_shows_iter_tables@ + e.shows
}

/// What translating `module` as module `mident` writes in the context
/// `before`.
pub open spec fn translation(before: Context, mident: ModuleIdent, module: ModuleDefinition) -> Result<
    WriterView,
    DiagnosticView,
> {
    module_run(
        WriterView::start(),
        mident,
        module,
        functions_of(before.program, mident),
        mident,
        before.config.test,
        before.config.asynchronous,
    )
}

/// Whether `r` is the outcome of translating `module` as module `mident` in
/// the context `before`, and `after` the context that the translation
/// leaves: on success the path of the module's file and the text of the
/// file, with the imports that the context then lists; on failure the one
/// error that stopped the translation.
pub open spec fn is_translation(
    r: Result<(String, String), Diagnostics>,
    before: Context,
    after: Context,
    mident: ModuleIdent,
    module: ModuleDefinition,
) -> bool {
    match r {
        Ok(file) => translation(before, mident, module) is Ok && file.0@ == file_name(mident)
            && file.1@ == file_text(
            after.package_imports@,
            after.same_package_imports@,
            translation(before, mident, module)->Ok_0.text,
        ) && translated(after, before, mident, module),
        Err(diags) => diags.diagnostics@.len() == 1 && translation(before, mident, module)
            == Err::<WriterView, DiagnosticView>(diags.diagnostics@[0]@) && stopped(
            after,
            before,
            mident,
            module,
        ),
    }
}

/// Enters a module and translates it. Success gives the path of the
/// module's file and the text of the file; failure gives the one error that
/// stopped the translation, and no text.
pub fn translate_module(mident: ModuleIdent, mdef: &ModuleDefinition, c: &mut Context) -> (r: Result<
    (String, String),
    Diagnostics,
>)
    requires
        module_ready(old(c).program, mident, *mdef),
    ensures
        is_translation(r, *old(c), *final(c), mident, *mdef),
{
    let mut filename = format_address(&mident.address);
    filename.append("/");
    filename.append(mident.module.value.as_str());
    filename.append(".ts");
    c.reset_for_module(mident.clone());
    let ghost entered = *c;
    assert(entered.same_package_imports@ =~= Seq::<Seq<char>>::empty());
    assert(entered.package_imports@ =~= Seq::<Seq<char>>::empty());
    assert(entered.tests@ =~= Seq::empty());
    assert(entered.same_package_imports@.to_set() =~= Set::<Seq<char>>::empty());
    assert(entered.package_imports@.to_set() =~= Set::<Seq<char>>::empty());
    let content = to_ts_string(&(mident, mdef), c);
    match content {
        Err(diag) => {
            let mut diags = Diagnostics::new();
            diags.add(diag);
            Err(diags)
        },
        Ok(res) => Ok((filename, res)),
    }
}

/// Translating a module again gives the same imports: whatever the context
/// held before, the listings of the packages and of the modules of the same
/// package that the translation leaves are those that the module needs,
/// each name once, in ascending order.
pub proof fn lemma_imports_repeat(
    before1: Context,
    after1: Context,
    before2: Context,
    after2: Context,
    mident: ModuleIdent,
    module: ModuleDefinition,
)
    requires
        translated(after1, before1, mident, module),
        translated(after2, before2, mident, module),
        before1.program == before2.program,
        before1.config.test == before2.config.test,
    ensures
        after1.same_package_imports@ == after2.same_package_imports@,
        after1.package_imports@ == after2.package_imports@,
        ascending(after1.same_package_imports@),
        ascending(after1.package_imports@),
{
    lemma_ascending_unique(after1.same_package_imports@, after2.same_package_imports@);
    lemma_ascending_unique(after1.package_imports@, after2.package_imports@);
}

/// The definition of the struct at position `i`.
pub open spec fn struct_at(structs: Seq<(StructName, Rc<StructDefinition>)>, i: int) -> StructDefinition {
    *structs[i].1
}

proof fn lemma_structs_refused(
    w: WriterView,
    structs: Seq<(StructName, Rc<StructDefinition>)>,
    i: int,
    s: int,
    functions: Seq<(FunctionName, Rc<Function>)>,
    cur: ModuleIdent,
    is_async: bool,
)
    requires
        0 <= i <= s < structs.len(),
        forall|w1: WriterView|
            #[trigger] struct_run(w1, structs[s].0, struct_at(structs, s), functions, cur, is_async) is Err,
    ensures
        structs_run(w, structs, i, functions, cur, is_async) is Err,
    decreases s - i,
{
    if i < s {
        match struct_run(w, structs[i].0, struct_at(structs, i), functions, cur, is_async) {
            Ok(w1) => {
                lemma_structs_refused(w1, structs, i + 1, s, functions, cur, is_async);
            },
            Err(_) => {},
        }
    } else {
        assert(struct_run(w, structs[s].0, struct_at(structs, s), functions, cur, is_async) is Err);
    }
}

/// A module is not translated where a `method` directive of one of its
/// structs names a function that cannot be a method of the struct, as one
/// does whose first parameter applies the struct to type arguments out of
/// the order of the struct's type parameters: the translation fails, and
/// gives no text.
pub proof fn lemma_refused_method_fails_the_module(
    before: Context,
    mident: ModuleIdent,
    module: ModuleDefinition,
    s: int,
    a: int,
    k: int,
)
    requires
        0 <= s < module.structs@.len(),
        module.structs@[s].1.fields is Defined,
        names_refused_method(
            module.structs@[s].0,
            struct_at(module.structs@, s),
            a,
            k,
            functions_of(before.program, mident),
            mident,
        ),
    ensures
        translation(before, mident, module) is Err,
{
    let functions = functions_of(before.program, mident);
    let is_async = before.config.asynchronous;
    let structs = module.structs@;
    match constants_run(module_head(WriterView::start(), mident, module), module.constants@, 0) {
        Ok(w1) => {
            assert forall|w2: WriterView|
                #[trigger] struct_run(
                    w2,
                    structs[s].0,
                    struct_at(structs, s),
                    functions,
                    mident,
                    is_async,
                ) is Err by {
                lemma_refused_method_stops_the_struct(
                    w2,
                    structs[s].0,
                    struct_at(structs, s),
                    a,
                    k,
                    functions,
                    mident,
                    is_async,
                );
            }
            lemma_structs_refused(w1.new_line(), structs, 0, s, functions, mident, is_async);
        },
        Err(_) => {},
    }
}

/// The function at position `i`.
pub open spec fn function_at(functions: Seq<(FunctionName, Rc<Function>)>, i: int) -> (
    FunctionName,
    Rc<Function>,
) {
    functions[i]
}

proof fn lemma_functions_refused(
    w: WriterView,
    functions: Seq<(FunctionName, Rc<Function>)>,
    i: int,
    f: int,
    cur: ModuleIdent,
    test: bool,
    is_async: bool,
)
    requires
        0 <= i <= f < functions.len(),
        forall|w1: WriterView|
            #[trigger] function_run(
                w1,
                function_at(functions, f).0,
                function_at(functions, f).1,
                cur,
                test,
                is_async,
            ) is Err,
    ensures
        functions_run(w, functions, i, cur, test, is_async) is Err,
    decreases f - i,
{
    if i < f {
        match function_run(
            w,
            function_at(functions, i).0,
            function_at(functions, i).1,
            cur,
            test,
            is_async,
        ) {
            Ok(w1) => {
                lemma_functions_refused(w1, functions, i + 1, f, cur, test, is_async);
            },
            Err(_) => {},
        }
    } else {
        assert(function_run(
            w,
            function_at(functions, f).0,
            function_at(functions, f).1,
            cur,
            test,
            is_async,
        ) is Err);
    }
}

/// A module is not translated where one of its functions carries a `query`
/// directive while its body does not end by publishing a resource: the
/// translation fails, and gives no text.
pub proof fn lemma_refused_query_fails_the_module(
    before: Context,
    mident: ModuleIdent,
    module: ModuleDefinition,
    f: int,
    a: int,
)
    requires
        0 <= f < module.functions@.len(),
        carries_refused_query(module.functions@[f].1, a),
    ensures
        translation(before, mident, module) is Err,
{
    let functions = functions_of(before.program, mident);
    let test = before.config.test;
    let is_async = before.config.asynchronous;
    match constants_run(module_head(WriterView::start(), mident, module), module.constants@, 0) {
        Ok(w1) => match structs_run(
            w1.new_line(),
            module.structs@,
            0,
            functions,
            mident,
            is_async,
        ) {
            Ok(w2) => {
                assert forall|w3: WriterView|
                    #[trigger] function_run(
                        w3,
                        function_at(module.functions@, f).0,
                        function_at(module.functions@, f).1,
                        mident,
                        test,
                        is_async,
                    ) is Err by {
                    lemma_refused_query_stops_the_function(
                        w3,
                        function_at(module.functions@, f).0,
                        function_at(module.functions@, f).1,
                        a,
                        mident,
                        test,
                        is_async,
                    );
                }
                lemma_functions_refused(w2, module.functions@, 0, f, mident, test, is_async);
            },
            Err(_) => {},
        },
        Err(_) => {},
    }
}

} // verus!
