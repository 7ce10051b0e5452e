//! The translation of constants and structs: a constant becomes an exported
//! binding, a struct a class with its type parameters, its field
//! descriptors, a constructor, a parser, and a loader where it is a resource.

use crate::ast::{
    Ability, BaseType, Constant, ConstantName, Field, Function, FunctionName, ModuleIdent,
    StructDefinition, StructFields, StructName, StructTypeParameter,
};
use crate::shared::{
    base_type_to_typetag_builder, format_address, lemma_follows_none, lemma_follows_then,
    lemma_reached_after, lemma_reached_more, package_name, struct_names_of, tag_ready,
    tag_result, wrote, Context, Diagnostic, DiagnosticView, Effects, WriteResult,
};
use crate::statements::{constant_block_run, write_simplify_constant_block};
use crate::struct_directives::{
    directives_ready, functions_of, handle_struct_directives,
    lemma_refused_method_stops_the_directives, names_refused_method, struct_directives_added,
    struct_directives_effects, struct_directives_from,
};
use crate::text::{bool_text, is_text, quote, quoted, rename, renamed, texts};
use crate::tsgen_writer::{TsgenWriter, WriterView};
use crate::value_types::{
    base_refs, base_ts, base_type_to_tstype, constant_ts, ts_constant_type, type_ready,
};
use std::rc::Rc;
use vstd::prelude::*;

verus! {

/// What a constant writes: an exported binding of its name, with its type
/// and its value.
pub open spec fn constant_run(w: WriterView, name: ConstantName, constant: Constant) -> Result<
    WriterView,
    DiagnosticView,
> {
    match constant_ts(constant.signature) {
        Err(d) => Err(d),
        Ok(typename) => match constant_block_run(
            w.write("export const "@ + renamed(name.value@) + " : "@ + typename + " = "@),
            constant.value@,
        ) {
            Err(d) => Err(d),
            Ok(w1) => Ok(w1.writeln(";"@)),
        },
    }
}

/// Translates a constant.
pub fn write_constant(
    name: &ConstantName,
    constant: &Constant,
    w: &mut TsgenWriter,
    c: &mut Context,
) -> (r: WriteResult)
    requires
        type_ready(constant.signature),
    ensures
        wrote(r, final(w)@, constant_run(old(w)@, *name, *constant)),
        *final(c) == *old(c),
{
    let typename = match ts_constant_type(&constant.signature, c) {
        Ok(t) => t,
        Err(d) => {
            return Err(d);
        },
    };
    let mut head = String::from_str("export const ");
    head.append(rename(name.value.as_str()).as_str());
    head.append(" : ");
    head.append(typename.as_str());
    head.append(" = ");
    w.write(head.as_str());
    match write_simplify_constant_block(&constant.value, w, c) {
        Ok(_) => {},
        Err(d) => {
            return Err(d);
        },
    }
    w.writeln(";");
    Ok(())
}

/// The lines that are added to the class of a well-known struct of the
/// standard library, which the struct's package, module and name select; no
/// line for any other struct.
pub open spec fn augmentation(package: Seq<char>, module: Seq<char>, name: Seq<char>) -> Seq<
    Seq<char>,
> {
    if package == "std"@ && module == "string"@ && name == "String"@ {
        seq!["str(): string { return $.u8str(this.bytes); }"@]
    } else if package == "aptos_std"@ && module == "iterable_table"@ && name == "IterableTable"@ {
        seq![
            "toTypedIterTable<K, V>(field: $.FieldDeclType) { return (TypedIterableTable<K, V>).buildFromField(this, field); }"@,
        ]
    } else if package == "aptos_std"@ && module == "type_info"@ && name == "TypeInfo"@ {
        seq![
            "typeFullname(): string {"@,
            "  return `${this.account_address.toShortString()}::${$.u8str(this.module_name)}::${$.u8str(this.struct_name)}`;"@,
            "}"@,
            "toTypeTag() { return $.parseTypeTagOrThrow(this.typeFullname()); }"@,
            "moduleName() { return (this.toTypeTag() as $.StructTag).module; }"@,
            "structName() { return (this.toTypeTag() as $.StructTag).name; }"@,
        ]
    } else {
        Seq::empty()
    }
}

/// After the lines from position `i` on have been written.
pub open spec fn lines_written(w: WriterView, lines: Seq<Seq<char>>, i: int) -> WriterView
    decreases lines.len() - i,
{
    if i < 0 || i >= lines.len() {
        w
    } else {
        lines_written(w.writeln(lines[i]), lines, i + 1)
    }
}

/// What the additions for a well-known struct write, in the module `cur`.
pub open spec fn special_struct_run(w: WriterView, cur: Option<ModuleIdent>, name: Seq<char>) -> WriterView {
    match cur {
        None => w,
        Some(m) => lines_written(
            w,
            augmentation(package_name(m.address), m.module.value@, name),
            0,
        ),
    }
}

/// The lines that are added to the class of a well-known struct.
pub fn augmentation_lines(package: &String, module: &String, name: &String) -> (r: Vec<String>)
    ensures
        texts(r@) == augmentation(package@, module@, name@),
{
    let mut lines: Vec<String> = Vec::new();
    if is_text(package, "std") && is_text(module, "string") && is_text(name, "String") {
        lines.push(String::from_str("str(): string { return $.u8str(this.bytes); }"));
    } else if is_text(package, "aptos_std") && is_text(module, "iterable_table") && is_text(
        name,
        "IterableTable",
    ) {
        lines.push(
            String::from_str(
                "toTypedIterTable<K, V>(field: $.FieldDeclType) { return (TypedIterableTable<K, V>).buildFromField(this, field); }",
            ),
        );
    } else if is_text(package, "aptos_std") && is_text(module, "type_info") && is_text(
        name,
        "TypeInfo",
    ) {
        lines.push(String::from_str("typeFullname(): string {"));
        lines.push(
            String::from_str(
                "  return `${this.account_address.toShortString()}::${$.u8str(this.module_name)}::${$.u8str(this.struct_name)}`;",
            ),
        );
        lines.push(String::from_str("}"));
        lines.push(
            String::from_str("toTypeTag() { return $.parseTypeTagOrThrow(this.typeFullname()); }"),
        );
        lines.push(
            String::from_str("moduleName() { return (this.toTypeTag() as $.StructTag).module; }"),
        );
        lines.push(
            String::from_str("structName() { return (this.toTypeTag() as $.StructTag).name; }"),
        );
    }
    assert(texts(lines@) =~= augmentation(package@, module@, name@));
    lines
}

/// Writes lines, one after the other.
pub fn write_lines(lines: &Vec<String>, w: &mut TsgenWriter)
    ensures
        final(w)@ == lines_written(old(w)@, texts(lines@), 0),
{
    let mut i: usize = 0;
    while i < lines.len()
        invariant
            i <= lines.len(),
            lines_written(w@, texts(lines@), i as int) == lines_written(
                old(w)@,
                texts(lines@),
                0,
            ),
        decreases lines.len() - i,
    {
        w.writeln(lines[i].as_str());
        i = i + 1;
    }
}

/// Adds to the class of a well-known struct of the standard library the
/// methods that are written for it by hand.
pub fn handle_special_structs(name: &StructName, w: &mut TsgenWriter, c: &mut Context) -> (r:
    WriteResult)
    ensures
        r is Ok,
        final(w)@ == special_struct_run(old(w)@, old(c).current_module, name.value@),
        *final(c) == *old(c),
{
    match &c.current_module {
        None => {
            return Ok(());
        },
        Some(mident) => {
            let package_name = format_address(&mident.address);
            let lines = augmentation_lines(&package_name, &mident.module.value, &name.value);
            write_lines(&lines, w);
        },
    }
    Ok(())
}

/// How a type parameter of a struct is described.
pub open spec fn tparam_term(tp: StructTypeParameter) -> Seq<char> {
    "{ name: "@ + renamed(quoted(tp.param.user_specified_name.value@)) + ", isPhantom: "@ + (
    if tp.is_phantom {
        "true"@
    } else {
        "false"@
    }) + " }"@
}

/// After the descriptions of the type parameters from position `i` on have
/// been written, one on a line.
pub open spec fn tparam_lines(w: WriterView, tps: Seq<StructTypeParameter>, i: int) -> WriterView
    decreases tps.len() - i,
{
    if i < 0 || i >= tps.len() {
        w
    } else {
        tparam_lines(w.writeln(tparam_term(tps[i]) + ","@), tps, i + 1)
    }
}

/// The name that a field has in the generated class.
pub open spec fn field_name(field: (Field, BaseType)) -> Seq<char> {
    renamed(field.0.value@)
}

/// The descriptor of a field: its name and the tag of its type.
pub open spec fn descriptor_line(field: (Field, BaseType), tag: Seq<char>) -> Seq<char> {
    "{ name: "@ + quoted(field_name(field)) + ", typeTag: "@ + tag + " },"@
}

/// The declaration that stores a field.
pub open spec fn storage_line(field: (Field, BaseType), ts: Seq<char>) -> Seq<char> {
    field_name(field) + ": "@ + ts + ";"@
}

/// The line of the constructor that copies a field from the prototype.
pub open spec fn constructor_line(field: (Field, BaseType), ts: Seq<char>) -> Seq<char> {
    "this."@ + field_name(field) + " = proto['"@ + field_name(field) + "'] as "@ + ts + ";"@
}

/// What the descriptors of the fields from position `i` on write, or the
/// first error among the tags.
pub open spec fn descriptors_run(
    w: WriterView,
    fields: Seq<(Field, BaseType)>,
    i: int,
    names: Seq<Seq<char>>,
) -> Result<WriterView, DiagnosticView>
    decreases fields.len() - i,
{
    if i < 0 || i >= fields.len() {
        Ok(w)
    } else {
        match tag_result(fields[i].1, names, true) {
            Ok(tag) => descriptors_run(
                w.writeln(descriptor_line(fields[i], tag)),
                fields,
                i + 1,
                names,
            ),
            Err(d) => Err(d),
        }
    }
}

/// The name of a type, or the empty text where it has none.
pub open spec fn name_or_empty(r: Result<Seq<char>, DiagnosticView>) -> Seq<char> {
    match r {
        Ok(t) => t,
        Err(_) => Seq::empty(),
    }
}

/// What the declarations that store the fields from position `i` on write,
/// or the first error among the types.
pub open spec fn storage_run(
    w: WriterView,
    fields: Seq<(Field, BaseType)>,
    i: int,
    cur: ModuleIdent,
) -> Result<WriterView, DiagnosticView>
    decreases fields.len() - i,
{
    if i < 0 || i >= fields.len() {
        Ok(w)
    } else {
        match base_ts(fields[i].1, cur) {
            Ok(ts) => storage_run(w.writeln(storage_line(fields[i], ts)), fields, i + 1, cur),
            Err(d) => Err(d),
        }
    }
}

/// The imports that naming the types of the first `n` fields needs.
pub open spec fn fields_refs(fields: Seq<(Field, BaseType)>, n: int, cur: ModuleIdent) -> Effects
    decreases n,
{
    if n <= 0 || n > fields.len() {
        Effects::none()
    } else {
        fields_refs(fields, n - 1, cur).plus(base_refs(fields[n - 1].1, cur))
    }
}

/// After the lines of the constructor for the fields from position `i` on
/// have been written.
pub open spec fn constructor_lines(
    w: WriterView,
    fields: Seq<(Field, BaseType)>,
    i: int,
    cur: ModuleIdent,
) -> WriterView
    decreases fields.len() - i,
{
    if i < 0 || i >= fields.len() {
        w
    } else {
        constructor_lines(
            w.writeln(constructor_line(fields[i], name_or_empty(base_ts(fields[i].1, cur)))),
            fields,
            i + 1,
            cur,
        )
    }
}

/// After the parser of a struct has been written: a static function that
/// reads the fields by the struct's own descriptors and hands them to the
/// constructor.
pub open spec fn parser_lines(w: WriterView, name: Seq<char>) -> WriterView {
    w.writeln(
        "static "@ + name + "Parser(data:any, typeTag: TypeTag, repo: AptosParserRepo) : "@ + name
            + " {"@,
    ).writeln("  const proto = $.parseStructProto(data, typeTag, repo, "@ + name + ");"@).writeln(
        "  return new "@ + name + "(proto, typeTag);"@,
    ).writeln("}"@)
}

/// After the loader of a resource has been written.
pub open spec fn loader_lines(w: WriterView, name: Seq<char>) -> WriterView {
    w.writeln(
        "static async load(repo: AptosParserRepo, client: AptosClient, address: HexString, typeParams: TypeTag[]) {"@,
    ).writeln(
        "  const result = await repo.loadResource(client, address, "@ + name + ", typeParams);"@,
    ).writeln("  return result as unknown as "@ + name + ";"@).write("}"@)
}

/// After the head of a class has been written: its name, the module that it
/// belongs to, and its type parameters.
pub open spec fn class_head(w: WriterView, name: StructName, sdef: StructDefinition) -> WriterView {
    tparam_lines(
        w.new_line().writeln("export class "@ + renamed(name.value@) + " "@).open_block().writeln(
            "static moduleAddress = moduleAddress;"@,
        ).writeln("static moduleName = moduleName;"@).writeln(
            "static structName: string = "@ + quoted(renamed(name.value@)) + ";"@,
        ).writeln("static typeParameters: TypeParamDeclType[] = ["@).indented(2),
        sdef.type_parameters@,
        0,
    ).decrease_indent().writeln("];"@)
}

/// What the members of a class with fields write, up to its loader: the
/// field descriptors, the fields, the constructor, the parser, and the
/// loader where the struct has the key ability.
pub open spec fn class_members_run(
    w: WriterView,
    name: StructName,
    sdef: StructDefinition,
    fields: Seq<(Field, BaseType)>,
    cur: ModuleIdent,
) -> Result<WriterView, DiagnosticView> {
    match descriptors_run(
        w.writeln("static fields: FieldDeclType[] = ["@),
        fields,
        0,
        struct_names_of(sdef.type_parameters@),
    ) {
        Err(d) => Err(d),
        Ok(w3) => match storage_run(w3.writeln("];"@).new_line(), fields, 0, cur) {
            Err(d) => Err(d),
            Ok(w5) => {
                let w6 = if fields.len() > 0 {
                    w5.new_line().new_line()
                } else {
                    w5
                };
                let w7 = constructor_lines(
                    w6.writeln("constructor(proto: any, public typeTag: TypeTag) {"@).indented(2),
                    fields,
                    0,
                    cur,
                ).decrease_indent().writeln("}"@);
                let w8 = parser_lines(w7.new_line(), name.value@);
                Ok(
                    if sdef.abilities.has(Ability::Key) {
                        loader_lines(w8.new_line(), name.value@)
                    } else {
                        w8
                    },
                )
            },
        },
    }
}

/// What a struct writes: a class. A native struct has only the head.
pub open spec fn struct_run(
    w: WriterView,
    name: StructName,
    sdef: StructDefinition,
    functions: Seq<(FunctionName, Rc<Function>)>,
    cur: ModuleIdent,
    is_async: bool,
) -> Result<WriterView, DiagnosticView> {
    let w2 = class_head(w, name, sdef);
    match sdef.fields {
        StructFields::Native(_) => Ok(w2.close_block().new_line()),
        StructFields::Defined(fields) => match class_members_run(w2, name, sdef, fields@, cur) {
            Err(d) => Err(d),
            Ok(w9) => match struct_directives_from(
                special_struct_run(w9, Some(cur), name.value@),
                name,
                sdef,
                0,
                functions,
                cur,
                is_async,
            ) {
                Err(d) => Err(d),
                Ok(w11) => Ok(w11.close_block().new_line()),
            },
        },
    }
}

/// What is recorded of a struct that is not translated: nothing where its
/// members fail, and else what its directives have added when they stop.
pub open spec fn struct_recorded(
    w: WriterView,
    name: StructName,
    sdef: Rc<StructDefinition>,
    functions: Seq<(FunctionName, Rc<Function>)>,
    cur: ModuleIdent,
    is_async: bool,
) -> Effects {
    match sdef.fields {
        StructFields::Native(_) => Effects::none(),
        StructFields::Defined(fields) => match class_members_run(
            class_head(w, name, *sdef),
            name,
            *sdef,
            fields@,
            cur,
        ) {
            Err(_) => Effects::none(),
            Ok(w9) => struct_directives_added(
                special_struct_run(w9, Some(cur), name.value@),
                name,
                sdef,
                functions,
                cur,
                is_async,
            ),
        },
    }
}

/// What a struct adds: the imports of its fields' types, and what its
/// directives add.
pub open spec fn struct_effects(
    name: StructName,
    sdef: Rc<StructDefinition>,
    functions: Seq<(FunctionName, Rc<Function>)>,
    cur: ModuleIdent,
) -> Effects {
    match sdef.fields {
        StructFields::Native(_) => Effects::none(),
        StructFields::Defined(fields) => fields_refs(fields@, fields@.len() as int, cur).plus(
            struct_directives_effects(name, sdef, sdef.attributes@.len() as int, functions, cur),
        ),
    }
}

/// Whether a struct can be translated: there is a current module, and
/// where the struct has fields, a tag can be made of the type of each
/// field, and its directives can be expanded. The directives of a native
/// struct are not expanded.
pub open spec fn struct_ready(c: Context, sdef: StructDefinition) -> bool {
    match sdef.fields {
        StructFields::Defined(fields) => directives_ready(c, sdef) && forall|i: int|
            0 <= i < fields@.len() ==> tag_ready(
                (#[trigger] fields@[i]).1,
                struct_names_of(sdef.type_parameters@),
            ),
        StructFields::Native(_) => c.current_module is Some,
    }
}

/// Describes a type parameter of a struct.
pub fn struct_type_parameter_term(tp: &StructTypeParameter) -> (r: String)
    ensures
        r@ == tparam_term(*tp),
{
    let mut line = String::from_str("{ name: ");
    line.append(rename(quote(tp.param.user_specified_name.value.as_str()).as_str()).as_str());
    line.append(", isPhantom: ");
    line.append(bool_text(tp.is_phantom));
    line.append(" }");
    line
}

/// Writes the head of a class.
fn write_class_head(name: &StructName, sdef: &StructDefinition, w: &mut TsgenWriter)
    ensures
        final(w)@ == class_head(old(w)@, *name, *sdef),
{
    w.new_line();
    let class_name = rename(name.value.as_str());
    let mut line = String::from_str("export class ");
    line.append(class_name.as_str());
    line.append(" ");
    w.writeln(line.as_str());
    w.open_block();
    w.writeln("static moduleAddress = moduleAddress;");
    w.writeln("static moduleName = moduleName;");
    let mut line = String::from_str("static structName: string = ");
    line.append(quote(class_name.as_str()).as_str());
    line.append(";");
    w.writeln(line.as_str());
    w.writeln("static typeParameters: TypeParamDeclType[] = [");
    w.indent(2);
    let ghost start = w@;
    let mut i: usize = 0;
    while i < sdef.type_parameters.len()
        invariant
            i <= sdef.type_parameters.len(),
            tparam_lines(w@, sdef.type_parameters@, i as int) == tparam_lines(
                start,
                sdef.type_parameters@,
                0,
            ),
        decreases sdef.type_parameters.len() - i,
    {
        let mut line = struct_type_parameter_term(&sdef.type_parameters[i]);
        line.append(",");
        w.writeln(line.as_str());
        i = i + 1;
    }
    w.decrease_indent();
    w.writeln("];");
}

/// Writes the descriptors of the fields.
fn write_descriptors(
    fields: &Vec<(Field, BaseType)>,
    tparams: &Vec<StructTypeParameter>,
    w: &mut TsgenWriter,
    c: &mut Context,
) -> (r: WriteResult)
    requires
        forall|i: int|
            0 <= i < fields@.len() ==> tag_ready((#[trigger] fields@[i]).1, struct_names_of(tparams@)),
    ensures
        wrote(r, final(w)@, descriptors_run(old(w)@, fields@, 0, struct_names_of(tparams@))),
        *final(c) == *old(c),
{
    let mut i: usize = 0;
    while i < fields.len()
        invariant
            i <= fields.len(),
            *c == *old(c),
            forall|i: int|
                0 <= i < fields@.len() ==> tag_ready(
                    (#[trigger] fields@[i]).1,
                    struct_names_of(tparams@),
                ),
            descriptors_run(w@, fields@, i as int, struct_names_of(tparams@)) == descriptors_run(
                old(w)@,
                fields@,
                0,
                struct_names_of(tparams@),
            ),
        decreases fields.len() - i,
    {
        let tag = match base_type_to_typetag_builder(&fields[i].1, tparams, c) {
            Ok(t) => t,
            Err(d) => {
                return Err(d);
            },
        };
        let mut line = String::from_str("{ name: ");
        line.append(quote(rename(fields[i].0.value.as_str()).as_str()).as_str());
        line.append(", typeTag: ");
        line.append(tag.as_str());
        line.append(" },");
        w.writeln(line.as_str());
        i = i + 1;
    }
    Ok(())
}

/// Writes the declarations that store the fields, and hands back the names
/// of the fields' types.
fn write_storage(fields: &Vec<(Field, BaseType)>, w: &mut TsgenWriter, c: &mut Context) -> (r:
    Result<Vec<String>, Diagnostic>)
    requires
        old(c).current_module is Some,
        forall|i: int| 0 <= i < fields@.len() ==> type_ready((#[trigger] fields@[i]).1),
    ensures
        match r {
            Ok(types) => storage_run(old(w)@, fields@, 0, old(c).current_module->0) == Ok::<
                WriterView,
                DiagnosticView,
            >(final(w)@) && types@.len() == fields@.len() && (forall|i: int|
                0 <= i < fields@.len() ==> base_ts(
                    (#[trigger] fields@[i]).1,
                    old(c).current_module->0,
                ) == Ok::<Seq<char>, DiagnosticView>(types@[i]@)) && final(c).follows(
                *old(c),
                fields_refs(fields@, fields@.len() as int, old(c).current_module->0),
            ),
            Err(d) => storage_run(old(w)@, fields@, 0, old(c).current_module->0) == Err::<
                WriterView,
                DiagnosticView,
            >(d@),
        },
        final(c).reached(*old(c), Effects::none()),
        final(c).grown(*old(c)),
{
    let ghost cur = c.current_module->0;
    let mut types: Vec<String> = Vec::new();
    let mut i: usize = 0;
    proof {
        lemma_follows_none(*c);
    }
    while i < fields.len()
        invariant
            i <= fields.len(),
            c.current_module == Some(cur),
            old(c).current_module == Some(cur),
            forall|i: int| 0 <= i < fields@.len() ==> type_ready((#[trigger] fields@[i]).1),
            types@.len() == i,
            forall|j: int|
                0 <= j < i ==> base_ts((#[trigger] fields@[j]).1, cur) == Ok::<
                    Seq<char>,
                    DiagnosticView,
                >(types@[j]@),
            storage_run(w@, fields@, i as int, cur) == storage_run(old(w)@, fields@, 0, cur),
            c.follows(*old(c), fields_refs(fields@, i as int, cur)),
            c.reached(*old(c), Effects::none()),
        decreases fields.len() - i,
    {
        let ghost c1 = *c;
        let ts = match base_type_to_tstype(&fields[i].1, c) {
            Ok(t) => t,
            Err(d) => {
                return Err(d);
            },
        };
        let mut line = rename(fields[i].0.value.as_str());
        line.append(": ");
        line.append(ts.as_str());
        line.append(";");
        w.writeln(line.as_str());
        types.push(ts);
        proof {
            lemma_reached_more(*old(c), c1, *c, Effects::none());
            lemma_follows_then(
                *old(c),
                c1,
                *c,
                fields_refs(fields@, i as int, cur),
                base_refs(fields@[i as int].1, cur),
            );
        }
        i = i + 1;
    }
    Ok(types)
}

/// Writes the lines of the constructor; `types` are the names of the
/// fields' types.
fn write_constructor_lines(
    fields: &Vec<(Field, BaseType)>,
    types: &Vec<String>,
    w: &mut TsgenWriter,
    Ghost(cur): Ghost<ModuleIdent>,
)
    requires
        types@.len() == fields@.len(),
        forall|i: int|
            0 <= i < fields@.len() ==> base_ts((#[trigger] fields@[i]).1, cur) == Ok::<
                Seq<char>,
                DiagnosticView,
            >(types@[i]@),
    ensures
        final(w)@ == constructor_lines(old(w)@, fields@, 0, cur),
{
    let mut i: usize = 0;
    while i < fields.len()
        invariant
            i <= fields.len(),
            types@.len() == fields@.len(),
            forall|i: int|
                0 <= i < fields@.len() ==> base_ts((#[trigger] fields@[i]).1, cur) == Ok::<
                    Seq<char>,
                    DiagnosticView,
                >(types@[i]@),
            constructor_lines(w@, fields@, i as int, cur) == constructor_lines(
                old(w)@,
                fields@,
                0,
                cur,
            ),
        decreases fields.len() - i,
    {
        let name = rename(fields[i].0.value.as_str());
        let mut line = String::from_str("this.");
        line.append(name.as_str());
        line.append(" = proto['");
        line.append(name.as_str());
        line.append("'] as ");
        line.append(types[i].as_str());
        line.append(";");
        w.writeln(line.as_str());
        i = i + 1;
    }
}

/// Writes the members of a class with fields, up to its loader.
fn write_class_members(
    name: &StructName,
    sdef: &StructDefinition,
    fields: &Vec<(Field, BaseType)>,
    w: &mut TsgenWriter,
    c: &mut Context,
) -> (r: WriteResult)
    requires
        old(c).current_module is Some,
        forall|i: int|
            0 <= i < fields@.len() ==> tag_ready(
                (#[trigger] fields@[i]).1,
                struct_names_of(sdef.type_parameters@),
            ),
        forall|i: int| 0 <= i < fields@.len() ==> type_ready((#[trigger] fields@[i]).1),
    ensures
        wrote(
            r,
            final(w)@,
            class_members_run(old(w)@, *name, *sdef, fields@, old(c).current_module->0),
        ),
        r is Ok ==> final(c).follows(
            *old(c),
            fields_refs(fields@, fields@.len() as int, old(c).current_module->0),
        ),
        final(c).reached(*old(c), Effects::none()),
        final(c).grown(*old(c)),
{
    let ghost cur = c.current_module->0;
    w.writeln("static fields: FieldDeclType[] = [");
    match write_descriptors(fields, &sdef.type_parameters, w, c) {
        Ok(_) => {},
        Err(d) => {
            return Err(d);
        },
    }
    w.writeln("];");
    w.new_line();
    let types = match write_storage(fields, w, c) {
        Ok(t) => t,
        Err(d) => {
            return Err(d);
        },
    };
    if fields.len() > 0 {
        w.new_line();
        w.new_line();
    }
    w.writeln("constructor(proto: any, public typeTag: TypeTag) {");
    w.indent(2);
    write_constructor_lines(fields, &types, w, Ghost(cur));
    w.decrease_indent();
    w.writeln("}");
    w.new_line();
    let mut line = String::from_str("static ");
    line.append(name.value.as_str());
    line.append("Parser(data:any, typeTag: TypeTag, repo: AptosParserRepo) : ");
    line.append(name.value.as_str());
    line.append(" {");
    w.writeln(line.as_str());
    let mut line = String::from_str("  const proto = $.parseStructProto(data, typeTag, repo, ");
    line.append(name.value.as_str());
    line.append(");");
    w.writeln(line.as_str());
    let mut line = String::from_str("  return new ");
    line.append(name.value.as_str());
    line.append("(proto, typeTag);");
    w.writeln(line.as_str());
    w.writeln("}");
    if sdef.abilities.has_ability_(Ability::Key) {
        w.new_line();
        w.writeln(
            "static async load(repo: AptosParserRepo, client: AptosClient, address: HexString, typeParams: TypeTag[]) {",
        );
        let mut line = String::from_str("  const result = await repo.loadResource(client, address, ");
        line.append(name.value.as_str());
        line.append(", typeParams);");
        w.writeln(line.as_str());
        let mut line = String::from_str("  return result as unknown as ");
        line.append(name.value.as_str());
        line.append(";");
        w.writeln(line.as_str());
        w.write("}");
    }
    Ok(())
}

/// Translates a struct into a class.
pub fn write_struct(
    name: &StructName,
    sdef: &Rc<StructDefinition>,
    w: &mut TsgenWriter,
    c: &mut Context,
) -> (r: WriteResult)
    requires
        struct_ready(*old(c), **sdef),
    ensures
        wrote(
            r,
            final(w)@,
            struct_run(
                old(w)@,
                *name,
                **sdef,
                functions_of(old(c).program, old(c).current_module->0),
                old(c).current_module->0,
                old(c).config.asynchronous,
            ),
        ),
        r is Ok ==> final(c).follows(
            *old(c),
            struct_effects(
                *name,
                *sdef,
                functions_of(old(c).program, old(c).current_module->0),
                old(c).current_module->0,
            ),
        ),
        r is Err ==> final(c).reached(
            *old(c),
            struct_recorded(
                old(w)@,
                *name,
                *sdef,
                functions_of(old(c).program, old(c).current_module->0),
                old(c).current_module->0,
                old(c).config.asynchronous,
            ),
        ),
        final(c).grown(*old(c)),
{
    let ghost cur = c.current_module->0;
    let ghost functions = functions_of(c.program, cur);
    write_class_head(name, sdef, w);
    match &sdef.fields {
        StructFields::Native(_) => {
            proof {
                lemma_follows_none(*c);
            }
        },
        StructFields::Defined(fields) => {
            assert forall|i: int| 0 <= i < fields@.len() implies type_ready(
                (#[trigger] fields@[i]).1,
            ) by {}
            match write_class_members(name, sdef, fields, w, c) {
                Ok(_) => {},
                Err(d) => {
                    return Err(d);
                },
            }
            let ghost c1 = *c;
            match handle_special_structs(name, w, c) {
                Ok(_) => {},
                Err(d) => {
                    return Err(d);
                },
            }
            let ghost w10 = w@;
            match handle_struct_directives(name, sdef, w, c) {
                Ok(_) => {},
                Err(d) => {
                    proof {
                        lemma_reached_after(
                            *old(c),
                            c1,
                            *c,
                            struct_directives_added(
                                w10,
                                *name,
                                *sdef,
                                functions,
                                cur,
                                c1.config.asynchronous,
                            ),
                        );
                    }
                    return Err(d);
                },
            }
            proof {
                lemma_follows_then(
                    *old(c),
                    c1,
                    *c,
                    fields_refs(fields@, fields@.len() as int, cur),
                    struct_directives_effects(
                        *name,
                        *sdef,
                        sdef.attributes@.len() as int,
                        functions,
                        cur,
                    ),
                );
            }
        },
    }
    w.close_block();
    w.new_line();
    Ok(())
}

/// The descriptors of the fields of a struct, one for each field in the
/// order of the fields.
pub open spec fn descriptor_list(fields: Seq<(Field, BaseType)>, names: Seq<Seq<char>>) -> Seq<
    Seq<char>,
> {
    Seq::new(
        fields.len(),
        |i: int| descriptor_line(fields[i], name_or_empty(tag_result(fields[i].1, names, true))),
    )
}

/// The lines of the constructor of a struct, one for each field in the
/// order of the fields.
pub open spec fn constructor_list(fields: Seq<(Field, BaseType)>, cur: ModuleIdent) -> Seq<
    Seq<char>,
> {
    Seq::new(
        fields.len(),
        |i: int| constructor_line(fields[i], name_or_empty(base_ts(fields[i].1, cur))),
    )
}

proof fn lemma_descriptors_from(
    w: WriterView,
    fields: Seq<(Field, BaseType)>,
    i: int,
    names: Seq<Seq<char>>,
)
    requires
        0 <= i,
        descriptors_run(w, fields, i, names) is Ok,
    ensures
        descriptors_run(w, fields, i, names) == Ok::<WriterView, DiagnosticView>(
            lines_written(w, descriptor_list(fields, names), i),
        ),
    decreases fields.len() - i,
{
    if i < fields.len() {
        let tag = tag_result(fields[i].1, names, true)->Ok_0;
        lemma_descriptors_from(w.writeln(descriptor_line(fields[i], tag)), fields, i + 1, names);
    }
}

proof fn lemma_constructor_from(
    w: WriterView,
    fields: Seq<(Field, BaseType)>,
    i: int,
    cur: ModuleIdent,
)
    requires
        0 <= i,
    ensures
        constructor_lines(w, fields, i, cur) == lines_written(w, constructor_list(fields, cur), i),
    decreases fields.len() - i,
{
    if i < fields.len() {
        lemma_constructor_from(
            w.writeln(constructor_line(fields[i], name_or_empty(base_ts(fields[i].1, cur)))),
            fields,
            i + 1,
            cur,
        );
    }
}

/// The constructor of a class copies exactly the fields that the class's
/// descriptors declare, under the same names and in the same order: the
/// descriptors that are written are one line for each field of the struct,
/// in the order of the fields, and so are the lines of the constructor; at
/// each position the two carry the one name that the field has in the
/// class.
pub proof fn lemma_constructor_matches_descriptors(
    described: WriterView,
    constructed: WriterView,
    fields: Seq<(Field, BaseType)>,
    names: Seq<Seq<char>>,
    cur: ModuleIdent,
)
    requires
        descriptors_run(described, fields, 0, names) is Ok,
    ensures
        descriptors_run(described, fields, 0, names) == Ok::<WriterView, DiagnosticView>(
            lines_written(described, descriptor_list(fields, names), 0),
        ),
        constructor_lines(constructed, fields, 0, cur) == lines_written(
            constructed,
            constructor_list(fields, cur),
            0,
        ),
        descriptor_list(fields, names).len() == fields.len(),
        constructor_list(fields, cur).len() == fields.len(),
        forall|i: int|
            0 <= i < fields.len() ==> #[trigger] descriptor_list(fields, names)[i] == "{ name: "@
                + quoted(renamed(fields[i].0.value@)) + ", typeTag: "@ + name_or_empty(
                tag_result(fields[i].1, names, true),
            ) + " },"@,
        forall|i: int|
            0 <= i < fields.len() ==> #[trigger] constructor_list(fields, cur)[i] == "this."@
                + renamed(fields[i].0.value@) + " = proto['"@ + renamed(fields[i].0.value@)
                + "'] as "@ + name_or_empty(base_ts(fields[i].1, cur)) + ";"@,
{
    lemma_descriptors_from(described, fields, 0, names);
    lemma_constructor_from(constructed, fields, 0, cur);
}

/// A struct with fields one of whose `method` directives names a function
/// that cannot be a method of the struct is not translated.
pub proof fn lemma_refused_method_stops_the_struct(
    w: WriterView,
    name: StructName,
    sdef: StructDefinition,
    a: int,
    k: int,
    functions: Seq<(FunctionName, Rc<Function>)>,
    cur: ModuleIdent,
    is_async: bool,
)
    requires
        sdef.fields is Defined,
        names_refused_method(name, sdef, a, k, functions, cur),
    ensures
        struct_run(w, name, sdef, functions, cur, is_async) is Err,
{
    let w2 = class_head(w, name, sdef);
    match class_members_run(w2, name, sdef, sdef.fields->Defined_0@, cur) {
        Ok(w9) => {
            lemma_refused_method_stops_the_directives(
                special_struct_run(w9, Some(cur), name.value@),
                name,
                sdef,
                a,
                k,
                functions,
                cur,
                is_async,
            );
        },
        Err(_) => {},
    }
}

} // verus!
