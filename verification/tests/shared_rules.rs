#![allow(dead_code)]
#![allow(unused_imports)]
use move_to_ts::ast::{
    Ability, AbilitySet, Address, Attribute, AttributeKind, AttributeValue, BaseType, BaseTypeKind,
    BuiltinTypeName, Command, CommandKind, Constant, Exp, ExpShape, Function, FunctionBody,
    FunctionBodyKind, FunctionSignature, LValue, LValueKind, Loc, ModuleDefinition, ModuleIdent,
    Name, NumericalAddress, Program, SingleType, SingleTypeKind, Statement, StatementKind,
    StructDefinition, StructFields, StructTypeParameter, TParam, Type, TypeKind, TypeName,
};
use move_to_ts::shared::{Context, Diagnostic, MoveToTsOptions};
use move_to_ts::string_set::StringSet;
use move_to_ts::tsgen_writer::TsgenWriter;
use std::rc::Rc;
use move_to_ts::shared::{
    base_type_to_typetag, base_type_to_typetag_builder, derr, extract_attribute_value_string,
    format_address, format_address_hex, format_function_name, format_qualified_name,
    is_same_address, is_same_module, is_same_package, ts_format_address_as_literal,
    ts_format_numerical_address, type_to_typetag, typetag_with, Diagnostics, NotTranslatable,
    Severity,
};
use move_to_ts::value_types::{
    base_type_to_tstype, single_type_to_tstype, ts_constant_type, type_to_tstype,
};

fn loc() -> Loc {
    Loc { file_hash: [0u8; 32], start: 0, end: 0 }
}

fn at(start: u32) -> Loc {
    Loc { file_hash: [7u8; 32], start, end: start + 1 }
}

fn name(s: &str) -> Name {
    Name { loc: loc(), value: s.to_string() }
}

fn name_at(s: &str, start: u32) -> Name {
    Name { loc: at(start), value: s.to_string() }
}

fn numerical(package: Option<&str>, hex: &str) -> Address {
    Address::Numerical(
        package.map(name),
        NumericalAddress { loc: loc(), hex_literal: hex.to_string(), shown: hex.to_uppercase() },
    )
}

fn module_ident(package: Option<&str>, hex: &str, module: &str) -> ModuleIdent {
    ModuleIdent { loc: loc(), address: numerical(package, hex), module: name(module) }
}

fn builtin(b: BuiltinTypeName, args: Vec<BaseType>) -> BaseType {
    BaseType { loc: loc(), value: BaseTypeKind::Apply { name: TypeName::Builtin(b), args } }
}

fn atom(b: BuiltinTypeName) -> BaseType {
    builtin(b, vec![])
}

fn vector(inner: BaseType) -> BaseType {
    builtin(BuiltinTypeName::Vector, vec![inner])
}

fn struct_type(m: ModuleIdent, s: &str, args: Vec<BaseType>) -> BaseType {
    BaseType {
        loc: loc(),
        value: BaseTypeKind::Apply { name: TypeName::ModuleType(m, name(s)), args },
    }
}

fn param_type(s: &str) -> BaseType {
    BaseType { loc: loc(), value: BaseTypeKind::Param(TParam { user_specified_name: name(s) }) }
}

fn unresolved_at(start: u32) -> BaseType {
    BaseType { loc: at(start), value: BaseTypeKind::UnresolvedError }
}

fn single(b: BaseType) -> SingleType {
    SingleType { loc: loc(), value: SingleTypeKind::Base(b) }
}

fn reference(b: BaseType) -> SingleType {
    SingleType { loc: loc(), value: SingleTypeKind::Ref(false, b) }
}

fn unit_type() -> Type {
    Type { loc: loc(), value: TypeKind::Unit }
}

fn single_type(b: BaseType) -> Type {
    Type { loc: loc(), value: TypeKind::Single(single(b)) }
}

fn exp(shape: ExpShape, term: &str) -> Exp {
    Exp { loc: loc(), shape, term: term.to_string() }
}

fn other(term: &str) -> Exp {
    exp(ExpShape::Other, term)
}

fn unit_exp() -> Exp {
    exp(ExpShape::Unit, "")
}

fn command(value: CommandKind) -> Statement {
    Statement { loc: loc(), value: StatementKind::Command(Command { loc: loc(), value }) }
}

fn command_at(value: CommandKind, start: u32) -> Statement {
    Statement { loc: at(start), value: StatementKind::Command(Command { loc: at(start), value }) }
}

fn statement(value: StatementKind) -> Statement {
    Statement { loc: loc(), value }
}

fn return_unit() -> Statement {
    command(CommandKind::Return { from_user: false, exp: unit_exp() })
}

fn return_value(term: &str) -> Statement {
    command(CommandKind::Return { from_user: true, exp: other(term) })
}

fn discard(term: &str) -> Statement {
    command(CommandKind::IgnoreAndPop { pop_num: 1, exp: other(term) })
}

fn var(s: &str) -> LValue {
    LValue { loc: loc(), value: LValueKind::Var(name(s)) }
}

fn ignore() -> LValue {
    LValue { loc: loc(), value: LValueKind::Ignore }
}

fn unpack(s: &str, fields: Vec<(&str, LValue)>) -> LValue {
    LValue {
        loc: loc(),
        value: LValueKind::Unpack {
            name: name(s),
            fields: fields.into_iter().map(|(f, l)| (name(f), l)).collect(),
        },
    }
}

fn assign(lvalues: Vec<LValue>, term: &str) -> Statement {
    command(CommandKind::Assign(lvalues, other(term)))
}

fn options() -> MoveToTsOptions {
    MoveToTsOptions {
        package_path: ".".to_string(),
        output_path: "".to_string(),
        test: false,
        cli: false,
        ui: false,
        asynchronous: false,
        package_json_name: "".to_string(),
    }
}

fn bare(attribute: &str, start: u32) -> (Name, Attribute) {
    (name(attribute), Attribute { loc: at(start), value: AttributeKind::Name(name_at(attribute, start)) })
}

fn list_of(attribute: &str, start: u32, inner: Vec<(Name, Attribute)>) -> (Name, Attribute) {
    (
        name(attribute),
        Attribute { loc: at(start), value: AttributeKind::Parameterized(name(attribute), inner) },
    )
}

fn assigned(attribute: &str, start: u32, value: AttributeValue) -> (Name, Attribute) {
    (
        name_at(attribute, start),
        Attribute { loc: at(start + 100), value: AttributeKind::Assigned(name(attribute), value) },
    )
}

fn function(
    entry: bool,
    tparams: Vec<&str>,
    params: Vec<(&str, SingleType)>,
    ret: Type,
    body: FunctionBodyKind,
    attributes: Vec<(Name, Attribute)>,
) -> Rc<Function> {
    Rc::new(Function {
        attributes,
        entry: if entry { Some(loc()) } else { None },
        signature: Rc::new(FunctionSignature {
            type_parameters: tparams
                .into_iter()
                .map(|t| TParam { user_specified_name: name(t) })
                .collect(),
            parameters: params.into_iter().map(|(n, t)| (name(n), t)).collect(),
            return_type: ret,
        }),
        body: FunctionBody { loc: at(900), value: body },
    })
}

fn defined(locals: Vec<(&str, SingleType)>, body: Vec<Statement>) -> FunctionBodyKind {
    FunctionBodyKind::Defined {
        locals: locals.into_iter().map(|(n, t)| (name(n), t)).collect(),
        body,
    }
}

fn struct_def(
    tparams: Vec<(&str, bool)>,
    key: bool,
    fields: Option<Vec<(&str, BaseType)>>,
    attributes: Vec<(Name, Attribute)>,
) -> Rc<StructDefinition> {
    Rc::new(StructDefinition {
        attributes,
        abilities: AbilitySet { copy: false, drop: false, store: true, key },
        type_parameters: tparams
            .into_iter()
            .map(|(t, phantom)| StructTypeParameter {
                is_phantom: phantom,
                param: TParam { user_specified_name: name(t) },
            })
            .collect(),
        fields: match fields {
            Some(fields) => {
                StructFields::Defined(fields.into_iter().map(|(f, t)| (name(f), t)).collect())
            }
            None => StructFields::Native(loc()),
        },
    })
}

fn module(
    structs: Vec<(&str, Rc<StructDefinition>)>,
    constants: Vec<(&str, Constant)>,
    functions: Vec<(&str, Rc<Function>)>,
) -> ModuleDefinition {
    ModuleDefinition {
        package_name: Some("demo".to_string()),
        structs: structs.into_iter().map(|(n, s)| (name(n), s)).collect(),
        constants: constants.into_iter().map(|(n, c)| (name(n), c)).collect(),
        functions: functions.into_iter().map(|(n, f)| (name(n), f)).collect(),
    }
}

fn sharing(m: &ModuleDefinition) -> ModuleDefinition {
    ModuleDefinition {
        package_name: m.package_name.clone(),
        structs: m.structs.iter().map(|(n, s)| (n.clone(), s.clone())).collect(),
        constants: Vec::new(),
        functions: m.functions.iter().map(|(n, f)| (n.clone(), f.clone())).collect(),
    }
}

fn context_with(mident: &ModuleIdent, mdef: &ModuleDefinition, config: MoveToTsOptions) -> Context {
    let program = Program { modules: vec![(mident.clone(), sharing(mdef))] };
    Context::new(&config, Rc::new(program))
}

fn entered(mident: &ModuleIdent, mdef: &ModuleDefinition, config: MoveToTsOptions) -> Context {
    let mut c = context_with(mident, mdef, config);
    c.reset_for_module(mident.clone());
    c
}

fn bank() -> ModuleIdent {
    module_ident(Some("demo"), "0x7", "bank")
}

fn listing(set: &StringSet) -> Vec<String> {
    let mut out = Vec::new();
    let mut i = 0;
    while i < set.len() {
        out.push(set.get(i).clone());
        i += 1;
    }
    out
}

fn message(d: &Diagnostic) -> (u32, String) {
    (d.primary_label.0.start, d.primary_label.1.clone())
}

fn unnamed(hex: &str, shown: &str) -> Address {
    Address::Numerical(
        None,
        NumericalAddress { loc: loc(), hex_literal: hex.to_string(), shown: shown.to_string() },
    )
}

fn tparams(names: &[&str]) -> Vec<StructTypeParameter> {
    names
        .iter()
        .map(|n| StructTypeParameter {
            is_phantom: false,
            param: TParam { user_specified_name: name(n) },
        })
        .collect()
}

fn empty_module() -> ModuleDefinition {
    module(vec![], vec![], vec![])
}

fn inside_function(tparam_names: Vec<&str>) -> Context {
    let mut c = entered(&bank(), &empty_module(), options());
    c.current_function_signature = Some(Rc::new(FunctionSignature {
        type_parameters: tparam_names
            .into_iter()
            .map(|t| TParam { user_specified_name: name(t) })
            .collect(),
        parameters: vec![],
        return_type: unit_type(),
    }));
    c
}

#[test]
fn not_translatable_is_a_blocking_error() {
    let code = NotTranslatable {};
    assert_eq!(code.severity(), Severity::BlockingError);
    assert_eq!(code.code_and_message(), (1, "Not Translatable"));
}

#[test]
fn derr_has_one_label() {
    let d = derr(at(5), "bad");
    assert_eq!(d.primary_label.0.start, 5);
    assert_eq!(d.primary_label.1, "bad");
    assert!(d.secondary_labels.is_empty());
    let mut all = Diagnostics::new();
    assert!(all.diagnostics.is_empty());
    all.add(d);
    assert_eq!(all.diagnostics.len(), 1);
}

#[test]
fn same_package_needs_the_same_name_and_number() {
    let a = numerical(Some("std"), "0x1");
    assert!(is_same_package(&a, &numerical(Some("std"), "0x1")));
    assert!(!is_same_package(&a, &numerical(Some("aptos_std"), "0x1")));
    assert!(!is_same_package(&a, &numerical(None, "0x1")));
    assert!(!is_same_package(&a, &numerical(Some("std"), "0x2")));
    assert!(is_same_package(&unnamed("0x1", "1"), &unnamed("0x1", "0x1")));
    assert!(!is_same_package(&a, &Address::NamedUnassigned(name("std"))));
}

#[test]
fn same_package_of_unassigned_names() {
    let a = Address::NamedUnassigned(name("pkg"));
    assert!(is_same_package(&a, &Address::NamedUnassigned(name("pkg"))));
    assert!(!is_same_package(&a, &Address::NamedUnassigned(name("other"))));
    assert!(!is_same_package(&a, &numerical(Some("pkg"), "0x1")));
}

#[test]
fn same_address_ignores_the_name() {
    assert!(is_same_address(&numerical(Some("std"), "0x1"), &numerical(Some("aptos_std"), "0x1")));
    assert!(!is_same_address(&numerical(Some("std"), "0x1"), &numerical(Some("std"), "0x2")));
    assert!(!is_same_address(
        &Address::NamedUnassigned(name("a")),
        &numerical(Some("a"), "0x1")
    ));
}

#[test]
fn same_module_compares_address_and_module_name() {
    let m = module_ident(Some("std"), "0x1", "vector");
    assert!(is_same_module(&m, &module_ident(Some("std"), "0x1", "vector")));
    assert!(is_same_module(&m, &module_ident(Some("aptos_std"), "0x1", "vector")));
    assert!(!is_same_module(&m, &module_ident(Some("std"), "0x1", "string")));
    assert!(!is_same_module(&m, &module_ident(Some("std"), "0x2", "vector")));
}

#[test]
fn format_address_prefers_the_name() {
    assert_eq!(format_address(&numerical(Some("std"), "0x1")), "std");
    assert_eq!(format_address(&unnamed("0x1f", "0x1F")), "X0x1F");
    assert_eq!(format_address(&unnamed("0x10", "16")), "X16");
    assert_eq!(format_address(&Address::NamedUnassigned(name("later"))), "later");
}

#[test]
fn format_address_hex_is_the_hex_literal() {
    assert_eq!(format_address_hex(&numerical(Some("std"), "0x1")), "0x1");
    assert_eq!(format_address_hex(&unnamed("0xa550c18", "173345816")), "0xa550c18");
    assert_eq!(format_address_hex(&Address::NamedUnassigned(name("later"))), "");
}

#[test]
fn numerical_address_as_expression() {
    let n = NumericalAddress { loc: loc(), hex_literal: "0x1".to_string(), shown: "1".to_string() };
    assert_eq!(ts_format_numerical_address(&n).unwrap(), "new HexString(\"0x1\")");
    assert_eq!(
        ts_format_address_as_literal(&numerical(Some("std"), "0x1"), at(3)).unwrap(),
        "new HexString(\"0x1\")"
    );
}

#[test]
fn unassigned_address_has_no_literal() {
    let e = ts_format_address_as_literal(&Address::NamedUnassigned(name("later")), at(3))
        .unwrap_err();
    assert_eq!(message(&e), (3, "Unassigned address: later".to_string()));
}

#[test]
fn qualified_name_in_the_same_module_is_bare() {
    let mut c = entered(&bank(), &empty_module(), options());
    assert_eq!(format_qualified_name(&bank(), "Account", &mut c), "Account");
    assert_eq!(format_qualified_name(&bank(), "new", &mut c), "new__");
    assert_eq!(c.same_package_imports.len(), 0);
    assert_eq!(c.package_imports.len(), 0);
}

#[test]
fn qualified_name_in_the_same_package_takes_the_module() {
    let mut c = entered(&bank(), &empty_module(), options());
    let other_module = module_ident(Some("demo"), "0x7", "vault");
    assert_eq!(format_qualified_name(&other_module, "Safe", &mut c), "Vault.Safe");
    assert_eq!(listing(&c.same_package_imports), vec!["vault".to_string()]);
    assert_eq!(c.package_imports.len(), 0);
}

#[test]
fn qualified_name_in_another_package_takes_package_and_module() {
    let mut c = entered(&bank(), &empty_module(), options());
    let coin = module_ident(Some("aptos_framework"), "0x1", "coin");
    assert_eq!(format_qualified_name(&coin, "Coin", &mut c), "Aptos_framework.Coin.Coin");
    assert_eq!(listing(&c.package_imports), vec!["aptos_framework".to_string()]);
    assert_eq!(c.same_package_imports.len(), 0);
    let same_number = module_ident(Some("other"), "0x7", "bank2");
    assert_eq!(format_qualified_name(&same_number, "T", &mut c), "Other.Bank2.T");
    assert_eq!(
        listing(&c.package_imports),
        vec!["aptos_framework".to_string(), "other".to_string()]
    );
}

#[test]
fn imports_are_listed_once_in_ascending_order() {
    let mut c = entered(&bank(), &empty_module(), options());
    for m in ["vault", "account", "vault", "ledger", "account"] {
        format_qualified_name(&module_ident(Some("demo"), "0x7", m), "T", &mut c);
    }
    assert_eq!(
        listing(&c.same_package_imports),
        vec!["account".to_string(), "ledger".to_string(), "vault".to_string()]
    );
}

#[test]
fn function_name_gets_underscore_and_await() {
    assert_eq!(format_function_name("transfer", false), "transfer_");
    assert_eq!(format_function_name("transfer", true), "await transfer_");
}

#[test]
fn atomic_type_tags() {
    let mut c = inside_function(vec![]);
    let cases = [
        (BuiltinTypeName::Bool, "AtomicTypeTag.Bool"),
        (BuiltinTypeName::U8, "AtomicTypeTag.U8"),
        (BuiltinTypeName::U64, "AtomicTypeTag.U64"),
        (BuiltinTypeName::U128, "AtomicTypeTag.U128"),
        (BuiltinTypeName::Address, "AtomicTypeTag.Address"),
        (BuiltinTypeName::Signer, "AtomicTypeTag.Signer"),
    ];
    for (b, expected) in cases {
        assert_eq!(base_type_to_typetag(&atom(b), &mut c).unwrap(), expected);
        assert_eq!(base_type_to_typetag_builder(&atom(b), &tparams(&[]), &mut c).unwrap(), expected);
    }
}

#[test]
fn type_parameter_tags_differ_by_mode() {
    let mut c = inside_function(vec!["X", "Y"]);
    assert_eq!(base_type_to_typetag(&param_type("Y"), &mut c).unwrap(), "$p[1]");
    assert_eq!(base_type_to_typetag(&param_type("X"), &mut c).unwrap(), "$p[0]");
    assert_eq!(
        base_type_to_typetag_builder(&param_type("Y"), &tparams(&["Y", "X"]), &mut c).unwrap(),
        "new $.TypeParamIdx(0)"
    );
    assert_eq!(
        base_type_to_typetag_builder(&param_type("X"), &tparams(&["Y", "X"]), &mut c).unwrap(),
        "new $.TypeParamIdx(1)"
    );
}

#[test]
fn type_parameter_index_beyond_nine() {
    let names: Vec<String> = (0..12).map(|i| format!("T{}", i)).collect();
    assert_eq!(typetag_with(&param_type("T11"), &names, false).unwrap(), "$p[11]");
    assert_eq!(typetag_with(&param_type("T10"), &names, true).unwrap(), "new $.TypeParamIdx(10)");
}

#[test]
fn vector_and_struct_tags() {
    let mut c = inside_function(vec!["T"]);
    assert_eq!(
        base_type_to_typetag(&vector(vector(atom(BuiltinTypeName::U8))), &mut c).unwrap(),
        "new VectorTag(new VectorTag(AtomicTypeTag.U8))"
    );
    let coin = module_ident(Some("aptos_framework"), "0x1", "coin");
    let ty = struct_type(coin.clone(), "Coin", vec![param_type("T"), atom(BuiltinTypeName::U64)]);
    assert_eq!(
        base_type_to_typetag(&ty, &mut c).unwrap(),
        "new StructTag(new HexString(\"0x1\"), \"coin\", \"Coin\", [$p[0], AtomicTypeTag.U64])"
    );
    assert_eq!(
        base_type_to_typetag_builder(&ty, &tparams(&["T"]), &mut c).unwrap(),
        "new StructTag(new HexString(\"0x1\"), \"coin\", \"Coin\", [new $.TypeParamIdx(0), AtomicTypeTag.U64])"
    );
    assert_eq!(
        base_type_to_typetag(&struct_type(coin, "Info", vec![]), &mut c).unwrap(),
        "new StructTag(new HexString(\"0x1\"), \"coin\", \"Info\", [])"
    );
    assert_eq!(c.package_imports.len(), 0);
}

#[test]
fn unresolved_type_has_no_tag() {
    let mut c = inside_function(vec![]);
    let e = base_type_to_typetag(&unresolved_at(11), &mut c).unwrap_err();
    assert_eq!(message(&e), (11, "Received Unresolved Type".to_string()));
    let nested = struct_type(bank(), "S", vec![atom(BuiltinTypeName::U8), vector(unresolved_at(12))]);
    let e = base_type_to_typetag_builder(&nested, &tparams(&[]), &mut c).unwrap_err();
    assert_eq!(message(&e), (12, "Received Unresolved Type".to_string()));
    let unreachable = BaseType { loc: at(13), value: BaseTypeKind::Unreachable };
    let e = base_type_to_typetag(&unreachable, &mut c).unwrap_err();
    assert_eq!(message(&e), (13, "Received Unresolved Type".to_string()));
}

#[test]
fn first_unresolved_type_is_reported() {
    let mut c = inside_function(vec![]);
    let ty = struct_type(bank(), "S", vec![unresolved_at(21), unresolved_at(22)]);
    let e = base_type_to_typetag(&ty, &mut c).unwrap_err();
    assert_eq!(message(&e), (21, "Received Unresolved Type".to_string()));
}

#[test]
fn type_to_typetag_of_unit_reference_and_tuple() {
    let mut c = inside_function(vec![]);
    let unit = Type { loc: at(1), value: TypeKind::Unit };
    assert_eq!(
        message(&type_to_typetag(&unit, &mut c).unwrap_err()),
        (1, "Cannot construct Unit type".to_string())
    );
    let r = Type { loc: at(2), value: TypeKind::Single(reference(atom(BuiltinTypeName::U8))) };
    assert_eq!(
        message(&type_to_typetag(&r, &mut c).unwrap_err()),
        (2, "Cannot construct typetag for Ref type".to_string())
    );
    let t = Type { loc: at(3), value: TypeKind::Multiple(vec![single(atom(BuiltinTypeName::U8))]) };
    assert_eq!(
        message(&type_to_typetag(&t, &mut c).unwrap_err()),
        (3, "Cannot construct typeTag for tuples".to_string())
    );
    assert_eq!(
        type_to_typetag(&single_type(atom(BuiltinTypeName::Bool)), &mut c).unwrap(),
        "AtomicTypeTag.Bool"
    );
}

#[test]
fn attribute_value_as_text() {
    let (_, a) = assigned("desc", 1, AttributeValue::Bytearray(b"show me".to_vec()));
    assert_eq!(extract_attribute_value_string(&a), Some("show me".to_string()));
    let (_, a) = assigned("desc", 1, AttributeValue::Bytearray("gr\u{fc}n".as_bytes().to_vec()));
    assert_eq!(extract_attribute_value_string(&a), Some("gr\u{fc}n".to_string()));
    let (_, a) = assigned("desc", 1, AttributeValue::Bytearray(vec![0xff, 0xfe]));
    assert_eq!(extract_attribute_value_string(&a), Some("".to_string()));
    let (_, a) = assigned("desc", 1, AttributeValue::Other);
    assert_eq!(extract_attribute_value_string(&a), None);
    let (_, a) = bare("desc", 1);
    assert_eq!(extract_attribute_value_string(&a), None);
}

#[test]
fn context_starts_empty() {
    let c = context_with(&bank(), &empty_module(), options());
    assert!(c.current_module.is_none());
    assert!(c.current_function_signature.is_none());
    assert_eq!(c.same_package_imports.len(), 0);
    assert_eq!(c.package_imports.len(), 0);
    assert!(c.visited_modules.is_empty());
    assert!(c.visited_packages.is_empty());
    assert!(c.tests.is_empty() && c.cmds.is_empty() && c.queries.is_empty());
    assert!(c.printer_methods.is_empty() && c.all_shows_iter_tables.is_empty());
    assert!(!c.is_async());
}

#[test]
fn reset_for_module_clears_imports_and_keeps_registries() {
    let mut c = entered(&bank(), &empty_module(), options());
    format_qualified_name(&module_ident(Some("demo"), "0x7", "vault"), "T", &mut c);
    format_qualified_name(&module_ident(Some("std"), "0x1", "vector"), "T", &mut c);
    c.tests.push((name("t"), Rc::new(FunctionSignature {
        type_parameters: vec![],
        parameters: vec![],
        return_type: unit_type(),
    })));
    let f = function(true, vec![], vec![], unit_type(), FunctionBodyKind::Native, vec![]);
    c.add_cmd(&bank(), &name("run"), &f, Some("d".to_string()));
    c.reset_for_module(module_ident(Some("demo"), "0x7", "vault"));
    assert_eq!(c.same_package_imports.len(), 0);
    assert_eq!(c.package_imports.len(), 0);
    assert!(c.tests.is_empty());
    assert_eq!(c.cmds.len(), 1);
    assert_eq!(c.cmds[0].fname.value, "run");
    assert_eq!(c.cmds[0].desc, Some("d".to_string()));
    assert!(Rc::ptr_eq(&c.cmds[0].func, &f));
    assert_eq!(c.current_module.as_ref().unwrap().module.value, "vault");
}

#[test]
fn visited_modules_and_packages_only_grow() {
    let mut c = context_with(&bank(), &empty_module(), options());
    c.reset_for_module(bank());
    c.reset_for_module(module_ident(Some("demo"), "0x7", "vault"));
    c.reset_for_module(bank());
    c.reset_for_module(module_ident(Some("std"), "0x1", "vector"));
    let modules: Vec<String> = c.visited_modules.iter().map(|m| m.module.value.clone()).collect();
    assert_eq!(modules, vec!["bank".to_string(), "vault".to_string(), "vector".to_string()]);
    let packages: Vec<String> = c.visited_packages.iter().map(|p| p.0.clone()).collect();
    assert_eq!(packages, vec!["demo".to_string(), "std".to_string()]);
}

#[test]
fn visited_package_takes_the_last_address() {
    let mut c = context_with(&bank(), &empty_module(), options());
    c.reset_for_module(module_ident(Some("demo"), "0x7", "bank"));
    c.reset_for_module(module_ident(Some("demo"), "0x8", "bank"));
    assert_eq!(c.visited_packages.len(), 1);
    assert_eq!(format_address_hex(&c.visited_packages[0].1), "0x8");
    assert_eq!(c.visited_modules.len(), 2);
}

#[test]
fn current_module_and_package() {
    let c = entered(&bank(), &empty_module(), options());
    assert!(c.is_current_module(&bank()));
    assert!(!c.is_current_module(&module_ident(Some("demo"), "0x7", "vault")));
    assert!(c.is_current_package(&module_ident(Some("demo"), "0x7", "vault")));
    assert!(!c.is_current_package(&module_ident(Some("std"), "0x1", "vector")));
    assert_eq!(c.module().module.value, "bank");
}

#[test]
fn type_parameter_index_in_the_current_function() {
    let c = inside_function(vec!["A", "B"]);
    assert_eq!(c.get_tparam_index(&TParam { user_specified_name: name("B") }), Some(1));
    assert_eq!(c.get_tparam_index(&TParam { user_specified_name: name("A") }), Some(0));
    assert_eq!(c.get_tparam_index(&TParam { user_specified_name: name("C") }), None);
    let outside = entered(&bank(), &empty_module(), options());
    assert_eq!(outside.get_tparam_index(&TParam { user_specified_name: name("A") }), None);
}

#[test]
fn records_are_appended_in_order() {
    let mut c = entered(&bank(), &empty_module(), options());
    let f = function(true, vec![], vec![], unit_type(), FunctionBodyKind::Native, vec![]);
    let s = struct_def(vec![], false, Some(vec![]), vec![]);
    c.add_query(&bank(), &name("q1"), &f);
    c.add_query(&bank(), &name("q2"), &f);
    c.add_printer_method(&bank(), &name("S"), &s, &name("show"), &f.signature);
    c.add_show_iter_table(&bank(), &name("S"), &s, &name("table"));
    assert_eq!(c.queries.len(), 2);
    assert_eq!(c.queries[0].fname.value, "q1");
    assert_eq!(c.queries[1].fname.value, "q2");
    assert_eq!(c.queries[1].desc, None);
    assert_eq!(c.printer_methods.len(), 1);
    assert_eq!(c.printer_methods[0].3.value, "show");
    assert!(Rc::ptr_eq(&c.printer_methods[0].2, &s));
    assert!(Rc::ptr_eq(&c.printer_methods[0].4, &f.signature));
    assert_eq!(c.all_shows_iter_tables.len(), 1);
    assert_eq!(c.all_shows_iter_tables[0].3.value, "table");
}

#[test]
fn value_type_names() {
    let mut c = entered(&bank(), &empty_module(), options());
    let cases = [
        (BuiltinTypeName::Bool, "boolean"),
        (BuiltinTypeName::U8, "U8"),
        (BuiltinTypeName::U64, "U64"),
        (BuiltinTypeName::U128, "U128"),
        (BuiltinTypeName::Address, "HexString"),
        (BuiltinTypeName::Signer, "HexString"),
    ];
    for (b, expected) in cases {
        assert_eq!(base_type_to_tstype(&atom(b), &mut c).unwrap(), expected);
        assert_eq!(ts_constant_type(&atom(b), &mut c).unwrap(), expected);
    }
    assert_eq!(base_type_to_tstype(&param_type("T"), &mut c).unwrap(), "any");
    assert_eq!(
        base_type_to_tstype(&vector(vector(atom(BuiltinTypeName::U8))), &mut c).unwrap(),
        "U8[][]"
    );
    assert_eq!(
        single_type_to_tstype(&reference(atom(BuiltinTypeName::U64)), &mut c).unwrap(),
        "U64"
    );
    assert_eq!(c.same_package_imports.len() + c.package_imports.len(), 0);
}

#[test]
fn value_type_of_a_struct_records_the_import() {
    let mut c = entered(&bank(), &empty_module(), options());
    let coin = module_ident(Some("aptos_framework"), "0x1", "coin");
    let ty = vector(struct_type(coin, "Coin", vec![atom(BuiltinTypeName::U8)]));
    assert_eq!(base_type_to_tstype(&ty, &mut c).unwrap(), "Aptos_framework.Coin.Coin[]");
    assert_eq!(listing(&c.package_imports), vec!["aptos_framework".to_string()]);
    assert_eq!(
        base_type_to_tstype(&struct_type(bank(), "Account", vec![]), &mut c).unwrap(),
        "Account"
    );
}

#[test]
fn value_type_of_results() {
    let mut c = entered(&bank(), &empty_module(), options());
    assert_eq!(type_to_tstype(&unit_type(), &mut c).unwrap(), "void");
    assert_eq!(type_to_tstype(&single_type(atom(BuiltinTypeName::Bool)), &mut c).unwrap(), "boolean");
    let tuple = Type {
        loc: loc(),
        value: TypeKind::Multiple(vec![
            single(atom(BuiltinTypeName::U8)),
            reference(struct_type(module_ident(Some("demo"), "0x7", "vault"), "Safe", vec![])),
            single(param_type("T")),
        ]),
    };
    assert_eq!(type_to_tstype(&tuple, &mut c).unwrap(), "[U8, Vault.Safe, any]");
    assert_eq!(listing(&c.same_package_imports), vec!["vault".to_string()]);
    let bad = Type {
        loc: loc(),
        value: TypeKind::Multiple(vec![single(atom(BuiltinTypeName::U8)), single(unresolved_at(4))]),
    };
    assert_eq!(
        message(&type_to_tstype(&bad, &mut c).unwrap_err()),
        (4, "Received Unresolved Type".to_string())
    );
}

#[test]
fn constant_types_are_built_in() {
    let mut c = entered(&bank(), &empty_module(), options());
    assert_eq!(ts_constant_type(&vector(atom(BuiltinTypeName::U8)), &mut c).unwrap(), "U8[]");
    let s = BaseType {
        loc: at(6),
        value: BaseTypeKind::Apply {
            name: TypeName::ModuleType(bank(), name("S")),
            args: vec![],
        },
    };
    assert_eq!(
        message(&ts_constant_type(&s, &mut c).unwrap_err()),
        (6, "Only builtin types supported as constants".to_string())
    );
    assert_eq!(
        message(&ts_constant_type(&vector(unresolved_at(8)), &mut c).unwrap_err()),
        (8, "Only builtin types supported as constants".to_string())
    );
}

#[test]
fn visited_packages_are_listed_by_name() {
    let mut c = context_with(&bank(), &empty_module(), options());
    c.reset_for_module(module_ident(Some("std"), "0x1", "vector"));
    c.reset_for_module(module_ident(Some("demo"), "0x7", "bank"));
    c.reset_for_module(module_ident(Some("aptos_std"), "0x1", "table"));
    c.reset_for_module(module_ident(Some("demo"), "0x9", "vault"));
    c.reset_for_module(module_ident(Some("dem"), "0x3", "short"));
    c.reset_for_module(module_ident(Some("Std"), "0x4", "upper"));
    let packages: Vec<(String, String)> =
        c.visited_packages.iter().map(|p| (p.0.clone(), format_address_hex(&p.1))).collect();
    let expected: Vec<(String, String)> =
        [("Std", "0x4"), ("aptos_std", "0x1"), ("dem", "0x3"), ("demo", "0x9"), ("std", "0x1")]
            .iter()
            .map(|(n, a)| (n.to_string(), a.to_string()))
            .collect();
    assert_eq!(packages, expected);
    let modules: Vec<String> = c.visited_modules.iter().map(|m| m.module.value.clone()).collect();
    assert_eq!(modules, vec!["vector", "bank", "table", "vault", "short", "upper"]);
}
