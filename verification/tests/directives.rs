#![allow(dead_code)]
#![allow(unused_imports)]
use move_to_ts::ast::{
    Ability, AbilitySet, Address, Attribute, AttributeKind, AttributeValue, BaseType, BaseTypeKind,
    BuiltinTypeName, Command, CommandKind, Constant, Exp, ExpShape, Function, FunctionBody,
    FunctionBodyKind, FunctionSignature, LValue, LValueKind, Loc, ModuleDefinition, ModuleIdent,
    Name, NumericalAddress, Program, SingleType, SingleTypeKind, Statement, StatementKind,
    StructDefinition, StructFields, StructTypeParameter, TParam, Type, TypeKind, TypeName,
};
use move_to_ts::shared::{Context, Diagnostic, MoveToTsOptions};
use move_to_ts::string_set::StringSet;
use move_to_ts::tsgen_writer::TsgenWriter;
use std::rc::Rc;
use move_to_ts::function_directives::{
    handle_function_cmd_directive, handle_function_directives, handle_function_query_directive,
    write_query_function,
};
use move_to_ts::parameters::write_parameters;
use move_to_ts::struct_directives::{
    find_field, find_function, find_module, handle_struct_directives,
    handle_struct_method_directive, handle_struct_show_iter_table_directive, validate_method,
    write_method, write_show_iter_table,
};

fn loc() -> Loc {
    Loc { file_hash: [0u8; 32], start: 0, end: 0 }
}

fn at(start: u32) -> Loc {
    Loc { file_hash: [7u8; 32], start, end: start + 1 }
}

fn name(s: &str) -> Name {
    Name { loc: loc(), value: s.to_string() }
}

fn name_at(s: &str, start: u32) -> Name {
    Name { loc: at(start), value: s.to_string() }
}

fn numerical(package: Option<&str>, hex: &str) -> Address {
    Address::Numerical(
        package.map(name),
        NumericalAddress { loc: loc(), hex_literal: hex.to_string(), shown: hex.to_uppercase() },
    )
}

fn module_ident(package: Option<&str>, hex: &str, module: &str) -> ModuleIdent {
    ModuleIdent { loc: loc(), address: numerical(package, hex), module: name(module) }
}

fn builtin(b: BuiltinTypeName, args: Vec<BaseType>) -> BaseType {
    BaseType { loc: loc(), value: BaseTypeKind::Apply { name: TypeName::Builtin(b), args } }
}

fn atom(b: BuiltinTypeName) -> BaseType {
    builtin(b, vec![])
}

fn vector(inner: BaseType) -> BaseType {
    builtin(BuiltinTypeName::Vector, vec![inner])
}

fn struct_type(m: ModuleIdent, s: &str, args: Vec<BaseType>) -> BaseType {
    BaseType {
        loc: loc(),
        value: BaseTypeKind::Apply { name: TypeName::ModuleType(m, name(s)), args },
    }
}

fn param_type(s: &str) -> BaseType {
    BaseType { loc: loc(), value: BaseTypeKind::Param(TParam { user_specified_name: name(s) }) }
}

fn unresolved_at(start: u32) -> BaseType {
    BaseType { loc: at(start), value: BaseTypeKind::UnresolvedError }
}

fn single(b: BaseType) -> SingleType {
    SingleType { loc: loc(), value: SingleTypeKind::Base(b) }
}

fn reference(b: BaseType) -> SingleType {
    SingleType { loc: loc(), value: SingleTypeKind::Ref(false, b) }
}

fn unit_type() -> Type {
    Type { loc: loc(), value: TypeKind::Unit }
}

fn single_type(b: BaseType) -> Type {
    Type { loc: loc(), value: TypeKind::Single(single(b)) }
}

fn exp(shape: ExpShape, term: &str) -> Exp {
    Exp { loc: loc(), shape, term: term.to_string() }
}

fn other(term: &str) -> Exp {
    exp(ExpShape::Other, term)
}

fn unit_exp() -> Exp {
    exp(ExpShape::Unit, "")
}

fn command(value: CommandKind) -> Statement {
    Statement { loc: loc(), value: StatementKind::Command(Command { loc: loc(), value }) }
}

fn command_at(value: CommandKind, start: u32) -> Statement {
    Statement { loc: at(start), value: StatementKind::Command(Command { loc: at(start), value }) }
}

fn statement(value: StatementKind) -> Statement {
    Statement { loc: loc(), value }
}

fn return_unit() -> Statement {
    command(CommandKind::Return { from_user: false, exp: unit_exp() })
}

fn return_value(term: &str) -> Statement {
    command(CommandKind::Return { from_user: true, exp: other(term) })
}

fn discard(term: &str) -> Statement {
    command(CommandKind::IgnoreAndPop { pop_num: 1, exp: other(term) })
}

fn var(s: &str) -> LValue {
    LValue { loc: loc(), value: LValueKind::Var(name(s)) }
}

fn ignore() -> LValue {
    LValue { loc: loc(), value: LValueKind::Ignore }
}

fn unpack(s: &str, fields: Vec<(&str, LValue)>) -> LValue {
    LValue {
        loc: loc(),
        value: LValueKind::Unpack {
            name: name(s),
            fields: fields.into_iter().map(|(f, l)| (name(f), l)).collect(),
        },
    }
}

fn assign(lvalues: Vec<LValue>, term: &str) -> Statement {
    command(CommandKind::Assign(lvalues, other(term)))
}

fn options() -> MoveToTsOptions {
    MoveToTsOptions {
        package_path: ".".to_string(),
        output_path: "".to_string(),
        test: false,
        cli: false,
        ui: false,
        asynchronous: false,
        package_json_name: "".to_string(),
    }
}

fn bare(attribute: &str, start: u32) -> (Name, Attribute) {
    (name(attribute), Attribute { loc: at(start), value: AttributeKind::Name(name_at(attribute, start)) })
}

fn list_of(attribute: &str, start: u32, inner: Vec<(Name, Attribute)>) -> (Name, Attribute) {
    (
        name(attribute),
        Attribute { loc: at(start), value: AttributeKind::Parameterized(name(attribute), inner) },
    )
}

fn assigned(attribute: &str, start: u32, value: AttributeValue) -> (Name, Attribute) {
    (
        name_at(attribute, start),
        Attribute { loc: at(start + 100), value: AttributeKind::Assigned(name(attribute), value) },
    )
}

fn function(
    entry: bool,
    tparams: Vec<&str>,
    params: Vec<(&str, SingleType)>,
    ret: Type,
    body: FunctionBodyKind,
    attributes: Vec<(Name, Attribute)>,
) -> Rc<Function> {
    Rc::new(Function {
        attributes,
        entry: if entry { Some(loc()) } else { None },
        signature: Rc::new(FunctionSignature {
            type_parameters: tparams
                .into_iter()
                .map(|t| TParam { user_specified_name: name(t) })
                .collect(),
            parameters: params.into_iter().map(|(n, t)| (name(n), t)).collect(),
            return_type: ret,
        }),
        body: FunctionBody { loc: at(900), value: body },
    })
}

fn defined(locals: Vec<(&str, SingleType)>, body: Vec<Statement>) -> FunctionBodyKind {
    FunctionBodyKind::Defined {
        locals: locals.into_iter().map(|(n, t)| (name(n), t)).collect(),
        body,
    }
}

fn struct_def(
    tparams: Vec<(&str, bool)>,
    key: bool,
    fields: Option<Vec<(&str, BaseType)>>,
    attributes: Vec<(Name, Attribute)>,
) -> Rc<StructDefinition> {
    Rc::new(StructDefinition {
        attributes,
        abilities: AbilitySet { copy: false, drop: false, store: true, key },
        type_parameters: tparams
            .into_iter()
            .map(|(t, phantom)| StructTypeParameter {
                is_phantom: phantom,
                param: TParam { user_specified_name: name(t) },
            })
            .collect(),
        fields: match fields {
            Some(fields) => {
                StructFields::Defined(fields.into_iter().map(|(f, t)| (name(f), t)).collect())
            }
            None => StructFields::Native(loc()),
        },
    })
}

fn module(
    structs: Vec<(&str, Rc<StructDefinition>)>,
    constants: Vec<(&str, Constant)>,
    functions: Vec<(&str, Rc<Function>)>,
) -> ModuleDefinition {
    ModuleDefinition {
        package_name: Some("demo".to_string()),
        structs: structs.into_iter().map(|(n, s)| (name(n), s)).collect(),
        constants: constants.into_iter().map(|(n, c)| (name(n), c)).collect(),
        functions: functions.into_iter().map(|(n, f)| (name(n), f)).collect(),
    }
}

fn sharing(m: &ModuleDefinition) -> ModuleDefinition {
    ModuleDefinition {
        package_name: m.package_name.clone(),
        structs: m.structs.iter().map(|(n, s)| (n.clone(), s.clone())).collect(),
        constants: Vec::new(),
        functions: m.functions.iter().map(|(n, f)| (n.clone(), f.clone())).collect(),
    }
}

fn context_with(mident: &ModuleIdent, mdef: &ModuleDefinition, config: MoveToTsOptions) -> Context {
    let program = Program { modules: vec![(mident.clone(), sharing(mdef))] };
    Context::new(&config, Rc::new(program))
}

fn entered(mident: &ModuleIdent, mdef: &ModuleDefinition, config: MoveToTsOptions) -> Context {
    let mut c = context_with(mident, mdef, config);
    c.reset_for_module(mident.clone());
    c
}

fn bank() -> ModuleIdent {
    module_ident(Some("demo"), "0x7", "bank")
}

fn listing(set: &StringSet) -> Vec<String> {
    let mut out = Vec::new();
    let mut i = 0;
    while i < set.len() {
        out.push(set.get(i).clone());
        i += 1;
    }
    out
}

fn message(d: &Diagnostic) -> (u32, String) {
    (d.primary_label.0.start, d.primary_label.1.clone())
}

fn account_type(args: Vec<BaseType>) -> BaseType {
    struct_type(bank(), "Account", args)
}

fn account_struct(attributes: Vec<(Name, Attribute)>) -> Rc<StructDefinition> {
    struct_def(
        vec![("T", false), ("U", true)],
        true,
        Some(vec![("balance", atom(BuiltinTypeName::U64))]),
        attributes,
    )
}

fn balance_fn(first: SingleType) -> Rc<Function> {
    function(
        false,
        vec!["T", "U"],
        vec![("account", first), ("extra", single(atom(BuiltinTypeName::U64)))],
        single_type(atom(BuiltinTypeName::U64)),
        defined(vec![], vec![return_value("x")]),
        vec![],
    )
}

fn good_first() -> SingleType {
    reference(account_type(vec![param_type("T"), param_type("U")]))
}

fn check(f: &Rc<Function>) -> Result<(), (u32, String)> {
    let sdef = account_struct(vec![]);
    let mdef = module(vec![("Account", sdef.clone())], vec![], vec![("balance", f.clone())]);
    let mut c = entered(&bank(), &mdef, options());
    validate_method(&name("Account"), &sdef, &name_at("balance", 60), f, &mut c)
        .map_err(|d| message(&d))
}

fn method_directive(names: Vec<(&str, u32)>) -> (Name, Attribute) {
    list_of("method", 70, names.into_iter().map(|(n, s)| bare(n, s)).collect())
}

fn expand_struct(
    sdef: &Rc<StructDefinition>,
    functions: Vec<(&str, Rc<Function>)>,
    config: MoveToTsOptions,
) -> (Result<String, (u32, String)>, Context) {
    let mdef = module(vec![("Account", sdef.clone())], vec![], functions);
    let mut c = entered(&bank(), &mdef, config);
    let mut w = TsgenWriter::new();
    let r = handle_struct_directives(&name("Account"), sdef, &mut w, &mut c);
    (r.map(|_| w.text()).map_err(|d| message(&d)), c)
}

fn expand_function(
    f: &Rc<Function>,
) -> (Result<String, (u32, String)>, Context) {
    let mdef = module(vec![], vec![], vec![("publish", f.clone())]);
    let mut c = entered(&bank(), &mdef, options());
    c.current_function_signature = Some(f.signature.clone());
    let mut w = TsgenWriter::new();
    let r = handle_function_directives(&name_at("publish", 80), f, &mut w, &mut c);
    (r.map(|_| w.text()).map_err(|d| message(&d)), c)
}

fn publish(ty: BaseType) -> Statement {
    command_at(
        CommandKind::Return { from_user: false, exp: exp(ExpShape::MoveTo(ty), "move_to(...)") },
        95,
    )
}

fn receipt() -> BaseType {
    struct_type(bank(), "Receipt", vec![])
}

fn publishing(
    entry: bool,
    body: FunctionBodyKind,
    attributes: Vec<(Name, Attribute)>,
) -> Rc<Function> {
    function(
        entry,
        vec![],
        vec![
            ("account", reference(atom(BuiltinTypeName::Signer))),
            ("amount", single(atom(BuiltinTypeName::U64))),
        ],
        unit_type(),
        body,
        attributes,
    )
}

const QUERY_SHAPE: &str = "the query attribute can only be used on entry functions with a move_to<X>(signer, x); as the final statement";

const QUERY_TEXT: &str = "\nexport async function query_publish(\n  client: AptosClient,\n  account: AptosAccount,\n  repo: AptosParserRepo,\n    amount: U64,\n  $p: TypeTag[],\n) {\n  const payload = buildPayload_publish(amount);\n  const outputTypeTag = new StructTag(new HexString(\"0x7\"), \"bank\", \"Receipt\", []);\n  const output = await $.simulatePayloadTx(client, account, payload);\n  return $.takeSimulationValue<Receipt>(output, outputTypeTag, repo)\n}\n";

#[test]
fn parameters_one_on_a_line() {
    let f = balance_fn(good_first());
    let mut c = entered(&bank(), &module(vec![], vec![], vec![]), options());
    let mut w = TsgenWriter::new();
    write_parameters(&f.signature, &mut w, &mut c, false, false).unwrap();
    assert_eq!(w.text(), "  account: Account,\n  extra: U64,\n");
    let mut w = TsgenWriter::new();
    write_parameters(&f.signature, &mut w, &mut c, false, true).unwrap();
    assert_eq!(w.text(), "  extra: U64,\n");
}

#[test]
fn parameters_without_signers() {
    let f = publishing(true, FunctionBodyKind::Native, vec![]);
    let mut c = entered(&bank(), &module(vec![], vec![], vec![]), options());
    let mut w = TsgenWriter::new();
    write_parameters(&f.signature, &mut w, &mut c, true, false).unwrap();
    assert_eq!(w.text(), "  amount: U64,\n");
    let mut w = TsgenWriter::new();
    write_parameters(&f.signature, &mut w, &mut c, true, true).unwrap();
    assert_eq!(w.text(), "  amount: U64,\n");
    let mut w = TsgenWriter::new();
    write_parameters(&f.signature, &mut w, &mut c, false, true).unwrap();
    assert_eq!(w.text(), "  amount: U64,\n");
}

#[test]
fn parameters_record_imports_and_report_unresolved_types() {
    let coin = module_ident(Some("aptos_framework"), "0x1", "coin");
    let f = function(
        false,
        vec![],
        vec![
            ("new", single(struct_type(coin, "Coin", vec![]))),
            ("bad", single(unresolved_at(44))),
        ],
        unit_type(),
        FunctionBodyKind::Native,
        vec![],
    );
    let mut c = entered(&bank(), &module(vec![], vec![], vec![]), options());
    let mut w = TsgenWriter::new();
    let e = write_parameters(&f.signature, &mut w, &mut c, false, false).unwrap_err();
    assert_eq!(message(&e), (44, "Received Unresolved Type".to_string()));
    let g = function(
        false,
        vec![],
        vec![("new", single(struct_type(module_ident(Some("aptos_framework"), "0x1", "coin"), "Coin", vec![])))],
        unit_type(),
        FunctionBodyKind::Native,
        vec![],
    );
    let mut c = entered(&bank(), &module(vec![], vec![], vec![]), options());
    let mut w = TsgenWriter::new();
    write_parameters(&g.signature, &mut w, &mut c, false, false).unwrap();
    assert_eq!(w.text(), "  new__: Aptos_framework.Coin.Coin,\n");
    assert_eq!(listing(&c.package_imports), vec!["aptos_framework".to_string()]);
}

#[test]
fn lookups_find_the_first_match() {
    let f = balance_fn(good_first());
    let functions = vec![(name("a"), f.clone()), (name("b"), f.clone()), (name("a"), f.clone())];
    assert_eq!(find_function(&functions, &name("a")), Some(0));
    assert_eq!(find_function(&functions, &name("b")), Some(1));
    assert_eq!(find_function(&functions, &name("c")), None);
    let fields = vec![(name("x"), atom(BuiltinTypeName::U8)), (name("y"), atom(BuiltinTypeName::U8))];
    assert_eq!(find_field(&fields, &name("y")), Some(1));
    assert_eq!(find_field(&fields, &name("z")), None);
    let program = Program {
        modules: vec![
            (module_ident(Some("demo"), "0x7", "vault"), module(vec![], vec![], vec![])),
            (bank(), module(vec![], vec![], vec![])),
        ],
    };
    assert_eq!(find_module(&program, &bank()), Some(1));
    assert_eq!(find_module(&program, &module_ident(Some("demo"), "0x7", "none")), None);
}

#[test]
fn method_with_the_struct_first_is_accepted() {
    assert_eq!(check(&balance_fn(good_first())), Ok(()));
    assert_eq!(
        check(&balance_fn(single(account_type(vec![param_type("T"), param_type("U")])))),
        Ok(())
    );
}

#[test]
fn method_with_type_arguments_out_of_order_is_refused() {
    let swapped = BaseType {
        loc: loc(),
        value: BaseTypeKind::Apply {
            name: TypeName::ModuleType(bank(), name("Account")),
            args: vec![
                BaseType {
                    loc: at(61),
                    value: BaseTypeKind::Param(TParam { user_specified_name: name("U") }),
                },
                BaseType {
                    loc: at(62),
                    value: BaseTypeKind::Param(TParam { user_specified_name: name("T") }),
                },
            ],
        },
    };
    assert_eq!(
        check(&balance_fn(reference(swapped))),
        Err((61, "Mismatched type parameters".to_string()))
    );
}

#[test]
fn method_with_a_concrete_type_argument_is_refused() {
    let concrete = BaseType {
        loc: loc(),
        value: BaseTypeKind::Apply {
            name: TypeName::ModuleType(bank(), name("Account")),
            args: vec![
                param_type("T"),
                BaseType {
                    loc: at(63),
                    value: BaseTypeKind::Apply {
                        name: TypeName::Builtin(BuiltinTypeName::U8),
                        args: vec![],
                    },
                },
            ],
        },
    };
    assert_eq!(
        check(&balance_fn(reference(concrete))),
        Err((63, "Mismatched type parameters".to_string()))
    );
}

#[test]
fn method_with_another_number_of_type_arguments_is_refused() {
    let short = BaseType {
        loc: at(64),
        value: BaseTypeKind::Apply {
            name: TypeName::ModuleType(bank(), name("Account")),
            args: vec![param_type("T")],
        },
    };
    assert_eq!(
        check(&balance_fn(reference(short))),
        Err((64, "Mismatched type parameters".to_string()))
    );
}

#[test]
fn method_with_other_type_parameters_is_refused() {
    let f = function(
        false,
        vec!["T"],
        vec![("account", good_first())],
        unit_type(),
        FunctionBodyKind::Native,
        vec![],
    );
    assert_eq!(
        check(&f),
        Err((60, "This function should have the same type parameters as Account".to_string()))
    );
    let g = Rc::new(Function {
        attributes: vec![],
        entry: None,
        signature: Rc::new(FunctionSignature {
            type_parameters: vec![
                TParam { user_specified_name: name_at("T", 65) },
                TParam { user_specified_name: name_at("V", 66) },
            ],
            parameters: vec![(name("account"), good_first())],
            return_type: unit_type(),
        }),
        body: FunctionBody { loc: loc(), value: FunctionBodyKind::Native },
    });
    assert_eq!(check(&g), Err((66, "Mismatched type parameters".to_string())));
}

#[test]
fn method_without_the_struct_first_is_refused() {
    let expected = Err((60, "This function should have &Account as its first parameter".to_string()));
    let none = function(false, vec!["T", "U"], vec![], unit_type(), FunctionBodyKind::Native, vec![]);
    assert_eq!(check(&none), expected);
    assert_eq!(check(&balance_fn(single(atom(BuiltinTypeName::U64)))), expected);
    assert_eq!(check(&balance_fn(single(param_type("T")))), expected);
    let other_struct = struct_type(bank(), "Vault", vec![param_type("T"), param_type("U")]);
    assert_eq!(check(&balance_fn(reference(other_struct))), expected);
    let other_module = struct_type(
        module_ident(Some("demo"), "0x7", "vault"),
        "Account",
        vec![param_type("T"), param_type("U")],
    );
    assert_eq!(check(&balance_fn(reference(other_module))), expected);
}

#[test]
fn method_directive_writes_a_forwarding_method() {
    let sdef = account_struct(vec![method_directive(vec![("balance", 71)])]);
    let (text, c) = expand_struct(&sdef, vec![("balance", balance_fn(good_first()))], options());
    assert_eq!(
        text.unwrap(),
        "\n\nbalance(\n  extra: U64,\n) {\n  const cache = new DummyCache();\n  const tags = (this.typeTag as StructTag).typeParams;\n  return balance_(this, extra, cache, tags);\n}\n"
    );
    assert_eq!(c.printer_methods.len(), 1);
    assert_eq!(c.printer_methods[0].0.module.value, "bank");
    assert_eq!(c.printer_methods[0].1.value, "Account");
    assert!(Rc::ptr_eq(&c.printer_methods[0].2, &sdef));
    assert_eq!(c.printer_methods[0].3.value, "balance");
}

#[test]
fn method_directive_in_asynchronous_mode_awaits() {
    let plain = struct_def(vec![], false, Some(vec![]), vec![method_directive(vec![("touch", 71)])]);
    let touch = function(
        false,
        vec![],
        vec![("account", reference(struct_type(bank(), "Account", vec![])))],
        unit_type(),
        FunctionBodyKind::Native,
        vec![],
    );
    let mut config = options();
    config.asynchronous = true;
    let (text, c) = expand_struct(&plain, vec![("touch", touch)], config);
    assert_eq!(
        text.unwrap(),
        "\n\nasync touch(\n) {\n  const cache = new DummyCache();\n  const tags = (this.typeTag as StructTag).typeParams;\n  return await touch_(this, cache);\n}\n"
    );
    assert!(c.printer_methods.is_empty());
}

#[test]
fn method_directive_with_several_functions() {
    let plain = struct_def(
        vec![],
        false,
        Some(vec![]),
        vec![method_directive(vec![("first", 71), ("second", 72)])],
    );
    let f = |ret: Type| {
        function(
            false,
            vec![],
            vec![
                ("account", reference(struct_type(bank(), "Account", vec![]))),
                ("a", single(atom(BuiltinTypeName::U8))),
                ("b", single(atom(BuiltinTypeName::Bool))),
            ],
            ret,
            FunctionBodyKind::Native,
            vec![],
        )
    };
    let (text, c) = expand_struct(
        &plain,
        vec![("second", f(single_type(atom(BuiltinTypeName::U8)))), ("first", f(unit_type()))],
        options(),
    );
    let method = |n: &str| {
        format!(
            "\n{}(\n  a: U8,\n  b: boolean,\n) {{\n  const cache = new DummyCache();\n  const tags = (this.typeTag as StructTag).typeParams;\n  return {}_(this, a, b, cache);\n}}\n",
            n, n
        )
    };
    assert_eq!(text.unwrap(), format!("\n{}{}", method("first"), method("second")));
    assert_eq!(c.printer_methods.len(), 1);
    assert_eq!(c.printer_methods[0].3.value, "second");
}

#[test]
fn method_directive_of_an_unknown_function_is_refused() {
    let sdef = account_struct(vec![method_directive(vec![("missing", 73)])]);
    let (text, _) = expand_struct(&sdef, vec![("balance", balance_fn(good_first()))], options());
    assert_eq!(text, Err((73, "This function does not exist in current module".to_string())));
}

#[test]
fn method_directive_that_fails_the_check_is_refused() {
    let sdef = account_struct(vec![method_directive(vec![("balance", 74)])]);
    let swapped = reference(account_type(vec![param_type("U"), param_type("T")]));
    let (text, c) = expand_struct(&sdef, vec![("balance", balance_fn(swapped))], options());
    assert_eq!(text, Err((0, "Mismatched type parameters".to_string())));
    assert!(c.printer_methods.is_empty());
}

#[test]
fn method_directive_takes_names_only() {
    let inner = vec![assigned("balance", 75, AttributeValue::Other)];
    let sdef = account_struct(vec![list_of("method", 70, inner)]);
    let (text, _) = expand_struct(&sdef, vec![], options());
    assert_eq!(
        text,
        Err((175, "show directive expects only a list of function names as argument".to_string()))
    );
    let sdef = account_struct(vec![bare("method", 76)]);
    let (text, _) = expand_struct(&sdef, vec![], options());
    assert_eq!(
        text,
        Err((
            76,
            "the 'method' attribute requires a list of function names as argument (e.g. $[method(show_x_as_y)]"
                .to_string()
        ))
    );
}

#[test]
fn cmd_directive_on_a_struct_is_refused() {
    let sdef = account_struct(vec![bare("cmd", 77)]);
    let (text, _) = expand_struct(&sdef, vec![], options());
    assert_eq!(text, Err((77, "the 'cmd' attribute cannot be used on structs".to_string())));
}

#[test]
fn unknown_directives_are_passed_over() {
    let sdef = account_struct(vec![bare("test_only", 78), bare("deprecated", 79)]);
    let (text, c) = expand_struct(&sdef, vec![], options());
    assert_eq!(text.unwrap(), "");
    assert!(c.printer_methods.is_empty() && c.all_shows_iter_tables.is_empty());
}

fn iterable_table(args: Vec<BaseType>) -> BaseType {
    struct_type(module_ident(Some("aptos_std"), "0x1", "iterable_table"), "IterableTable", args)
}

fn registry(fields: Option<Vec<(&str, BaseType)>>, shown: Vec<(&str, u32)>) -> Rc<StructDefinition> {
    struct_def(
        vec![],
        true,
        fields,
        vec![list_of(
            "show_iter_table",
            81,
            shown.into_iter().map(|(n, s)| bare(n, s)).collect(),
        )],
    )
}

#[test]
fn show_iter_table_writes_a_reader() {
    let table = iterable_table(vec![
        atom(BuiltinTypeName::Address),
        struct_type(module_ident(Some("demo"), "0x7", "vault"), "Safe", vec![]),
    ]);
    let sdef = registry(Some(vec![("count", atom(BuiltinTypeName::U64)), ("table", table)]), vec![("table", 82)]);
    let (text, c) = expand_struct(&sdef, vec![], options());
    assert_eq!(
        text.unwrap(),
        "\n\nasync getIterTableEntries_table(client: AptosClient, repo: AptosParserRepo) {\n  const cache = new DummyCache();\n  const tags = (this.typeTag as StructTag).typeParams;\n  const iterTableField = Account.fields.filter(f=>f.name === 'table')[0]\n  const typedIterTable = this.table.toTypedIterTable<HexString,Vault.Safe>(iterTableField);\n  return await typedIterTable.fetchAll(client, repo);\n}\n"
    );
    assert_eq!(c.all_shows_iter_tables.len(), 1);
    assert_eq!(c.all_shows_iter_tables[0].1.value, "Account");
    assert_eq!(c.all_shows_iter_tables[0].3.value, "table");
    assert!(Rc::ptr_eq(&c.all_shows_iter_tables[0].2, &sdef));
    assert_eq!(listing(&c.same_package_imports), vec!["vault".to_string()]);
}

#[test]
fn show_iter_table_of_a_missing_field_is_refused() {
    let sdef = registry(Some(vec![("count", atom(BuiltinTypeName::U64))]), vec![("table", 83)]);
    let (text, _) = expand_struct(&sdef, vec![], options());
    assert_eq!(text, Err((83, "Field table does not exist".to_string())));
}

#[test]
fn show_iter_table_of_another_type_is_refused() {
    let expected = Err((84, "Field table is not an IterableTable".to_string()));
    let sdef = registry(Some(vec![("table", atom(BuiltinTypeName::U64))]), vec![("table", 84)]);
    assert_eq!(expand_struct(&sdef, vec![], options()).0, expected);
    let args = vec![atom(BuiltinTypeName::U8), atom(BuiltinTypeName::U8)];
    let elsewhere = struct_type(module_ident(Some("aptos_std"), "0x2", "iterable_table"), "IterableTable", args);
    let sdef = registry(Some(vec![("table", elsewhere)]), vec![("table", 84)]);
    assert_eq!(expand_struct(&sdef, vec![], options()).0, expected);
    let args = vec![atom(BuiltinTypeName::U8), atom(BuiltinTypeName::U8)];
    let plain_table = struct_type(module_ident(Some("aptos_std"), "0x1", "table"), "Table", args);
    let sdef = registry(Some(vec![("table", plain_table)]), vec![("table", 84)]);
    assert_eq!(expand_struct(&sdef, vec![], options()).0, expected);
    let sdef = registry(Some(vec![("table", param_type("T"))]), vec![("table", 84)]);
    assert_eq!(expand_struct(&sdef, vec![], options()).0, expected);
}

#[test]
fn show_iter_table_needs_two_type_arguments() {
    let fields = vec![(name_at("table", 85), iterable_table(vec![atom(BuiltinTypeName::U8)]))];
    let sdef = Rc::new(StructDefinition {
        attributes: vec![list_of("show_iter_table", 81, vec![bare("table", 86)])],
        abilities: AbilitySet { copy: false, drop: false, store: true, key: true },
        type_parameters: vec![],
        fields: StructFields::Defined(fields),
    });
    let (text, _) = expand_struct(&sdef, vec![], options());
    assert_eq!(text, Err((85, "IterableTable should have 2 type arguments ".to_string())));
}

#[test]
fn show_iter_table_of_a_native_struct_is_refused() {
    let mdef = module(vec![], vec![], vec![]);
    let mut c = entered(&bank(), &mdef, options());
    let mut w = TsgenWriter::new();
    let sdef = registry(None, vec![]);
    let e = write_show_iter_table(&name("Account"), &sdef, &name_at("table", 87), &mut w, &mut c)
        .unwrap_err();
    assert_eq!(message(&e), (87, "cannot show iterable tables from native struct".to_string()));
}

#[test]
fn show_iter_table_takes_names_only() {
    let inner = vec![list_of("table", 88, vec![])];
    let sdef = struct_def(vec![], true, Some(vec![]), vec![list_of("show_iter_table", 81, inner)]);
    let (text, _) = expand_struct(&sdef, vec![], options());
    assert_eq!(
        text,
        Err((88, "show_iter_table directive expects only a field name as argument".to_string()))
    );
    let sdef = struct_def(vec![], true, Some(vec![]), vec![bare("show_iter_table", 89)]);
    let (text, _) = expand_struct(&sdef, vec![], options());
    assert_eq!(
        text,
        Err((
            89,
            "the 'show' requires a list of function names as argument (e.g. $[show(show_x_as_y)]"
                .to_string()
        ))
    );
}

#[test]
fn show_iter_table_handler_goes_through_its_list() {
    let table = || iterable_table(vec![atom(BuiltinTypeName::U8), atom(BuiltinTypeName::Bool)]);
    let sdef = registry(Some(vec![("a", table()), ("b", table())]), vec![]);
    let mdef = module(vec![], vec![], vec![]);
    let mut c = entered(&bank(), &mdef, options());
    let mut w = TsgenWriter::new();
    let inner = vec![bare("b", 1), bare("a", 2)];
    handle_struct_show_iter_table_directive(&name("R"), &sdef, &inner, &mut w, &mut c).unwrap();
    let text = w.text();
    assert!(text.starts_with("\nasync getIterTableEntries_b(client"));
    assert!(text.contains("}\n\nasync getIterTableEntries_a(client"));
    assert!(text.contains("this.a.toTypedIterTable<U8,boolean>(iterTableField);"));
    let shown: Vec<String> = c.all_shows_iter_tables.iter().map(|s| s.3.value.clone()).collect();
    assert_eq!(shown, vec!["b".to_string(), "a".to_string()]);
}

#[test]
fn method_handler_goes_through_its_list() {
    let sdef = struct_def(vec![], false, Some(vec![]), vec![]);
    let touch = function(
        false,
        vec![],
        vec![("account", reference(struct_type(bank(), "Account", vec![])))],
        single_type(atom(BuiltinTypeName::Bool)),
        FunctionBodyKind::Native,
        vec![],
    );
    let mdef = module(vec![], vec![], vec![("touch", touch.clone())]);
    let mut c = entered(&bank(), &mdef, options());
    let mut w = TsgenWriter::new();
    handle_struct_method_directive(&name("Account"), &sdef, &vec![bare("touch", 1)], &mut w, &mut c)
        .unwrap();
    assert!(w.text().starts_with("\ntouch(\n) {\n"));
    assert_eq!(c.printer_methods.len(), 1);
    let mut w = TsgenWriter::new();
    write_method(&name("Account"), &sdef, &name("touch"), &touch, &mut w, &mut c).unwrap();
    assert!(w.text().contains("  return touch_(this, cache);\n"));
    assert_eq!(c.printer_methods.len(), 2);
}

#[test]
fn cmd_directive_records_an_entry_function() {
    let f = publishing(true, defined(vec![], vec![return_unit()]), vec![bare("cmd", 90)]);
    let (text, c) = expand_function(&f);
    assert_eq!(text.unwrap(), "\n");
    assert_eq!(c.cmds.len(), 1);
    assert_eq!(c.cmds[0].mi.module.value, "bank");
    assert_eq!(c.cmds[0].fname.value, "publish");
    assert_eq!(c.cmds[0].desc, None);
    assert!(Rc::ptr_eq(&c.cmds[0].func, &f));
}

#[test]
fn cmd_directive_with_a_description() {
    let desc = assigned("desc", 91, AttributeValue::Bytearray(b"publish a receipt".to_vec()));
    let f = publishing(true, FunctionBodyKind::Native, vec![list_of("cmd", 90, vec![desc])]);
    let (text, c) = expand_function(&f);
    assert_eq!(text.unwrap(), "\n");
    assert_eq!(c.cmds.len(), 1);
    assert_eq!(c.cmds[0].desc, Some("publish a receipt".to_string()));
    let f = publishing(true, FunctionBodyKind::Native, vec![list_of("cmd", 90, vec![])]);
    let (_, c) = expand_function(&f);
    assert_eq!(c.cmds[0].desc, None);
}

#[test]
fn cmd_directive_on_another_function_is_refused() {
    let f = publishing(false, FunctionBodyKind::Native, vec![bare("cmd", 90)]);
    let (text, c) = expand_function(&f);
    assert_eq!(text, Err((80, "the cmd attribute only works on public entry functions".to_string())));
    assert!(c.cmds.is_empty());
}

#[test]
fn cmd_directive_with_a_bad_description_is_refused() {
    let desc = assigned("desc", 91, AttributeValue::Other);
    let f = publishing(true, FunctionBodyKind::Native, vec![list_of("cmd", 90, vec![desc])]);
    assert_eq!(
        expand_function(&f).0,
        Err((
            191,
            "desc needs to be assigned a byte string value (e.g. b\"description\")".to_string()
        ))
    );
    let f = publishing(true, FunctionBodyKind::Native, vec![list_of("cmd", 90, vec![bare("desc", 92)])]);
    assert_eq!(
        expand_function(&f).0,
        Err((
            92,
            "desc needs to be assigned a byte string value (e.g. b\"description\")".to_string()
        ))
    );
}

#[test]
fn cmd_directive_with_an_unknown_parameter_is_refused() {
    let other_param = assigned("about", 93, AttributeValue::Bytearray(b"x".to_vec()));
    let f = publishing(true, FunctionBodyKind::Native, vec![list_of("cmd", 90, vec![other_param])]);
    assert_eq!(
        expand_function(&f).0,
        Err((93, "Unrecognized parameter to cmd directive".to_string()))
    );
}

#[test]
fn cmd_directive_cannot_be_assigned() {
    let f = publishing(
        true,
        FunctionBodyKind::Native,
        vec![assigned("cmd", 94, AttributeValue::Bytearray(b"x".to_vec()))],
    );
    assert_eq!(expand_function(&f).0, Err((194, "the 'cmd' attribute cannot be assigned".to_string())));
}

#[test]
fn cmd_handler_leaves_the_writer_alone() {
    let f = publishing(true, FunctionBodyKind::Native, vec![]);
    let mut c = entered(&bank(), &module(vec![], vec![], vec![]), options());
    let mut w = TsgenWriter::new();
    w.write("before");
    handle_function_cmd_directive(&name("publish"), &f, None, &mut w, &mut c).unwrap();
    assert_eq!(w.text(), "before");
    assert_eq!(c.cmds.len(), 1);
}

#[test]
fn query_directive_writes_a_companion() {
    let f = publishing(
        true,
        defined(vec![], vec![discard("check()"), publish(receipt())]),
        vec![bare("query", 96)],
    );
    let (text, c) = expand_function(&f);
    assert_eq!(text.unwrap(), QUERY_TEXT);
    assert_eq!(c.queries.len(), 1);
    assert_eq!(c.queries[0].fname.value, "publish");
    assert_eq!(c.queries[0].desc, None);
    assert!(Rc::ptr_eq(&c.queries[0].func, &f));
    assert!(c.cmds.is_empty());
}

#[test]
fn query_directive_of_a_generic_function() {
    let f = function(
        true,
        vec!["T"],
        vec![("s", single(atom(BuiltinTypeName::Signer))), ("v", single(param_type("T")))],
        unit_type(),
        defined(vec![], vec![publish(struct_type(bank(), "Box", vec![param_type("T")]))]),
        vec![bare("query", 96)],
    );
    let (text, _) = expand_function(&f);
    let text = text.unwrap();
    assert!(text.contains("  const payload = buildPayload_publish(v, $p);\n"));
    assert!(text.contains(
        "  const outputTypeTag = new StructTag(new HexString(\"0x7\"), \"bank\", \"Box\", [$p[0]]);\n"
    ));
    assert!(text.contains("  return $.takeSimulationValue<Box>(output, outputTypeTag, repo)\n"));
}

#[test]
fn query_directive_needs_a_publish_at_the_end() {
    let f = publishing(
        true,
        defined(vec![], vec![publish(receipt()), command_at(CommandKind::Break, 97)]),
        vec![bare("query", 96)],
    );
    assert_eq!(expand_function(&f).0, Err((97, QUERY_SHAPE.to_string())));
    let value = command_at(CommandKind::Return { from_user: true, exp: other("x") }, 98);
    let f = publishing(true, defined(vec![], vec![value]), vec![bare("query", 96)]);
    assert_eq!(expand_function(&f).0, Err((98, QUERY_SHAPE.to_string())));
    let nested = Statement {
        loc: at(99),
        value: StatementKind::Loop { has_break: false, block: vec![publish(receipt())] },
    };
    let f = publishing(true, defined(vec![], vec![nested]), vec![bare("query", 96)]);
    let (text, c) = expand_function(&f);
    assert_eq!(text, Err((99, QUERY_SHAPE.to_string())));
    assert!(c.queries.is_empty());
}

#[test]
fn query_directive_of_an_empty_body_is_refused() {
    let f = publishing(true, defined(vec![], vec![]), vec![bare("query", 96)]);
    assert_eq!(expand_function(&f).0, Err((900, QUERY_SHAPE.to_string())));
}

#[test]
fn query_directive_on_a_native_function_is_refused() {
    let f = publishing(true, FunctionBodyKind::Native, vec![bare("query", 96)]);
    assert_eq!(
        expand_function(&f).0,
        Err((
            80,
            "the query attribute can only be used on user-defined entry functions".to_string()
        ))
    );
}

#[test]
fn query_directive_on_another_function_is_refused() {
    let f = publishing(false, defined(vec![], vec![publish(receipt())]), vec![bare("query", 96)]);
    assert_eq!(
        expand_function(&f).0,
        Err((80, "the query attribute only works on public entry functions".to_string()))
    );
}

#[test]
fn query_directive_takes_no_parameters() {
    let f = publishing(
        true,
        defined(vec![], vec![publish(receipt())]),
        vec![list_of("query", 96, vec![])],
    );
    assert_eq!(expand_function(&f).0, Err((96, "the 'query' attribute has no parameters".to_string())));
}

#[test]
fn query_of_a_type_that_is_no_struct_is_refused() {
    let ty = BaseType {
        loc: at(101),
        value: BaseTypeKind::Apply { name: TypeName::Builtin(BuiltinTypeName::U64), args: vec![] },
    };
    let f = publishing(true, defined(vec![], vec![publish(ty)]), vec![bare("query", 96)]);
    assert_eq!(
        expand_function(&f).0,
        Err((101, "Expect move_to to contain a struct type".to_string()))
    );
}

#[test]
fn query_handlers_can_be_called_directly() {
    let f = publishing(true, defined(vec![], vec![publish(receipt())]), vec![]);
    let mut c = entered(&bank(), &module(vec![], vec![], vec![]), options());
    let mut w = TsgenWriter::new();
    handle_function_query_directive(&name("publish"), &f, &mut w, &mut c).unwrap();
    assert_eq!(format!("\n{}", w.text()), QUERY_TEXT);
    assert_eq!(c.queries.len(), 1);
    let mut w = TsgenWriter::new();
    write_query_function(&name("publish"), &f, &receipt(), &mut w, &mut c).unwrap();
    assert_eq!(format!("\n{}", w.text()), QUERY_TEXT);
    assert_eq!(c.queries.len(), 1);
}

#[test]
fn method_directive_on_a_function_is_refused() {
    let f = publishing(true, FunctionBodyKind::Native, vec![list_of("method", 102, vec![])]);
    assert_eq!(
        expand_function(&f).0,
        Err((102, "the 'method' attribute can only be used on structs".to_string()))
    );
}

#[test]
fn function_directives_in_their_order() {
    let f = publishing(
        true,
        defined(vec![], vec![publish(receipt())]),
        vec![bare("cmd", 90), bare("other", 91), bare("query", 96)],
    );
    let (text, c) = expand_function(&f);
    assert_eq!(text.unwrap(), format!("\n{}", QUERY_TEXT));
    assert_eq!(c.cmds.len(), 1);
    assert_eq!(c.queries.len(), 1);
    let f = publishing(
        false,
        defined(vec![], vec![publish(receipt())]),
        vec![bare("query", 96), bare("cmd", 90)],
    );
    assert_eq!(
        expand_function(&f).0,
        Err((80, "the query attribute only works on public entry functions".to_string()))
    );
}

#[test]
fn refused_method_writes_and_records_nothing() {
    let sdef = account_struct(vec![]);
    let swapped = balance_fn(reference(account_type(vec![param_type("U"), param_type("T")])));
    let mdef = module(vec![("Account", sdef.clone())], vec![], vec![("balance", swapped)]);
    let mut c = entered(&bank(), &mdef, options());
    let mut w = TsgenWriter::new();
    w.write("class");
    let inner = vec![bare("balance", 1)];
    let e = handle_struct_method_directive(&name("Account"), &sdef, &inner, &mut w, &mut c).unwrap_err();
    assert_eq!(message(&e).1, "Mismatched type parameters");
    assert_eq!(w.text(), "class");
    assert!(c.printer_methods.is_empty());
    assert!(listing(&c.same_package_imports).is_empty() && listing(&c.package_imports).is_empty());
}

#[test]
fn method_list_stops_at_the_first_refusal() {
    let sdef = account_struct(vec![]);
    let swapped = balance_fn(reference(account_type(vec![param_type("U"), param_type("T")])));
    let functions = vec![("balance", balance_fn(good_first())), ("turned", swapped)];
    let mdef = module(vec![("Account", sdef.clone())], vec![], functions);
    let alone = {
        let mut c = entered(&bank(), &mdef, options());
        let mut w = TsgenWriter::new();
        handle_struct_method_directive(&name("Account"), &sdef, &vec![bare("balance", 1)], &mut w, &mut c)
            .unwrap();
        w.text()
    };
    for refused in [bare("turned", 2), bare("missing", 2), list_of("balance", 2, vec![])] {
        let mut c = entered(&bank(), &mdef, options());
        let mut w = TsgenWriter::new();
        let inner = vec![bare("balance", 1), refused, bare("balance", 3)];
        assert!(handle_struct_method_directive(&name("Account"), &sdef, &inner, &mut w, &mut c).is_err());
        assert_eq!(w.text(), alone);
        assert_eq!(c.printer_methods.len(), 1);
        assert_eq!(c.printer_methods[0].3.value, "balance");
    }
}

#[test]
fn refused_show_leaves_no_record() {
    let table = || iterable_table(vec![atom(BuiltinTypeName::U8), atom(BuiltinTypeName::Bool)]);
    let short = iterable_table(vec![atom(BuiltinTypeName::U8)]);
    let unread = iterable_table(vec![atom(BuiltinTypeName::U8), unresolved_at(5)]);
    let fields = vec![("a", table()), ("n", atom(BuiltinTypeName::U64)), ("s", short), ("u", unread)];
    let sdef = registry(Some(fields), vec![]);
    let mdef = module(vec![], vec![], vec![]);
    for field in ["missing", "n", "s", "u"] {
        let mut c = entered(&bank(), &mdef, options());
        let mut w = TsgenWriter::new();
        w.write("class");
        assert!(write_show_iter_table(&name("R"), &sdef, &name(field), &mut w, &mut c).is_err());
        assert_eq!(w.text(), "class");
        assert!(c.all_shows_iter_tables.is_empty());
    }
    let alone = {
        let mut c = entered(&bank(), &mdef, options());
        let mut w = TsgenWriter::new();
        handle_struct_show_iter_table_directive(&name("R"), &sdef, &vec![bare("a", 1)], &mut w, &mut c)
            .unwrap();
        w.text()
    };
    for refused in [bare("missing", 2), bare("n", 2), assigned("a", 2, AttributeValue::Other)] {
        let mut c = entered(&bank(), &mdef, options());
        let mut w = TsgenWriter::new();
        let inner = vec![bare("a", 1), refused, bare("a", 3)];
        assert!(handle_struct_show_iter_table_directive(&name("R"), &sdef, &inner, &mut w, &mut c).is_err());
        assert_eq!(w.text(), alone);
        assert_eq!(c.all_shows_iter_tables.len(), 1);
        assert_eq!(c.all_shows_iter_tables[0].3.value, "a");
    }
}

#[test]
fn refused_query_leaves_no_record() {
    let other_function = publishing(false, defined(vec![], vec![publish(receipt())]), vec![]);
    let native = publishing(true, FunctionBodyKind::Native, vec![]);
    let no_publish = publishing(true, defined(vec![], vec![return_unit()]), vec![]);
    for f in [other_function, native, no_publish] {
        let mut c = entered(&bank(), &module(vec![], vec![], vec![]), options());
        let mut w = TsgenWriter::new();
        w.write("before");
        assert!(handle_function_query_directive(&name("publish"), &f, &mut w, &mut c).is_err());
        assert_eq!(w.text(), "before");
        assert!(c.queries.is_empty() && c.cmds.is_empty());
    }
    let builtin_type = BaseType {
        loc: at(101),
        value: BaseTypeKind::Apply { name: TypeName::Builtin(BuiltinTypeName::U64), args: vec![] },
    };
    let f = publishing(true, defined(vec![], vec![publish(builtin_type)]), vec![]);
    let mut c = entered(&bank(), &module(vec![], vec![], vec![]), options());
    let mut w = TsgenWriter::new();
    assert!(handle_function_query_directive(&name("publish"), &f, &mut w, &mut c).is_err());
    assert!(c.queries.is_empty() && c.cmds.is_empty());
}

#[test]
fn refused_function_directive_records_nothing() {
    let body = || defined(vec![], vec![publish(receipt())]);
    let refused = vec![
        list_of("method", 1, vec![]),
        bare("method", 1),
        assigned("cmd", 1, AttributeValue::Other),
        list_of("query", 1, vec![]),
        assigned("query", 1, AttributeValue::Other),
    ];
    for directive in refused {
        let f = publishing(true, body(), vec![directive]);
        let mut c = entered(&bank(), &module(vec![], vec![], vec![]), options());
        c.current_function_signature = Some(f.signature.clone());
        let mut w = TsgenWriter::new();
        w.write("before");
        assert!(handle_function_directives(&name("publish"), &f, &mut w, &mut c).is_err());
        assert_eq!(w.text(), "before");
        assert!(c.cmds.is_empty() && c.queries.is_empty() && c.printer_methods.is_empty());
    }
    let f = publishing(true, body(), vec![bare("cmd", 1), bare("query", 2), list_of("method", 3, vec![])]);
    let mut c = entered(&bank(), &module(vec![], vec![], vec![]), options());
    c.current_function_signature = Some(f.signature.clone());
    let mut w = TsgenWriter::new();
    assert!(handle_function_directives(&name("publish"), &f, &mut w, &mut c).is_err());
    assert_eq!(w.text(), format!("\n{}", QUERY_TEXT));
    assert_eq!((c.cmds.len(), c.queries.len()), (1, 1));
    let f = publishing(false, body(), vec![bare("other", 1), bare("query", 2)]);
    let mut c = entered(&bank(), &module(vec![], vec![], vec![]), options());
    c.current_function_signature = Some(f.signature.clone());
    let mut w = TsgenWriter::new();
    assert!(handle_function_directives(&name("publish"), &f, &mut w, &mut c).is_err());
    assert_eq!(w.text(), "\n");
    assert!(c.queries.is_empty());
}

#[test]
fn struct_directives_stop_at_the_first_refusal() {
    let table = || iterable_table(vec![atom(BuiltinTypeName::U8), atom(BuiltinTypeName::Bool)]);
    let shown = list_of("show_iter_table", 1, vec![bare("a", 2)]);
    let expand = |attributes: Vec<(Name, Attribute)>| {
        let sdef = struct_def(vec![], true, Some(vec![("a", table())]), attributes);
        let mdef = module(vec![("Account", sdef.clone())], vec![], vec![]);
        let mut c = entered(&bank(), &mdef, options());
        let mut w = TsgenWriter::new();
        w.write("class");
        let r = handle_struct_directives(&name("Account"), &sdef, &mut w, &mut c);
        (r.is_ok(), w.text(), c.all_shows_iter_tables.len(), c.printer_methods.len())
    };
    let (ok, alone, shows, _) = expand(vec![shown]);
    assert!(ok && shows == 1);
    for refused in [bare("cmd", 3), bare("method", 3), bare("show_iter_table", 3)] {
        let name_of = refused.0.value.clone();
        assert_eq!(expand(vec![refused]), (false, "class".to_string(), 0, 0), "{}", name_of);
    }
    let again = || list_of("show_iter_table", 1, vec![bare("a", 2)]);
    assert_eq!(expand(vec![again(), bare("cmd", 3), again()]), (false, alone.clone(), 1, 0));
    let missing = list_of("method", 4, vec![bare("missing", 5)]);
    assert_eq!(expand(vec![again(), missing]), (false, format!("{}\n", alone), 1, 0));
    let no_field = list_of("show_iter_table", 6, vec![bare("a", 7), bare("b", 8)]);
    let (ok, text, shows, _) = expand(vec![no_field]);
    assert!(!ok && shows == 1);
    assert_eq!(text, alone);
}

#[test]
fn stopped_translation_keeps_what_came_before_the_error() {
    let table = || iterable_table(vec![atom(BuiltinTypeName::U8), atom(BuiltinTypeName::Bool)]);
    let shown = struct_def(
        vec![],
        true,
        Some(vec![("a", table())]),
        vec![list_of("show_iter_table", 1, vec![bare("a", 2), bare("missing", 3)])],
    );
    let later = struct_def(
        vec![],
        true,
        Some(vec![("a", table())]),
        vec![list_of("show_iter_table", 4, vec![bare("a", 5)])],
    );
    let run = publishing(true, FunctionBodyKind::Native, vec![bare("cmd", 6)]);
    let mdef = module(vec![("First", shown), ("Second", later)], vec![], vec![("run", run)]);
    let mut c = context_with(&bank(), &mdef, options());
    let e = move_to_ts::ast_to_ts::translate_module(bank(), &mdef, &mut c).unwrap_err();
    assert_eq!(message(&e.diagnostics[0]), (3, "Field missing does not exist".to_string()));
    assert_eq!(c.all_shows_iter_tables.len(), 1);
    assert_eq!(c.all_shows_iter_tables[0].1.value, "First");
    assert_eq!(c.all_shows_iter_tables[0].3.value, "a");
    assert!(c.cmds.is_empty() && c.queries.is_empty() && c.printer_methods.is_empty());
    assert!(c.tests.is_empty());
    let refused = publishing(false, FunctionBodyKind::Native, vec![bare("other", 7), bare("cmd", 8)]);
    let good = publishing(true, FunctionBodyKind::Native, vec![bare("cmd", 9)]);
    let mdef = module(vec![], vec![], vec![("good", good), ("refused", refused), ("publish", publishing(true, FunctionBodyKind::Native, vec![bare("cmd", 10)]))]);
    let mut c = context_with(&bank(), &mdef, options());
    assert!(move_to_ts::ast_to_ts::translate_module(bank(), &mdef, &mut c).is_err());
    assert_eq!(c.cmds.len(), 1);
    assert_eq!(c.cmds[0].fname.value, "good");
    assert!(c.all_shows_iter_tables.is_empty());
}
