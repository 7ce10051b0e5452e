//! What every part of the translator shares: the error that stops a module,
//! the options of a run, the context that a run carries from module to
//! module, the qualification of names, and the type tags.

use crate::ast::{
    Address, Attribute, AttributeKind, AttributeValue, BaseType, BaseTypeKind, BuiltinTypeName,
    Function, FunctionName, FunctionSignature, Loc, ModuleIdent, Name, NumericalAddress, Program,
    SingleTypeKind, StructDefinition, StructName, StructTypeParameter, TParam, Type, TypeKind,
    TypeName,
};
use crate::string_set::StringSet;
use crate::text::{
    ascending, before, capitalize, capitalized, decimal, decimal_string, find_position, join,
    joined, lemma_before_total, lemma_before_transitive, quoted, rank, rename, renamed, same_text,
    texts, Rank,
};
use crate::tsgen_writer::{TsgenWriter, WriterView};
use std::rc::Rc;
use vstd::prelude::*;
use vstd::utf8::{decode_utf8, valid_utf8};

pub use crate::text::quote;

verus! {

/// How grave a diagnostic is.
#[derive(Clone, Copy, Debug, PartialEq, Eq, Structural)]
pub enum Severity {
    Warning,
    NonblockingError,
    BlockingError,
    Bug,
}

/// The code of the one error that the translator reports.
#[derive(Clone, Copy, Debug)]
pub struct NotTranslatable {}

impl NotTranslatable {
    /// Translation of the module stops.
    pub fn severity(self) -> (r: Severity)
        ensures
            r == Severity::BlockingError,
    {
        Severity::BlockingError
    }

    /// The error's number within its category, and its title.
    pub fn code_and_message(self) -> (r: (u8, &'static str))
        ensures
            r.0 == 1,
            r.1@ == "Not Translatable"@,
    {
        (1, "Not Translatable")
    }
}

/// A reported error: the place and message that it is about, and related
/// places with a message each.
#[derive(Debug)]
pub struct Diagnostic {
    pub code: NotTranslatable,
    pub primary_label: (Loc, String),
    pub secondary_labels: Vec<(Loc, String)>,
}

/// What a diagnostic says.
pub struct DiagnosticView {
    pub loc: Loc,
    pub message: Seq<char>,
    pub secondary: Seq<(Loc, Seq<char>)>,
}

impl View for Diagnostic {
    type V = DiagnosticView;

    open spec fn view(&self) -> DiagnosticView {
        DiagnosticView {
            loc: self.primary_label.0,
            message: self.primary_label.1@,
            secondary: Seq::new(
                self.secondary_labels@.len(),
                |i: int| (self.secondary_labels@[i].0, self.secondary_labels@[i].1@),
            ),
        }
    }
}

/// The error about `loc` with `message` and no related place.
pub open spec fn failure(loc: Loc, message: Seq<char>) -> DiagnosticView {
    DiagnosticView { loc, message, secondary: Seq::empty() }
}

/// Makes the error about `loc` with `message`.
pub fn derr(loc: Loc, message: &str) -> (r: Diagnostic)
    ensures
        r@ == failure(loc, message@),
{
    let r = Diagnostic {
        code: NotTranslatable {  },
        primary_label: (loc, String::from_str(message)),
        secondary_labels: Vec::new(),
    };
    assert(r@.secondary =~= Seq::empty());
    r
}

/// The errors of one module.
#[derive(Debug)]
pub struct Diagnostics {
    pub diagnostics: Vec<Diagnostic>,
}

impl Diagnostics {
    pub fn new() -> (r: Self)
        ensures
            r.diagnostics@.len() == 0,
    {
        Diagnostics { diagnostics: Vec::new() }
    }

    pub fn add(&mut self, diag: Diagnostic)
        ensures
            final(self).diagnostics@ == old(self).diagnostics@.push(diag),
    {
        self.diagnostics.push(diag);
    }
}

pub type TermResult = Result<String, Diagnostic>;

pub type WriteResult = Result<(), Diagnostic>;

/// Whether `r` is the text or the error that `expected` names.
pub open spec fn term_is(r: TermResult, expected: Result<Seq<char>, DiagnosticView>) -> bool {
    match r {
        Ok(s) => expected == Ok::<Seq<char>, DiagnosticView>(s@),
        Err(d) => expected == Err::<Seq<char>, DiagnosticView>(d@),
    }
}

/// Whether a writer was left holding `w` after a success that `expected`
/// names, or the error that `expected` names was returned.
pub open spec fn wrote(r: WriteResult, w: WriterView, expected: Result<WriterView, DiagnosticView>) -> bool {
    match r {
        Ok(_) => expected == Ok::<WriterView, DiagnosticView>(w),
        Err(d) => expected == Err::<WriterView, DiagnosticView>(d@),
    }
}

/// What can be translated: the nodes of the program tree that have a text
/// of their own in the target language.
pub trait AstTsPrinter {
    /// Whether the node can be translated in the context `c`.
    spec fn ready(&self, c: Context) -> bool;

    /// What translating the node in the context `c` writes, or the error that
    /// stops the translation.
    spec fn run(&self, w: WriterView, c: Context) -> Result<WriterView, DiagnosticView>;

    /// The context `c` as the translation leaves it, what it adds apart.
    spec fn left(&self, c: Context) -> Context;

    /// What translating the node in the context `c` adds to the context.
    spec fn adds(&self, c: Context) -> Effects;

    /// What a translation of the node that fails has added to the context
    /// `c` when it stops.
    spec fn recorded(&self, w: WriterView, c: Context) -> Effects;

    /// Translates the node.
    fn write_ts(&self, w: &mut TsgenWriter, c: &mut Context) -> (r: WriteResult)
        requires
            self.ready(*old(c)),
        ensures
            wrote(r, final(w)@, self.run(old(w)@, *old(c))),
            r is Ok ==> final(c).follows(self.left(*old(c)), self.adds(*old(c))),
            r is Err ==> final(c).outside_function().reached(
                old(c).outside_function(),
                self.recorded(old(w)@, *old(c)),
            ),
            final(c).grown(*old(c)),
    ;
}

/// The options of a run.
#[derive(Debug)]
pub struct MoveToTsOptions {
    /// The package that is translated.
    pub package_path: String,
    /// Where the output goes.
    pub output_path: String,
    /// Whether test functions are marked and collected.
    pub test: bool,
    pub cli: bool,
    pub ui: bool,
    /// Whether the translated functions are asynchronous.
    pub asynchronous: bool,
    pub package_json_name: String,
}

impl Clone for MoveToTsOptions {
    fn clone(&self) -> (r: Self)
        ensures
            r == *self,
    {
        MoveToTsOptions {
            package_path: self.package_path.clone(),
            output_path: self.output_path.clone(),
            test: self.test,
            cli: self.cli,
            ui: self.ui,
            asynchronous: self.asynchronous,
            package_json_name: self.package_json_name.clone(),
        }
    }
}

/// An entry function that a `cmd` or `query` directive names.
#[derive(Debug)]
pub struct CmdParams {
    pub mi: ModuleIdent,
    pub fname: FunctionName,
    pub func: Rc<Function>,
    pub desc: Option<String>,
}

/// What a `CmdParams` holds.
pub struct CmdView {
    pub mi: ModuleIdent,
    pub fname: FunctionName,
    pub func: Rc<Function>,
    pub desc: Option<Seq<char>>,
}

impl View for CmdParams {
    type V = CmdView;

    open spec fn view(&self) -> CmdView {
        CmdView {
            mi: self.mi,
            fname: self.fname,
            func: self.func,
            desc: match self.desc {
                Some(d) => Some(d@),
                None => None,
            },
        }
    }
}

/// The views of a list of directive records.
pub open spec fn cmd_views(cmds: Seq<CmdParams>) -> Seq<CmdView> {
    Seq::new(cmds.len(), |i: int| cmds[i]@)
}

/// A test function: its name and signature.
pub type TestInfo = (FunctionName, Rc<FunctionSignature>);

/// A method of a struct whose result can be shown: the module, the struct,
/// the function and its signature.
pub type PrinterMethod = (ModuleIdent, StructName, Rc<StructDefinition>, Name, Rc<FunctionSignature>);

/// A field that a `show_iter_table` directive names: the module, the struct
/// and the field.
pub type ShowIterTable = (ModuleIdent, StructName, Rc<StructDefinition>, Name);

/// What translating a piece of a module adds to the context: the modules of
/// the same package and the other packages that it refers to, and the
/// records that its directives leave.
pub struct Effects {
    pub same: Set<Seq<char>>,
    pub pkgs: Set<Seq<char>>,
    pub tests: Seq<TestInfo>,
    pub cmds: Seq<CmdView>,
    pub queries: Seq<CmdView>,
    pub printers: Seq<PrinterMethod>,
    pub shows: Seq<ShowIterTable>,
}

impl Effects {
    /// Nothing is added.
    pub open spec fn none() -> Effects {
        Effects {
            same: Set::empty(),
            pkgs: Set::empty(),
            tests: Seq::empty(),
            cmds: Seq::empty(),
            queries: Seq::empty(),
            printers: Seq::empty(),
            shows: Seq::empty(),
        }
    }

    /// What is added by `self` and then by `next`.
    pub open spec fn plus(self, next: Effects) -> Effects {
        Effects {
            same: self.same.union(next.same),
            pkgs: self.pkgs.union(next.pkgs),
            tests: self.tests + next.tests,
            cmds: self.cmds + next.cmds,
            queries: self.queries + next.queries,
            printers: self.printers + next.printers,
            shows: self.shows + next.shows,
        }
    }
}

/// The state of a run. The two import sets and the tests belong to the module
/// that is being translated; the visited modules and packages and the records
/// of the directives are kept for the whole run.
pub struct Context {
    pub program: Rc<Program>,
    pub current_module: Option<ModuleIdent>,
    pub current_function_signature: Option<Rc<FunctionSignature>>,
    /// The modules of the same package that the current module refers to.
    pub same_package_imports: StringSet,
    /// The other packages that the current module refers to.
    pub package_imports: StringSet,
    /// Every module that was entered, once each.
    pub visited_modules: Vec<ModuleIdent>,
    /// The package of every module that was entered, with its address, in
    /// the order of the names.
    pub visited_packages: Vec<(String, Address)>,
    pub config: MoveToTsOptions,
    pub tests: Vec<TestInfo>,
    pub cmds: Vec<CmdParams>,
    pub queries: Vec<CmdParams>,
    pub printer_methods: Vec<PrinterMethod>,
    pub all_shows_iter_tables: Vec<ShowIterTable>,
}

/// Whether two optional names hold the same text, or are both absent.
pub open spec fn same_opt_name(a: Option<Name>, b: Option<Name>) -> bool {
    match (a, b) {
        (Some(x), Some(y)) => x.value@ == y.value@,
        (None, None) => true,
        _ => false,
    }
}

/// Whether two addresses are the same address, whatever they are named: two
/// numbers with the same hex literal, or the same unassigned name.
pub open spec fn same_address(a: Address, b: Address) -> bool {
    match (a, b) {
        (Address::Numerical(_, x), Address::Numerical(_, y)) => x.hex_literal@ == y.hex_literal@,
        (Address::NamedUnassigned(x), Address::NamedUnassigned(y)) => x.value@ == y.value@,
        _ => false,
    }
}

/// Whether two addresses stand for the same package: the same address under
/// the same name.
pub open spec fn same_package(a1: Address, a2: Address) -> bool {
    match a1 {
        Address::Numerical(name, num) => match a2 {
            Address::Numerical(name2, num2) => same_opt_name(name, name2) && num.hex_literal@
                == num2.hex_literal@,
            _ => false,
        },
        Address::NamedUnassigned(_) => same_address(a1, a2),
    }
}

/// Whether two identities name the same module: the same address and the same
/// module name.
pub open spec fn same_module(mi1: ModuleIdent, mi2: ModuleIdent) -> bool {
    same_address(mi1.address, mi2.address) && mi1.module.value@ == mi2.module.value@
}

/// The name of the package at `address`: the address's name where it has
/// one, else `X` and the number as the source wrote it.
pub open spec fn package_name(address: Address) -> Seq<char> {
    match address {
        Address::Numerical(Some(name), _) => name.value@,
        Address::Numerical(None, num) => "X"@ + num.shown@,
        Address::NamedUnassigned(name) => name.value@,
    }
}

/// The hex literal of `address`; the empty text for an unassigned name.
pub open spec fn address_hex(address: Address) -> Seq<char> {
    match address {
        Address::Numerical(_, num) => num.hex_literal@,
        Address::NamedUnassigned(_) => Seq::empty(),
    }
}

/// The target-language expression for a numerical address.
pub open spec fn numerical_address_term(hex: Seq<char>) -> Seq<char> {
    "new HexString(\""@ + hex + "\")"@
}

/// The target-language expression for `addr`, or the error for an address
/// that has no number.
pub open spec fn address_literal(addr: Address, loc: Loc) -> Result<Seq<char>, DiagnosticView> {
    match addr {
        Address::Numerical(_, num) => Ok(numerical_address_term(num.hex_literal@)),
        Address::NamedUnassigned(name) => Err(failure(loc, "Unassigned address: "@ + name.value@)),
    }
}

/// How `name`, declared in module `mident`, is written inside module `cur`:
/// bare in the same module, behind the module's name in the same package,
/// behind the package's and the module's name otherwise.
pub open spec fn qualified(cur: ModuleIdent, mident: ModuleIdent, name: Seq<char>) -> Seq<char> {
    if same_module(cur, mident) {
        renamed(name)
    } else if same_package(cur.address, mident.address) {
        capitalized(mident.module.value@) + "."@ + renamed(name)
    } else {
        capitalized(package_name(mident.address)) + "."@ + capitalized(mident.module.value@)
            + "."@ + renamed(name)
    }
}

/// What a reference from module `cur` to a declaration of module `mident`
/// adds to the imports.
pub open spec fn reference(cur: ModuleIdent, mident: ModuleIdent) -> Effects {
    if same_module(cur, mident) {
        Effects::none()
    } else if same_package(cur.address, mident.address) {
        Effects { same: set![mident.module.value@], ..Effects::none() }
    } else {
        Effects { pkgs: set![package_name(mident.address)], ..Effects::none() }
    }
}

/// The name under which a translated function is called.
pub open spec fn function_name_term(fname: Seq<char>, is_async: bool) -> Seq<char> {
    if is_async {
        "await "@ + fname + "_"@
    } else {
        fname + "_"@
    }
}

/// The names of a list of type parameters.
pub open spec fn names_of(tparams: Seq<TParam>) -> Seq<Seq<char>> {
    Seq::new(tparams.len(), |i: int| tparams[i].user_specified_name.value@)
}

/// The names of a struct's type parameters.
pub open spec fn struct_names_of(tparams: Seq<StructTypeParameter>) -> Seq<Seq<char>> {
    Seq::new(tparams.len(), |i: int| tparams[i].param.user_specified_name.value@)
}

/// The first position from `i` on at which `names` holds `wanted`.
pub open spec fn position_from(names: Seq<Seq<char>>, wanted: Seq<char>, i: int) -> Option<int>
    decreases names.len() - i,
{
    if i < 0 || i >= names.len() {
        None
    } else if names[i] == wanted {
        Some(i)
    } else {
        position_from(names, wanted, i + 1)
    }
}

/// The first position at which `names` holds `wanted`.
pub open spec fn position(names: Seq<Seq<char>>, wanted: Seq<char>) -> Option<int> {
    position_from(names, wanted, 0)
}

proof fn lemma_position_from(names: Seq<Seq<char>>, wanted: Seq<char>, i: int, found: int)
    requires
        0 <= i <= found < names.len(),
        names[found] == wanted,
        forall|j: int| i <= j < found ==> names[j] != wanted,
    ensures
        position_from(names, wanted, i) == Some(found),
    decreases found - i,
{
    if i < found {
        lemma_position_from(names, wanted, i + 1, found);
    }
}

proof fn lemma_position_none(names: Seq<Seq<char>>, wanted: Seq<char>, i: int)
    requires
        0 <= i,
        forall|j: int| i <= j < names.len() ==> names[j] != wanted,
    ensures
        position_from(names, wanted, i) is None,
    decreases names.len() - i,
{
    if i < names.len() {
        lemma_position_none(names, wanted, i + 1);
    }
}

/// Finds the first of `names` with the text of `wanted`.
pub fn index_of(names: &Vec<String>, wanted: &String) -> (r: Option<usize>)
    ensures
        match r {
            Some(i) => position(texts(names@), wanted@) == Some(i as int),
            None => position(texts(names@), wanted@) is None,
        },
{
    let r = find_position(names, wanted);
    proof {
        match r {
            Some(i) => lemma_position_from(texts(names@), wanted@, 0, i as int),
            None => lemma_position_none(texts(names@), wanted@, 0),
        }
    }
    r
}

/// The tag that stands for the type parameter at `index`: in a struct's
/// field descriptors a placeholder that is filled in when a value is
/// constructed, elsewhere a read from the array of type tags that the
/// enclosing function is handed.
pub open spec fn param_tag(index: nat, builder: bool) -> Seq<char> {
    if builder {
        "new $.TypeParamIdx("@ + decimal(index) + ")"@
    } else {
        "$p["@ + decimal(index) + "]"@
    }
}

/// The tag of a built-in type that takes no argument.
pub open spec fn atomic_tag(builtin: BuiltinTypeName) -> Seq<char> {
    match builtin {
        BuiltinTypeName::Bool => "AtomicTypeTag.Bool"@,
        BuiltinTypeName::U8 => "AtomicTypeTag.U8"@,
        BuiltinTypeName::U64 => "AtomicTypeTag.U64"@,
        BuiltinTypeName::U128 => "AtomicTypeTag.U128"@,
        BuiltinTypeName::Address => "AtomicTypeTag.Address"@,
        BuiltinTypeName::Signer => "AtomicTypeTag.Signer"@,
        BuiltinTypeName::Vector => "new VectorTag()"@,
    }
}

/// The tag of a vector whose elements have the tag `inner`.
pub open spec fn vector_tag(inner: Seq<char>) -> Seq<char> {
    "new VectorTag("@ + inner + ")"@
}

/// The tag of a struct: its address, module and name, and the tags of its
/// type arguments.
pub open spec fn struct_tag(mident: ModuleIdent, sname: Seq<char>, args: Seq<Seq<char>>) -> Seq<
    char,
> {
    "new StructTag(new HexString("@ + quoted(address_hex(mident.address)) + "), "@ + quoted(
        mident.module.value@,
    ) + ", "@ + quoted(sname) + ", ["@ + joined(args, ", "@) + "])"@
}

/// The error for a type that was never resolved.
pub open spec fn unresolved(loc: Loc) -> DiagnosticView {
    failure(loc, "Received Unresolved Type"@)
}

/// Whether a tag can be made of `ty`: each type parameter in it is one of
/// `names`, and each vector has one argument.
pub open spec fn tag_ready(ty: BaseType, names: Seq<Seq<char>>) -> bool
    decreases ty,
{
    match ty.value {
        BaseTypeKind::Param(tp) => position(names, tp.user_specified_name.value@) is Some,
        BaseTypeKind::Apply { name, args } => match name {
            TypeName::Builtin(BuiltinTypeName::Vector) => args@.len() == 1 && tag_ready(
                args@[0],
                names,
            ),
            TypeName::Builtin(_) => true,
            TypeName::ModuleType(_, _) => forall|i: int|
                0 <= i < args@.len() ==> tag_ready(#[trigger] args@[i], names),
        },
        _ => true,
    }
}

/// The tag of `ty`, or the error for the first unresolved type in it. A type
/// parameter stands for its position in `names`.
pub open spec fn tag_result(ty: BaseType, names: Seq<Seq<char>>, builder: bool) -> Result<
    Seq<char>,
    DiagnosticView,
>
    decreases ty,
{
    match ty.value {
        BaseTypeKind::Param(tp) => match position(names, tp.user_specified_name.value@) {
            Some(index) => Ok(param_tag(index as nat, builder)),
            None => Ok(param_tag(0, builder)),
        },
        BaseTypeKind::Apply { name, args } => match name {
            TypeName::Builtin(BuiltinTypeName::Vector) => if args@.len() > 0 {
                match tag_result(args@[0], names, builder) {
                    Ok(inner) => Ok(vector_tag(inner)),
                    Err(d) => Err(d),
                }
            } else {
                Ok(atomic_tag(BuiltinTypeName::Vector))
            },
            TypeName::Builtin(builtin) => Ok(atomic_tag(builtin)),
            TypeName::ModuleType(mident, sname) => match tag_results(
                args@,
                0,
                names,
                builder,
                Seq::empty(),
            ) {
                Ok(parts) => Ok(struct_tag(mident, sname.value@, parts)),
                Err(d) => Err(d),
            },
        },
        _ => Err(unresolved(ty.loc)),
    }
}

/// `done`, followed by the tags of the types from position `i` on, or the
/// first error among them.
pub open spec fn tag_results(
    args: Seq<BaseType>,
    i: int,
    names: Seq<Seq<char>>,
    builder: bool,
    done: Seq<Seq<char>>,
) -> Result<Seq<Seq<char>>, DiagnosticView>
    decreases args, args.len() - i,
{
    if i < 0 || i >= args.len() {
        Ok(done)
    } else {
        match tag_result(args[i], names, builder) {
            Ok(t) => tag_results(args, i + 1, names, builder, done.push(t)),
            Err(d) => Err(d),
        }
    }
}

/// The tag of a type that a value is constructed with, or the error for a
/// type that has no tag.
pub open spec fn type_tag_result(ty: Type, names: Seq<Seq<char>>) -> Result<
    Seq<char>,
    DiagnosticView,
> {
    match ty.value {
        TypeKind::Unit => Err(failure(ty.loc, "Cannot construct Unit type"@)),
        TypeKind::Single(single) => match single.value {
            SingleTypeKind::Ref(_, _) => Err(
                failure(ty.loc, "Cannot construct typetag for Ref type"@),
            ),
            SingleTypeKind::Base(base) => tag_result(base, names, false),
        },
        TypeKind::Multiple(_) => Err(failure(ty.loc, "Cannot construct typeTag for tuples"@)),
    }
}

/// Whether a tag can be made of `ty`, where it has one.
pub open spec fn type_tag_ready(ty: Type, names: Seq<Seq<char>>) -> bool {
    match ty.value {
        TypeKind::Single(single) => match single.value {
            SingleTypeKind::Base(base) => tag_ready(base, names),
            _ => true,
        },
        _ => true,
    }
}

/// The text that an attribute is assigned as a byte string: the bytes read
/// as UTF-8, the empty text where they are none; `None` for any other
/// attribute.
pub open spec fn attribute_text(attr: Attribute) -> Option<Seq<char>> {
    match attr.value {
        AttributeKind::Assigned(_, AttributeValue::Bytearray(bytes)) => Some(
            if valid_utf8(bytes@) {
                decode_utf8(bytes@)
            } else {
                Seq::empty()
            },
        ),
        _ => None,
    }
}

/// The parts of `results` that are listed: all of them, or those that are not
/// empty.
pub open spec fn listed(results: Seq<Seq<char>>, always_output: bool) -> Seq<Seq<char>> {
    if always_output {
        results
    } else {
        results.filter(|s: Seq<char>| s.len() > 0)
    }
}

/// The names of the parameters of the signature in force, if there is one.
pub open spec fn signature_names(sig: Option<Rc<FunctionSignature>>) -> Seq<Seq<char>> {
    match sig {
        Some(s) => names_of(s.type_parameters@),
        None => Seq::empty(),
    }
}

/// The list of visited modules after `m` was entered.
pub open spec fn module_noted(visited: Seq<ModuleIdent>, m: ModuleIdent) -> Seq<ModuleIdent> {
    if exists|i: int| 0 <= i < visited.len() && same_module(#[trigger] visited[i], m) {
        visited
    } else {
        visited.push(m)
    }
}

/// The names and addresses of a list of packages.
pub open spec fn package_views(packages: Seq<(String, Address)>) -> Seq<(Seq<char>, Address)> {
    Seq::new(packages.len(), |i: int| (packages[i].0@, packages[i].1))
}

/// The names of a list of packages.
pub open spec fn package_names(packages: Seq<(Seq<char>, Address)>) -> Seq<Seq<char>> {
    Seq::new(packages.len(), |i: int| packages[i].0)
}

/// The place of the package `name` in a list of packages, from position `i`
/// on: the first position whose name does not come before `name`.
pub open spec fn package_place(packages: Seq<(Seq<char>, Address)>, name: Seq<char>, i: int) -> int
    decreases packages.len() - i,
{
    if i < 0 || i >= packages.len() || !before(packages[i].0, name) {
        i
    } else {
        package_place(packages, name, i + 1)
    }
}

/// The list of visited packages after the package `name` was entered at
/// `address`: the entry of that name holds the address, and is added at its
/// place, in the order of the names, where there was none.
pub open spec fn package_noted(
    visited: Seq<(Seq<char>, Address)>,
    name: Seq<char>,
    address: Address,
) -> Seq<(Seq<char>, Address)> {
    let k = package_place(visited, name, 0);
    if 0 <= k < visited.len() && visited[k].0 == name {
        visited.update(k, (name, address))
    } else {
        visited.insert(k, (name, address))
    }
}

proof fn lemma_package_place(packages: Seq<(Seq<char>, Address)>, name: Seq<char>, i: int)
    requires
        0 <= i <= packages.len(),
    ensures
        i <= package_place(packages, name, i) <= packages.len(),
        forall|j: int|
            i <= j < package_place(packages, name, i) ==> before(
                (#[trigger] packages[j]).0,
                name,
            ),
        package_place(packages, name, i) < packages.len() ==> !before(
            packages[package_place(packages, name, i)].0,
            name,
        ),
    decreases packages.len() - i,
{
    if i < packages.len() && before(packages[i].0, name) {
        lemma_package_place(packages, name, i + 1);
    }
}

/// The visited packages stay in ascending order of their names, so that no
/// name occurs twice among them.
pub proof fn lemma_packages_stay_ascending(
    visited: Seq<(Seq<char>, Address)>,
    name: Seq<char>,
    address: Address,
)
    requires
        ascending(package_names(visited)),
    ensures
        ascending(package_names(package_noted(visited, name, address))),
{
    let k = package_place(visited, name, 0);
    let names = package_names(visited);
    let after = package_names(package_noted(visited, name, address));
    lemma_package_place(visited, name, 0);
    if k < visited.len() && visited[k].0 == name {
        assert(after =~= names);
    } else {
        assert(after =~= names.insert(k, name));
        if k < visited.len() {
            lemma_before_total(name, visited[k].0);
        }
        assert forall|a: int, b: int| 0 <= a < b < after.len() implies before(
            #[trigger] after[a],
            #[trigger] after[b],
        ) by {
            if b < k {
                assert(before(names[a], names[b]));
            } else if b == k {
                assert(before(visited[a].0, name));
            } else if a == k {
                if b - 1 > k {
                    assert(before(names[k], names[b - 1]));
                    lemma_before_transitive(name, names[k], names[b - 1]);
                }
            } else if a < k {
                assert(before(names[a], names[b - 1]));
            } else {
                assert(before(names[a - 1], names[b - 1]));
            }
        }
    }
}

/// The visited modules and packages only grow: entering a module keeps
/// every module, at its place, and the name of every package, and the
/// module that was entered and its package are among them.
pub proof fn lemma_visited_only_grow(before: Context, after: Context, mname: ModuleIdent)
    requires
        after.entered(before, mname),
    ensures
        after.visited_modules@.len() >= before.visited_modules@.len(),
        forall|i: int|
            0 <= i < before.visited_modules@.len() ==> after.visited_modules@[i]
                == #[trigger] before.visited_modules@[i],
        exists|i: int|
            0 <= i < after.visited_modules@.len() && same_module(
                #[trigger] after.visited_modules@[i],
                mname,
            ),
        after.visited_packages@.len() >= before.visited_packages@.len(),
        forall|i: int|
            0 <= i < before.visited_packages@.len() ==> package_names(
                package_views(after.visited_packages@),
            ).contains(#[trigger] package_names(package_views(before.visited_packages@))[i]),
        package_views(after.visited_packages@).contains(
            (package_name(mname.address), mname.address),
        ),
{
    let visited = before.visited_modules@;
    if exists|i: int| 0 <= i < visited.len() && same_module(#[trigger] visited[i], mname) {
    } else {
        assert(after.visited_modules@[visited.len() as int] == mname);
        assert(same_module(after.visited_modules@[visited.len() as int], mname));
    }
    let packages = package_views(before.visited_packages@);
    let noted = package_views(after.visited_packages@);
    let name = package_name(mname.address);
    let k = package_place(packages, name, 0);
    lemma_package_place(packages, name, 0);
    assert(noted.len() == after.visited_packages@.len());
    assert(noted[k] == (name, mname.address));
    assert forall|i: int| 0 <= i < packages.len() implies package_names(noted).contains(
        #[trigger] package_names(packages)[i],
    ) by {
        if k < packages.len() && packages[k].0 == name {
            assert(package_names(noted)[i] == packages[i].0);
        } else if i < k {
            assert(package_names(noted)[i] == packages[i].0);
        } else {
            assert(package_names(noted)[i + 1] == packages[i].0);
        }
    }
}

/// The names of the directives are four different names.
pub proof fn lemma_directive_names_differ()
    ensures
        "cmd"@ != "query"@,
        "cmd"@ != "method"@,
        "cmd"@ != "show_iter_table"@,
        "query"@ != "method"@,
        "query"@ != "show_iter_table"@,
        "method"@ != "show_iter_table"@,
{
    reveal_strlit("cmd");
    reveal_strlit("query");
    reveal_strlit("method");
    reveal_strlit("show_iter_table");
    assert("cmd"@.len() == 3);
    assert("query"@.len() == 5);
    assert("method"@.len() == 6);
    assert("show_iter_table"@.len() == 15);
}

/// What is added does not depend on the function that is being translated.
pub proof fn lemma_follows_signed(
    c0: Context,
    c1: Context,
    e: Effects,
    sig: Option<Rc<FunctionSignature>>,
)
    requires
        c1.follows(c0, e),
    ensures
        c1.signed(sig).follows(c0.signed(sig), e),
{
}

/// Adding nothing leaves the context as it is.
pub proof fn lemma_follows_none(c: Context)
    ensures
        c.follows(c, Effects::none()),
{
}

/// What is added in two steps is added by the two steps in turn.
pub proof fn lemma_follows_then(c0: Context, c1: Context, c2: Context, e1: Effects, e2: Effects)
    requires
        c1.follows(c0, e1),
        c2.follows(c1, e2),
    ensures
        c2.follows(c0, e1.plus(e2)),
{
}

/// What was added to a context has been reached.
pub proof fn lemma_follows_reached(c0: Context, c1: Context, e: Effects)
    requires
        c1.follows(c0, e),
    ensures
        c1.reached(c0, e),
{
}

/// What is reached in two steps is reached by the two steps in turn.
pub proof fn lemma_reached_then(c0: Context, c1: Context, c2: Context, e1: Effects, e2: Effects)
    requires
        c1.reached(c0, e1),
        c2.reached(c1, e2),
    ensures
        c2.reached(c0, e1.plus(e2)),
{
}

/// What was reached does not depend on the function that is being
/// translated.
pub proof fn lemma_reached_signed(
    c0: Context,
    c1: Context,
    e: Effects,
    sig: Option<Rc<FunctionSignature>>,
)
    requires
        c1.reached(c0, e),
    ensures
        c1.signed(sig).reached(c0.signed(sig), e),
{
}

/// Where a function fails, what the functions before it added and what it
/// has added itself are reached, seen from outside any function; `first`
/// says whether the function is the first.
pub proof fn lemma_reached_next(
    start: Context,
    c1: Context,
    c2: Context,
    first: bool,
    before: Effects,
    e: Effects,
)
    requires
        c1.follows(
            if first {
                start
            } else {
                start.outside_function()
            },
            before,
        ),
        c2.outside_function().reached(c1.outside_function(), e),
    ensures
        c2.outside_function().reached(start.outside_function(), before.plus(e)),
{
    lemma_follows_signed(
        if first {
            start
        } else {
            start.outside_function()
        },
        c1,
        before,
        None,
    );
    lemma_follows_reached(start.outside_function(), c1.outside_function(), before);
    lemma_reached_then(
        start.outside_function(),
        c1.outside_function(),
        c2.outside_function(),
        before,
        e,
    );
}

/// A context that is left as it is has reached what it held, seen from
/// outside any function too.
pub proof fn lemma_unchanged_reached(c: Context)
    ensures
        c.reached(c, Effects::none()),
        c.outside_function().reached(c.outside_function(), Effects::none()),
{
}

/// What is reached behind further imports is reached.
pub proof fn lemma_reached_after(c0: Context, c1: Context, c2: Context, e: Effects)
    requires
        c1.reached(c0, Effects::none()),
        c2.reached(c1, e),
    ensures
        c2.reached(c0, e),
{
}

/// Further imports leave what was reached as it is.
pub proof fn lemma_reached_more(c0: Context, c1: Context, c2: Context, e: Effects)
    requires
        c1.reached(c0, e),
        c2.reached(c1, Effects::none()),
    ensures
        c2.reached(c0, e),
{
}

/// A context that something was added to holds all that it held before.
pub proof fn lemma_follows_grown(c0: Context, c1: Context, e: Effects)
    requires
        c1.follows(c0, e),
    ensures
        c1.grown(c0),
{
}

/// What has grown twice has grown.
pub proof fn lemma_grown_twice(c0: Context, c1: Context, c2: Context)
    requires
        c1.grown(c0),
        c2.grown(c1),
    ensures
        c2.grown(c0),
{
    assert(c2.tests@.subrange(0, c0.tests@.len() as int) =~= c1.tests@.subrange(
        0,
        c0.tests@.len() as int,
    ));
    assert(cmd_views(c2.cmds@).subrange(0, c0.cmds@.len() as int) =~= cmd_views(
        c1.cmds@,
    ).subrange(0, c0.cmds@.len() as int));
    assert(cmd_views(c2.queries@).subrange(0, c0.queries@.len() as int) =~= cmd_views(
        c1.queries@,
    ).subrange(0, c0.queries@.len() as int));
    assert(c2.printer_methods@.subrange(0, c0.printer_methods@.len() as int)
        =~= c1.printer_methods@.subrange(0, c0.printer_methods@.len() as int));
    assert(c2.all_shows_iter_tables@.subrange(0, c0.all_shows_iter_tables@.len() as int)
        =~= c1.all_shows_iter_tables@.subrange(0, c0.all_shows_iter_tables@.len() as int));
}

/// Behind a function, what the functions before it added and what it adds
/// are added to the context outside any function; `first` says whether the
/// function is the first.
pub proof fn lemma_follows_next(
    start: Context,
    c1: Context,
    c2: Context,
    first: bool,
    before: Effects,
    e: Effects,
)
    requires
        c1.follows(
            if first {
                start
            } else {
                start.outside_function()
            },
            before,
        ),
        c2.follows(c1.outside_function(), e),
    ensures
        c2.follows(start.outside_function(), before.plus(e)),
{
    lemma_follows_signed(
        if first {
            start
        } else {
            start.outside_function()
        },
        c1,
        before,
        None,
    );
    assert(start.outside_function().signed(None) == start.outside_function());
    lemma_follows_then(start.outside_function(), c1.outside_function(), c2, before, e);
}

/// `String::from_utf8`, on a copy of the bytes: the text that the bytes
/// encode, where they are valid UTF-8, and `None` where they are not.
#[verifier::external_body]
fn utf8_text(bytes: &Vec<u8>) -> (r: Option<String>)
    ensures
        r is Some <==> valid_utf8(bytes@),
        r is Some ==> r->0@ == decode_utf8(bytes@),
{
    String::from_utf8(bytes.clone()).ok()
}

/// `Rc::clone`: another pointer to the same value.
#[verifier::external_body]
pub(crate) fn share<T>(p: &Rc<T>) -> (r: Rc<T>)
    ensures
        r == *p,
{
    p.clone()
}

/// Whether two optional names hold the same text, or are both absent.
fn is_same_opt_name(a: &Option<Name>, b: &Option<Name>) -> (r: bool)
    ensures
        r == same_opt_name(*a, *b),
{
    match a {
        Some(x) => match b {
            Some(y) => same_text(&x.value, &y.value),
            None => false,
        },
        None => match b {
            Some(_) => false,
            None => true,
        },
    }
}

/// Whether two addresses are the same address, whatever they are named.
pub fn is_same_address(a: &Address, b: &Address) -> (r: bool)
    ensures
        r == same_address(*a, *b),
{
    match a {
        Address::Numerical(_, x) => match b {
            Address::Numerical(_, y) => same_text(&x.hex_literal, &y.hex_literal),
            _ => false,
        },
        Address::NamedUnassigned(x) => match b {
            Address::NamedUnassigned(y) => same_text(&x.value, &y.value),
            _ => false,
        },
    }
}

/// Whether two addresses stand for the same package.
pub fn is_same_package(a1: &Address, a2: &Address) -> (r: bool)
    ensures
        r == same_package(*a1, *a2),
{
    match a1 {
        Address::Numerical(name, num) => match a2 {
            Address::Numerical(name2, num2) => is_same_opt_name(name, name2) && same_text(
                &num.hex_literal,
                &num2.hex_literal,
            ),
            _ => false,
        },
        Address::NamedUnassigned(_) => is_same_address(a1, a2),
    }
}

/// Whether two identities name the same module.
pub fn is_same_module(mi1: &ModuleIdent, mi2: &ModuleIdent) -> (r: bool)
    ensures
        r == same_module(*mi1, *mi2),
{
    is_same_address(&mi1.address, &mi2.address) && same_text(&mi1.module.value, &mi2.module.value)
}

/// The names of a function's type parameters.
pub fn tparam_names(tparams: &Vec<TParam>) -> (r: Vec<String>)
    ensures
        texts(r@) == names_of(tparams@),
{
    let mut names: Vec<String> = Vec::new();
    let mut i: usize = 0;
    while i < tparams.len()
        invariant
            i <= tparams.len(),
            names@.len() == i,
            forall|j: int| 0 <= j < i ==> names@[j]@ == tparams@[j].user_specified_name.value@,
        decreases tparams.len() - i,
    {
        names.push(tparams[i].user_specified_name.value.clone());
        i = i + 1;
    }
    assert(texts(names@) =~= names_of(tparams@));
    names
}

/// The names of a struct's type parameters.
pub fn struct_tparam_names(tparams: &Vec<StructTypeParameter>) -> (r: Vec<String>)
    ensures
        texts(r@) == struct_names_of(tparams@),
{
    let mut names: Vec<String> = Vec::new();
    let mut i: usize = 0;
    while i < tparams.len()
        invariant
            i <= tparams.len(),
            names@.len() == i,
            forall|j: int|
                0 <= j < i ==> names@[j]@ == tparams@[j].param.user_specified_name.value@,
        decreases tparams.len() - i,
    {
        names.push(tparams[i].param.user_specified_name.value.clone());
        i = i + 1;
    }
    assert(texts(names@) =~= struct_names_of(tparams@));
    names
}

impl Context {
    /// The context at the start of a run: no module entered, nothing
    /// collected.
    pub fn new(config: &MoveToTsOptions, program: Rc<Program>) -> (r: Self)
        ensures
            r.program == program,
            r.current_module is None,
            r.current_function_signature is None,
            r.same_package_imports@.len() == 0,
            r.package_imports@.len() == 0,
            r.visited_modules@.len() == 0,
            r.visited_packages@.len() == 0,
            r.config == *config,
            r.tests@.len() == 0,
            r.cmds@.len() == 0,
            r.queries@.len() == 0,
            r.printer_methods@.len() == 0,
            r.all_shows_iter_tables@.len() == 0,
    {
        Context {
            program,
            current_module: None,
            current_function_signature: None,
            same_package_imports: StringSet::new(),
            package_imports: StringSet::new(),
            visited_modules: Vec::new(),
            visited_packages: Vec::new(),
            config: config.clone(),
            tests: Vec::new(),
            cmds: Vec::new(),
            queries: Vec::new(),
            printer_methods: Vec::new(),
            all_shows_iter_tables: Vec::new(),
        }
    }

    /// Whether `self` is what `old` becomes when `e` is added to it: the
    /// imports grow by the references of `e`, the collected records by its
    /// records, in order, and nothing else changes.
    pub open spec fn follows(self, old: Context, e: Effects) -> bool {
        &&& self.program == old.program
        &&& self.current_module == old.current_module
        &&& self.current_function_signature == old.current_function_signature
        &&& self.config == old.config
        &&& self.visited_modules == old.visited_modules
        &&& self.visited_packages == old.visited_packages
        &&& self.same_package_imports@.to_set() =~= old.same_package_imports@.to_set().union(
            e.same,
        )
        &&& self.package_imports@.to_set() =~= old.package_imports@.to_set().union(e.pkgs)
        &&& self.tests@ =~= old.tests@ + e.tests
        &&& cmd_views(self.cmds@) =~= cmd_views(old.cmds@) + e.cmds
        &&& cmd_views(self.queries@) =~= cmd_views(old.queries@) + e.queries
        &&& self.printer_methods@ =~= old.printer_methods@ + e.printers
        &&& self.all_shows_iter_tables@ =~= old.all_shows_iter_tables@ + e.shows
    }

    /// Whether `self` is what `old` becomes when the records of `e` are added
    /// to it, and at least the imports of `e`: the collected records grow by
    /// the records of `e`, in order, and by no other; the imports hold those
    /// of `old` and of `e`, and perhaps further ones; nothing else changes.
    pub open spec fn reached(self, old: Context, e: Effects) -> bool {
        &&& self.program == old.program
        &&& self.current_module == old.current_module
        &&& self.current_function_signature == old.current_function_signature
        &&& self.config == old.config
        &&& self.visited_modules == old.visited_modules
        &&& self.visited_packages == old.visited_packages
        &&& old.same_package_imports@.to_set().union(e.same).subset_of(
            self.same_package_imports@.to_set(),
        )
        &&& old.package_imports@.to_set().union(e.pkgs).subset_of(self.package_imports@.to_set())
        &&& self.tests@ =~= old.tests@ + e.tests
        &&& cmd_views(self.cmds@) =~= cmd_views(old.cmds@) + e.cmds
        &&& cmd_views(self.queries@) =~= cmd_views(old.queries@) + e.queries
        &&& self.printer_methods@ =~= old.printer_methods@ + e.printers
        &&& self.all_shows_iter_tables@ =~= old.all_shows_iter_tables@ + e.shows
    }

    /// Whether `self` holds the records that `old` held, and no other: the
    /// tests, the commands, the queries, the printers and the shown tables.
    pub open spec fn keeps_records(self, old: Context) -> bool {
        &&& self.tests@ =~= old.tests@
        &&& cmd_views(self.cmds@) =~= cmd_views(old.cmds@)
        &&& cmd_views(self.queries@) =~= cmd_views(old.queries@)
        &&& self.printer_methods@ =~= old.printer_methods@
        &&& self.all_shows_iter_tables@ =~= old.all_shows_iter_tables@
    }

    /// Whether `self` holds all that `old` held: the same program, options,
    /// module and visited modules and packages, every import that `old` had,
    /// and the records of `old` with, at most, further ones behind them.
    pub open spec fn grown(self, old: Context) -> bool {
        &&& self.program == old.program
        &&& self.current_module == old.current_module
        &&& self.config == old.config
        &&& self.visited_modules == old.visited_modules
        &&& self.visited_packages == old.visited_packages
        &&& old.same_package_imports@.to_set().subset_of(self.same_package_imports@.to_set())
        &&& old.package_imports@.to_set().subset_of(self.package_imports@.to_set())
        &&& self.tests@.len() >= old.tests@.len()
        &&& self.tests@.subrange(0, old.tests@.len() as int) =~= old.tests@
        &&& self.cmds@.len() >= old.cmds@.len()
        &&& cmd_views(self.cmds@).subrange(0, old.cmds@.len() as int) =~= cmd_views(old.cmds@)
        &&& self.queries@.len() >= old.queries@.len()
        &&& cmd_views(self.queries@).subrange(0, old.queries@.len() as int) =~= cmd_views(
            old.queries@,
        )
        &&& self.printer_methods@.len() >= old.printer_methods@.len()
        &&& self.printer_methods@.subrange(0, old.printer_methods@.len() as int)
            =~= old.printer_methods@
        &&& self.all_shows_iter_tables@.len() >= old.all_shows_iter_tables@.len()
        &&& self.all_shows_iter_tables@.subrange(0, old.all_shows_iter_tables@.len() as int)
            =~= old.all_shows_iter_tables@
    }

    /// The context with `sig` as the signature of the function that is being
    /// translated.
    pub open spec fn signed(self, sig: Option<Rc<FunctionSignature>>) -> Context {
        Context { current_function_signature: sig, ..self }
    }

    /// The context outside any function.
    pub open spec fn outside_function(self) -> Context {
        self.signed(None)
    }

    /// Whether `self` is `old` after module `mname` was entered: the imports
    /// and the tests are empty, the module and its package are among the
    /// visited ones, and the records of the directives are kept.
    pub open spec fn entered(self, old: Context, mname: ModuleIdent) -> bool {
        &&& self.program == old.program
        &&& self.current_module == Some(mname)
        &&& self.current_function_signature == old.current_function_signature
        &&& self.config == old.config
        &&& self.visited_modules@ == module_noted(old.visited_modules@, mname)
        &&& package_views(self.visited_packages@) == package_noted(
            package_views(old.visited_packages@),
            package_name(mname.address),
            mname.address,
        )
        &&& self.same_package_imports@.len() == 0
        &&& self.package_imports@.len() == 0
        &&& self.tests@.len() == 0
        &&& self.cmds == old.cmds
        &&& self.queries == old.queries
        &&& self.printer_methods == old.printer_methods
        &&& self.all_shows_iter_tables == old.all_shows_iter_tables
    }

    /// Enters a module: what belongs to one module is emptied, the module and
    /// its package are added to the visited ones.
    pub fn reset_for_module(&mut self, mname: ModuleIdent)
        ensures
            final(self).entered(*old(self), mname),
    {
        self.same_package_imports.clear();
        self.package_imports.clear();
        self.tests.clear();
        let mut i: usize = 0;
        let mut seen = false;
        while i < self.visited_modules.len() && !seen
            invariant
                i <= self.visited_modules.len(),
                self.visited_modules == old(self).visited_modules,
                !seen ==> forall|j: int|
                    0 <= j < i ==> !same_module(#[trigger] self.visited_modules@[j], mname),
                seen ==> exists|j: int|
                    0 <= j < self.visited_modules@.len() && same_module(
                        #[trigger] self.visited_modules@[j],
                        mname,
                    ),
            decreases self.visited_modules.len() - i + (if seen {
                0int
            } else {
                1int
            }),
        {
            if is_same_module(&self.visited_modules[i], &mname) {
                seen = true;
            } else {
                i = i + 1;
            }
        }
        if !seen {
            self.visited_modules.push(mname.clone());
        }
        let name = format_address(&mname.address);
        let ghost held = package_views(self.visited_packages@);
        let mut k: usize = 0;
        let mut placed = false;
        while k < self.visited_packages.len() && !placed
            invariant
                k <= self.visited_packages.len(),
                self.visited_packages == old(self).visited_packages,
                held == package_views(self.visited_packages@),
                package_place(held, name@, k as int) == package_place(held, name@, 0),
                placed ==> k < held.len() && !before(held[k as int].0, name@),
            decreases self.visited_packages.len() - k + (if placed {
                0int
            } else {
                1int
            }),
        {
            if rank(self.visited_packages[k].0.as_str(), name.as_str()) == Rank::Before {
                k = k + 1;
            } else {
                placed = true;
            }
        }
        if k < self.visited_packages.len() && same_text(&self.visited_packages[k].0, &name) {
            self.visited_packages.set(k, (name, mname.address.clone()));
            proof {
                assert(package_views(self.visited_packages@) =~= held.update(
                    k as int,
                    (name@, mname.address),
                ));
            }
        } else {
            let ghost listed_name = name@;
            self.visited_packages.insert(k, (name, mname.address.clone()));
            proof {
                assert(package_views(self.visited_packages@) =~= held.insert(
                    k as int,
                    (listed_name, mname.address),
                ));
            }
        }
        self.current_module = Some(mname);
    }

    /// The identity of the current module.
    pub fn module(&self) -> (r: ModuleIdent)
        requires
            self.current_module is Some,
        ensures
            r == self.current_module->0,
    {
        match &self.current_module {
            Some(cur) => cur.clone(),
            None => vstd::pervasive::unreached(),
        }
    }

    /// Whether `other` belongs to the package of the current module.
    pub fn is_current_package(&self, other: &ModuleIdent) -> (r: bool)
        requires
            self.current_module is Some,
        ensures
            r == same_package(self.current_module->0.address, other.address),
    {
        match &self.current_module {
            Some(cur) => is_same_package(&cur.address, &other.address),
            None => false,
        }
    }

    /// Whether `other` is the current module.
    pub fn is_current_module(&self, other: &ModuleIdent) -> (r: bool)
        requires
            self.current_module is Some,
        ensures
            r == same_module(self.current_module->0, *other),
    {
        match &self.current_module {
            Some(cur) => is_same_module(cur, other),
            None => false,
        }
    }

    /// Records that the current module refers to a module of its package.
    pub fn add_same_package_import(&mut self, modname: String)
        ensures
            final(self).follows(
                *old(self),
                (Effects { same: set![modname@], ..Effects::none() }),
            ),
    {
        self.same_package_imports.insert(modname);
    }

    /// Records that the current module refers to another package.
    pub fn add_package_import(&mut self, modname: String)
        ensures
            final(self).follows(
                *old(self),
                (Effects { pkgs: set![modname@], ..Effects::none() }),
            ),
    {
        self.package_imports.insert(modname);
    }

    /// The position of `tparam` among the type parameters of the function
    /// that is being translated; `None` outside a function, and where the
    /// function declares no parameter of that name.
    pub fn get_tparam_index(&self, tparam: &TParam) -> (r: Option<usize>)
        ensures
            match r {
                Some(i) => self.current_function_signature is Some && position(
                    signature_names(self.current_function_signature),
                    tparam.user_specified_name.value@,
                ) == Some(i as int),
                None => position(
                    signature_names(self.current_function_signature),
                    tparam.user_specified_name.value@,
                ) is None,
            },
    {
        match &self.current_function_signature {
            None => None,
            Some(sig) => {
                let names = tparam_names(&sig.type_parameters);
                index_of(&names, &tparam.user_specified_name.value)
            },
        }
    }

    /// Records an entry function that a `cmd` directive names.
    pub fn add_cmd(
        &mut self,
        mi: &ModuleIdent,
        fname: &FunctionName,
        func: &Rc<Function>,
        desc: Option<String>,
    )
        ensures
            final(self).follows(
                *old(self),
                (Effects {
                    cmds: seq![
                        (CmdParams { mi: *mi, fname: *fname, func: *func, desc: desc })@,
                    ],
                    ..Effects::none()
                }),
            ),
    {
        let ghost before = cmd_views(self.cmds@);
        let record = CmdParams { mi: mi.clone(), fname: fname.clone(), func: share(func), desc };
        self.cmds.push(record);
        assert(cmd_views(self.cmds@) =~= before.push(record@));
    }

    /// Records an entry function that a `query` directive names.
    pub fn add_query(&mut self, mi: &ModuleIdent, fname: &FunctionName, func: &Rc<Function>)
        ensures
            final(self).follows(
                *old(self),
                (Effects {
                    queries: seq![
                        (CmdParams { mi: *mi, fname: *fname, func: *func, desc: None })@,
                    ],
                    ..Effects::none()
                }),
            ),
    {
        let ghost before = cmd_views(self.queries@);
        let record = CmdParams {
            mi: mi.clone(),
            fname: fname.clone(),
            func: share(func),
            desc: None,
        };
        self.queries.push(record);
        assert(cmd_views(self.queries@) =~= before.push(record@));
    }

    /// Records a method of a struct whose result can be shown.
    pub fn add_printer_method(
        &mut self,
        mi: &ModuleIdent,
        sname: &StructName,
        sdef: &Rc<StructDefinition>,
        fname: &Name,
        sig: &Rc<FunctionSignature>,
    )
        ensures
            final(self).follows(
                *old(self),
                (Effects {
                    printers: seq![(*mi, *sname, *sdef, *fname, *sig)],
                    ..Effects::none()
                }),
            ),
    {
        self.printer_methods.push(
            (mi.clone(), sname.clone(), share(sdef), fname.clone(), share(sig)),
        );
    }

    /// Records a field that a `show_iter_table` directive names.
    pub fn add_show_iter_table(
        &mut self,
        mi: &ModuleIdent,
        sname: &StructName,
        sdef: &Rc<StructDefinition>,
        field_name: &Name,
    )
        ensures
            final(self).follows(
                *old(self),
                (Effects { shows: seq![(*mi, *sname, *sdef, *field_name)], ..Effects::none() }),
            ),
    {
        self.all_shows_iter_tables.push(
            (mi.clone(), sname.clone(), share(sdef), field_name.clone()),
        );
    }

    /// Whether the translated functions are asynchronous.
    pub fn is_async(&self) -> (r: bool)
        ensures
            r == self.config.asynchronous,
    {
        self.config.asynchronous
    }
}

/// Joins the rendered items of a list with a comma and a space; unless
/// `always_output` is set, items that were rendered as the empty text are
/// left out.
pub fn comma_term_opt(results: &Vec<String>, always_output: bool) -> (r: String)
    ensures
        r@ == joined(listed(texts(results@), always_output), ", "@),
{
    let mut parts: Vec<String> = Vec::new();
    let mut i: usize = 0;
    let ghost all = texts(results@);
    assert(texts(parts@) =~= Seq::<Seq<char>>::empty());
    assert(all.take(0) =~= Seq::<Seq<char>>::empty());
    proof {
        if !always_output {
            assert(all.take(0).filter(|s: Seq<char>| s.len() > 0) =~= Seq::<Seq<char>>::empty())
                by {
                reveal(Seq::filter);
            }
        }
    }
    while i < results.len()
        invariant
            i <= results.len(),
            all == texts(results@),
            texts(parts@) == listed(all.take(i as int), always_output),
        decreases results.len() - i,
    {
        let ghost before = texts(parts@);
        proof {
            assert(all.take(i + 1) =~= all.take(i as int).push(all[i as int]));
            if !always_output {
                assert(all.take(i + 1).drop_last() =~= all.take(i as int));
                reveal(Seq::filter);
            }
        }
        if always_output || results[i].as_str().unicode_len() > 0 {
            parts.push(results[i].clone());
            assert(texts(parts@) =~= before.push(all[i as int]));
        }
        i = i + 1;
    }
    assert(all.take(i as int) =~= all);
    join(&parts, ", ")
}

/// Joins the rendered items of a list with a comma and a space.
pub fn comma_term(results: &Vec<String>) -> (r: String)
    ensures
        r@ == joined(texts(results@), ", "@),
{
    comma_term_opt(results, true)
}

/// The name of the package at an address.
pub fn format_address(address: &Address) -> (r: String)
    ensures
        r@ == package_name(*address),
{
    match address {
        Address::Numerical(Some(name), _) => name.value.clone(),
        Address::Numerical(None, numerical_address) => {
            let mut out = String::from_str("X");
            out.append(numerical_address.shown.as_str());
            out
        },
        Address::NamedUnassigned(name) => name.value.clone(),
    }
}

/// The hex literal of an address; empty for an unassigned name.
pub fn format_address_hex(address: &Address) -> (r: String)
    ensures
        r@ == address_hex(*address),
{
    match address {
        Address::Numerical(_, hex) => hex.hex_literal.clone(),
        Address::NamedUnassigned(_name) => String::new(),
    }
}

/// The target-language expression for a numerical address.
pub fn ts_format_numerical_address(numerical: &NumericalAddress) -> (r: TermResult)
    ensures
        term_is(r, Ok(numerical_address_term(numerical.hex_literal@))),
        r is Ok,
{
    let mut out = String::from_str("new HexString(\"");
    out.append(numerical.hex_literal.as_str());
    out.append("\")");
    Ok(out)
}

/// The target-language expression for an address; an address without a
/// number is an error at `loc`.
pub fn ts_format_address_as_literal(addr: &Address, loc: Loc) -> (r: TermResult)
    ensures
        term_is(r, address_literal(*addr, loc)),
{
    match addr {
        Address::Numerical(_opt_name, numerical) => ts_format_numerical_address(numerical),
        Address::NamedUnassigned(name) => {
            let mut message = String::from_str("Unassigned address: ");
            message.append(name.value.as_str());
            Err(derr(loc, message.as_str()))
        },
    }
}

/// Writes `name`, which module `mident` declares, as the current module
/// refers to it, and records the import that the reference needs.
pub fn format_qualified_name(mident: &ModuleIdent, name: &str, c: &mut Context) -> (r: String)
    requires
        old(c).current_module is Some,
    ensures
        r@ == qualified(old(c).current_module->0, *mident, name@),
        final(c).follows(*old(c), reference(old(c).current_module->0, *mident)),
{
    let name = rename(name);
    if c.is_current_module(mident) {
        name
    } else if c.is_current_package(mident) {
        c.add_same_package_import(mident.module.value.clone());
        let mut out = capitalize(mident.module.value.as_str());
        out.append(".");
        out.append(name.as_str());
        out
    } else {
        let package_name = format_address(&mident.address);
        c.add_package_import(package_name.clone());
        let mut out = capitalize(package_name.as_str());
        out.append(".");
        out.append(capitalize(mident.module.value.as_str()).as_str());
        out.append(".");
        out.append(name.as_str());
        out
    }
}

/// The name under which a translated function is called.
pub fn format_function_name(fname: &str, is_async: bool) -> (r: String)
    ensures
        r@ == function_name_term(fname@, is_async),
{
    let mut out = String::from_str(if is_async {
        "await "
    } else {
        ""
    });
    proof {
        reveal_strlit("");
        assert(""@ + fname@ =~= fname@);
    }
    out.append(fname);
    out.append("_");
    out
}

/// The tag of a built-in type that takes no argument.
fn atomic_tag_text(builtin: BuiltinTypeName) -> (r: String)
    ensures
        r@ == atomic_tag(builtin),
{
    match builtin {
        BuiltinTypeName::Bool => String::from_str("AtomicTypeTag.Bool"),
        BuiltinTypeName::U8 => String::from_str("AtomicTypeTag.U8"),
        BuiltinTypeName::U64 => String::from_str("AtomicTypeTag.U64"),
        BuiltinTypeName::U128 => String::from_str("AtomicTypeTag.U128"),
        BuiltinTypeName::Address => String::from_str("AtomicTypeTag.Address"),
        BuiltinTypeName::Signer => String::from_str("AtomicTypeTag.Signer"),
        BuiltinTypeName::Vector => String::from_str("new VectorTag()"),
    }
}

/// Makes the tag of a type. The two kinds of tag differ only in what stands
/// for a type parameter; `names` are the parameters that it is looked up in.
pub fn typetag_with(base_ty: &BaseType, names: &Vec<String>, builder: bool) -> (r: TermResult)
    requires
        tag_ready(*base_ty, texts(names@)),
    ensures
        term_is(r, tag_result(*base_ty, texts(names@), builder)),
    decreases *base_ty,
{
    match &base_ty.value {
        BaseTypeKind::Param(tp) => {
            let index = match index_of(names, &tp.user_specified_name.value) {
                Some(i) => i,
                None => 0,
            };
            let mut out = String::from_str(
                if builder {
                    "new $.TypeParamIdx("
                } else {
                    "$p["
                },
            );
            out.append(decimal_string(index).as_str());
            out.append(if builder {
                ")"
            } else {
                "]"
            });
            Ok(out)
        },
        BaseTypeKind::Apply { name, args } => match name {
            TypeName::Builtin(builtin) => match builtin {
                BuiltinTypeName::Vector => {
                    assert(decreases_to!(*base_ty => base_ty.value));
                    assert(decreases_to!(base_ty.value => base_ty.value->args));
                    assert(decreases_to!(*args => args[0]));
                    match typetag_with(&args[0], names, builder) {
                        Ok(inner) => {
                            let mut out = String::from_str("new VectorTag(");
                            out.append(inner.as_str());
                            out.append(")");
                            Ok(out)
                        },
                        Err(d) => Err(d),
                    }
                },
                _ => Ok(atomic_tag_text(*builtin)),
            },
            TypeName::ModuleType(mident, sname) => {
                let mut parts: Vec<String> = Vec::new();
                let mut i: usize = 0;
                assert(texts(parts@) =~= Seq::<Seq<char>>::empty());
                while i < args.len()
                    invariant
                        i <= args.len(),
                        base_ty.value == (BaseTypeKind::Apply { name: *name, args: *args }),
                        *name == TypeName::ModuleType(*mident, *sname),
                        forall|k: int|
                            0 <= k < args@.len() ==> tag_ready(
                                #[trigger] args@[k],
                                texts(names@),
                            ),
                        tag_results(args@, i as int, texts(names@), builder, texts(parts@))
                            == tag_results(args@, 0, texts(names@), builder, Seq::empty()),
                    decreases args.len() - i,
                {
                    assert(decreases_to!(*base_ty => base_ty.value));
                    assert(decreases_to!(base_ty.value => base_ty.value->args));
                    assert(decreases_to!(*args => args[i as int]));
                    let ghost before = texts(parts@);
                    match typetag_with(&args[i], names, builder) {
                        Ok(t) => {
                            parts.push(t);
                            assert(texts(parts@) =~= before.push(t@));
                        },
                        Err(d) => {
                            return Err(d);
                        },
                    }
                    i = i + 1;
                }
                let mut out = String::from_str("new StructTag(new HexString(");
                out.append(quote(format_address_hex(&mident.address).as_str()).as_str());
                out.append("), ");
                out.append(quote(mident.module.value.as_str()).as_str());
                out.append(", ");
                out.append(quote(sname.value.as_str()).as_str());
                out.append(", [");
                out.append(join(&parts, ", ").as_str());
                out.append("])");
                Ok(out)
            },
        },
        _ => Err(derr(base_ty.loc, "Received Unresolved Type")),
    }
}

/// The tag of a field's type, in which a type parameter stands for its
/// position among the type parameters of the struct that owns the field.
pub fn base_type_to_typetag_builder(
    base_ty: &BaseType,
    tparams: &Vec<StructTypeParameter>,
    c: &mut Context,
) -> (r: TermResult)
    requires
        tag_ready(*base_ty, struct_names_of(tparams@)),
    ensures
        term_is(r, tag_result(*base_ty, struct_names_of(tparams@), true)),
        *final(c) == *old(c),
{
    let names = struct_tparam_names(tparams);
    typetag_with(base_ty, &names, true)
}

/// The tag of a type inside a function, in which a type parameter stands for
/// its position among the type parameters of the function that is being
/// translated.
pub fn base_type_to_typetag(base_ty: &BaseType, c: &mut Context) -> (r: TermResult)
    requires
        tag_ready(*base_ty, signature_names(old(c).current_function_signature)),
    ensures
        term_is(r, tag_result(*base_ty, signature_names(old(c).current_function_signature), false)),
        *final(c) == *old(c),
{
    let names = match &c.current_function_signature {
        Some(sig) => tparam_names(&sig.type_parameters),
        None => Vec::new(),
    };
    assert(texts(names@) =~= signature_names(c.current_function_signature));
    typetag_with(base_ty, &names, false)
}

/// The tag of a type that a value is constructed with; unit, references and
/// tuples have none.
pub fn type_to_typetag(ty: &Type, c: &mut Context) -> (r: TermResult)
    requires
        type_tag_ready(*ty, signature_names(old(c).current_function_signature)),
    ensures
        term_is(r, type_tag_result(*ty, signature_names(old(c).current_function_signature))),
        *final(c) == *old(c),
{
    match &ty.value {
        TypeKind::Unit => Err(derr(ty.loc, "Cannot construct Unit type")),
        TypeKind::Single(single_ty) => match &single_ty.value {
            SingleTypeKind::Ref(_, _) => Err(
                derr(ty.loc, "Cannot construct typetag for Ref type"),
            ),
            SingleTypeKind::Base(base_ty) => base_type_to_typetag(base_ty, c),
        },
        TypeKind::Multiple(_) => Err(derr(ty.loc, "Cannot construct typeTag for tuples")),
    }
}

/// The text that an attribute is assigned as a byte string.
pub fn extract_attribute_value_string(attr: &Attribute) -> (r: Option<String>)
    ensures
        match r {
            Some(s) => attribute_text(*attr) == Some(s@),
            None => attribute_text(*attr) is None,
        },
{
    match &attr.value {
        AttributeKind::Assigned(_, v) => match v {
            AttributeValue::Bytearray(bytes) => {
                let str_val = match utf8_text(bytes) {
                    Some(s) => s,
                    None => String::new(),
                };
                Some(str_val)
            },
            _ => None,
        },
        _ => None,
    }
}

} // verus!
