//! The program tree that the translator reads: modules with their structs,
//! constants and functions, as they stand after type checking. Every list is
//! in the order in which its entries are translated.

use std::rc::Rc;
use vstd::prelude::*;

verus! {

/// A place in a source file.
#[derive(Clone, Copy, Debug)]
pub struct Loc {
    pub file_hash: [u8; 32],
    pub start: u32,
    pub end: u32,
}

/// An identifier with the place where it is written.
#[derive(Debug)]
pub struct Name {
    pub loc: Loc,
    pub value: String,
}

pub type Var = Name;

pub type Field = Name;

pub type StructName = Name;

pub type FunctionName = Name;

pub type ConstantName = Name;

pub type ModuleName = Name;

impl Clone for Name {
    fn clone(&self) -> (r: Self)
        ensures
            r == *self,
    {
        Name { loc: self.loc, value: self.value.clone() }
    }
}

/// A numerical address: `hex_literal` is `0x` and its hexadecimal digits
/// without leading zeros, `shown` is the address as the source wrote it.
/// Two numerical addresses are the same where their hex literals are.
#[derive(Debug)]
pub struct NumericalAddress {
    pub loc: Loc,
    pub hex_literal: String,
    pub shown: String,
}

impl Clone for NumericalAddress {
    fn clone(&self) -> (r: Self)
        ensures
            r == *self,
    {
        NumericalAddress {
            loc: self.loc,
            hex_literal: self.hex_literal.clone(),
            shown: self.shown.clone(),
        }
    }
}

/// The address of a package: a number, with the name it was given if any, or
/// a name that no number was assigned to.
#[derive(Debug)]
pub enum Address {
    Numerical(Option<Name>, NumericalAddress),
    NamedUnassigned(Name),
}

impl Clone for Address {
    fn clone(&self) -> (r: Self)
        ensures
            r == *self,
    {
        match self {
            Address::Numerical(name, number) => {
                let name = match name {
                    Some(n) => Some(n.clone()),
                    None => None,
                };
                Address::Numerical(name, number.clone())
            },
            Address::NamedUnassigned(name) => Address::NamedUnassigned(name.clone()),
        }
    }
}

/// A module's identity: the address of its package and its name.
#[derive(Debug)]
pub struct ModuleIdent {
    pub loc: Loc,
    pub address: Address,
    pub module: ModuleName,
}

impl Clone for ModuleIdent {
    fn clone(&self) -> (r: Self)
        ensures
            r == *self,
    {
        ModuleIdent { loc: self.loc, address: self.address.clone(), module: self.module.clone() }
    }
}

/// A capability of a struct type.
#[derive(Clone, Copy, Debug, PartialEq, Eq, Structural)]
pub enum Ability {
    Copy,
    Drop,
    Store,
    Key,
}

/// The capabilities that a struct type has.
#[derive(Clone, Copy, Debug)]
pub struct AbilitySet {
    pub copy: bool,
    pub drop: bool,
    pub store: bool,
    pub key: bool,
}

impl AbilitySet {
    pub open spec fn has(self, a: Ability) -> bool {
        match a {
            Ability::Copy => self.copy,
            Ability::Drop => self.drop,
            Ability::Store => self.store,
            Ability::Key => self.key,
        }
    }

    /// Whether the set holds `a`.
    pub fn has_ability_(&self, a: Ability) -> (r: bool)
        ensures
            r == self.has(a),
    {
        match a {
            Ability::Copy => self.copy,
            Ability::Drop => self.drop,
            Ability::Store => self.store,
            Ability::Key => self.key,
        }
    }
}

/// A type parameter of a function or struct.
#[derive(Debug)]
pub struct TParam {
    pub user_specified_name: Name,
}

/// A type parameter of a struct.
#[derive(Debug)]
pub struct StructTypeParameter {
    pub is_phantom: bool,
    pub param: TParam,
}

/// The types that are built in.
#[derive(Clone, Copy, Debug, PartialEq, Eq, Structural)]
pub enum BuiltinTypeName {
    Address,
    Signer,
    U8,
    U64,
    U128,
    Vector,
    Bool,
}

/// What a type application applies: a built-in type or a struct of a module.
#[derive(Debug)]
pub enum TypeName {
    Builtin(BuiltinTypeName),
    ModuleType(ModuleIdent, StructName),
}

/// A type that a value can have by itself.
#[derive(Debug)]
pub struct BaseType {
    pub loc: Loc,
    pub value: BaseTypeKind,
}

#[derive(Debug)]
pub enum BaseTypeKind {
    /// A reference to a type parameter.
    Param(TParam),
    /// A built-in type or a struct, with its type arguments.
    Apply { name: TypeName, args: Vec<BaseType> },
    /// The type of code that is never reached.
    Unreachable,
    /// A type that could not be resolved.
    UnresolvedError,
}

/// A base type, or a reference to one; the flag says whether the reference
/// is mutable.
#[derive(Debug)]
pub struct SingleType {
    pub loc: Loc,
    pub value: SingleTypeKind,
}

#[derive(Debug)]
pub enum SingleTypeKind {
    Base(BaseType),
    Ref(bool, BaseType),
}

/// The type of an expression or of a function's result.
#[derive(Debug)]
pub struct Type {
    pub loc: Loc,
    pub value: TypeKind,
}

#[derive(Debug)]
pub enum TypeKind {
    Unit,
    Single(SingleType),
    Multiple(Vec<SingleType>),
}

/// What the translator reads of an expression's outermost form.
#[derive(Debug)]
pub enum ExpShape {
    /// The unit value.
    Unit,
    /// A borrow of a local or of a field.
    Borrow,
    /// A dereference of a reference.
    Dereference,
    /// The built-in that publishes a resource of the given type.
    MoveTo(BaseType),
    /// Any other expression.
    Other,
}

/// An expression: its outermost form, and its text in the target language,
/// which the expression printer has rendered.
#[derive(Debug)]
pub struct Exp {
    pub loc: Loc,
    pub shape: ExpShape,
    pub term: String,
}

/// The target of a binding.
#[derive(Debug)]
pub struct LValue {
    pub loc: Loc,
    pub value: LValueKind,
}

#[derive(Debug)]
pub enum LValueKind {
    /// The value is dropped.
    Ignore,
    /// The value goes to a local.
    Var(Var),
    /// The value is a struct that is taken apart, field by field.
    Unpack { name: StructName, fields: Vec<(Field, LValue)> },
}

/// A command.
#[derive(Debug)]
pub struct Command {
    pub loc: Loc,
    pub value: CommandKind,
}

#[derive(Debug)]
pub enum CommandKind {
    Assign(Vec<LValue>, Exp),
    Mutate(Exp, Exp),
    Abort(Exp),
    Return { from_user: bool, exp: Exp },
    Break,
    Continue,
    IgnoreAndPop { pop_num: usize, exp: Exp },
    Jump,
    JumpIf,
}

pub type Block = Vec<Statement>;

/// A statement: a command, or a structured piece of control flow.
#[derive(Debug)]
pub struct Statement {
    pub loc: Loc,
    pub value: StatementKind,
}

#[derive(Debug)]
pub enum StatementKind {
    Command(Command),
    IfElse { cond: Exp, if_block: Block, else_block: Block },
    /// A loop with a condition; `pre_block` is evaluated before each test of
    /// the condition.
    While { pre_block: Block, cond: Exp, block: Block },
    Loop { has_break: bool, block: Block },
}

/// The value that an attribute is assigned.
#[derive(Debug)]
pub enum AttributeValue {
    Bytearray(Vec<u8>),
    Other,
}

/// An attribute that is attached to a struct or a function.
#[derive(Debug)]
pub struct Attribute {
    pub loc: Loc,
    pub value: AttributeKind,
}

#[derive(Debug)]
pub enum AttributeKind {
    /// A bare name.
    Name(Name),
    /// A name with a value.
    Assigned(Name, AttributeValue),
    /// A name with a list of attributes.
    Parameterized(Name, Attributes),
}

pub type Attributes = Vec<(Name, Attribute)>;

/// The fields of a struct, or the place where it is declared native.
#[derive(Debug)]
pub enum StructFields {
    Defined(Vec<(Field, BaseType)>),
    Native(Loc),
}

#[derive(Debug)]
pub struct StructDefinition {
    pub attributes: Attributes,
    pub abilities: AbilitySet,
    pub type_parameters: Vec<StructTypeParameter>,
    pub fields: StructFields,
}

#[derive(Debug)]
pub struct FunctionSignature {
    pub type_parameters: Vec<TParam>,
    pub parameters: Vec<(Var, SingleType)>,
    pub return_type: Type,
}

#[derive(Debug)]
pub enum FunctionBodyKind {
    Native,
    Defined { locals: Vec<(Var, SingleType)>, body: Block },
}

#[derive(Debug)]
pub struct FunctionBody {
    pub loc: Loc,
    pub value: FunctionBodyKind,
}

/// A function. `entry` holds the place of its entry marker, if it has one.
#[derive(Debug)]
pub struct Function {
    pub attributes: Attributes,
    pub entry: Option<Loc>,
    pub signature: Rc<FunctionSignature>,
    pub body: FunctionBody,
}

#[derive(Debug)]
pub struct Constant {
    pub loc: Loc,
    pub signature: BaseType,
    pub value: Block,
}

#[derive(Debug)]
pub struct ModuleDefinition {
    pub package_name: Option<String>,
    pub structs: Vec<(StructName, Rc<StructDefinition>)>,
    pub constants: Vec<(ConstantName, Constant)>,
    pub functions: Vec<(FunctionName, Rc<Function>)>,
}

#[derive(Debug)]
pub struct Program {
    pub modules: Vec<(ModuleIdent, ModuleDefinition)>,
}

} // verus!
