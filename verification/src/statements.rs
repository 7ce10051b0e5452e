//! The translation of function bodies: binding targets, commands, structured
//! control flow, and the declaration of locals at the head of a body.

use crate::ast::{
    Block, Command, CommandKind, Exp, ExpShape, Field, LValue, LValueKind, Statement,
    StatementKind, Var,
};
use crate::shared::{
    comma_term, comma_term_opt, derr, failure, listed, wrote, Context, DiagnosticView, WriteResult,
};
use crate::string_set::StringSet;
use crate::text::{join, joined, rename, renamed, same_text, texts};
use crate::tsgen_writer::{TsgenWriter, WriterView};
use vstd::prelude::*;

verus! {

/// How one field of a destructuring pattern is written, where `inner` is the
/// target that the field goes to: nothing for a target that binds nothing,
/// the name alone where the target is a local of the field's name.
pub open spec fn field_term(field: Seq<char>, inner: Seq<char>) -> Seq<char> {
    if inner.len() == 0 {
        Seq::empty()
    } else if inner == renamed(field) {
        inner
    } else {
        renamed(field) + ": "@ + inner
    }
}

/// A binding target in the target language: nothing for a dropped value, the
/// local's name, or a destructuring pattern between braces.
pub open spec fn lvalue_text(lv: LValue) -> Seq<char>
    decreases lv,
{
    match lv.value {
        LValueKind::Ignore => Seq::empty(),
        LValueKind::Var(v) => renamed(v.value@),
        LValueKind::Unpack { name, fields } => "{ "@ + joined(
            listed(field_texts(fields@, 0, Seq::empty()), false),
            ", "@,
        ) + " }"@,
    }
}

/// `done`, followed by the fields of a pattern from position `i` on.
pub open spec fn field_texts(fields: Seq<(Field, LValue)>, i: int, done: Seq<Seq<char>>) -> Seq<
    Seq<char>,
>
    decreases fields, fields.len() - i,
{
    if i < 0 || i >= fields.len() {
        done
    } else {
        field_texts(
            fields,
            i + 1,
            done.push(field_term(fields[i].0.value@, lvalue_text(fields[i].1))),
        )
    }
}

/// The texts of a list of binding targets.
pub open spec fn lvalue_texts(lvalues: Seq<LValue>) -> Seq<Seq<char>> {
    Seq::new(lvalues.len(), |i: int| lvalue_text(lvalues[i]))
}

/// The left-hand side of a binding: the one target, or the targets of a tuple
/// between square brackets.
pub open spec fn lvalues_text(lvalues: Seq<LValue>) -> Seq<char> {
    if lvalues.len() == 1 {
        lvalue_text(lvalues[0])
    } else {
        "["@ + joined(lvalue_texts(lvalues), ", "@) + "]"@
    }
}

/// Whether no target of a binding takes the value: each one drops it.
pub open spec fn binds_nothing(lvalues: Seq<LValue>) -> bool {
    forall|i: int| 0 <= i < lvalues.len() ==> (#[trigger] lvalues[i]).value is Ignore
}

/// Whether an expression is the unit value.
pub open spec fn exp_is_unit(exp: Exp) -> bool {
    exp.shape is Unit
}

/// Whether a block does nothing: it is empty, or holds only a unit value
/// that is dropped.
pub open spec fn empty_block(block: Seq<Statement>) -> bool {
    block.len() == 0 || (block.len() == 1 && match block[0].value {
        StatementKind::Command(cmd) => match cmd.value {
            CommandKind::IgnoreAndPop { pop_num: _, exp } => exp_is_unit(exp),
            _ => false,
        },
        _ => false,
    })
}

/// What a command writes, or the error for a command that has no
/// translation.
pub open spec fn command_run(w: WriterView, cmd: Command) -> Result<WriterView, DiagnosticView> {
    match cmd.value {
        CommandKind::Assign(lvalues, rhs) => if binds_nothing(lvalues@) {
            Ok(w.writeln(rhs.term@ + ";"@))
        } else {
            let w1 = if lvalues@.len() == 1 && lvalues@[0].value is Unpack {
                w.write("let "@)
            } else {
                w
            };
            Ok(w1.write(lvalues_text(lvalues@)).write(" = "@).write(rhs.term@).writeln(";"@))
        },
        CommandKind::Mutate(lhs, rhs) => match lhs.shape {
            ExpShape::Borrow => Ok(w.writeln(lhs.term@ + " = "@ + rhs.term@ + ";"@)),
            ExpShape::Dereference => Err(
                failure(lhs.loc, "Dereference in Mutate not implemented yet"@),
            ),
            _ => Ok(w.writeln("$.set("@ + lhs.term@ + ", "@ + rhs.term@ + ");"@)),
        },
        CommandKind::Abort(e) => Ok(w.writeln("throw $.abortCode("@ + e.term@ + ");"@)),
        CommandKind::Return { from_user: _, exp } => if exp_is_unit(exp) {
            Ok(w.writeln("return;"@))
        } else {
            Ok(w.writeln("return "@ + exp.term@ + ";"@))
        },
        CommandKind::Break => Ok(w.writeln("break;"@)),
        CommandKind::Continue => Ok(w.writeln("continue;"@)),
        CommandKind::IgnoreAndPop { pop_num: _, exp } => if exp_is_unit(exp) {
            Ok(w)
        } else {
            Ok(w.writeln(exp.term@ + ";"@))
        },
        _ => Err(failure(cmd.loc, "Unsupported Command (Jump)"@)),
    }
}

/// What a statement writes. A conditional whose first branch does nothing
/// tests the negation of the whole condition, which stands between
/// parentheses, and holds the other branch alone. A loop
/// whose condition needs a block evaluated first runs without a condition:
/// each round evaluates that block, leaves where the condition fails, and
/// then runs the body.
pub open spec fn statement_run(w: WriterView, stmt: Statement) -> Result<
    WriterView,
    DiagnosticView,
>
    decreases stmt, 0int,
{
    match stmt.value {
        StatementKind::Command(cmd) => command_run(w, cmd),
        StatementKind::IfElse { cond, if_block, else_block } => if !empty_block(if_block@) {
            match block_run(w.write("if ("@ + cond.term@ + ") "@), if_block@) {
                Ok(w1) => if else_block@.len() > 0 {
                    block_run(w1.write("else"@), else_block@)
                } else {
                    Ok(w1)
                },
                Err(d) => Err(d),
            }
        } else {
            block_run(w.write("if (!("@ + cond.term@ + ")) "@), else_block@)
        },
        StatementKind::While { pre_block, cond, block } => if pre_block@.len() > 0 {
            match block_run(w.write("while (true) "@).open_block(), pre_block@) {
                Ok(w1) => match block_run(
                    w1.writeln("if (!("@ + cond.term@ + ")) break;"@),
                    block@,
                ) {
                    Ok(w2) => Ok(w2.close_block()),
                    Err(d) => Err(d),
                },
                Err(d) => Err(d),
            }
        } else {
            match block_run(w.write("while ("@ + cond.term@ + ") "@).open_block(), block@) {
                Ok(w2) => Ok(w2.close_block()),
                Err(d) => Err(d),
            }
        },
        StatementKind::Loop { has_break: _, block } => block_run(
            w.write("while (true) "@),
            block@,
        ),
    }
}

/// What the statements from position `i` on write, one after the other, or
/// the first error among them.
pub open spec fn statements_run(w: WriterView, stmts: Seq<Statement>, i: int) -> Result<
    WriterView,
    DiagnosticView,
>
    decreases stmts, stmts.len() - i,
{
    if i < 0 || i >= stmts.len() {
        Ok(w)
    } else {
        match statement_run(w, stmts[i]) {
            Ok(w1) => statements_run(w1, stmts, i + 1),
            Err(d) => Err(d),
        }
    }
}

/// What a block writes: its statements between braces.
pub open spec fn block_run(w: WriterView, stmts: Seq<Statement>) -> Result<
    WriterView,
    DiagnosticView,
>
    decreases stmts, stmts.len() + 1,
{
    match statements_run(w.open_block(), stmts, 0) {
        Ok(w1) => Ok(w1.close_block()),
        Err(d) => Err(d),
    }
}

/// The names that the first `n` fields of a destructuring pattern bind.
pub open spec fn unpacked_fields(fields: Seq<(Field, LValue)>, n: int) -> Set<Seq<char>>
    decreases fields, n,
{
    if n <= 0 || n > fields.len() {
        Set::empty()
    } else {
        unpacked_fields(fields, n - 1).union(
            match fields[n - 1].1.value {
                LValueKind::Var(v) => set![v.value@],
                _ => unpacked_lvalue(fields[n - 1].1),
            },
        )
    }
}

/// The names that a binding target binds by destructuring.
pub open spec fn unpacked_lvalue(lv: LValue) -> Set<Seq<char>>
    decreases lv,
{
    match lv.value {
        LValueKind::Unpack { name, fields } => unpacked_fields(fields@, fields@.len() as int),
        _ => Set::empty(),
    }
}

/// The names that the first `n` targets of a binding bind by destructuring.
pub open spec fn unpacked_lvalues(lvalues: Seq<LValue>, n: int) -> Set<Seq<char>>
    decreases n,
{
    if n <= 0 || n > lvalues.len() {
        Set::empty()
    } else {
        unpacked_lvalues(lvalues, n - 1).union(unpacked_lvalue(lvalues[n - 1]))
    }
}

/// The names that a command binds by destructuring.
pub open spec fn unpacked_command(cmd: Command) -> Set<Seq<char>> {
    match cmd.value {
        CommandKind::Assign(lvalues, _) => unpacked_lvalues(lvalues@, lvalues@.len() as int),
        _ => Set::empty(),
    }
}

/// The names that a statement binds by destructuring, anywhere inside it.
pub open spec fn unpacked_statement(stmt: Statement) -> Set<Seq<char>>
    decreases stmt, 0int,
{
    match stmt.value {
        StatementKind::Command(cmd) => unpacked_command(cmd),
        StatementKind::IfElse { cond: _, if_block, else_block } => unpacked_statements(
            if_block@,
            if_block@.len() as int,
        ).union(unpacked_statements(else_block@, else_block@.len() as int)),
        StatementKind::While { pre_block, cond: _, block } => unpacked_statements(
            block@,
            block@.len() as int,
        ).union(unpacked_statements(pre_block@, pre_block@.len() as int)),
        StatementKind::Loop { has_break: _, block } => unpacked_statements(
            block@,
            block@.len() as int,
        ),
    }
}

/// The names that the first `n` statements of a block bind by destructuring.
pub open spec fn unpacked_statements(stmts: Seq<Statement>, n: int) -> Set<Seq<char>>
    decreases stmts, n,
{
    if n <= 0 || n > stmts.len() {
        Set::empty()
    } else {
        unpacked_statements(stmts, n - 1).union(unpacked_statement(stmts[n - 1]))
    }
}

/// The names that a block binds by destructuring.
pub open spec fn unpacked_block(stmts: Seq<Statement>) -> Set<Seq<char>> {
    unpacked_statements(stmts, stmts.len() as int)
}

/// The locals that are declared at the head of a body: those of `new_vars`
/// that `bound` does not hold, in their order, each under its name in the
/// target language.
pub open spec fn hoisted(new_vars: Seq<Var>, bound: Set<Seq<char>>) -> Seq<Seq<char>> {
    new_vars.filter(|v: Var| !bound.contains(v.value@)).map_values(|v: Var| renamed(v.value@))
}

/// What the body of a function writes: the opening brace, one declaration
/// of the locals that no destructuring pattern in the body binds, if there
/// are any, the statements, and the closing brace.
pub open spec fn func_body_run(w: WriterView, block: Seq<Statement>, new_vars: Seq<Var>) -> Result<
    WriterView,
    DiagnosticView,
> {
    let names = hoisted(new_vars, unpacked_block(block));
    let w1 = w.open_block();
    let w2 = if names.len() > 0 {
        w1.writeln("let "@ + joined(names, ", "@) + ";"@)
    } else {
        w1
    };
    match statements_run(w2, block, 0) {
        Ok(w3) => Ok(w3.close_block()),
        Err(d) => Err(d),
    }
}

/// Whether a block is one command that returns a value.
pub open spec fn returns_directly(block: Seq<Statement>) -> bool {
    block.len() == 1 && match block[0].value {
        StatementKind::Command(cmd) => cmd.value is Return,
        _ => false,
    }
}

/// What the value of a constant writes: the returned expression where the
/// block is one return, else the block as a function that is called on the
/// spot.
pub open spec fn constant_block_run(w: WriterView, block: Seq<Statement>) -> Result<
    WriterView,
    DiagnosticView,
> {
    if returns_directly(block) {
        Ok(w.write(block[0].value->Command_0.value->Return_exp.term@))
    } else {
        match block_run(w.write("( () => "@), block) {
            Ok(w1) => Ok(w1.write(")()"@)),
            Err(d) => Err(d),
        }
    }
}

/// Whether an expression is the unit value.
pub fn is_exp_unit(exp: &Exp) -> (r: bool)
    ensures
        r == exp_is_unit(*exp),
{
    matches!(exp.shape, ExpShape::Unit)
}

/// Whether a block does nothing.
pub fn is_empty_block(block: &Block) -> (r: bool)
    ensures
        r == empty_block(block@),
{
    if block.len() == 0 {
        return true;
    } else if block.len() == 1 {
        return match &block[0].value {
            StatementKind::Command(cmd) => match &cmd.value {
                CommandKind::IgnoreAndPop { pop_num: _, exp } => is_exp_unit(exp),
                _ => false,
            },
            _ => false,
        };
    }
    false
}

/// Whether no target of a binding takes the value.
pub fn is_empty_lvalue_list(lvalues: &Vec<LValue>) -> (r: bool)
    ensures
        r == binds_nothing(lvalues@),
{
    let mut i: usize = 0;
    while i < lvalues.len()
        invariant
            i <= lvalues.len(),
            forall|j: int| 0 <= j < i ==> (#[trigger] lvalues@[j]).value is Ignore,
        decreases lvalues.len() - i,
    {
        match &lvalues[i].value {
            LValueKind::Ignore => {},
            _ => {
                return false;
            },
        }
        i = i + 1;
    }
    true
}

/// Writes a binding target in the target language.
pub fn lvalue_term(lv: &LValue) -> (r: String)
    ensures
        r@ == lvalue_text(*lv),
    decreases *lv,
{
    match &lv.value {
        LValueKind::Ignore => String::new(),
        LValueKind::Var(v) => rename(v.value.as_str()),
        LValueKind::Unpack { name, fields } => {
            let mut parts: Vec<String> = Vec::new();
            let mut i: usize = 0;
            assert(texts(parts@) =~= Seq::<Seq<char>>::empty());
            while i < fields.len()
                invariant
                    i <= fields.len(),
                    lv.value == (LValueKind::Unpack { name: *name, fields: *fields }),
                    field_texts(fields@, i as int, texts(parts@)) == field_texts(
                        fields@,
                        0,
                        Seq::empty(),
                    ),
                decreases fields.len() - i,
            {
                assert(decreases_to!(*lv => lv.value));
                assert(decreases_to!(lv.value => lv.value->fields));
                assert(decreases_to!(*fields => fields[i as int]));
                assert(decreases_to!(fields[i as int] => fields[i as int].1));
                let ghost before = texts(parts@);
                let inner = lvalue_term(&fields[i].1);
                let lhs = rename(fields[i].0.value.as_str());
                let part = if inner.as_str().unicode_len() == 0 {
                    String::new()
                } else if same_text(&inner, &lhs) {
                    inner
                } else {
                    let mut out = lhs;
                    out.append(": ");
                    out.append(inner.as_str());
                    out
                };
                parts.push(part);
                assert(texts(parts@) =~= before.push(part@));
                i = i + 1;
            }
            let mut out = String::from_str("{ ");
            out.append(comma_term_opt(&parts, false).as_str());
            out.append(" }");
            out
        },
    }
}

/// Writes the left-hand side of a binding.
pub fn lvalues_term(lvalues: &Vec<LValue>) -> (r: String)
    ensures
        r@ == lvalues_text(lvalues@),
{
    if lvalues.len() == 1 {
        return lvalue_term(&lvalues[0]);
    }
    let mut parts: Vec<String> = Vec::new();
    let mut i: usize = 0;
    while i < lvalues.len()
        invariant
            i <= lvalues.len(),
            parts@.len() == i,
            forall|j: int| 0 <= j < i ==> parts@[j]@ == lvalue_text(lvalues@[j]),
        decreases lvalues.len() - i,
    {
        parts.push(lvalue_term(&lvalues[i]));
        i = i + 1;
    }
    assert(texts(parts@) =~= lvalue_texts(lvalues@));
    let mut out = String::from_str("[");
    out.append(comma_term(&parts).as_str());
    out.append("]");
    out
}

/// Translates a command. One that cannot be translated writes nothing.
pub fn write_command(cmd: &Command, w: &mut TsgenWriter, c: &mut Context) -> (r: WriteResult)
    ensures
        wrote(r, final(w)@, command_run(old(w)@, *cmd)),
        r is Err ==> final(w)@ == old(w)@,
        *final(c) == *old(c),
{
    match &cmd.value {
        CommandKind::Assign(lvalues, rhs) => {
            if is_empty_lvalue_list(lvalues) {
                let mut line = rhs.term.clone();
                line.append(";");
                w.writeln(line.as_str());
            } else {
                if lvalues.len() == 1 && matches!(lvalues[0].value, LValueKind::Unpack { .. }) {
                    w.write("let ");
                }
                w.write(lvalues_term(lvalues).as_str());
                w.write(" = ");
                w.write(rhs.term.as_str());
                w.writeln(";");
            }
        },
        CommandKind::Mutate(lhs, rhs) => match &lhs.shape {
            ExpShape::Borrow => {
                let mut line = lhs.term.clone();
                line.append(" = ");
                line.append(rhs.term.as_str());
                line.append(";");
                w.writeln(line.as_str());
            },
            ExpShape::Dereference => {
                return Err(derr(lhs.loc, "Dereference in Mutate not implemented yet"));
            },
            _ => {
                let mut line = String::from_str("$.set(");
                line.append(lhs.term.as_str());
                line.append(", ");
                line.append(rhs.term.as_str());
                line.append(");");
                w.writeln(line.as_str());
            },
        },
        CommandKind::Abort(e) => {
            let mut line = String::from_str("throw $.abortCode(");
            line.append(e.term.as_str());
            line.append(");");
            w.writeln(line.as_str());
        },
        CommandKind::Return { from_user: _, exp } => {
            if is_exp_unit(exp) {
                w.writeln("return;");
            } else {
                let mut line = String::from_str("return ");
                line.append(exp.term.as_str());
                line.append(";");
                w.writeln(line.as_str());
            }
        },
        CommandKind::Break => w.writeln("break;"),
        CommandKind::Continue => w.writeln("continue;"),
        CommandKind::IgnoreAndPop { pop_num: _, exp } => {
            if is_exp_unit(exp) {
            } else {
                let mut line = exp.term.clone();
                line.append(";");
                w.writeln(line.as_str());
            }
        },
        _ => {
            return Err(derr(cmd.loc, "Unsupported Command (Jump)"));
        },
    }
    Ok(())
}

/// Translates a block: its statements between braces.
pub fn write_block(block: &Block, w: &mut TsgenWriter, c: &mut Context) -> (r: WriteResult)
    ensures
        wrote(r, final(w)@, block_run(old(w)@, block@)),
        *final(c) == *old(c),
    decreases *block, 1int,
{
    w.open_block();
    let mut i: usize = 0;
    while i < block.len()
        invariant
            i <= block.len(),
            *c == *old(c),
            statements_run(w@, block@, i as int) == statements_run(
                old(w)@.open_block(),
                block@,
                0,
            ),
        decreases block.len() - i,
    {
        assert(decreases_to!(*block => block[i as int]));
        match write_statement(&block[i], w, c) {
            Ok(_) => {},
            Err(d) => {
                return Err(d);
            },
        }
        i = i + 1;
    }
    w.close_block();
    Ok(())
}

/// Translates a statement.
pub fn write_statement(stmt: &Statement, w: &mut TsgenWriter, c: &mut Context) -> (r: WriteResult)
    ensures
        wrote(r, final(w)@, statement_run(old(w)@, *stmt)),
        *final(c) == *old(c),
    decreases *stmt, 0int,
{
    match &stmt.value {
        StatementKind::Command(cmd) => write_command(cmd, w, c),
        StatementKind::IfElse { cond, if_block, else_block } => {
            assert(decreases_to!(*stmt => stmt.value));
            assert(decreases_to!(stmt.value => stmt.value->if_block));
            assert(decreases_to!(stmt.value => stmt.value->else_block));
            if !is_empty_block(if_block) {
                let mut head = String::from_str("if (");
                head.append(cond.term.as_str());
                head.append(") ");
                w.write(head.as_str());
                match write_block(if_block, w, c) {
                    Ok(_) => {},
                    Err(d) => {
                        return Err(d);
                    },
                }
                if else_block.len() > 0 {
                    w.write("else");
                    return write_block(else_block, w, c);
                }
            } else {
                let mut head = String::from_str("if (!(");
                head.append(cond.term.as_str());
                head.append(")) ");
                w.write(head.as_str());
                return write_block(else_block, w, c);
            }
            Ok(())
        },
        StatementKind::While { pre_block, cond, block } => {
            assert(decreases_to!(*stmt => stmt.value));
            assert(decreases_to!(stmt.value => stmt.value->pre_block));
            assert(decreases_to!(stmt.value => stmt.value->While_block));
            let has_pre_block = pre_block.len() > 0;
            if has_pre_block {
                w.write("while (true) ");
            } else {
                let mut head = String::from_str("while (");
                head.append(cond.term.as_str());
                head.append(") ");
                w.write(head.as_str());
            }
            w.open_block();
            if has_pre_block {
                match write_block(pre_block, w, c) {
                    Ok(_) => {},
                    Err(d) => {
                        return Err(d);
                    },
                }
                let mut line = String::from_str("if (!(");
                line.append(cond.term.as_str());
                line.append(")) break;");
                w.writeln(line.as_str());
            }
            match write_block(block, w, c) {
                Ok(_) => {},
                Err(d) => {
                    return Err(d);
                },
            }
            w.close_block();
            Ok(())
        },
        StatementKind::Loop { has_break: _, block } => {
            assert(decreases_to!(*stmt => stmt.value));
            assert(decreases_to!(stmt.value => stmt.value->Loop_block));
            w.write("while (true) ");
            write_block(block, w, c)
        },
    }
}

/// Adds the names that a binding target binds by destructuring.
pub fn identify_declared_vars_in_lvalue(lvalue: &LValue, declared: &mut StringSet)
    ensures
        final(declared)@.to_set() =~= old(declared)@.to_set().union(unpacked_lvalue(*lvalue)),
    decreases *lvalue,
{
    match &lvalue.value {
        LValueKind::Ignore => (),
        LValueKind::Var(_) => {},
        LValueKind::Unpack { name, fields } => {
            let mut i: usize = 0;
            while i < fields.len()
                invariant
                    i <= fields.len(),
                    lvalue.value == (LValueKind::Unpack { name: *name, fields: *fields }),
                    declared@.to_set() =~= old(declared)@.to_set().union(
                        unpacked_fields(fields@, i as int),
                    ),
                decreases fields.len() - i,
            {
                assert(decreases_to!(*lvalue => lvalue.value));
                assert(decreases_to!(lvalue.value => lvalue.value->fields));
                assert(decreases_to!(*fields => fields[i as int]));
                assert(decreases_to!(fields[i as int] => fields[i as int].1));
                let inner = &fields[i].1;
                if let LValueKind::Var(var) = &inner.value {
                    declared.insert(var.value.clone());
                } else {
                    identify_declared_vars_in_lvalue(inner, declared);
                }
                i = i + 1;
            }
        },
    }
}

/// Adds the names that a command binds by destructuring.
pub fn identify_declared_vars_in_cmd(cmd: &Command, declared: &mut StringSet)
    ensures
        final(declared)@.to_set() =~= old(declared)@.to_set().union(unpacked_command(*cmd)),
{
    match &cmd.value {
        CommandKind::Assign(lvalues, _) => {
            let mut i: usize = 0;
            while i < lvalues.len()
                invariant
                    i <= lvalues.len(),
                    declared@.to_set() =~= old(declared)@.to_set().union(
                        unpacked_lvalues(lvalues@, i as int),
                    ),
                decreases lvalues.len() - i,
            {
                identify_declared_vars_in_lvalue(&lvalues[i], declared);
                i = i + 1;
            }
        },
        _ => (),
    }
}

/// Adds the names that a statement binds by destructuring.
pub fn identify_declared_vars_in_stmt(stmt: &Statement, declared: &mut StringSet)
    ensures
        final(declared)@.to_set() =~= old(declared)@.to_set().union(unpacked_statement(*stmt)),
    decreases *stmt, 0int,
{
    match &stmt.value {
        StatementKind::Command(cmd) => identify_declared_vars_in_cmd(cmd, declared),
        StatementKind::IfElse { cond: _, if_block, else_block } => {
            assert(decreases_to!(*stmt => stmt.value));
            assert(decreases_to!(stmt.value => stmt.value->if_block));
            assert(decreases_to!(stmt.value => stmt.value->else_block));
            identify_declared_vars_in_block(if_block, declared);
            identify_declared_vars_in_block(else_block, declared);
        },
        StatementKind::While { pre_block, cond: _, block } => {
            assert(decreases_to!(*stmt => stmt.value));
            assert(decreases_to!(stmt.value => stmt.value->pre_block));
            assert(decreases_to!(stmt.value => stmt.value->While_block));
            identify_declared_vars_in_block(block, declared);
            identify_declared_vars_in_block(pre_block, declared);
        },
        StatementKind::Loop { has_break: _, block } => {
            assert(decreases_to!(*stmt => stmt.value));
            assert(decreases_to!(stmt.value => stmt.value->Loop_block));
            identify_declared_vars_in_block(block, declared)
        },
    };
}

/// Adds the names that a block binds by destructuring.
pub fn identify_declared_vars_in_block(block: &Block, undeclared: &mut StringSet)
    ensures
        final(undeclared)@.to_set() =~= old(undeclared)@.to_set().union(unpacked_block(block@)),
    decreases *block, 1int,
{
    let mut i: usize = 0;
    while i < block.len()
        invariant
            i <= block.len(),
            undeclared@.to_set() =~= old(undeclared)@.to_set().union(
                unpacked_statements(block@, i as int),
            ),
        decreases block.len() - i,
    {
        assert(decreases_to!(*block => block[i as int]));
        identify_declared_vars_in_stmt(&block[i], undeclared);
        i = i + 1;
    }
}

/// Translates the body of a function. The locals of `new_vars` that no
/// destructuring pattern in the body binds are declared together, before
/// the first statement.
pub fn write_func_body(
    block: &Block,
    new_vars: &Vec<Var>,
    w: &mut TsgenWriter,
    c: &mut Context,
) -> (r: WriteResult)
    ensures
        wrote(r, final(w)@, func_body_run(old(w)@, block@, new_vars@)),
        *final(c) == *old(c),
{
    w.open_block();
    let mut declared_vars = StringSet::new();
    identify_declared_vars_in_block(block, &mut declared_vars);
    let ghost bound = unpacked_block(block@);
    assert(declared_vars@.to_set() =~= bound);
    let ghost keep = |v: Var| !bound.contains(v.value@);
    let ghost ren = |v: Var| renamed(v.value@);
    let mut undeclared: Vec<String> = Vec::new();
    let mut k: usize = 0;
    proof {
        reveal(Seq::filter);
        assert(new_vars@.take(0) =~= Seq::<Var>::empty());
        assert(texts(undeclared@) =~= new_vars@.take(0).filter(keep).map_values(ren));
    }
    while k < new_vars.len()
        invariant
            k <= new_vars.len(),
            declared_vars@.to_set() == bound,
            keep == |v: Var| !bound.contains(v.value@),
            ren == |v: Var| renamed(v.value@),
            texts(undeclared@) == new_vars@.take(k as int).filter(keep).map_values(ren),
        decreases new_vars.len() - k,
    {
        let ghost before = texts(undeclared@);
        proof {
            reveal(Seq::filter);
            assert(new_vars@.take(k + 1).drop_last() =~= new_vars@.take(k as int));
        }
        if !declared_vars.contains(new_vars[k].value.as_str()) {
            undeclared.push(rename(new_vars[k].value.as_str()));
            assert(texts(undeclared@) =~= before.push(renamed(new_vars@[k as int].value@)));
            assert(new_vars@.take(k + 1).filter(keep) =~= new_vars@.take(k as int).filter(keep).push(
                new_vars@[k as int],
            ));
            assert(texts(undeclared@) =~= new_vars@.take(k + 1).filter(keep).map_values(ren));
        }
        k = k + 1;
    }
    assert(new_vars@.take(k as int) =~= new_vars@);
    if undeclared.len() > 0 {
        let mut line = String::from_str("let ");
        line.append(join(&undeclared, ", ").as_str());
        line.append(";");
        w.writeln(line.as_str());
    }
    let mut i: usize = 0;
    while i < block.len()
        invariant
            i <= block.len(),
            *c == *old(c),
            statements_run(w@, block@, i as int) == func_body_statements(
                old(w)@,
                block@,
                new_vars@,
            ),
        decreases block.len() - i,
    {
        match write_statement(&block[i], w, c) {
            Ok(_) => {},
            Err(d) => {
                return Err(d);
            },
        }
        i = i + 1;
    }
    w.close_block();
    Ok(())
}

/// What the statements of a function's body write, behind the opening brace
/// and the declaration of the locals.
pub open spec fn func_body_statements(
    w: WriterView,
    block: Seq<Statement>,
    new_vars: Seq<Var>,
) -> Result<WriterView, DiagnosticView> {
    let names = hoisted(new_vars, unpacked_block(block));
    let w1 = w.open_block();
    let w2 = if names.len() > 0 {
        w1.writeln("let "@ + joined(names, ", "@) + ";"@)
    } else {
        w1
    };
    statements_run(w2, block, 0)
}

/// Translates the value of a constant: the expression itself where the
/// block only returns it, else the block as a function called on the spot.
pub fn write_simplify_constant_block(block: &Block, w: &mut TsgenWriter, c: &mut Context) -> (r:
    WriteResult)
    ensures
        wrote(r, final(w)@, constant_block_run(old(w)@, block@)),
        *final(c) == *old(c),
{
    if block.len() == 1 {
        match &block[0].value {
            StatementKind::Command(cmd) => match &cmd.value {
                CommandKind::Return { from_user: _, exp } => {
                    w.write(exp.term.as_str());
                    return Ok(());
                },
                _ => (),
            },
            _ => (),
        }
    }
    w.write("( () => ");
    match write_block(block, w, c) {
        Ok(_) => {},
        Err(d) => {
            return Err(d);
        },
    }
    w.write(")()");
    Ok(())
}

/// A conditional whose first branch does nothing is written as the test of
/// the negated condition with the other branch alone.
pub proof fn lemma_empty_branch_negates(w: WriterView, stmt: Statement)
    requires
        stmt.value is IfElse,
        empty_block(stmt.value->if_block@),
    ensures
        statement_run(w, stmt) == block_run(
            w.write("if (!("@ + stmt.value->IfElse_cond.term@ + ")) "@),
            stmt.value->else_block@,
        ),
{
}

/// A loop whose condition needs a block evaluated first is written as a
/// loop without a condition, whose every round is: that block, then the
/// exit where the condition fails, then the body.
pub proof fn lemma_pre_block_in_each_round(w: WriterView, stmt: Statement)
    requires
        stmt.value is While,
        stmt.value->pre_block@.len() > 0,
    ensures
        statement_run(w, stmt) == match block_run(
            w.write("while (true) "@).open_block(),
            stmt.value->pre_block@,
        ) {
            Ok(w1) => match block_run(
                w1.writeln("if (!("@ + stmt.value->While_cond.term@ + ")) break;"@),
                stmt.value->While_block@,
            ) {
                Ok(w2) => Ok::<WriterView, DiagnosticView>(w2.close_block()),
                Err(d) => Err::<WriterView, DiagnosticView>(d),
            },
            Err(d) => Err::<WriterView, DiagnosticView>(d),
        },
{
}

/// The locals that are declared at the head of a body are written before
/// any statement of the body, and they are those of `new_vars` that no
/// destructuring pattern in the body binds: each of them is declared, and
/// no name that such a pattern binds is.
pub proof fn lemma_hoisted_before_statements(
    w: WriterView,
    block: Seq<Statement>,
    new_vars: Seq<Var>,
)
    ensures
        func_body_run(w, block, new_vars) is Ok ==> func_body_statements(w, block, new_vars)
            is Ok && func_body_run(w, block, new_vars)->Ok_0 == func_body_statements(
            w,
            block,
            new_vars,
        )->Ok_0.close_block(),
        forall|k: int|
            0 <= k < new_vars.len() && !unpacked_block(block).contains(
                (#[trigger] new_vars[k]).value@,
            ) ==> hoisted(new_vars, unpacked_block(block)).contains(renamed(new_vars[k].value@)),
        hoisted(new_vars, unpacked_block(block)).len() <= new_vars.len(),
{
    let bound = unpacked_block(block);
    let keep = |v: Var| !bound.contains(v.value@);
    let ren = |v: Var| renamed(v.value@);
    new_vars.lemma_filter_len(keep);
    assert forall|k: int|
        0 <= k < new_vars.len() && !bound.contains((#[trigger] new_vars[k]).value@) implies hoisted(
        new_vars,
        bound,
    ).contains(renamed(new_vars[k].value@)) by {
        new_vars.lemma_filter_contains(keep, k);
        let kept = new_vars.filter(keep);
        let j = choose|j: int| 0 <= j < kept.len() && kept[j] == new_vars[k];
        assert(kept.map_values(ren)[j] == renamed(new_vars[k].value@));
    }
}

} // verus!
