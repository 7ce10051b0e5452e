//! The writer that collects the emitted text and keeps track of indentation.

use crate::text::push_char;
use vstd::prelude::*;

verus! {

/// `n` spaces.
pub open spec fn spaces(n: nat) -> Seq<char>
    decreases n,
{
    if n == 0 {
        Seq::empty()
    } else {
        spaces((n - 1) as nat).push(' ')
    }
}

/// What a writer holds: the text written so far, the stack of indentation
/// prefixes that are open, and whether the next text starts a line.
pub struct WriterView {
    pub text: Seq<char>,
    pub pads: Seq<Seq<char>>,
    pub fresh: bool,
}

impl WriterView {
    /// A writer that has written nothing.
    pub open spec fn start() -> WriterView {
        WriterView { text: Seq::empty(), pads: Seq::empty(), fresh: true }
    }

    /// The indentation that a new line begins with.
    pub open spec fn pad(self) -> Seq<char> {
        if self.pads.len() == 0 {
            Seq::empty()
        } else {
            self.pads.last()
        }
    }

    /// After `s` has been written: at the start of a line the indentation
    /// comes first. Writing the empty text changes nothing.
    pub open spec fn write(self, s: Seq<char>) -> WriterView {
        if s.len() == 0 {
            self
        } else if self.fresh {
            WriterView { text: self.text + self.pad() + s, pads: self.pads, fresh: false }
        } else {
            WriterView { text: self.text + s, pads: self.pads, fresh: false }
        }
    }

    /// After the line has been ended.
    pub open spec fn new_line(self) -> WriterView {
        WriterView { text: self.text.push('\n'), pads: self.pads, fresh: true }
    }

    /// After `s` has been written and the line ended.
    pub open spec fn writeln(self, s: Seq<char>) -> WriterView {
        self.write(s).new_line()
    }

    /// After the indentation has grown by `n` spaces.
    pub open spec fn indented(self, n: nat) -> WriterView {
        WriterView { text: self.text, pads: self.pads.push(self.pad() + spaces(n)), fresh: self.fresh }
    }

    /// After the indentation has grown by one step of two spaces.
    pub open spec fn increase_indent(self) -> WriterView {
        self.indented(2)
    }

    /// After the indentation that was opened last has been closed; nothing
    /// changes where none is open.
    pub open spec fn decrease_indent(self) -> WriterView {
        if self.pads.len() == 0 {
            self
        } else {
            WriterView { text: self.text, pads: self.pads.drop_last(), fresh: self.fresh }
        }
    }

    /// After an opening brace on a line of its own, with what follows indented.
    pub open spec fn open_block(self) -> WriterView {
        self.writeln("{"@).increase_indent()
    }

    /// After the closing brace that ends a block.
    pub open spec fn close_block(self) -> WriterView {
        self.decrease_indent().writeln("}"@)
    }

    /// After an exported constant binding has been written on one line.
    pub open spec fn export_const(self, name: Seq<char>, value: Seq<char>) -> WriterView {
        self.writeln("export const "@ + name + " = "@ + value + ";"@)
    }
}

/// Collects text, line by line, and indents each line by the prefix that is
/// open when the line begins.
pub struct TsgenWriter {
    text: String,
    pads: Vec<String>,
    fresh: bool,
}

impl View for TsgenWriter {
    type V = WriterView;

    closed spec fn view(&self) -> WriterView {
        WriterView {
            text: self.text@,
            pads: Seq::new(self.pads@.len(), |i: int| self.pads@[i]@),
            fresh: self.fresh,
        }
    }
}

impl TsgenWriter {
    /// A writer that has written nothing.
    pub fn new() -> (r: Self)
        ensures
            r@ == WriterView::start(),
    {
        let r = TsgenWriter { text: String::new(), pads: Vec::new(), fresh: true };
        assert(r@.pads =~= Seq::empty());
        r
    }

    /// Writes `s`, after the indentation where a line begins.
    pub fn write(&mut self, s: &str)
        ensures
            final(self)@ == old(self)@.write(s@),
    {
        if s.unicode_len() == 0 {
            return ;
        }
        if self.fresh {
            let n = self.pads.len();
            if n > 0 {
                self.text.append(self.pads[n - 1].as_str());
            } else {
                assert(self.text@ + Seq::<char>::empty() =~= self.text@);
            }
            self.fresh = false;
        }
        self.text.append(s);
    }

    /// Ends the line.
    pub fn new_line(&mut self)
        ensures
            final(self)@ == old(self)@.new_line(),
    {
        push_char(&mut self.text, '\n');
        self.fresh = true;
    }

    /// Writes `s` and ends the line.
    pub fn writeln(&mut self, s: &str)
        ensures
            final(self)@ == old(self)@.writeln(s@),
    {
        self.write(s);
        self.new_line();
    }

    /// Lets the lines that follow begin `n` spaces further in.
    pub fn indent(&mut self, n: usize)
        ensures
            final(self)@ == old(self)@.indented(n as nat),
    {
        let depth = self.pads.len();
        let mut pad = if depth > 0 {
            self.pads[depth - 1].clone()
        } else {
            String::new()
        };
        let ghost base = pad@;
        let mut i: usize = 0;
        assert(base + spaces(0) =~= base);
        while i < n
            invariant
                i <= n,
                pad@ == base + spaces(i as nat),
            decreases n - i,
        {
            push_char(&mut pad, ' ');
            i = i + 1;
            assert(base + spaces(i as nat) =~= (base + spaces((i - 1) as nat)).push(' '));
        }
        self.pads.push(pad);
        assert(self@.pads =~= old(self)@.pads.push(old(self)@.pad() + spaces(n as nat)));
    }

    /// Lets the lines that follow begin two spaces further in.
    pub fn increase_indent(&mut self)
        ensures
            final(self)@ == old(self)@.increase_indent(),
    {
        self.indent(2);
    }

    /// Closes the indentation that was opened last.
    pub fn decrease_indent(&mut self)
        ensures
            final(self)@ == old(self)@.decrease_indent(),
    {
        if self.pads.len() > 0 {
            self.pads.pop();
            assert(self@.pads =~= old(self)@.pads.drop_last());
        }
    }

    /// Writes an opening brace and indents what follows.
    pub fn open_block(&mut self)
        ensures
            final(self)@ == old(self)@.open_block(),
    {
        self.writeln("{");
        self.increase_indent();
    }

    /// Ends the indentation of a block and writes its closing brace.
    pub fn close_block(&mut self)
        ensures
            final(self)@ == old(self)@.close_block(),
    {
        self.decrease_indent();
        self.writeln("}");
    }

    /// Writes one exported constant binding.
    pub fn export_const(&mut self, name: &str, value: &str)
        ensures
            final(self)@ == old(self)@.export_const(name@, value@),
    {
        let mut line = String::from_str("export const ");
        line.append(name);
        line.append(" = ");
        line.append(value);
        line.append(";");
        self.writeln(line.as_str());
    }

    /// The text written so far.
    pub fn text(&self) -> (r: String)
        ensures
            r@ == self@.text,
    {
        self.text.clone()
    }
}

} // verus!
