//! Literal values as they stand in a source text.

use crate::parser::tokens::Token;
use crate::text::{int_text, push_int};
use vstd::prelude::*;
use vstd::string::StringExecFns;

verus! {

/// The forms of a literal.
#[derive(Copy, Clone, Debug, PartialEq, Eq, Structural)]
pub enum ConstKind {
    Char,
    Str,
    Int,
    Float,
}

/// A literal. A floating-point literal is kept as the text it was written
/// with: an optional minus sign, digits, a dot, digits.
#[derive(Clone, Debug, PartialEq)]
pub enum Constant {
    Char(char),
    Str(String),
    Int(i64),
    Float(String),
}

/// What a [`Constant`] holds, as plain values.
pub enum ConstantView {
    Char(char),
    Str(Seq<char>),
    Int(i64),
    Float(Seq<char>),
}

impl View for Constant {
    type V = ConstantView;

    open spec fn view(&self) -> ConstantView {
        match self {
            Constant::Char(c) => ConstantView::Char(*c),
            Constant::Str(s) => ConstantView::Str(s@),
            Constant::Int(i) => ConstantView::Int(*i),
            Constant::Float(t) => ConstantView::Float(t@),
        }
    }
}

/// Whether `text` is a floating-point literal and nothing more.
pub open spec fn is_float_text(text: Seq<char>) -> bool {
    Token::spec_float_constant(text) == Ok::<(Seq<char>, Seq<char>), crate::parser::ParseError>(
        (text, Seq::<char>::empty()),
    )
}

impl ConstantView {
    pub open spec fn kind(self) -> ConstKind {
        match self {
            ConstantView::Char(_) => ConstKind::Char,
            ConstantView::Str(_) => ConstKind::Str,
            ConstantView::Int(_) => ConstKind::Int,
            ConstantView::Float(_) => ConstKind::Float,
        }
    }

    /// A literal can be written down and read back when its string holds no
    /// double quote and its floating-point text is a floating-point literal.
    pub open spec fn writable(self) -> bool {
        match self {
            ConstantView::Str(s) => !s.contains('"'),
            ConstantView::Float(t) => is_float_text(t),
            _ => true,
        }
    }

    /// The source text of the literal.
    pub open spec fn text(self) -> Seq<char> {
        match self {
            ConstantView::Char(c) => seq!['\'', c, '\''],
            ConstantView::Str(s) => seq!['"'] + s + seq!['"'],
            ConstantView::Int(i) => int_text(i as int),
            ConstantView::Float(t) => t,
        }
    }
}

impl Constant {
    /// The form of the literal.
    pub fn kind(&self) -> (kind: ConstKind)
        ensures
            kind == self@.kind(),
    {
        match self {
            Constant::Char(_) => ConstKind::Char,
            Constant::Str(_) => ConstKind::Str,
            Constant::Int(_) => ConstKind::Int,
            Constant::Float(_) => ConstKind::Float,
        }
    }

    /// Appends the source text of the literal to `out`.
    pub fn print_to(&self, out: &mut String)
        ensures
            final(out)@ == old(out)@ + self@.text(),
    {
        match self {
            Constant::Char(c) => {
                out.push('\'');
                out.push(*c);
                out.push('\'');
                assert(out@ =~= old(out)@ + self@.text());
            },
            Constant::Str(s) => {
                out.push('"');
                out.append(s.as_str());
                out.push('"');
                assert(out@ =~= old(out)@ + self@.text());
            },
            Constant::Int(i) => {
                push_int(out, *i);
            },
            Constant::Float(t) => {
                out.append(t.as_str());
            },
        }
    }

    /// The source text of the literal.
    pub fn print(&self) -> (text: String)
        ensures
            text@ == self@.text(),
    {
        let mut text = String::new();
        self.print_to(&mut text);
        assert(text@ =~= self@.text());
        text
    }
}

} // verus!
