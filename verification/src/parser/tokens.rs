//! The lexer: each rule reads one lexeme at the start of a text.
//!
//! A rule is stated as a function from a text to a value and the text left
//! after it. The executable form of a rule works on a character buffer and a
//! position in it, and gives the position after the lexeme.

use super::{found_at, found_view_at, ParseError, ParseErrorKind, Parsed};
use crate::text::{
    decimal_value, in_class, is_digit, is_letter, is_whitespace, lemma_run_holds, lemma_skip_skip, lemma_skip_step, read_decimal, run_len, scan, slice_to_string, CharClass, MAGNITUDE_LIMIT,
};
use vstd::prelude::*;

verus! {

/// The rules of the lexer.
pub struct Token;

/// The length of the whitespace and comments that `s` starts with. A comment
/// runs from `//` to the end of its line. `in_comment` says that `s` starts
/// inside a comment.
pub open spec fn extra_len(s: Seq<char>, in_comment: bool) -> nat
    decreases s.len(), (if in_comment { 1nat } else { 0nat }),
{
    if in_comment {
        if s.len() > 0 && s[0] != '\n' {
            1 + extra_len(s.skip(1), true)
        } else {
            extra_len(s, false)
        }
    } else if s.len() > 0 && is_whitespace(s[0]) {
        1 + extra_len(s.skip(1), false)
    } else if s.len() >= 2 && s[0] == '/' && s[1] == '/' {
        2 + extra_len(s.skip(2), true)
    } else {
        0
    }
}

impl Token {
    /// The character `c`.
    pub open spec fn spec_symbol(s: Seq<char>, c: char) -> Parsed<()> {
        if s.len() > 0 && s[0] == c {
            Ok(((), s.skip(1)))
        } else {
            Err(ParseError::Error(ParseErrorKind::Char))
        }
    }

    /// Reads the character `c`.
    pub fn symbol(src: &Vec<char>, pos: usize, c: char) -> (found: Result<(usize, ()), ParseError>)
        requires
            pos <= src.len(),
        ensures
            found_at(src@, pos, found, Self::spec_symbol(src@.skip(pos as int), c)),
    {
        if pos < src.len() && src[pos] == c {
            proof {
                lemma_skip_step(src@, pos as int);
            }
            Ok((pos + 1, ()))
        } else {
            Err(ParseError::Error(ParseErrorKind::Char))
        }
    }

    /// The characters of `word`, one after the other.
    pub open spec fn spec_tag(s: Seq<char>, word: Seq<char>) -> Parsed<()> {
        if word.is_prefix_of(s) {
            Ok(((), s.skip(word.len() as int)))
        } else {
            Err(ParseError::Error(ParseErrorKind::Tag))
        }
    }

    /// Reads the characters of `word`.
    pub fn tag(src: &Vec<char>, pos: usize, word: &str) -> (found: Result<(usize, ()), ParseError>)
        requires
            pos <= src.len(),
        ensures
            found_at(src@, pos, found, Self::spec_tag(src@.skip(pos as int), word@)),
    {
        let ghost s = src@.skip(pos as int);
        let n = word.unicode_len();
        if n > src.len() - pos {
            return Err(ParseError::Error(ParseErrorKind::Tag));
        }
        let mut i: usize = 0;
        while i < n
            invariant
                i <= n,
                n == word@.len(),
                pos + n <= src.len(),
                s == src@.skip(pos as int),
                forall|k: int| 0 <= k < i ==> s[k] == word@[k],
            decreases n - i,
        {
            if src[pos + i] != word.get_char(i) {
                assert(s[i as int] != word@[i as int]);
                return Err(ParseError::Error(ParseErrorKind::Tag));
            }
            i = i + 1;
        }
        proof {
            assert(word@ =~= s.subrange(0, word@.len() as int));
            lemma_skip_skip(src@, pos as int, n as int);
        }
        Ok((pos + n, ()))
    }

    /// The characters of `word` and the whitespace after them, of which there
    /// is at least one character.
    pub open spec fn spec_keyword(s: Seq<char>, word: Seq<char>) -> Parsed<()> {
        match Self::spec_tag(s, word) {
            Ok((_, rest)) => {
                let gap = run_len(rest, CharClass::Whitespace);
                if gap > 0 {
                    Ok(((), rest.skip(gap as int)))
                } else {
                    Err(ParseError::Error(ParseErrorKind::Tag))
                }
            },
            Err(e) => Err(e),
        }
    }

    /// Reads the keyword `word` and the whitespace that ends it.
    pub fn keyword(src: &Vec<char>, pos: usize, word: &str) -> (found: Result<
        (usize, ()),
        ParseError,
    >)
        requires
            pos <= src.len(),
        ensures
            found_at(src@, pos, found, Self::spec_keyword(src@.skip(pos as int), word@)),
    {
        match Self::tag(src, pos, word) {
            Ok((after, _)) => {
                let next = scan(src, after, CharClass::Whitespace);
                if next > after {
                    proof {
                        lemma_skip_skip(src@, after as int, next - after);
                    }
                    Ok((next, ()))
                } else {
                    Err(ParseError::Error(ParseErrorKind::Tag))
                }
            },
            Err(e) => Err(e),
        }
    }

    /// The whitespace that `s` starts with is left out.
    pub open spec fn spec_maybe_consume_whitespaces(s: Seq<char>) -> Seq<char> {
        s.skip(run_len(s, CharClass::Whitespace) as int)
    }

    /// The position after the whitespace at `pos`.
    pub fn maybe_consume_whitespaces(src: &Vec<char>, pos: usize) -> (next: usize)
        requires
            pos <= src.len(),
        ensures
            pos <= next <= src.len(),
            src@.skip(next as int) == Self::spec_maybe_consume_whitespaces(src@.skip(pos as int)),
    {
        let next = scan(src, pos, CharClass::Whitespace);
        proof {
            lemma_skip_skip(src@, pos as int, next - pos);
        }
        next
    }

    /// The whitespace and comments that `s` starts with are left out.
    pub open spec fn spec_maybe_consume_extra(s: Seq<char>) -> Seq<char> {
        s.skip(extra_len(s, false) as int)
    }

    /// The position after the whitespace and comments at `pos`.
    pub fn maybe_consume_extra(src: &Vec<char>, pos: usize) -> (next: usize)
        requires
            pos <= src.len(),
        ensures
            pos <= next <= src.len(),
            next == pos + extra_len(src@.skip(pos as int), false),
            src@.skip(next as int) == Self::spec_maybe_consume_extra(src@.skip(pos as int)),
    {
        let mut i: usize = pos;
        let mut in_comment = false;
        loop
            invariant
                pos <= i <= src.len(),
                extra_len(src@.skip(pos as int), false) == (i - pos) + extra_len(
                    src@.skip(i as int),
                    in_comment,
                ),
            ensures
                pos <= i <= src.len(),
                extra_len(src@.skip(pos as int), false) == i - pos,
            decreases src.len() - i, (if in_comment { 1nat } else { 0nat }),
        {
            let ghost s = src@.skip(i as int);
            if in_comment {
                if i < src.len() && src[i] != '\n' {
                    proof {
                        lemma_skip_step(src@, i as int);
                    }
                    i = i + 1;
                } else {
                    proof {
                        if i < src.len() {
                            lemma_skip_step(src@, i as int);
                        }
                    }
                    in_comment = false;
                }
            } else if i < src.len() && in_class(CharClass::Whitespace, src[i]) {
                proof {
                    lemma_skip_step(src@, i as int);
                }
                i = i + 1;
            } else if src.len() - i >= 2 && src[i] == '/' && src[i + 1] == '/' {
                proof {
                    lemma_skip_step(src@, i as int);
                    assert(s[1] == src@[i + 1]);
                    lemma_skip_skip(src@, i as int, 2);
                }
                i = i + 2;
                in_comment = true;
            } else {
                proof {
                    if i < src.len() {
                        lemma_skip_step(src@, i as int);
                        if src.len() - i >= 2 {
                            assert(s[1] == src@[i + 1]);
                        }
                    }
                }
                break ;
            }
        }
        proof {
            lemma_skip_skip(src@, pos as int, i - pos);
        }
        i
    }

    /// A letter or an underscore, and the letters, digits and underscores
    /// after it.
    pub open spec fn spec_identifier(s: Seq<char>) -> Parsed<Seq<char>> {
        if s.len() > 0 && (is_letter(s[0]) || s[0] == '_') {
            let n = run_len(s, CharClass::Word) as int;
            Ok((s.take(n), s.skip(n)))
        } else {
            Err(ParseError::Error(ParseErrorKind::TakeWhile1))
        }
    }

    /// Reads an identifier.
    pub fn identifier(src: &Vec<char>, pos: usize) -> (found: Result<(usize, String), ParseError>)
        requires
            pos <= src.len(),
        ensures
            found_view_at(src@, pos, found, Self::spec_identifier(src@.skip(pos as int))),
    {
        if pos < src.len() && (('a' <= src[pos] && src[pos] <= 'z') || ('A' <= src[pos] && src[pos]
            <= 'Z') || src[pos] == '_') {
            proof {
                lemma_skip_step(src@, pos as int);
            }
            let next = scan(src, pos, CharClass::Word);
            let name = slice_to_string(src, pos, next);
            proof {
                lemma_skip_skip(src@, pos as int, next - pos);
            }
            Ok((next, name))
        } else {
            proof {
                if pos < src.len() {
                    lemma_skip_step(src@, pos as int);
                }
            }
            Err(ParseError::Error(ParseErrorKind::TakeWhile1))
        }
    }

    /// A single quote, any character, a single quote.
    pub open spec fn spec_char_constant(s: Seq<char>) -> Parsed<char> {
        if s.len() >= 3 && s[0] == '\'' && s[2] == '\'' {
            Ok((s[1], s.skip(3)))
        } else {
            Err(ParseError::Error(ParseErrorKind::Char))
        }
    }

    /// Reads a character literal.
    pub fn char_constant(src: &Vec<char>, pos: usize) -> (found: Result<(usize, char), ParseError>)
        requires
            pos <= src.len(),
        ensures
            found_at(src@, pos, found, Self::spec_char_constant(src@.skip(pos as int))),
    {
        let ghost s = src@.skip(pos as int);
        if src.len() - pos >= 3 && src[pos] == '\'' && src[pos + 2] == '\'' {
            proof {
                assert(s[0] == src@[pos as int]);
                assert(s[1] == src@[pos + 1]);
                assert(s[2] == src@[pos + 2]);
                lemma_skip_skip(src@, pos as int, 3);
            }
            Ok((pos + 3, src[pos + 1]))
        } else {
            proof {
                if src.len() - pos >= 3 {
                    assert(s[0] == src@[pos as int]);
                    assert(s[2] == src@[pos + 2]);
                }
            }
            Err(ParseError::Error(ParseErrorKind::Char))
        }
    }

    /// A double quote, any characters but the double quote, a double quote.
    pub open spec fn spec_string_constant(s: Seq<char>) -> Parsed<Seq<char>> {
        if s.len() > 0 && s[0] == '"' {
            let n = run_len(s.skip(1), CharClass::Quoted) as int;
            if n + 1 < s.len() {
                Ok((s.subrange(1, n + 1), s.skip(n + 2)))
            } else {
                Err(ParseError::Error(ParseErrorKind::Char))
            }
        } else {
            Err(ParseError::Error(ParseErrorKind::Char))
        }
    }

    /// Reads a string literal.
    pub fn string_constant(src: &Vec<char>, pos: usize) -> (found: Result<
        (usize, String),
        ParseError,
    >)
        requires
            pos <= src.len(),
        ensures
            found_view_at(src@, pos, found, Self::spec_string_constant(src@.skip(pos as int))),
    {
        let ghost s = src@.skip(pos as int);
        if pos < src.len() && src[pos] == '"' {
            proof {
                lemma_skip_step(src@, pos as int);
            }
            let end = scan(src, pos + 1, CharClass::Quoted);
            if end < src.len() {
                let text = slice_to_string(src, pos + 1, end);
                proof {
                    assert(s.subrange(1, end - pos) =~= src@.subrange(pos + 1, end as int));
                    lemma_skip_skip(src@, pos as int, end - pos + 1);
                }
                Ok((end + 1, text))
            } else {
                Err(ParseError::Error(ParseErrorKind::Char))
            }
        } else {
            proof {
                if pos < src.len() {
                    lemma_skip_step(src@, pos as int);
                }
            }
            Err(ParseError::Error(ParseErrorKind::Char))
        }
    }

    /// The length of the minus sign that `s` starts with, if it does.
    pub open spec fn sign_len(s: Seq<char>) -> int {
        if s.len() > 0 && s[0] == '-' {
            1
        } else {
            0
        }
    }

    /// An optional minus sign, digits, a dot, digits. The value is the text of
    /// the literal.
    pub open spec fn spec_float_constant(s: Seq<char>) -> Parsed<Seq<char>> {
        let sign = Self::sign_len(s);
        let whole = run_len(s.skip(sign), CharClass::Digit) as int;
        let dot = sign + whole;
        if whole == 0 {
            Err(ParseError::Error(ParseErrorKind::TakeWhile1))
        } else if !(dot < s.len() && s[dot] == '.') {
            Err(ParseError::Error(ParseErrorKind::Char))
        } else {
            let fraction = run_len(s.skip(dot + 1), CharClass::Digit) as int;
            if fraction == 0 {
                Err(ParseError::Error(ParseErrorKind::TakeWhile1))
            } else {
                Ok((s.take(dot + 1 + fraction), s.skip(dot + 1 + fraction)))
            }
        }
    }

    /// Reads a floating-point literal and gives its text.
    pub fn float_constant(src: &Vec<char>, pos: usize) -> (found: Result<
        (usize, String),
        ParseError,
    >)
        requires
            pos <= src.len(),
        ensures
            found_view_at(src@, pos, found, Self::spec_float_constant(src@.skip(pos as int))),
    {
        let ghost s = src@.skip(pos as int);
        let start = Self::after_sign(src, pos);
        let dot = scan(src, start, CharClass::Digit);
        proof {
            lemma_skip_skip(src@, pos as int, start - pos);
        }
        if dot == start {
            return Err(ParseError::Error(ParseErrorKind::TakeWhile1));
        }
        if !(dot < src.len() && src[dot] == '.') {
            proof {
                if dot < src.len() {
                    assert(s[dot - pos] == src@[dot as int]);
                }
            }
            return Err(ParseError::Error(ParseErrorKind::Char));
        }
        let end = scan(src, dot + 1, CharClass::Digit);
        proof {
            assert(s[dot - pos] == src@[dot as int]);
            lemma_skip_skip(src@, pos as int, dot - pos + 1);
        }
        if end == dot + 1 {
            return Err(ParseError::Error(ParseErrorKind::TakeWhile1));
        }
        let text = slice_to_string(src, pos, end);
        proof {
            lemma_skip_skip(src@, pos as int, end - pos);
        }
        Ok((end, text))
    }

    /// The position after the minus sign at `pos`, if there is one.
    fn after_sign(src: &Vec<char>, pos: usize) -> (next: usize)
        requires
            pos <= src.len(),
        ensures
            next == pos + Self::sign_len(src@.skip(pos as int)),
            next <= src.len(),
    {
        if pos < src.len() {
            proof {
                lemma_skip_step(src@, pos as int);
            }
            if src[pos] == '-' {
                return pos + 1;
            }
        }
        pos
    }

    /// An optional minus sign and digits that stand for a 64-bit signed
    /// integer.
    pub open spec fn spec_int_constant(s: Seq<char>) -> Parsed<i64> {
        let sign = Self::sign_len(s);
        let body = s.skip(sign);
        let n = run_len(body, CharClass::Digit) as int;
        let magnitude = decimal_value(body.take(n)) as int;
        let value = if sign == 1 {
            -magnitude
        } else {
            magnitude
        };
        if n == 0 {
            Err(ParseError::Error(ParseErrorKind::TakeWhile1))
        } else if i64::MIN <= value <= i64::MAX {
            Ok((value as i64, body.skip(n)))
        } else {
            Err(ParseError::Error(ParseErrorKind::TooLarge))
        }
    }

    /// Reads an integer literal.
    pub fn int_constant(src: &Vec<char>, pos: usize) -> (found: Result<(usize, i64), ParseError>)
        requires
            pos <= src.len(),
        ensures
            found_at(src@, pos, found, Self::spec_int_constant(src@.skip(pos as int))),
    {
        let ghost s = src@.skip(pos as int);
        let start = Self::after_sign(src, pos);
        let end = scan(src, start, CharClass::Digit);
        proof {
            lemma_skip_skip(src@, pos as int, start - pos);
            lemma_skip_skip(src@, start as int, end - start);
            lemma_run_holds(src@.skip(start as int), CharClass::Digit);
            assert forall|i: int| start <= i < end implies is_digit(#[trigger] src@[i]) by {
                assert(src@[i] == src@.skip(start as int)[i - start]);
            }
        }
        if end == start {
            return Err(ParseError::Error(ParseErrorKind::TakeWhile1));
        }
        let negative = start > pos;
        match read_decimal(src, start, end) {
            Some(magnitude) => {
                if negative {
                    if magnitude == MAGNITUDE_LIMIT {
                        Ok((end, i64::MIN))
                    } else {
                        Ok((end, -(magnitude as i64)))
                    }
                } else if magnitude < MAGNITUDE_LIMIT {
                    Ok((end, magnitude as i64))
                } else {
                    Err(ParseError::Error(ParseErrorKind::TooLarge))
                }
            },
            None => Err(ParseError::Error(ParseErrorKind::TooLarge)),
        }
    }
}

} // verus!
