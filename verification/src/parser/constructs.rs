//! The grammar rules: each reads one construct at the start of a text and
//! gives the instruction that it stands for.
//!
//! ```text
//! constant      := char | string | float | int
//! call          := identifier '(' ')' | identifier '(' (arg ',')* arg ')'
//! arg           := whitespace* constant whitespace*
//! typed-args    := '(' whitespace* ')'
//!                | '(' whitespace* (typed-arg whitespace* ',')* typed-arg ')'
//! typed-arg     := identifier whitespace* ':' whitespace* identifier
//! return-type   := whitespace* '->' whitespace* identifier whitespace*
//!                | whitespace*
//! assignment    := ['mut' whitespace+] whitespace* identifier whitespace*
//!                  '=' whitespace* expression ';'
//! declaration   := 'func' whitespace+ identifier whitespace* typed-args
//!                  return-type block
//! block         := '{' extra* (instruction extra*)* '}'
//! instruction   := declaration | assignment | block | expression [';']
//! ```
//!
//! `extra` is whitespace or a comment; `expression` is what
//! [`ShuntingYard`] reads.

use super::shunting_yard::ShuntingYard;
use super::tokens::Token;
use super::{
    found_in, found_view_at, rest_of, spec_alt, spec_many0, ParseError, ParseErrorKind, Parsed,
};
use crate::instruction::constant::{Constant, ConstantView};
use crate::instruction::{
    arg_views, lemma_arg_views_push, Block, BlockView, FunctionCall, FunctionCallView, FunctionDec, FunctionDecArg, FunctionDecArgView, FunctionDecView, Instruction, InstructionView, VarAssign, VarAssignView,
};
use crate::text::to_chars;
use std::rc::Rc;
use vstd::prelude::*;

verus! {

/// The grammar rules.
pub struct Construct;

/// What an attempt at a rule gives: its value and the text after it, or no
/// value and the text as it was.
pub open spec fn attempt<T>(rule: Parsed<T>, s: Seq<char>) -> (Option<T>, Seq<char>) {
    match rule {
        Ok((value, rest)) => (Some(value), rest),
        Err(_) => (None, s),
    }
}

/// The values `first` before those that `rule` gives.
pub open spec fn after<T>(first: Seq<T>, rule: Parsed<Seq<T>>) -> Parsed<Seq<T>> {
    match rule {
        Ok((values, rest)) => Ok((first + values, rest)),
        Err(e) => Err(e),
    }
}

/// One more value before those of a rule is one more value at the end of
/// those before them.
pub proof fn lemma_after_push<T>(first: Seq<T>, value: T, rule: Parsed<Seq<T>>)
    ensures
        after(first, after(seq![value], rule)) == after(first.push(value), rule),
{
    match rule {
        Ok((values, rest)) => {
            assert(first + (seq![value] + values) =~= first.push(value) + values);
        },
        Err(_) => {},
    }
}

impl Construct {
    /// A literal. The four forms are tried one after the other, each on what
    /// the one before it left, and exactly one of them must be found.
    pub open spec fn spec_constant(s: Seq<char>) -> Parsed<ConstantView> {
        let (c, s1) = attempt(Token::spec_char_constant(s), s);
        let (t, s2) = attempt(Token::spec_string_constant(s1), s1);
        let (f, s3) = attempt(Token::spec_float_constant(s2), s2);
        let (i, s4) = attempt(Token::spec_int_constant(s3), s3);
        match (c, t, f, i) {
            (Some(c), None, None, None) => Ok((ConstantView::Char(c), s4)),
            (None, Some(t), None, None) => Ok((ConstantView::Str(t), s4)),
            (None, None, Some(f), None) => Ok((ConstantView::Float(f), s4)),
            (None, None, None, Some(i)) => Ok((ConstantView::Int(i), s4)),
            _ => Err(ParseError::Error(ParseErrorKind::OneOf)),
        }
    }

    /// Reads a literal at `pos`.
    pub fn constant_at(src: &Vec<char>, pos: usize) -> (found: Result<(usize, Constant), ParseError>)
        requires
            pos <= src.len(),
        ensures
            found_view_at(src@, pos, found, Self::spec_constant(src@.skip(pos as int))),
    {
        let (c, after_char) = match Token::char_constant(src, pos) {
            Ok((next, c)) => (Some(c), next),
            Err(_) => (None, pos),
        };
        let (t, after_string) = match Token::string_constant(src, after_char) {
            Ok((next, t)) => (Some(t), next),
            Err(_) => (None, after_char),
        };
        let (f, after_float) = match Token::float_constant(src, after_string) {
            Ok((next, f)) => (Some(f), next),
            Err(_) => (None, after_string),
        };
        let (i, end) = match Token::int_constant(src, after_float) {
            Ok((next, i)) => (Some(i), next),
            Err(_) => (None, after_float),
        };
        match (c, t, f, i) {
            (Some(c), None, None, None) => Ok((end, Constant::Char(c))),
            (None, Some(t), None, None) => Ok((end, Constant::Str(t))),
            (None, None, Some(f), None) => Ok((end, Constant::Float(f))),
            (None, None, None, Some(i)) => Ok((end, Constant::Int(i))),
            _ => Err(ParseError::Error(ParseErrorKind::OneOf)),
        }
    }

    /// An argument of a call: a literal, with whitespace before and after it.
    pub open spec fn spec_arg(s: Seq<char>) -> Parsed<InstructionView> {
        match Self::spec_constant(Token::spec_maybe_consume_whitespaces(s)) {
            Ok((c, rest)) => Ok(
                (InstructionView::Constant(c), Token::spec_maybe_consume_whitespaces(rest)),
            ),
            Err(e) => Err(e),
        }
    }

    fn arg(src: &Vec<char>, pos: usize) -> (found: Result<(usize, Instruction), ParseError>)
        requires
            pos <= src.len(),
        ensures
            found_view_at(src@, pos, found, Self::spec_arg(src@.skip(pos as int))),
    {
        let start = Token::maybe_consume_whitespaces(src, pos);
        match Self::constant_at(src, start) {
            Ok((end, c)) => Ok((Token::maybe_consume_whitespaces(src, end), Instruction::Constant(c))),
            Err(e) => Err(e),
        }
    }

    /// An argument and the comma after it.
    pub open spec fn spec_arg_and_comma(s: Seq<char>) -> Parsed<InstructionView> {
        match Self::spec_arg(s) {
            Ok((arg, rest)) => match Token::spec_symbol(rest, ',') {
                Ok((_, rest)) => Ok((arg, rest)),
                Err(e) => Err(e),
            },
            Err(e) => Err(e),
        }
    }

    /// The rule [`Self::spec_arg_and_comma`], to be repeated.
    pub open spec fn arg_and_comma_rule() -> spec_fn(Seq<char>) -> Parsed<InstructionView> {
        |s: Seq<char>| Self::spec_arg_and_comma(s)
    }

    fn arg_and_comma(src: &Vec<char>, pos: usize) -> (found: Result<
        (usize, Instruction),
        ParseError,
    >)
        requires
            pos <= src.len(),
        ensures
            found_view_at(src@, pos, found, Self::spec_arg_and_comma(src@.skip(pos as int))),
            found matches Ok((next, _)) ==> pos < next,
    {
        match Self::arg(src, pos) {
            Ok((end, arg)) => match Token::symbol(src, end, ',') {
                Ok((next, _)) => Ok((next, arg)),
                Err(e) => Err(e),
            },
            Err(e) => Err(e),
        }
    }

    /// A call without arguments: a name and two parentheses.
    pub open spec fn spec_function_call_no_args(s: Seq<char>) -> Parsed<FunctionCallView> {
        match Token::spec_identifier(s) {
            Ok((name, rest)) => match Token::spec_symbol(rest, '(') {
                Ok((_, rest)) => match Token::spec_symbol(rest, ')') {
                    Ok((_, rest)) => Ok(
                        (FunctionCallView { name, args: Seq::<InstructionView>::empty() }, rest),
                    ),
                    Err(e) => Err(e),
                },
                Err(e) => Err(e),
            },
            Err(e) => Err(e),
        }
    }

    fn function_call_no_args(src: &Vec<char>, pos: usize) -> (found: Result<
        (usize, FunctionCall),
        ParseError,
    >)
        requires
            pos <= src.len(),
        ensures
            found_view_at(src@, pos, found, Self::spec_function_call_no_args(src@.skip(pos as int))),
    {
        let (after_name, name) = match Token::identifier(src, pos) {
            Ok(found) => found,
            Err(e) => return Err(e),
        };
        let (open, _) = match Token::symbol(src, after_name, '(') {
            Ok(found) => found,
            Err(e) => return Err(e),
        };
        let (close, _) = match Token::symbol(src, open, ')') {
            Ok(found) => found,
            Err(e) => return Err(e),
        };
        Ok((close, FunctionCall::new(name)))
    }

    /// A call with arguments: a name, and between parentheses one argument or
    /// more, with a comma after each but the last.
    pub open spec fn spec_function_call_args(s: Seq<char>) -> Parsed<FunctionCallView> {
        match Token::spec_identifier(s) {
            Ok((name, rest)) => match Token::spec_symbol(rest, '(') {
                Ok((_, rest)) => match spec_many0(Self::arg_and_comma_rule(), rest) {
                    Ok((args, rest)) => match Self::spec_arg(rest) {
                        Ok((last, rest)) => match Token::spec_symbol(rest, ')') {
                            Ok((_, rest)) => Ok(
                                (FunctionCallView { name, args: args.push(last) }, rest),
                            ),
                            Err(e) => Err(e),
                        },
                        Err(e) => Err(e),
                    },
                    Err(e) => Err(e),
                },
                Err(e) => Err(e),
            },
            Err(e) => Err(e),
        }
    }

    fn function_call_args(src: &Vec<char>, pos: usize) -> (found: Result<
        (usize, FunctionCall),
        ParseError,
    >)
        requires
            pos <= src.len(),
        ensures
            found_view_at(src@, pos, found, Self::spec_function_call_args(src@.skip(pos as int))),
    {
        let (after_name, name) = match Token::identifier(src, pos) {
            Ok(found) => found,
            Err(e) => return Err(e),
        };
        let (open, _) = match Token::symbol(src, after_name, '(') {
            Ok(found) => found,
            Err(e) => return Err(e),
        };
        let mut call = FunctionCall::new(name);
        let mut cur: usize = open;
        let ghost rule = Self::arg_and_comma_rule();
        let ghost all = spec_many0(rule, src@.skip(open as int));
        loop
            invariant
                open <= cur <= src.len(),
                rule == Self::arg_and_comma_rule(),
                call@.name == name@,
                all == spec_many0(rule, src@.skip(open as int)),
                all == after(call@.args, spec_many0(rule, src@.skip(cur as int))),
            ensures
                open <= cur <= src.len(),
                call@.name == name@,
                all == Ok::<(Seq<InstructionView>, Seq<char>), ParseError>(
                    (call@.args, src@.skip(cur as int)),
                ),
            decreases src.len() - cur,
        {
            let ghost before = call@.args;
            match Self::arg_and_comma(src, cur) {
                Ok((next, arg)) => {
                    proof {
                        lemma_after_push(before, arg@, spec_many0(rule, src@.skip(next as int)));
                    }
                    call.add_arg(arg);
                    cur = next;
                },
                Err(e) => {
                    if e.fatal() {
                        return Err(e);
                    }
                    assert(before + Seq::<InstructionView>::empty() =~= before);
                    break ;
                },
            }
        }
        let (end, last) = match Self::arg(src, cur) {
            Ok(found) => found,
            Err(e) => return Err(e),
        };
        let (close, _) = match Token::symbol(src, end, ')') {
            Ok(found) => found,
            Err(e) => return Err(e),
        };
        call.add_arg(last);
        Ok((close, call))
    }

    /// A call of a function: the form without arguments, or else the form
    /// with arguments.
    pub open spec fn spec_function_call(s: Seq<char>) -> Parsed<FunctionCallView> {
        spec_alt(Self::spec_function_call_no_args(s), Self::spec_function_call_args(s))
    }

    /// Reads a call at `pos`.
    pub fn function_call_at(src: &Vec<char>, pos: usize) -> (found: Result<
        (usize, FunctionCall),
        ParseError,
    >)
        requires
            pos <= src.len(),
        ensures
            found_view_at(src@, pos, found, Self::spec_function_call(src@.skip(pos as int))),
    {
        match Self::function_call_no_args(src, pos) {
            Err(ParseError::Error(_)) => Self::function_call_args(src, pos),
            found => found,
        }
    }

    /// Reads a call at the start of `input`.
    pub fn function_call(input: &str) -> (found: Result<(&str, FunctionCall), ParseError>)
        ensures
            found_in(found, Self::spec_function_call(input@)),
    {
        let src = to_chars(input);
        assert(src@.skip(0) =~= src@);
        match Self::function_call_at(&src, 0) {
            Ok((next, call)) => Ok((rest_of(input, &src, next), call)),
            Err(e) => Err(e),
        }
    }

    /// A name and its type, with a colon between them.
    pub open spec fn spec_identifier_type(s: Seq<char>) -> Parsed<FunctionDecArgView> {
        match Token::spec_identifier(s) {
            Ok((name, rest)) => match Token::spec_symbol(
                Token::spec_maybe_consume_whitespaces(rest),
                ':',
            ) {
                Ok((_, rest)) => match Token::spec_identifier(
                    Token::spec_maybe_consume_whitespaces(rest),
                ) {
                    Ok((ty, rest)) => Ok((FunctionDecArgView { name, ty }, rest)),
                    Err(e) => Err(e),
                },
                Err(e) => Err(e),
            },
            Err(e) => Err(e),
        }
    }

    /// Reads a name and its type at `pos`.
    pub fn identifier_type_at(src: &Vec<char>, pos: usize) -> (found: Result<
        (usize, FunctionDecArg),
        ParseError,
    >)
        requires
            pos <= src.len(),
        ensures
            found_view_at(src@, pos, found, Self::spec_identifier_type(src@.skip(pos as int))),
    {
        let (after_name, name) = match Token::identifier(src, pos) {
            Ok(found) => found,
            Err(e) => return Err(e),
        };
        let colon = Token::maybe_consume_whitespaces(src, after_name);
        let (after_colon, _) = match Token::symbol(src, colon, ':') {
            Ok(found) => found,
            Err(e) => return Err(e),
        };
        let start = Token::maybe_consume_whitespaces(src, after_colon);
        let (end, ty) = match Token::identifier(src, start) {
            Ok(found) => found,
            Err(e) => return Err(e),
        };
        Ok((end, FunctionDecArg::new(name, ty)))
    }

    /// Reads a name and its type at the start of `input`.
    pub fn identifier_type(input: &str) -> (found: Result<(&str, FunctionDecArg), ParseError>)
        ensures
            found_in(found, Self::spec_identifier_type(input@)),
    {
        let src = to_chars(input);
        assert(src@.skip(0) =~= src@);
        match Self::identifier_type_at(&src, 0) {
            Ok((next, arg)) => Ok((rest_of(input, &src, next), arg)),
            Err(e) => Err(e),
        }
    }

    /// A name and its type, and the comma after them.
    pub open spec fn spec_identifier_type_comma(s: Seq<char>) -> Parsed<FunctionDecArgView> {
        match Self::spec_identifier_type(Token::spec_maybe_consume_whitespaces(s)) {
            Ok((arg, rest)) => match Token::spec_symbol(
                Token::spec_maybe_consume_whitespaces(rest),
                ',',
            ) {
                Ok((_, rest)) => Ok((arg, rest)),
                Err(e) => Err(e),
            },
            Err(e) => Err(e),
        }
    }

    /// The rule [`Self::spec_identifier_type_comma`], to be repeated.
    pub open spec fn identifier_type_comma_rule() -> spec_fn(Seq<char>) -> Parsed<
        FunctionDecArgView,
    > {
        |s: Seq<char>| Self::spec_identifier_type_comma(s)
    }

    fn identifier_type_comma(src: &Vec<char>, pos: usize) -> (found: Result<
        (usize, FunctionDecArg),
        ParseError,
    >)
        requires
            pos <= src.len(),
        ensures
            found_view_at(src@, pos, found, Self::spec_identifier_type_comma(src@.skip(pos as int))),
            found matches Ok((next, _)) ==> pos < next,
    {
        let start = Token::maybe_consume_whitespaces(src, pos);
        let (end, arg) = match Self::identifier_type_at(src, start) {
            Ok(found) => found,
            Err(e) => return Err(e),
        };
        let comma = Token::maybe_consume_whitespaces(src, end);
        match Token::symbol(src, comma, ',') {
            Ok((next, _)) => Ok((next, arg)),
            Err(e) => Err(e),
        }
    }

    /// An empty list of arguments: two parentheses.
    pub open spec fn spec_args_dec_empty(s: Seq<char>) -> Parsed<Seq<FunctionDecArgView>> {
        match Token::spec_symbol(s, '(') {
            Ok((_, rest)) => match Token::spec_symbol(
                Token::spec_maybe_consume_whitespaces(rest),
                ')',
            ) {
                Ok((_, rest)) => Ok((Seq::empty(), rest)),
                Err(e) => Err(e),
            },
            Err(e) => Err(e),
        }
    }

    fn args_dec_empty(src: &Vec<char>, pos: usize) -> (found: Result<
        (usize, Vec<FunctionDecArg>),
        ParseError,
    >)
        requires
            pos <= src.len(),
        ensures
            Self::args_found_at(src@, pos, found, Self::spec_args_dec_empty(src@.skip(pos as int))),
    {
        let (open, _) = match Token::symbol(src, pos, '(') {
            Ok(found) => found,
            Err(e) => return Err(e),
        };
        let inner = Token::maybe_consume_whitespaces(src, open);
        let (close, _) = match Token::symbol(src, inner, ')') {
            Ok(found) => found,
            Err(e) => return Err(e),
        };
        let args: Vec<FunctionDecArg> = Vec::new();
        assert(arg_views(args@) =~= Seq::<FunctionDecArgView>::empty());
        Ok((close, args))
    }

    /// A list of one argument or more between parentheses, with a comma after
    /// each but the last. A comma with no argument after it does not match.
    pub open spec fn spec_args_dec_non_empty(s: Seq<char>) -> Parsed<Seq<FunctionDecArgView>> {
        match Token::spec_symbol(s, '(') {
            Ok((_, rest)) => match spec_many0(
                Self::identifier_type_comma_rule(),
                Token::spec_maybe_consume_whitespaces(rest),
            ) {
                Ok((args, rest)) => match Self::spec_identifier_type(
                    Token::spec_maybe_consume_whitespaces(rest),
                ) {
                    Ok((last, rest)) => match Token::spec_symbol(rest, ')') {
                        Ok((_, rest)) => Ok((args.push(last), rest)),
                        Err(e) => Err(e),
                    },
                    Err(e) => Err(e),
                },
                Err(e) => Err(e),
            },
            Err(e) => Err(e),
        }
    }

    /// `found`, a list of arguments read at `pos` in `src`, is what `rule`
    /// gives for the text from `pos` on.
    pub open spec fn args_found_at(
        src: Seq<char>,
        pos: usize,
        found: Result<(usize, Vec<FunctionDecArg>), ParseError>,
        rule: Parsed<Seq<FunctionDecArgView>>,
    ) -> bool {
        match found {
            Ok((next, args)) => pos <= next <= src.len() && rule == Ok::<
                (Seq<FunctionDecArgView>, Seq<char>),
                ParseError,
            >((arg_views(args@), src.skip(next as int))),
            Err(e) => rule == Err::<(Seq<FunctionDecArgView>, Seq<char>), ParseError>(e),
        }
    }

    fn args_dec_non_empty(src: &Vec<char>, pos: usize) -> (found: Result<
        (usize, Vec<FunctionDecArg>),
        ParseError,
    >)
        requires
            pos <= src.len(),
        ensures
            Self::args_found_at(
                src@,
                pos,
                found,
                Self::spec_args_dec_non_empty(src@.skip(pos as int)),
            ),
    {
        let (open, _) = match Token::symbol(src, pos, '(') {
            Ok(found) => found,
            Err(e) => return Err(e),
        };
        let first = Token::maybe_consume_whitespaces(src, open);
        let mut args: Vec<FunctionDecArg> = Vec::new();
        let mut cur: usize = first;
        let ghost rule = Self::identifier_type_comma_rule();
        let ghost all = spec_many0(rule, src@.skip(first as int));
        assert(arg_views(args@) =~= Seq::<FunctionDecArgView>::empty());
        assert(all == after(arg_views(args@), all)) by {
            match all {
                Ok((values, _)) => {
                    assert(Seq::<FunctionDecArgView>::empty() + values =~= values);
                },
                Err(_) => {},
            }
        }
        loop
            invariant
                first <= cur <= src.len(),
                rule == Self::identifier_type_comma_rule(),
                all == spec_many0(rule, src@.skip(first as int)),
                all == after(arg_views(args@), spec_many0(rule, src@.skip(cur as int))),
            ensures
                first <= cur <= src.len(),
                all == Ok::<(Seq<FunctionDecArgView>, Seq<char>), ParseError>(
                    (arg_views(args@), src@.skip(cur as int)),
                ),
            decreases src.len() - cur,
        {
            let ghost before = arg_views(args@);
            match Self::identifier_type_comma(src, cur) {
                Ok((next, arg)) => {
                    proof {
                        lemma_after_push(before, arg@, spec_many0(rule, src@.skip(next as int)));
                        lemma_arg_views_push(args@, arg);
                    }
                    args.push(arg);
                    cur = next;
                },
                Err(e) => {
                    if e.fatal() {
                        return Err(e);
                    }
                    assert(before + Seq::<FunctionDecArgView>::empty() =~= before);
                    break ;
                },
            }
        }
        let start = Token::maybe_consume_whitespaces(src, cur);
        let (end, last) = match Self::identifier_type_at(src, start) {
            Ok(found) => found,
            Err(e) => return Err(e),
        };
        let (close, _) = match Token::symbol(src, end, ')') {
            Ok(found) => found,
            Err(e) => return Err(e),
        };
        proof {
            lemma_arg_views_push(args@, last);
        }
        args.push(last);
        Ok((close, args))
    }

    /// The arguments of a declaration: the empty list, or else the list of
    /// one argument or more.
    pub open spec fn spec_args_dec(s: Seq<char>) -> Parsed<Seq<FunctionDecArgView>> {
        spec_alt(Self::spec_args_dec_empty(s), Self::spec_args_dec_non_empty(s))
    }

    /// Reads the arguments of a declaration at `pos`.
    pub fn args_dec_at(src: &Vec<char>, pos: usize) -> (found: Result<
        (usize, Vec<FunctionDecArg>),
        ParseError,
    >)
        requires
            pos <= src.len(),
        ensures
            Self::args_found_at(src@, pos, found, Self::spec_args_dec(src@.skip(pos as int))),
    {
        match Self::args_dec_empty(src, pos) {
            Err(ParseError::Error(_)) => Self::args_dec_non_empty(src, pos),
            found => found,
        }
    }

    /// Reads the arguments of a declaration at the start of `input`.
    pub fn args_dec(input: &str) -> (found: Result<(&str, Vec<FunctionDecArg>), ParseError>)
        ensures
            match found {
                Ok((rest, args)) => Self::spec_args_dec(input@) == Ok::<
                    (Seq<FunctionDecArgView>, Seq<char>),
                    ParseError,
                >((arg_views(args@), rest@)),
                Err(e) => Self::spec_args_dec(input@) == Err::<
                    (Seq<FunctionDecArgView>, Seq<char>),
                    ParseError,
                >(e),
            },
    {
        let src = to_chars(input);
        assert(src@.skip(0) =~= src@);
        match Self::args_dec_at(&src, 0) {
            Ok((next, args)) => Ok((rest_of(input, &src, next), args)),
            Err(e) => Err(e),
        }
    }

    /// No return type: whitespace, and no arrow after it.
    pub open spec fn spec_return_type_void(s: Seq<char>) -> Parsed<Option<Seq<char>>> {
        let rest = Token::spec_maybe_consume_whitespaces(s);
        match Token::spec_tag(rest, "->"@) {
            Ok(_) => Err(ParseError::Error(ParseErrorKind::OneOf)),
            Err(_) => Ok((None, rest)),
        }
    }

    /// A return type: an arrow and the name of a type, with whitespace before
    /// and after each.
    pub open spec fn spec_return_type_non_void(s: Seq<char>) -> Parsed<Option<Seq<char>>> {
        match Token::spec_tag(Token::spec_maybe_consume_whitespaces(s), "->"@) {
            Ok((_, rest)) => match Token::spec_identifier(
                Token::spec_maybe_consume_whitespaces(rest),
            ) {
                Ok((ty, rest)) => Ok((Some(ty), Token::spec_maybe_consume_whitespaces(rest))),
                Err(e) => Err(e),
            },
            Err(e) => Err(e),
        }
    }

    /// The return type of a declaration, or none.
    pub open spec fn spec_return_type(s: Seq<char>) -> Parsed<Option<Seq<char>>> {
        spec_alt(Self::spec_return_type_non_void(s), Self::spec_return_type_void(s))
    }

    /// `found`, a return type read at `pos` in `src`, is what `rule` gives for
    /// the text from `pos` on.
    pub open spec fn type_found_at(
        src: Seq<char>,
        pos: usize,
        found: Result<(usize, Option<String>), ParseError>,
        rule: Parsed<Option<Seq<char>>>,
    ) -> bool {
        match found {
            Ok((next, ty)) => pos <= next <= src.len() && rule == Ok::<
                (Option<Seq<char>>, Seq<char>),
                ParseError,
            >((Self::type_view(ty), src.skip(next as int))),
            Err(e) => rule == Err::<(Option<Seq<char>>, Seq<char>), ParseError>(e),
        }
    }

    /// The characters of the name of a return type, if there is one.
    pub open spec fn type_view(ty: Option<String>) -> Option<Seq<char>> {
        match ty {
            Some(ty) => Some(ty@),
            None => None,
        }
    }

    fn return_type_void(src: &Vec<char>, pos: usize) -> (found: Result<
        (usize, Option<String>),
        ParseError,
    >)
        requires
            pos <= src.len(),
        ensures
            Self::type_found_at(src@, pos, found, Self::spec_return_type_void(src@.skip(pos as int))),
    {
        let start = Token::maybe_consume_whitespaces(src, pos);
        match Token::tag(src, start, "->") {
            Ok(_) => Err(ParseError::Error(ParseErrorKind::OneOf)),
            Err(_) => Ok((start, None)),
        }
    }

    fn return_type_non_void(src: &Vec<char>, pos: usize) -> (found: Result<
        (usize, Option<String>),
        ParseError,
    >)
        requires
            pos <= src.len(),
        ensures
            Self::type_found_at(
                src@,
                pos,
                found,
                Self::spec_return_type_non_void(src@.skip(pos as int)),
            ),
    {
        let arrow = Token::maybe_consume_whitespaces(src, pos);
        let (after_arrow, _) = match Token::tag(src, arrow, "->") {
            Ok(found) => found,
            Err(e) => return Err(e),
        };
        let start = Token::maybe_consume_whitespaces(src, after_arrow);
        let (end, ty) = match Token::identifier(src, start) {
            Ok(found) => found,
            Err(e) => return Err(e),
        };
        Ok((Token::maybe_consume_whitespaces(src, end), Some(ty)))
    }

    /// Reads the return type of a declaration at `pos`.
    pub fn return_type_at(src: &Vec<char>, pos: usize) -> (found: Result<
        (usize, Option<String>),
        ParseError,
    >)
        requires
            pos <= src.len(),
        ensures
            Self::type_found_at(src@, pos, found, Self::spec_return_type(src@.skip(pos as int))),
    {
        match Self::return_type_non_void(src, pos) {
            Err(ParseError::Error(_)) => Self::return_type_void(src, pos),
            found => found,
        }
    }

    /// Reads the return type of a declaration at the start of `input`.
    pub fn return_type(input: &str) -> (found: Result<(&str, Option<String>), ParseError>)
        ensures
            match found {
                Ok((rest, ty)) => Self::spec_return_type(input@) == Ok::<
                    (Option<Seq<char>>, Seq<char>),
                    ParseError,
                >((Self::type_view(ty), rest@)),
                Err(e) => Self::spec_return_type(input@) == Err::<
                    (Option<Seq<char>>, Seq<char>),
                    ParseError,
                >(e),
            },
    {
        let src = to_chars(input);
        assert(src@.skip(0) =~= src@);
        match Self::return_type_at(&src, 0) {
            Ok((next, ty)) => Ok((rest_of(input, &src, next), ty)),
            Err(e) => Err(e),
        }
    }

    /// An assignment: an optional `mut`, a name, an equal sign, an expression
    /// and a semicolon. With `mut` the binding is mutable.
    pub open spec fn spec_var_assignment(s: Seq<char>) -> Parsed<VarAssignView> {
        let (mutable, rest) = attempt(Token::spec_keyword(s, "mut"@), s);
        match Token::spec_identifier(Token::spec_maybe_consume_whitespaces(rest)) {
            Ok((symbol, rest)) => match Token::spec_symbol(
                Token::spec_maybe_consume_whitespaces(rest),
                '=',
            ) {
                Ok((_, rest)) => match ShuntingYard::spec_parse(
                    Token::spec_maybe_consume_whitespaces(rest),
                ) {
                    Ok((value, rest)) => match Token::spec_symbol(rest, ';') {
                        Ok((_, rest)) => Ok(
                            (
                                VarAssignView {
                                    mutable: mutable is Some,
                                    symbol,
                                    value: Box::new(value),
                                },
                                rest,
                            ),
                        ),
                        Err(e) => Err(e),
                    },
                    Err(e) => Err(e),
                },
                Err(e) => Err(e),
            },
            Err(e) => Err(e),
        }
    }

    /// Reads an assignment at `pos`.
    pub fn var_assignment_at(src: &Vec<char>, pos: usize) -> (found: Result<
        (usize, VarAssign),
        ParseError,
    >)
        requires
            pos <= src.len(),
        ensures
            found_view_at(src@, pos, found, Self::spec_var_assignment(src@.skip(pos as int))),
    {
        let (mutable, after_mut) = match Token::keyword(src, pos, "mut") {
            Ok((next, _)) => (true, next),
            Err(_) => (false, pos),
        };
        let start = Token::maybe_consume_whitespaces(src, after_mut);
        let (after_name, symbol) = match Token::identifier(src, start) {
            Ok(found) => found,
            Err(e) => return Err(e),
        };
        let equal = Token::maybe_consume_whitespaces(src, after_name);
        let (after_equal, _) = match Token::symbol(src, equal, '=') {
            Ok(found) => found,
            Err(e) => return Err(e),
        };
        let value_start = Token::maybe_consume_whitespaces(src, after_equal);
        let (after_value, value) = match ShuntingYard::parse_at(src, value_start) {
            Ok(found) => found,
            Err(e) => return Err(e),
        };
        let (end, _) = match Token::symbol(src, after_value, ';') {
            Ok(found) => found,
            Err(e) => return Err(e),
        };
        Ok((end, VarAssign::new(mutable, symbol, value)))
    }

    /// Reads an assignment at the start of `input`.
    pub fn var_assignment(input: &str) -> (found: Result<(&str, VarAssign), ParseError>)
        ensures
            found_in(found, Self::spec_var_assignment(input@)),
    {
        let src = to_chars(input);
        assert(src@.skip(0) =~= src@);
        match Self::var_assignment_at(&src, 0) {
            Ok((next, assign)) => Ok((rest_of(input, &src, next), assign)),
            Err(e) => Err(e),
        }
    }

    /// An expression, and the semicolon after it if there is one.
    pub open spec fn spec_expression(s: Seq<char>) -> Parsed<InstructionView> {
        match ShuntingYard::spec_parse(s) {
            Ok((value, rest)) => Ok((value, attempt(Token::spec_symbol(rest, ';'), rest).1)),
            Err(e) => Err(e),
        }
    }

    fn expression(src: &Vec<char>, pos: usize) -> (found: Result<(usize, Instruction), ParseError>)
        requires
            pos <= src.len(),
        ensures
            found_view_at(src@, pos, found, Self::spec_expression(src@.skip(pos as int))),
    {
        match ShuntingYard::parse_at(src, pos) {
            Ok((end, value)) => match Token::symbol(src, end, ';') {
                Ok((next, _)) => Ok((next, value)),
                Err(_) => Ok((end, value)),
            },
            Err(e) => Err(e),
        }
    }

    /// An instruction of a block: a declaration of a function, or else an
    /// assignment, or else a block, or else an expression.
    pub open spec fn spec_instruction(s: Seq<char>) -> Parsed<InstructionView>
        decreases s.len(), 2nat,
    {
        match Self::spec_function_declaration(s) {
            Ok((dec, rest)) => Ok((InstructionView::FunctionDec(dec), rest)),
            Err(ParseError::Failure(k)) => Err(ParseError::Failure(k)),
            Err(ParseError::Error(_)) => match Self::spec_var_assignment(s) {
                Ok((assign, rest)) => Ok((InstructionView::VarAssign(assign), rest)),
                Err(ParseError::Failure(k)) => Err(ParseError::Failure(k)),
                Err(ParseError::Error(_)) => match Self::spec_block(s) {
                    Ok((block, rest)) => Ok((InstructionView::Block(block), rest)),
                    Err(ParseError::Failure(k)) => Err(ParseError::Failure(k)),
                    Err(ParseError::Error(_)) => Self::spec_expression(s),
                },
            },
        }
    }

    /// The instructions of a block, each with the whitespace and comments
    /// after it, until the text does not start with an instruction.
    pub open spec fn spec_instructions(s: Seq<char>) -> Parsed<Seq<InstructionView>>
        decreases s.len(), 3nat,
    {
        match Self::spec_instruction(s) {
            Ok((first, rest)) => {
                let rest = Token::spec_maybe_consume_extra(rest);
                if rest.len() < s.len() {
                    after(seq![first], Self::spec_instructions(rest))
                } else {
                    Ok((Seq::empty(), s))
                }
            },
            Err(ParseError::Error(_)) => Ok((Seq::empty(), s)),
            Err(e) => Err(e),
        }
    }

    /// A block: instructions between braces.
    pub open spec fn spec_block(s: Seq<char>) -> Parsed<BlockView>
        decreases s.len(), 0nat,
    {
        match Token::spec_symbol(s, '{') {
            Ok((_, rest)) => {
                let rest = Token::spec_maybe_consume_extra(rest);
                if rest.len() < s.len() {
                    match Self::spec_instructions(rest) {
                        Ok((instructions, rest)) => match Token::spec_symbol(rest, '}') {
                            Ok((_, rest)) => Ok((BlockView { instructions }, rest)),
                            Err(e) => Err(e),
                        },
                        Err(e) => Err(e),
                    }
                } else {
                    Err(ParseError::Error(ParseErrorKind::Char))
                }
            },
            Err(e) => Err(e),
        }
    }

    /// The declaration of a function: `func`, a name, the arguments, the
    /// return type if there is one, and the body.
    pub open spec fn spec_function_declaration(s: Seq<char>) -> Parsed<FunctionDecView>
        decreases s.len(), 1nat,
    {
        match Token::spec_keyword(s, "func"@) {
            Ok((_, rest)) => match Token::spec_identifier(rest) {
                Ok((name, rest)) => match Self::spec_args_dec(
                    Token::spec_maybe_consume_whitespaces(rest),
                ) {
                    Ok((args, rest)) => match Self::spec_return_type(rest) {
                        Ok((ty, rest)) => if rest.len() <= s.len() {
                            match Self::spec_block(rest) {
                                Ok((block, rest)) => Ok(
                                    (FunctionDecView { name, ty, args, block }, rest),
                                ),
                                Err(e) => Err(e),
                            }
                        } else {
                            Err(ParseError::Error(ParseErrorKind::Char))
                        },
                        Err(e) => Err(e),
                    },
                    Err(e) => Err(e),
                },
                Err(e) => Err(e),
            },
            Err(e) => Err(e),
        }
    }

    /// Reads an instruction of a block at `pos`.
    pub fn instruction_at(src: &Vec<char>, pos: usize) -> (found: Result<
        (usize, Instruction),
        ParseError,
    >)
        requires
            pos <= src.len(),
        ensures
            found_view_at(src@, pos, found, Self::spec_instruction(src@.skip(pos as int))),
        decreases src.len() - pos, 2nat,
    {
        match Self::function_declaration_at(src, pos) {
            Ok((next, dec)) => return Ok((next, Instruction::FunctionDec(Rc::new(dec)))),
            Err(ParseError::Failure(k)) => return Err(ParseError::Failure(k)),
            Err(ParseError::Error(_)) => {},
        }
        match Self::var_assignment_at(src, pos) {
            Ok((next, assign)) => return Ok((next, Instruction::VarAssign(assign))),
            Err(ParseError::Failure(k)) => return Err(ParseError::Failure(k)),
            Err(ParseError::Error(_)) => {},
        }
        match Self::block_at(src, pos) {
            Ok((next, block)) => return Ok((next, Instruction::Block(block))),
            Err(ParseError::Failure(k)) => return Err(ParseError::Failure(k)),
            Err(ParseError::Error(_)) => {},
        }
        Self::expression(src, pos)
    }

    /// Reads the instructions of a block at `pos`, up to the first text that
    /// is no instruction.
    pub fn instructions_at(src: &Vec<char>, pos: usize) -> (found: Result<(usize, Block), ParseError>)
        requires
            pos <= src.len(),
        ensures
            match found {
                Ok((next, block)) => pos <= next <= src.len() && Self::spec_instructions(
                    src@.skip(pos as int),
                ) == Ok::<(Seq<InstructionView>, Seq<char>), ParseError>(
                    (block@.instructions, src@.skip(next as int)),
                ),
                Err(e) => Self::spec_instructions(src@.skip(pos as int)) == Err::<
                    (Seq<InstructionView>, Seq<char>),
                    ParseError,
                >(e),
            },
        decreases src.len() - pos, 3nat,
    {
        let mut block = Block::new();
        let mut cur: usize = pos;
        let ghost all = Self::spec_instructions(src@.skip(pos as int));
        assert(all == after(block@.instructions, all)) by {
            match all {
                Ok((values, _)) => {
                    assert(Seq::<InstructionView>::empty() + values =~= values);
                },
                Err(_) => {},
            }
        }
        loop
            invariant
                pos <= cur <= src.len(),
                all == Self::spec_instructions(src@.skip(pos as int)),
                all == after(block@.instructions, Self::spec_instructions(src@.skip(cur as int))),
            ensures
                pos <= cur <= src.len(),
                all == Ok::<(Seq<InstructionView>, Seq<char>), ParseError>(
                    (block@.instructions, src@.skip(cur as int)),
                ),
            decreases src.len() - cur,
        {
            let ghost before = block@.instructions;
            match Self::instruction_at(src, cur) {
                Ok((end, instruction)) => {
                    let next = Token::maybe_consume_extra(src, end);
                    if next == cur {
                        assert(before + Seq::<InstructionView>::empty() =~= before);
                        break ;
                    }
                    proof {
                        lemma_after_push(
                            before,
                            instruction@,
                            Self::spec_instructions(src@.skip(next as int)),
                        );
                    }
                    block.add_instruction(instruction);
                    cur = next;
                },
                Err(e) => {
                    if e.fatal() {
                        return Err(e);
                    }
                    assert(before + Seq::<InstructionView>::empty() =~= before);
                    break ;
                },
            }
        }
        Ok((cur, block))
    }

    /// Reads a block at `pos`.
    pub fn block_at(src: &Vec<char>, pos: usize) -> (found: Result<(usize, Block), ParseError>)
        requires
            pos <= src.len(),
        ensures
            found_view_at(src@, pos, found, Self::spec_block(src@.skip(pos as int))),
        decreases src.len() - pos, 0nat,
    {
        let (open, _) = match Token::symbol(src, pos, '{') {
            Ok(found) => found,
            Err(e) => return Err(e),
        };
        let first = Token::maybe_consume_extra(src, open);
        let (end, block) = match Self::instructions_at(src, first) {
            Ok(found) => found,
            Err(e) => return Err(e),
        };
        match Token::symbol(src, end, '}') {
            Ok((close, _)) => Ok((close, block)),
            Err(e) => Err(e),
        }
    }

    /// A program: whitespace and comments, then instructions up to the end of
    /// the text. A text that goes on after the last instruction is no
    /// program, and the parse ends there.
    pub open spec fn spec_program(s: Seq<char>) -> Result<BlockView, ParseError> {
        match Self::spec_instructions(Token::spec_maybe_consume_extra(s)) {
            Ok((instructions, rest)) => if rest.len() == 0 {
                Ok(BlockView { instructions })
            } else {
                Err(ParseError::Failure(ParseErrorKind::OneOf))
            },
            Err(e) => Err(e),
        }
    }

    /// Reads a program: the whole of `input`.
    pub fn program(input: &str) -> (found: Result<Block, ParseError>)
        ensures
            match found {
                Ok(block) => Self::spec_program(input@) == Ok::<BlockView, ParseError>(block@),
                Err(e) => Self::spec_program(input@) == Err::<BlockView, ParseError>(e),
            },
    {
        let src = to_chars(input);
        assert(src@.skip(0) =~= src@);
        let first = Token::maybe_consume_extra(&src, 0);
        match Self::instructions_at(&src, first) {
            Ok((end, block)) => {
                if end == src.len() {
                    Ok(block)
                } else {
                    Err(ParseError::Failure(ParseErrorKind::OneOf))
                }
            },
            Err(e) => Err(e),
        }
    }

    /// Reads a block at the start of `input`.
    pub fn block(input: &str) -> (found: Result<(&str, Block), ParseError>)
        ensures
            found_in(found, Self::spec_block(input@)),
    {
        let src = to_chars(input);
        assert(src@.skip(0) =~= src@);
        match Self::block_at(&src, 0) {
            Ok((next, block)) => Ok((rest_of(input, &src, next), block)),
            Err(e) => Err(e),
        }
    }

    /// Reads the declaration of a function at `pos`.
    pub fn function_declaration_at(src: &Vec<char>, pos: usize) -> (found: Result<
        (usize, FunctionDec),
        ParseError,
    >)
        requires
            pos <= src.len(),
        ensures
            found_view_at(src@, pos, found, Self::spec_function_declaration(src@.skip(pos as int))),
        decreases src.len() - pos, 1nat,
    {
        let (after_func, _) = match Token::keyword(src, pos, "func") {
            Ok(found) => found,
            Err(e) => return Err(e),
        };
        let (after_name, name) = match Token::identifier(src, after_func) {
            Ok(found) => found,
            Err(e) => return Err(e),
        };
        let args_start = Token::maybe_consume_whitespaces(src, after_name);
        let (after_args, args) = match Self::args_dec_at(src, args_start) {
            Ok(found) => found,
            Err(e) => return Err(e),
        };
        let (body, ty) = match Self::return_type_at(src, after_args) {
            Ok(found) => found,
            Err(e) => return Err(e),
        };
        let mut function = FunctionDec::new(name, ty);
        function.set_args(args);
        let (end, block) = match Self::block_at(src, body) {
            Ok(found) => found,
            Err(e) => return Err(e),
        };
        function.set_block(block);
        Ok((end, function))
    }

    /// Reads the declaration of a function at the start of `input`.
    pub fn function_declaration(input: &str) -> (found: Result<(&str, FunctionDec), ParseError>)
        ensures
            found_in(found, Self::spec_function_declaration(input@)),
    {
        let src = to_chars(input);
        assert(src@.skip(0) =~= src@);
        match Self::function_declaration_at(&src, 0) {
            Ok((next, function)) => Ok((rest_of(input, &src, next), function)),
            Err(e) => Err(e),
        }
    }

    /// Reads a literal at the start of `input`.
    pub fn constant(input: &str) -> (found: Result<(&str, Constant), ParseError>)
        ensures
            found_in(found, Self::spec_constant(input@)),
    {
        let src = to_chars(input);
        assert(src@.skip(0) =~= src@);
        match Self::constant_at(&src, 0) {
            Ok((next, c)) => Ok((rest_of(input, &src, next), c)),
            Err(e) => Err(e),
        }
    }
}

} // verus!
