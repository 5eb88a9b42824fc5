//! Writing a construct down and reading it back gives the construct.

use super::constructs::Construct;
use super::tokens::Token;
use super::{spec_many0, ParseError, ParseErrorKind};
use crate::instruction::constant::ConstantView;
use crate::instruction::print::{args_text, typed_list_text};
use crate::instruction::FunctionDecArgView;
use crate::text::{
    class_has, decimal_text, int_text, is_digit, is_letter, is_whitespace, is_word, lemma_decimal_text, lemma_run_bounded, lemma_run_holds, lemma_run_is, run_len, CharClass,
};
use vstd::prelude::*;

verus! {

/// The rules of literals find nothing in the empty text.
pub proof fn lemma_no_literal_in_nothing()
    ensures
        Token::spec_char_constant(Seq::empty()) is Err,
        Token::spec_string_constant(Seq::empty()) is Err,
        Token::spec_float_constant(Seq::empty()) is Err,
        Token::spec_int_constant(Seq::empty()) is Err,
{
    let nothing = Seq::<char>::empty();
    assert(nothing.skip(0) =~= nothing);
}

/// The text of an integer is an optional minus sign and digits that stand
/// for the magnitude of the integer.
pub proof fn lemma_int_text(i: int)
    ensures
        int_text(i).len() >= 1,
        Token::sign_len(int_text(i)) == (if i < 0 { 1int } else { 0int }),
        run_len(int_text(i).skip(Token::sign_len(int_text(i))), CharClass::Digit) == int_text(
            i,
        ).len() - Token::sign_len(int_text(i)),
        int_text(i).skip(Token::sign_len(int_text(i))) == decimal_text(
            (if i < 0 { -i } else { i }) as nat,
        ),
{
    let magnitude = (if i < 0 { -i } else { i }) as nat;
    let digits = decimal_text(magnitude);
    lemma_decimal_text(magnitude);
    let text = int_text(i);
    assert(is_digit(digits[0]));
    if i < 0 {
        assert(text[0] == '-');
        assert(text.skip(1) =~= digits);
    } else {
        assert(text[0] == digits[0]);
        assert(text.skip(0) =~= digits);
    }
    lemma_run_is(digits, CharClass::Digit, digits.len() as int);
}

/// A literal that is written down and read back is the same literal, of the
/// same kind and with the same value, and nothing of the text is left. This
/// holds of every character, of every integer, of every string without a
/// double quote, and of every floating-point literal.
pub proof fn lemma_constant_round_trip(c: ConstantView)
    requires
        c.writable(),
    ensures
        Construct::spec_constant(c.text()) == Ok::<(ConstantView, Seq<char>), ParseError>(
            (c, Seq::empty()),
        ),
{
    let text = c.text();
    let nothing = Seq::<char>::empty();
    lemma_no_literal_in_nothing();
    match c {
        ConstantView::Char(ch) => {
            assert(text.skip(3) =~= nothing);
        },
        ConstantView::Str(s) => {
            let inner = text.skip(1);
            assert forall|i: int| 0 <= i < s.len() implies class_has(
                CharClass::Quoted,
                #[trigger] inner[i],
            ) by {
                assert(inner[i] == s[i]);
                assert(s.contains(s[i]));
            }
            assert(inner[s.len() as int] == '"');
            lemma_run_is(inner, CharClass::Quoted, s.len() as int);
            assert(text.subrange(1, s.len() as int + 1) =~= s);
            assert(text.skip(s.len() as int + 2) =~= nothing);
        },
        ConstantView::Int(i) => {
            lemma_int_text(i as int);
            let sign = Token::sign_len(text);
            let body = text.skip(sign);
            let n = body.len() as int;
            lemma_decimal_text((if i < 0 { -i } else { i as int }) as nat);
            assert(is_digit(body[0]));
            assert(text[0] == '-' || text[0] == body[0]);
            assert(body.take(n) =~= body);
            assert(body.skip(n) =~= nothing);
            assert(Token::spec_float_constant(text) is Err);
            assert(Token::spec_int_constant(text) == Ok::<(i64, Seq<char>), ParseError>(
                (i, nothing),
            ));
        },
        ConstantView::Float(t) => {
            let sign = Token::sign_len(t);
            lemma_run_holds(t.skip(sign), CharClass::Digit);
            assert(run_len(t.skip(sign), CharClass::Digit) > 0);
            assert(is_digit(t.skip(sign)[0]));
            assert(t[0] == '-' || t[0] == t.skip(sign)[0]);
        },
    }
}

/// Whether `name` is an identifier and nothing more.
pub open spec fn is_identifier(name: Seq<char>) -> bool {
    Token::spec_identifier(name) == Ok::<(Seq<char>, Seq<char>), ParseError>(
        (name, Seq::<char>::empty()),
    )
}

/// Whether the name and the type of `arg` are identifiers.
pub open spec fn is_typed_name(arg: FunctionDecArgView) -> bool {
    is_identifier(arg.name) && is_identifier(arg.ty)
}

/// Whether `text` does not go on with a character of a word.
pub open spec fn ends_word(text: Seq<char>) -> bool {
    text.len() == 0 || !is_word(text[0])
}

/// The punctuation that the texts of lists are written with.
proof fn lemma_punctuation()
    ensures
        "("@ == seq!['('],
        ")"@ == seq![')'],
        ": "@ == seq![':', ' '],
        ", "@ == seq![',', ' '],
        " "@ == seq![' '],
{
    reveal_strlit("(");
    reveal_strlit(")");
    reveal_strlit(": ");
    reveal_strlit(", ");
    reveal_strlit(" ");
    assert("("@ =~= seq!['(']);
    assert(")"@ =~= seq![')']);
    assert(": "@ =~= seq![':', ' ']);
    assert(", "@ =~= seq![',', ' ']);
    assert(" "@ =~= seq![' ']);
}

/// An identifier starts with a letter or an underscore and is made of the
/// characters of words.
pub proof fn lemma_identifier_shape(name: Seq<char>)
    requires
        is_identifier(name),
    ensures
        name.len() > 0,
        is_letter(name[0]) || name[0] == '_',
        forall|i: int| 0 <= i < name.len() ==> is_word(#[trigger] name[i]),
{
    let n = run_len(name, CharClass::Word) as int;
    lemma_run_bounded(name, CharClass::Word);
    lemma_run_holds(name, CharClass::Word);
    assert(name.take(n).len() == n);
    assert forall|i: int| 0 <= i < name.len() implies is_word(#[trigger] name[i]) by {
        assert(class_has(CharClass::Word, name[i]));
    }
}

/// An identifier is read whole from a text that does not go on with a
/// character of a word.
pub proof fn lemma_identifier_in_text(name: Seq<char>, rest: Seq<char>)
    requires
        is_identifier(name),
        ends_word(rest),
    ensures
        Token::spec_identifier(name + rest) == Ok::<(Seq<char>, Seq<char>), ParseError>(
            (name, rest),
        ),
{
    lemma_identifier_shape(name);
    let text = name + rest;
    assert(text[0] == name[0]);
    assert forall|i: int| 0 <= i < name.len() implies class_has(
        CharClass::Word,
        #[trigger] text[i],
    ) by {
        assert(text[i] == name[i]);
    }
    if name.len() < text.len() {
        assert(text[name.len() as int] == rest[0]);
    }
    lemma_run_is(text, CharClass::Word, name.len() as int);
    assert(text.take(name.len() as int) =~= name);
    assert(text.skip(name.len() as int) =~= rest);
}

/// No whitespace is skipped in front of a text that starts with another
/// character, and one space in front of such a text is skipped.
pub proof fn lemma_whitespace_skipped(text: Seq<char>)
    requires
        text.len() == 0 || !is_whitespace(text[0]),
    ensures
        Token::spec_maybe_consume_whitespaces(text) == text,
        Token::spec_maybe_consume_whitespaces(" "@ + text) == text,
{
    lemma_punctuation();
    assert(text.skip(0) =~= text);
    let spaced = " "@ + text;
    assert(spaced[0] == ' ');
    if text.len() > 0 {
        assert(spaced[1] == text[0]);
    }
    lemma_run_is(spaced, CharClass::Whitespace, 1);
    assert(spaced.skip(1) =~= text);
}

/// A name and its type are read whole from a text that does not go on with a
/// character of a word.
pub proof fn lemma_typed_name_in_text(arg: FunctionDecArgView, rest: Seq<char>)
    requires
        is_typed_name(arg),
        ends_word(rest),
    ensures
        Construct::spec_identifier_type(arg.text() + rest) == Ok::<
            (FunctionDecArgView, Seq<char>),
            ParseError,
        >((arg, rest)),
{
    lemma_punctuation();
    lemma_identifier_shape(arg.ty);
    let after_name = ": "@ + arg.ty + rest;
    assert(arg.text() + rest =~= arg.name + after_name);
    assert(after_name[0] == ':');
    lemma_identifier_in_text(arg.name, after_name);
    lemma_whitespace_skipped(after_name);
    let after_colon = after_name.skip(1);
    assert(after_colon =~= " "@ + (arg.ty + rest));
    assert((arg.ty + rest)[0] == arg.ty[0]);
    lemma_whitespace_skipped(arg.ty + rest);
    lemma_identifier_in_text(arg.ty, rest);
}

/// A text that is one space or nothing.
pub open spec fn is_lead(lead: Seq<char>) -> bool {
    lead == Seq::<char>::empty() || lead == " "@
}

/// The whitespace in front of a name and its type is skipped.
proof fn lemma_lead_skipped(lead: Seq<char>, arg: FunctionDecArgView, rest: Seq<char>)
    requires
        is_lead(lead),
        is_typed_name(arg),
    ensures
        Token::spec_maybe_consume_whitespaces(lead + (arg.text() + rest)) == arg.text() + rest,
{
    lemma_identifier_shape(arg.name);
    let text = arg.text() + rest;
    assert(text[0] == arg.name[0]);
    lemma_whitespace_skipped(text);
    if lead == Seq::<char>::empty() {
        assert(lead + text =~= text);
    }
}

/// The names and types of a list that go in front of a comma are read one
/// after the other, and the last one is left.
proof fn lemma_typed_names_before_last(args: Seq<FunctionDecArgView>, from: int, lead: Seq<char>)
    requires
        0 <= from < args.len(),
        is_lead(lead),
        forall|i: int| 0 <= i < args.len() ==> is_typed_name(#[trigger] args[i]),
    ensures
        spec_many0(
            Construct::identifier_type_comma_rule(),
            lead + (typed_list_text(args, from) + ")"@),
        ) == Ok::<(Seq<FunctionDecArgView>, Seq<char>), ParseError>(
            (
                args.subrange(from, args.len() - 1),
                (if from == args.len() - 1 {
                    lead
                } else {
                    " "@
                }) + (args.last().text() + ")"@),
            ),
        ),
    decreases args.len() - from,
{
    lemma_punctuation();
    let rule = Construct::identifier_type_comma_rule();
    let arg = args[from];
    let close = ")"@;
    let text = lead + (typed_list_text(args, from) + close);
    if from == args.len() - 1 {
        assert(typed_list_text(args, from) == arg.text());
        lemma_lead_skipped(lead, arg, close);
        lemma_typed_name_in_text(arg, close);
        lemma_whitespace_skipped(close);
        assert(Construct::spec_identifier_type_comma(text) is Err);
        assert(rule(text) == Construct::spec_identifier_type_comma(text));
        assert(args.subrange(from, args.len() - 1) =~= Seq::<FunctionDecArgView>::empty());
    } else {
        let tail = typed_list_text(args, from + 1) + close;
        let after = ", "@ + tail;
        assert(typed_list_text(args, from) + close =~= arg.text() + after);
        lemma_lead_skipped(lead, arg, after);
        assert(after[0] == ',');
        lemma_typed_name_in_text(arg, after);
        lemma_whitespace_skipped(after);
        let rest = " "@ + tail;
        assert(after.skip(1) =~= rest);
        assert(Construct::spec_identifier_type_comma(text) == Ok::<
            (FunctionDecArgView, Seq<char>),
            ParseError,
        >((arg, rest)));
        assert(rule(text) == Construct::spec_identifier_type_comma(text));
        lemma_identifier_shape(arg.name);
        assert(rest.len() < text.len());
        lemma_typed_names_before_last(args, from + 1, " "@);
        assert(seq![arg] + args.subrange(from + 1, args.len() - 1) =~= args.subrange(
            from,
            args.len() - 1,
        ));
    }
}

/// The arguments of a declaration that are written down and read back are
/// the same arguments, in the same order, and nothing of the text is left.
/// A declaration without arguments is read back as the empty list.
pub proof fn lemma_args_round_trip(args: Seq<FunctionDecArgView>)
    requires
        forall|i: int| 0 <= i < args.len() ==> is_typed_name(#[trigger] args[i]),
    ensures
        Construct::spec_args_dec(args_text(args)) == Ok::<
            (Seq<FunctionDecArgView>, Seq<char>),
            ParseError,
        >((args, Seq::empty())),
{
    lemma_punctuation();
    let nothing = Seq::<char>::empty();
    let close = ")"@;
    let text = args_text(args);
    let inner = typed_list_text(args, 0) + close;
    assert(text =~= "("@ + inner);
    assert(text[0] == '(');
    assert(text.skip(1) =~= inner);
    assert(close.skip(1) =~= nothing);
    assert(Token::spec_symbol(text, '(') == Ok::<((), Seq<char>), ParseError>(((), inner)));
    assert(Token::spec_symbol(close, ')') == Ok::<((), Seq<char>), ParseError>(((), nothing)));
    if args.len() == 0 {
        assert(typed_list_text(args, 0) =~= nothing);
        assert(inner =~= close);
        lemma_whitespace_skipped(close);
        assert(Construct::spec_args_dec_empty(text) == Ok::<
            (Seq<FunctionDecArgView>, Seq<char>),
            ParseError,
        >((Seq::empty(), nothing)));
        assert(args =~= Seq::<FunctionDecArgView>::empty());
    } else {
        let first = args[0];
        let last = args.last();
        let front = args.subrange(0, args.len() - 1);
        lemma_identifier_shape(first.name);
        assert(first.text()[0] == first.name[0]);
        assert(typed_list_text(args, 0)[0] == first.name[0]);
        assert(inner[0] == first.name[0]);
        lemma_whitespace_skipped(inner);
        assert(Token::spec_symbol(inner, ')') is Err);
        assert(Construct::spec_args_dec_empty(text) == Err::<
            (Seq<FunctionDecArgView>, Seq<char>),
            ParseError,
        >(ParseError::Error(ParseErrorKind::Char)));
        assert(nothing + inner =~= inner);
        lemma_typed_names_before_last(args, 0, nothing);
        let lead = if args.len() == 1 {
            nothing
        } else {
            " "@
        };
        let before_last = lead + (last.text() + close);
        assert(spec_many0(Construct::identifier_type_comma_rule(), inner) == Ok::<
            (Seq<FunctionDecArgView>, Seq<char>),
            ParseError,
        >((front, before_last)));
        lemma_lead_skipped(lead, last, close);
        lemma_typed_name_in_text(last, close);
        assert(front.push(last) =~= args);
        assert(Construct::spec_args_dec_non_empty(text) == Ok::<
            (Seq<FunctionDecArgView>, Seq<char>),
            ParseError,
        >((args, nothing)));
    }
}

} // verus!
