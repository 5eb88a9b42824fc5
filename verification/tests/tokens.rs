use jinko::parser::tokens::Token;
use jinko::parser::{ParseError, ParseErrorKind};
use jinko::text::{in_class, read_decimal, scan, slice_to_string, to_chars, CharClass};

fn chars(text: &str) -> Vec<char> {
    text.chars().collect()
}

fn error<T>(kind: ParseErrorKind) -> Result<T, ParseError> {
    Err(ParseError::Error(kind))
}

#[test]
fn symbols_and_tags() {
    let src = chars("-> x");
    assert_eq!(Token::symbol(&src, 0, '-'), Ok((1, ())));
    assert_eq!(Token::symbol(&src, 1, '-'), error(ParseErrorKind::Char));
    assert_eq!(Token::symbol(&src, 4, 'x'), error(ParseErrorKind::Char));
    assert_eq!(Token::tag(&src, 0, "->"), Ok((2, ())));
    assert_eq!(Token::tag(&src, 1, "->"), error(ParseErrorKind::Tag));
    assert_eq!(Token::tag(&src, 3, "xy"), error(ParseErrorKind::Tag));
    assert_eq!(Token::tag(&src, 0, ""), Ok((0, ())));
}

#[test]
fn keywords_end_with_whitespace() {
    assert_eq!(Token::keyword(&chars("mut  x"), 0, "mut"), Ok((5, ())));
    assert_eq!(
        Token::keyword(&chars("mut_x"), 0, "mut"),
        error(ParseErrorKind::Tag)
    );
    assert_eq!(
        Token::keyword(&chars("mut"), 0, "mut"),
        error(ParseErrorKind::Tag)
    );
    assert_eq!(
        Token::keyword(&chars("func f"), 0, "mut"),
        error(ParseErrorKind::Tag)
    );
}

#[test]
fn identifiers_start_with_a_letter_or_an_underscore() {
    assert_eq!(
        Token::identifier(&chars("x_99 = 1"), 0),
        Ok((4, "x_99".to_owned()))
    );
    assert_eq!(
        Token::identifier(&chars("_private("), 0),
        Ok((8, "_private".to_owned()))
    );
    assert_eq!(
        Token::identifier(&chars("9lives"), 0),
        error(ParseErrorKind::TakeWhile1)
    );
    assert_eq!(
        Token::identifier(&chars(""), 0),
        error(ParseErrorKind::TakeWhile1)
    );
    assert_eq!(
        Token::identifier(&chars("a b"), 1),
        error(ParseErrorKind::TakeWhile1)
    );
}

#[test]
fn whitespace_and_comments_are_skipped() {
    let src = chars(" \t\r\n x");
    assert_eq!(Token::maybe_consume_whitespaces(&src, 0), 5);
    assert_eq!(Token::maybe_consume_whitespaces(&src, 5), 5);
    let src = chars("  // one\n// two\n  x // three");
    assert_eq!(Token::maybe_consume_whitespaces(&src, 0), 2);
    assert_eq!(Token::maybe_consume_extra(&src, 0), 18);
    assert_eq!(Token::maybe_consume_extra(&src, 19), src.len());
    // One slash starts no comment.
    assert_eq!(Token::maybe_consume_extra(&chars(" / x"), 0), 1);
}

#[test]
fn char_and_string_literals() {
    assert_eq!(Token::char_constant(&chars("'a'b"), 0), Ok((3, 'a')));
    assert_eq!(
        Token::char_constant(&chars("'ab'"), 0),
        error(ParseErrorKind::Char)
    );
    assert_eq!(
        Token::char_constant(&chars("'a"), 0),
        error(ParseErrorKind::Char)
    );
    assert_eq!(
        Token::string_constant(&chars("\"a b\"c"), 0),
        Ok((5, "a b".to_owned()))
    );
    assert_eq!(
        Token::string_constant(&chars("\"open"), 0),
        error(ParseErrorKind::Char)
    );
    assert_eq!(
        Token::string_constant(&chars("a\""), 0),
        error(ParseErrorKind::Char)
    );
}

#[test]
fn number_literals() {
    assert_eq!(Token::int_constant(&chars("129;"), 0), Ok((3, 129)));
    assert_eq!(Token::int_constant(&chars("-0012"), 0), Ok((5, -12)));
    assert_eq!(
        Token::int_constant(&chars("-"), 0),
        error(ParseErrorKind::TakeWhile1)
    );
    assert_eq!(
        Token::int_constant(&chars("9223372036854775808"), 0),
        error(ParseErrorKind::TooLarge)
    );
    assert_eq!(
        Token::int_constant(&chars("-9223372036854775809"), 0),
        error(ParseErrorKind::TooLarge)
    );
    assert_eq!(
        Token::int_constant(&chars("99999999999999999999999999"), 0),
        error(ParseErrorKind::TooLarge)
    );
    assert_eq!(
        Token::float_constant(&chars("-12.50x"), 0),
        Ok((6, "-12.50".to_owned()))
    );
    assert_eq!(
        Token::float_constant(&chars("12"), 0),
        error(ParseErrorKind::Char)
    );
    assert_eq!(
        Token::float_constant(&chars("12."), 0),
        error(ParseErrorKind::TakeWhile1)
    );
    assert_eq!(
        Token::float_constant(&chars(".5"), 0),
        error(ParseErrorKind::TakeWhile1)
    );
}

#[test]
fn runs_of_a_class() {
    let src = to_chars("abc_12 34");
    assert_eq!(src, chars("abc_12 34"));
    assert_eq!(scan(&src, 0, CharClass::Word), 6);
    assert_eq!(scan(&src, 0, CharClass::Digit), 0);
    assert_eq!(scan(&src, 4, CharClass::Digit), 6);
    assert_eq!(scan(&src, 6, CharClass::Whitespace), 7);
    assert_eq!(scan(&src, 0, CharClass::Quoted), 9);
    assert_eq!(scan(&src, 9, CharClass::Line), 9);
    assert!(in_class(CharClass::Word, '_'));
    assert!(!in_class(CharClass::Word, '-'));
    assert!(!in_class(CharClass::Quoted, '"'));
    assert!(!in_class(CharClass::Line, '\n'));
    assert_eq!(slice_to_string(&src, 4, 6), "12");
    assert_eq!(read_decimal(&src, 4, 6), Some(12));
    assert_eq!(read_decimal(&src, 4, 4), Some(0));
    assert_eq!(
        read_decimal(&chars("9223372036854775808"), 0, 19),
        Some(9223372036854775808)
    );
    assert_eq!(read_decimal(&chars("9223372036854775809"), 0, 19), None);
}
