use jinko::error::{ErrKind, ErrSpaceLocation, Error};
use jinko::parser::constructs::Construct;
use jinko::parser::{ParseError, ParseErrorKind};

#[test]
fn errors_are_built_piece_by_piece() {
    let bare = Error::new(ErrKind::Interpreter);
    assert_eq!(bare.kind(), ErrKind::Interpreter);
    assert_eq!(bare.msg(), "");

    let loc = ErrSpaceLocation::new(3, 14, "x = ;");
    assert_eq!(loc.line, 3);
    assert_eq!(loc.offset, 14);
    assert_eq!(loc.input, "x = ;");

    let full = Error::new(ErrKind::Parsing)
        .with_msg("first".to_owned())
        .with_loc(loc)
        .with_msg("no value".to_owned());
    assert_eq!(full.kind(), ErrKind::Parsing);
    assert_eq!(full.msg(), "no value");
    assert_ne!(full, Error::new(ErrKind::Parsing).with_msg("no value".to_owned()));
    assert_eq!(
        full,
        Error::new(ErrKind::Parsing)
            .with_msg("no value".to_owned())
            .with_loc(ErrSpaceLocation::new(3, 14, "x = ;"))
    );
}

#[test]
fn exit_codes_follow_the_kind() {
    assert_eq!(Error::new(ErrKind::Parsing).exit_code(), 1);
    assert_eq!(Error::new(ErrKind::Interpreter).exit_code(), 2);
    assert_eq!(Error::new(ErrKind::IO).exit_code(), 3);
}

#[test]
fn kinds_have_names() {
    assert_eq!(ErrKind::Parsing.name(), "parsing");
    assert_eq!(ErrKind::Interpreter.name(), "interpreter");
    assert_eq!(ErrKind::IO.name(), "i/o");
}

#[test]
fn reports_have_two_lines() {
    let err = Error::new(ErrKind::IO).with_msg("disk on fire".to_owned());
    assert_eq!(
        err.report_with("i/o"),
        ("error type: i/o".to_owned(), "disk on fire".to_owned())
    );
    assert_eq!(
        Error::new(ErrKind::IO).report_with("?"),
        ("error type: ?".to_owned(), String::new())
    );
}

#[test]
fn reports_paint_the_kind_in_red() {
    colored::control::set_override(true);
    let (kind, message) = Error::new(ErrKind::Parsing)
        .with_msg("unexpected".to_owned())
        .report();
    assert_eq!(kind, "error type: \x1b[31mparsing\x1b[0m");
    assert_eq!(message, "unexpected");
    colored::control::unset_override();
}

#[test]
fn parse_failures_are_worded_by_nom() {
    let failure = Construct::constant("x").unwrap_err();
    assert_eq!(failure, ParseError::Error(ParseErrorKind::OneOf));
    assert!(!failure.fatal());
    assert_eq!(failure.kind(), ParseErrorKind::OneOf);

    let err = Error::from_parse(failure, "x");
    assert_eq!(err.kind(), ErrKind::Parsing);
    assert_eq!(err.msg(), "Parsing Error: (\"x\", OneOf)");

    let fatal = Error::from_parse(ParseError::Failure(ParseErrorKind::Char), "1 + 2)");
    assert_eq!(fatal.msg(), "Parsing Failure: (\"1 + 2)\", Char)");
    assert!(ParseError::Failure(ParseErrorKind::Char).fatal());
}
