//! Typed failures shared by the parser and the interpreter.

use crate::parser::{ParseError, ParseErrorKind};
use crate::text::join;
use colored::Colorize;
use vstd::prelude::*;
use vstd::string::StringExecFns;

verus! {

/// Where in a source text a failure was detected.
#[derive(Debug, PartialEq)]
pub struct ErrSpaceLocation {
    pub line: usize,
    pub offset: usize,
    pub input: &'static str,
}

impl ErrSpaceLocation {
    pub fn new(line: usize, offset: usize, input: &'static str) -> (loc: ErrSpaceLocation)
        ensures
            loc.line == line,
            loc.offset == offset,
            loc.input == input,
    {
        ErrSpaceLocation { line, offset, input }
    }
}

/// The three families of failure.
#[derive(Copy, Clone, Debug, PartialEq, Eq, Structural)]
pub enum ErrKind {
    Parsing,
    Interpreter,
    IO,
}

/// The process exit status that stands for a kind of failure: one for a
/// parsing failure, two for an interpreter failure, three for an I/O failure.
pub open spec fn exit_status(kind: ErrKind) -> int {
    match kind {
        ErrKind::Parsing => 1,
        ErrKind::Interpreter => 2,
        ErrKind::IO => 3,
    }
}

/// The name of a kind of failure, as it is shown in reports.
pub open spec fn kind_name(kind: ErrKind) -> Seq<char> {
    match kind {
        ErrKind::Parsing => "parsing"@,
        ErrKind::Interpreter => "interpreter"@,
        ErrKind::IO => "i/o"@,
    }
}

/// A text between the escape sequences that switch a terminal to red and
/// back.
pub open spec fn in_red(text: Seq<char>) -> Seq<char> {
    seq!['\x1b', '[', '3', '1', 'm'] + text + seq!['\x1b', '[', '0', 'm']
}

/// What nom writes for a failure of a rule on the text `context`.
pub uninterp spec fn nom_failure_text(failure: ParseError, context: Seq<char>) -> Seq<char>;

/// `red` of the crate colored, written out as a string. Whether colors are
/// used is decided by colored from the environment of the process: the
/// result is the text as it is, or, for a text that holds no escape
/// character, the text between the sequences for red and for reset.
#[verifier::external_body]
fn paint_red(text: &str) -> (painted: String)
    ensures
        !text@.contains('\x1b') ==> painted@ == text@ || painted@ == in_red(text@),
{
    text.red().to_string()
}

/// The `Display` of `nom::Err` over a text and an `ErrorKind`, for the
/// failure of nom that stands for `failure`: the text that nom writes is a
/// function of the failure and of the context.
#[verifier::external_body]
fn nom_text(failure: ParseError, context: &str) -> (text: String)
    ensures
        text@ == nom_failure_text(failure, context@),
{
    let code = match failure {
        ParseError::Error(k) | ParseError::Failure(k) => match k {
            ParseErrorKind::Char => nom::error::ErrorKind::Char,
            ParseErrorKind::Tag => nom::error::ErrorKind::Tag,
            ParseErrorKind::TakeWhile1 => nom::error::ErrorKind::TakeWhile1,
            ParseErrorKind::TooLarge => nom::error::ErrorKind::TooLarge,
            ParseErrorKind::OneOf => nom::error::ErrorKind::OneOf,
            ParseErrorKind::Many1 => nom::error::ErrorKind::Many1,
        },
    };
    match failure {
        ParseError::Error(_) => nom::Err::Error((context, code)).to_string(),
        ParseError::Failure(_) => nom::Err::Failure((context, code)).to_string(),
    }
}

impl ErrKind {
    /// The name of the kind, as it is shown in reports.
    pub fn name(&self) -> (name: &'static str)
        ensures
            name@ == kind_name(*self),
    {
        match self {
            ErrKind::Parsing => "parsing",
            ErrKind::Interpreter => "interpreter",
            ErrKind::IO => "i/o",
        }
    }
}

/// The names of the kinds hold no escape character.
proof fn lemma_kind_names_are_plain(kind: ErrKind)
    ensures
        !kind_name(kind).contains('\x1b'),
{
    reveal_strlit("parsing");
    reveal_strlit("interpreter");
    reveal_strlit("i/o");
    let name = kind_name(kind);
    assert forall|i: int| 0 <= i < name.len() implies name[i] != '\x1b' by {
        match kind {
            ErrKind::Parsing => {
                assert(name.len() == 7);
            },
            ErrKind::Interpreter => {
                assert(name.len() == 11);
            },
            ErrKind::IO => {
                assert(name.len() == 3);
            },
        }
    }
}

/// A failure: its kind, an optional message and an optional location.
#[derive(Debug, PartialEq)]
pub struct Error {
    kind: ErrKind,
    msg: Option<String>,
    loc: Option<ErrSpaceLocation>,
}

/// What an [`Error`] holds, as plain values.
pub struct ErrorView {
    pub kind: ErrKind,
    pub msg: Option<Seq<char>>,
    pub loc: Option<ErrSpaceLocation>,
}

impl View for Error {
    type V = ErrorView;

    closed spec fn view(&self) -> ErrorView {
        ErrorView {
            kind: self.kind,
            msg: match self.msg {
                Some(m) => Some(m@),
                None => None,
            },
            loc: self.loc,
        }
    }
}

/// A failure of the interpreter with the message `msg` and no location.
pub open spec fn interpreter_error(msg: Seq<char>) -> ErrorView {
    ErrorView { kind: ErrKind::Interpreter, msg: Some(msg), loc: None }
}

impl Error {
    /// A failure of the interpreter with the message `msg`.
    pub fn interpreter(msg: String) -> (err: Error)
        ensures
            err@ == interpreter_error(msg@),
    {
        Error { kind: ErrKind::Interpreter, msg: Some(msg), loc: None }
    }

    /// A failure of the given kind, with neither message nor location.
    pub fn new(kind: ErrKind) -> (err: Error)
        ensures
            err@ == (ErrorView { kind, msg: None, loc: None }),
    {
        Error { kind, msg: None, loc: None }
    }

    /// The same failure with its message replaced.
    pub fn with_msg(self, msg: String) -> (err: Error)
        ensures
            err@ == (ErrorView { msg: Some(msg@), ..self@ }),
    {
        Error { kind: self.kind, msg: Some(msg), loc: self.loc }
    }

    /// The same failure with its location replaced.
    pub fn with_loc(self, loc: ErrSpaceLocation) -> (err: Error)
        ensures
            err@ == (ErrorView { loc: Some(loc), ..self@ }),
    {
        Error { kind: self.kind, msg: self.msg, loc: Some(loc) }
    }

    pub fn kind(&self) -> (kind: ErrKind)
        ensures
            kind == self@.kind,
    {
        self.kind
    }

    /// The message, or the empty text where there is none.
    pub fn msg(&self) -> (msg: &str)
        ensures
            msg@ == match self@.msg {
                Some(m) => m,
                None => Seq::<char>::empty(),
            },
    {
        match &self.msg {
            Some(m) => m.as_str(),
            None => {
                proof {
                    reveal_strlit("");
                }
                ""
            },
        }
    }

    /// A failure to parse, with the message that nom writes for `failure`
    /// on the text `input`.
    pub fn from_parse(failure: ParseError, input: &str) -> (err: Error)
        ensures
            err@ == (ErrorView {
                kind: ErrKind::Parsing,
                msg: Some(nom_failure_text(failure, input@)),
                loc: None,
            }),
    {
        Error::new(ErrKind::Parsing).with_msg(nom_text(failure, input))
    }

    /// The two lines of the report of the failure, where `label` is what
    /// stands for its kind: the first line names the kind, the second one is
    /// the message, or empty without a message.
    pub fn report_with(&self, label: &str) -> (lines: (String, String))
        ensures
            lines.0@ == "error type: "@ + label@,
            lines.1@ == match self@.msg {
                Some(m) => m,
                None => Seq::<char>::empty(),
            },
    {
        (join("error type: ", label), String::from_str(self.msg()))
    }

    /// The two lines of the report of the failure. The name of the kind is
    /// in red where colors are in use.
    pub fn report(&self) -> (lines: (String, String))
        ensures
            lines.0@ == "error type: "@ + kind_name(self@.kind) || lines.0@ == "error type: "@
                + in_red(kind_name(self@.kind)),
            lines.1@ == match self@.msg {
                Some(m) => m,
                None => Seq::<char>::empty(),
            },
    {
        proof {
            lemma_kind_names_are_plain(self.kind);
        }
        let label = paint_red(self.kind.name());
        self.report_with(label.as_str())
    }

    /// The exit status a process reports when it stops on this failure.
    pub fn exit_code(&self) -> (code: i32)
        ensures
            code == exit_status(self@.kind),
    {
        match self.kind {
            ErrKind::Parsing => 1,
            ErrKind::Interpreter => 2,
            ErrKind::IO => 3,
        }
    }
}

} // verus!
