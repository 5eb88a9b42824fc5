//! From source text to instructions: the lexer, the grammar rules and the
//! operator-precedence expression parser.

use vstd::prelude::*;
use vstd::string::StrSliceExecFns;

pub mod constructs;
pub mod round_trip;
pub mod shunting_yard;
pub mod tokens;

verus! {

/// Why a rule did not match.
#[derive(Copy, Clone, Debug, PartialEq, Eq, Structural)]
pub enum ParseErrorKind {
    /// A given character was expected.
    Char,
    /// A given word was expected.
    Tag,
    /// At least one character of a class was expected.
    TakeWhile1,
    /// A number does not fit its type.
    TooLarge,
    /// None of the forms that a rule accepts was found.
    OneOf,
    /// A rule that must match at least once did not match at all.
    Many1,
}

/// A rule that did not match. After an `Error` another rule may be tried on
/// the same text; a `Failure` ends the parse.
#[derive(Copy, Clone, Debug, PartialEq, Eq, Structural)]
pub enum ParseError {
    Error(ParseErrorKind),
    Failure(ParseErrorKind),
}

/// What a rule makes of a text: a value and the text left after it, or the
/// reason why it does not match.
pub type Parsed<T> = Result<(T, Seq<char>), ParseError>;

/// `found`, the outcome of a rule applied at `pos` in `src`, is what `rule`
/// gives for the text from `pos` on.
pub open spec fn found_at<T>(
    src: Seq<char>,
    pos: usize,
    found: Result<(usize, T), ParseError>,
    rule: Parsed<T>,
) -> bool {
    match found {
        Ok((next, value)) => pos <= next <= src.len() && rule == Ok::<(T, Seq<char>), ParseError>(
            (value, src.skip(next as int)),
        ),
        Err(e) => rule == Err::<(T, Seq<char>), ParseError>(e),
    }
}

/// As [`found_at`], for a value that is compared by its view.
pub open spec fn found_view_at<T: View>(
    src: Seq<char>,
    pos: usize,
    found: Result<(usize, T), ParseError>,
    rule: Parsed<T::V>,
) -> bool {
    match found {
        Ok((next, value)) => pos <= next <= src.len() && rule == Ok::<
            (T::V, Seq<char>),
            ParseError,
        >((value@, src.skip(next as int))),
        Err(e) => rule == Err::<(T::V, Seq<char>), ParseError>(e),
    }
}

/// As [`found_view_at`], for a rule applied to a whole text: what is left is
/// given as a text too.
pub open spec fn found_in<T: View>(found: Result<(&str, T), ParseError>, rule: Parsed<T::V>) -> bool {
    match found {
        Ok((rest, value)) => rule == Ok::<(T::V, Seq<char>), ParseError>((value@, rest@)),
        Err(e) => rule == Err::<(T::V, Seq<char>), ParseError>(e),
    }
}

/// A choice: `second` stands where `first` does not match but another rule
/// may.
pub open spec fn spec_alt<T>(first: Parsed<T>, second: Parsed<T>) -> Parsed<T> {
    match first {
        Err(ParseError::Error(_)) => second,
        _ => first,
    }
}

/// A repetition: `rule` is applied until it does not match or does not
/// advance, and the values come in the order they were read. A `Failure` of
/// `rule` is a failure of the repetition.
pub open spec fn spec_many0<T>(rule: spec_fn(Seq<char>) -> Parsed<T>, s: Seq<char>) -> Parsed<
    Seq<T>,
>
    decreases s.len(),
{
    match rule(s) {
        Ok((value, rest)) => if rest.len() < s.len() {
            match spec_many0(rule, rest) {
                Ok((values, left)) => Ok((seq![value] + values, left)),
                Err(e) => Err(e),
            }
        } else {
            Ok((Seq::empty(), s))
        },
        Err(ParseError::Error(_)) => Ok((Seq::empty(), s)),
        Err(e) => Err(e),
    }
}

/// The text from `next` on, where `src` holds the characters of `input`.
pub fn rest_of<'a>(input: &'a str, src: &Vec<char>, next: usize) -> (rest: &'a str)
    requires
        src@ == input@,
        next <= src.len(),
    ensures
        rest@ == input@.skip(next as int),
{
    input.substring_char(next, src.len())
}

impl ParseError {
    pub open spec fn is_fatal(self) -> bool {
        self is Failure
    }

    /// Whether the parse cannot go on after this.
    pub fn fatal(&self) -> (yes: bool)
        ensures
            yes == self.is_fatal(),
    {
        match self {
            ParseError::Error(_) => false,
            ParseError::Failure(_) => true,
        }
    }

    pub open spec fn spec_kind(self) -> ParseErrorKind {
        match self {
            ParseError::Error(k) => k,
            ParseError::Failure(k) => k,
        }
    }

    pub fn kind(&self) -> (kind: ParseErrorKind)
        ensures
            kind == self.spec_kind(),
    {
        match self {
            ParseError::Error(k) => *k,
            ParseError::Failure(k) => *k,
        }
    }
}

} // verus!
