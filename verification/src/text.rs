//! Characters and character buffers: the classes the lexer tells apart, runs
//! of one class, and the conversions between strings and buffers.

use vstd::prelude::*;
use vstd::string::StringExecFns;

verus! {

/// The sets of characters that the lexer scans runs of.
#[derive(Copy, Clone, Debug, PartialEq, Eq, Structural)]
pub enum CharClass {
    /// Space, tab, line feed, carriage return.
    Whitespace,
    /// The ten decimal digits.
    Digit,
    /// ASCII letters, decimal digits and the underscore.
    Word,
    /// Everything but the double quote.
    Quoted,
    /// Everything but the line feed.
    Line,
}

pub open spec fn is_whitespace(c: char) -> bool {
    c == ' ' || c == '\t' || c == '\n' || c == '\r'
}

pub open spec fn is_digit(c: char) -> bool {
    '0' <= c <= '9'
}

pub open spec fn is_letter(c: char) -> bool {
    'a' <= c <= 'z' || 'A' <= c <= 'Z'
}

pub open spec fn is_word(c: char) -> bool {
    is_letter(c) || is_digit(c) || c == '_'
}

pub open spec fn class_has(class: CharClass, c: char) -> bool {
    match class {
        CharClass::Whitespace => is_whitespace(c),
        CharClass::Digit => is_digit(c),
        CharClass::Word => is_word(c),
        CharClass::Quoted => c != '"',
        CharClass::Line => c != '\n',
    }
}

/// Whether `c` belongs to `class`.
pub fn in_class(class: CharClass, c: char) -> (yes: bool)
    ensures
        yes == class_has(class, c),
{
    match class {
        CharClass::Whitespace => c == ' ' || c == '\t' || c == '\n' || c == '\r',
        CharClass::Digit => '0' <= c && c <= '9',
        CharClass::Word => ('a' <= c && c <= 'z') || ('A' <= c && c <= 'Z') || ('0' <= c && c
            <= '9') || c == '_',
        CharClass::Quoted => c != '"',
        CharClass::Line => c != '\n',
    }
}

/// The length of the longest prefix of `s` made of characters of `class`.
pub open spec fn run_len(s: Seq<char>, class: CharClass) -> nat
    decreases s.len(),
{
    if s.len() > 0 && class_has(class, s[0]) {
        1 + run_len(s.skip(1), class)
    } else {
        0
    }
}

/// A suffix of a suffix is a suffix, and the first character of a suffix is
/// the character at its offset.
pub proof fn lemma_skip_step(s: Seq<char>, i: int)
    requires
        0 <= i < s.len(),
    ensures
        s.skip(i).len() == s.len() - i,
        s.skip(i)[0] == s[i],
        s.skip(i).skip(1) == s.skip(i + 1),
{
    assert(s.skip(i).skip(1) =~= s.skip(i + 1));
}

/// Leaving `a` characters out and then `b` more leaves `a + b` out.
pub proof fn lemma_skip_skip(s: Seq<char>, a: int, b: int)
    requires
        0 <= a,
        0 <= b,
        a + b <= s.len(),
    ensures
        s.skip(a).skip(b) == s.skip(a + b),
        s.skip(a).take(b) == s.subrange(a, a + b),
{
    assert(s.skip(a).skip(b) =~= s.skip(a + b));
    assert(s.skip(a).take(b) =~= s.subrange(a, a + b));
}

/// A run is never longer than the text it is taken from.
pub proof fn lemma_run_bounded(s: Seq<char>, class: CharClass)
    ensures
        run_len(s, class) <= s.len(),
    decreases s.len(),
{
    if s.len() > 0 && class_has(class, s[0]) {
        lemma_run_bounded(s.skip(1), class);
    }
}

/// A prefix whose characters all belong to `class`, followed by the end of the
/// text or by a character outside `class`, is the run.
pub proof fn lemma_run_is(s: Seq<char>, class: CharClass, n: int)
    requires
        0 <= n <= s.len(),
        forall|i: int| 0 <= i < n ==> class_has(class, #[trigger] s[i]),
        n < s.len() ==> !class_has(class, s[n]),
    ensures
        run_len(s, class) == n,
    decreases n,
{
    if n > 0 {
        let t = s.skip(1);
        assert forall|i: int| 0 <= i < n - 1 implies class_has(class, #[trigger] t[i]) by {
            assert(t[i] == s[i + 1]);
        }
        if n - 1 < t.len() {
            assert(t[n - 1] == s[n]);
        }
        lemma_run_is(t, class, n - 1);
    }
}

/// Every character of a run belongs to the class, and the character after it,
/// if there is one, does not.
pub proof fn lemma_run_holds(s: Seq<char>, class: CharClass)
    ensures
        forall|i: int| 0 <= i < run_len(s, class) ==> class_has(class, #[trigger] s[i]),
        run_len(s, class) < s.len() ==> !class_has(class, s[run_len(s, class) as int]),
    decreases s.len(),
{
    if s.len() > 0 && class_has(class, s[0]) {
        let t = s.skip(1);
        lemma_run_holds(t, class);
        lemma_run_bounded(t, class);
        assert forall|i: int| 0 <= i < run_len(s, class) implies class_has(
            class,
            #[trigger] s[i],
        ) by {
            if i > 0 {
                assert(s[i] == t[i - 1]);
            }
        }
        if run_len(s, class) < s.len() {
            assert(s[run_len(s, class) as int] == t[run_len(t, class) as int]);
        }
    }
}

/// The end of the run of `class` that starts at `pos`.
pub fn scan(src: &Vec<char>, pos: usize, class: CharClass) -> (next: usize)
    requires
        pos <= src.len(),
    ensures
        pos <= next <= src.len(),
        next == pos + run_len(src@.skip(pos as int), class),
{
    let mut i: usize = pos;
    while i < src.len() && in_class(class, src[i])
        invariant
            pos <= i <= src.len(),
            run_len(src@.skip(pos as int), class) == (i - pos) + run_len(
                src@.skip(i as int),
                class,
            ),
        decreases src.len() - i,
    {
        proof {
            lemma_skip_step(src@, i as int);
        }
        i = i + 1;
    }
    proof {
        if i < src.len() {
            lemma_skip_step(src@, i as int);
        }
    }
    i
}

/// The characters of `text`, in order.
pub fn to_chars(text: &str) -> (chars: Vec<char>)
    ensures
        chars@ == text@,
{
    let mut chars: Vec<char> = Vec::new();
    for c in it: text.chars()
        invariant
            chars@ == it.seq().take(it.index()),
            it.seq() == text@,
    {
        chars.push(c);
    }
    chars
}

/// `String::push` of std: the string gains the character at its end.
pub assume_specification[ String::push ](s: &mut String, ch: char)
    ensures
        final(s)@ == old(s)@.push(ch),
;

/// `str`'s own `==`, which holds of two texts with the same characters in the
/// same order and of no others.
#[verifier::external_body]
pub(crate) fn same_text(a: &str, b: &str) -> (same: bool)
    ensures
        same == (a@ == b@),
{
    a == b
}

/// The text `first` followed by the text `second`.
pub fn join(first: &str, second: &str) -> (text: String)
    ensures
        text@ == first@ + second@,
{
    let mut text = String::from_str(first);
    text.append(second);
    text
}

/// The characters of `src` from `from` up to `to`, as a string.
pub fn slice_to_string(src: &Vec<char>, from: usize, to: usize) -> (s: String)
    requires
        from <= to <= src.len(),
    ensures
        s@ == src@.subrange(from as int, to as int),
{
    let mut s = String::new();
    let mut i: usize = from;
    while i < to
        invariant
            from <= i <= to <= src.len(),
            s@ == src@.subrange(from as int, i as int),
        decreases to - i,
    {
        s.push(src[i]);
        i = i + 1;
        assert(s@ =~= src@.subrange(from as int, i as int));
    }
    s
}

/// The number that a decimal digit stands for.
pub open spec fn digit_value(c: char) -> int {
    c as int - '0' as int
}

/// The number that a text of decimal digits stands for.
pub open spec fn decimal_value(digits: Seq<char>) -> nat
    decreases digits.len(),
{
    if digits.len() == 0 {
        0
    } else {
        (decimal_value(digits.drop_last()) * 10 + digit_value(digits.last())) as nat
    }
}

/// The largest magnitude of a 64-bit signed integer, that of its least value.
pub const MAGNITUDE_LIMIT: u64 = 0x8000_0000_0000_0000;

/// The number that the digits of `src` from `from` up to `to` stand for, or
/// `None` where it is larger than [`MAGNITUDE_LIMIT`].
pub fn read_decimal(src: &Vec<char>, from: usize, to: usize) -> (value: Option<u64>)
    requires
        from <= to <= src.len(),
        forall|i: int| from <= i < to ==> is_digit(#[trigger] src@[i]),
    ensures
        match value {
            Some(v) => v == decimal_value(src@.subrange(from as int, to as int)) && v
                <= MAGNITUDE_LIMIT,
            None => decimal_value(src@.subrange(from as int, to as int)) > MAGNITUDE_LIMIT,
        },
{
    let mut acc: u64 = 0;
    let mut i: usize = from;
    assert(src@.subrange(from as int, from as int) =~= Seq::<char>::empty());
    while i < to
        invariant
            from <= i <= to <= src.len(),
            forall|k: int| from <= k < to ==> is_digit(#[trigger] src@[k]),
            acc == decimal_value(src@.subrange(from as int, i as int)),
            acc <= MAGNITUDE_LIMIT,
        decreases to - i,
    {
        let c = src[i];
        let d: u64 = (c as u32 - '0' as u32) as u64;
        proof {
            let next = src@.subrange(from as int, i + 1);
            assert(next.drop_last() =~= src@.subrange(from as int, i as int));
            assert(next.last() == c);
            assert(is_digit(src@[i as int]));
            assert(decimal_value(next) == acc * 10 + d);
        }
        if acc > (MAGNITUDE_LIMIT - d) / 10 {
            proof {
                lemma_decimal_grows(src@, from as int, i + 1, to as int);
            }
            return None;
        }
        acc = acc * 10 + d;
        i = i + 1;
    }
    Some(acc)
}

/// Reading more digits never gives a smaller number.
pub proof fn lemma_decimal_grows(s: Seq<char>, from: int, mid: int, to: int)
    requires
        0 <= from <= mid <= to <= s.len(),
        forall|i: int| from <= i < to ==> is_digit(#[trigger] s[i]),
    ensures
        decimal_value(s.subrange(from, mid)) <= decimal_value(s.subrange(from, to)),
    decreases to - mid,
{
    if mid < to {
        lemma_decimal_grows(s, from, mid, to - 1);
        let whole = s.subrange(from, to);
        assert(whole.drop_last() =~= s.subrange(from, to - 1));
        assert(whole.last() == s[to - 1]);
        assert(is_digit(s[to - 1]));
    }
}

/// The decimal digit that stands for `d`.
pub open spec fn digit_char(d: int) -> char {
    if d == 0 {
        '0'
    } else if d == 1 {
        '1'
    } else if d == 2 {
        '2'
    } else if d == 3 {
        '3'
    } else if d == 4 {
        '4'
    } else if d == 5 {
        '5'
    } else if d == 6 {
        '6'
    } else if d == 7 {
        '7'
    } else if d == 8 {
        '8'
    } else {
        '9'
    }
}

/// The digits of `n` in base ten, without leading zeros.
pub open spec fn decimal_text(n: nat) -> Seq<char>
    decreases n,
{
    if n < 10 {
        seq![digit_char(n as int)]
    } else {
        decimal_text(n / 10).push(digit_char((n % 10) as int))
    }
}

/// The text of an integer: a minus sign where it is negative, and the digits
/// of its magnitude.
pub open spec fn int_text(i: int) -> Seq<char> {
    if i < 0 {
        seq!['-'] + decimal_text((-i) as nat)
    } else {
        decimal_text(i as nat)
    }
}

/// The digits of a number are digits, and they stand for the number.
pub proof fn lemma_decimal_text(n: nat)
    ensures
        decimal_text(n).len() >= 1,
        forall|i: int| 0 <= i < decimal_text(n).len() ==> is_digit(#[trigger] decimal_text(n)[i]),
        decimal_value(decimal_text(n)) == n,
    decreases n,
{
    if n < 10 {
        let t = decimal_text(n);
        assert(t.drop_last() =~= Seq::<char>::empty());
        assert(decimal_value(t.drop_last()) == 0);
    } else {
        lemma_decimal_text(n / 10);
        let t = decimal_text(n);
        assert(t.drop_last() =~= decimal_text(n / 10));
        assert(t.last() == digit_char((n % 10) as int));
    }
}

/// The digit that stands for `d`.
pub fn digit_of(d: u64) -> (c: char)
    requires
        d < 10,
    ensures
        c == digit_char(d as int),
{
    if d == 0 {
        '0'
    } else if d == 1 {
        '1'
    } else if d == 2 {
        '2'
    } else if d == 3 {
        '3'
    } else if d == 4 {
        '4'
    } else if d == 5 {
        '5'
    } else if d == 6 {
        '6'
    } else if d == 7 {
        '7'
    } else if d == 8 {
        '8'
    } else {
        '9'
    }
}

/// Appends the digits of `n` to `out`.
pub fn push_decimal(out: &mut String, n: u64)
    ensures
        final(out)@ == old(out)@ + decimal_text(n as nat),
    decreases n,
{
    if n < 10 {
        out.push(digit_of(n));
        assert(out@ =~= old(out)@ + decimal_text(n as nat));
    } else {
        push_decimal(out, n / 10);
        out.push(digit_of(n % 10));
        assert(out@ =~= old(out)@ + decimal_text(n as nat));
    }
}

/// Appends the text of `i` to `out`.
pub fn push_int(out: &mut String, i: i64)
    ensures
        final(out)@ == old(out)@ + int_text(i as int),
{
    if i < 0 {
        out.push('-');
        let magnitude: u64 = if i == i64::MIN {
            MAGNITUDE_LIMIT
        } else {
            (-i) as u64
        };
        push_decimal(out, magnitude);
        assert(out@ =~= old(out)@ + int_text(i as int));
    } else {
        push_decimal(out, i as u64);
    }
}

} // verus!
