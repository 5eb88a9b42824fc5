//! The functions that the interpreter provides under reserved names.

use crate::context::{Action, ActionView, Context, ContextView};
use crate::error::{interpreter_error, Error, ErrorView};
use crate::names::{find_last, Named};
use crate::text::{join, same_text};
use crate::value::{value_views, Value, ValueView};
use vstd::prelude::*;
use vstd::string::StringExecFns;

verus! {

/// A function of the interpreter.
#[derive(Copy, Clone, Debug, PartialEq, Eq, Structural)]
pub enum BuiltinFn {
    /// The length of a string, in bytes.
    StringLen,
    /// Two strings, one after the other.
    StringConcat,
    /// Writes a string to the standard output.
    StringDisplay,
    /// Writes a string to the standard error.
    StringDisplayErr,
    /// Whether a string is empty.
    StringIsEmpty,
    /// Whether two strings are equal.
    StringEquals,
    /// Links with a library, given by its path.
    FfiLinkWith,
    /// An argument of the process, given by its index.
    ArgGet,
}

/// A name and the function registered under it.
pub struct BuiltinEntry {
    pub name: Seq<char>,
    pub function: BuiltinFn,
}

impl Named for BuiltinEntry {
    open spec fn name(self) -> Seq<char> {
        self.name
    }
}

/// The functions of the interpreter, by name.
pub struct Builtins {
    functions: Vec<(String, BuiltinFn)>,
}

impl View for Builtins {
    type V = Seq<BuiltinEntry>;

    closed spec fn view(&self) -> Seq<BuiltinEntry> {
        Seq::new(
            self.functions@.len(),
            |i: int| BuiltinEntry { name: self.functions@[i].0@, function: self.functions@[i].1 },
        )
    }
}

/// The function that `name` stands for in `table`: the one registered last
/// under it.
pub open spec fn builtin_named(table: Seq<BuiltinEntry>, name: Seq<char>) -> Option<BuiltinFn> {
    match find_last(table, name) {
        Some(i) => Some(table[i].function),
        None => None,
    }
}

/// The table that every interpreter starts with.
pub open spec fn standard_builtins() -> Seq<BuiltinEntry> {
    seq![
        BuiltinEntry { name: "__builtin_string_len"@, function: BuiltinFn::StringLen },
        BuiltinEntry { name: "__builtin_string_concat"@, function: BuiltinFn::StringConcat },
        BuiltinEntry { name: "__builtin_string_display"@, function: BuiltinFn::StringDisplay },
        BuiltinEntry {
            name: "__builtin_string_display_err"@,
            function: BuiltinFn::StringDisplayErr,
        },
        BuiltinEntry { name: "__builtin_string_is_empty"@, function: BuiltinFn::StringIsEmpty },
        BuiltinEntry { name: "__builtin_string_equals"@, function: BuiltinFn::StringEquals },
        BuiltinEntry { name: "__builtin_ffi_link_with"@, function: BuiltinFn::FfiLinkWith },
        BuiltinEntry { name: "__builtin_arg_get"@, function: BuiltinFn::ArgGet },
    ]
}

impl Builtins {
    /// Registers `builtin_fn` under `name`. It takes the place of a function
    /// registered under the same name before.
    fn add(&mut self, name: &'static str, builtin_fn: BuiltinFn)
        ensures
            final(self)@ == old(self)@.push(BuiltinEntry { name: name@, function: builtin_fn }),
    {
        self.functions.push((String::from_str(name), builtin_fn));
        assert(self@ =~= old(self)@.push(BuiltinEntry { name: name@, function: builtin_fn }));
    }

    /// The functions of the interpreter, each under its name.
    pub fn new() -> (builtins: Builtins)
        ensures
            builtins@ == standard_builtins(),
    {
        let mut builtins = Builtins { functions: Vec::new() };
        assert(builtins@ =~= Seq::<BuiltinEntry>::empty());
        builtins.add("__builtin_string_len", BuiltinFn::StringLen);
        builtins.add("__builtin_string_concat", BuiltinFn::StringConcat);
        builtins.add("__builtin_string_display", BuiltinFn::StringDisplay);
        builtins.add("__builtin_string_display_err", BuiltinFn::StringDisplayErr);
        builtins.add("__builtin_string_is_empty", BuiltinFn::StringIsEmpty);
        builtins.add("__builtin_string_equals", BuiltinFn::StringEquals);
        builtins.add("__builtin_ffi_link_with", BuiltinFn::FfiLinkWith);
        builtins.add("__builtin_arg_get", BuiltinFn::ArgGet);
        assert(builtins@ =~= standard_builtins());
        builtins
    }

    /// Whether a function is registered under `name`.
    pub fn contains(&self, name: &str) -> (yes: bool)
        ensures
            yes == (builtin_named(self@, name@) is Some),
    {
        self.get(name).is_some()
    }

    /// The function registered under `builtin`.
    pub fn get(&self, builtin: &str) -> (function: Option<&BuiltinFn>)
        ensures
            match function {
                Some(f) => builtin_named(self@, builtin@) == Some(*f),
                None => builtin_named(self@, builtin@) is None,
            },
    {
        let mut i: usize = self.functions.len();
        assert(self@.take(i as int) =~= self@);
        while i > 0
            invariant
                i <= self.functions.len(),
                find_last(self@, builtin@) == find_last(self@.take(i as int), builtin@),
            decreases i,
        {
            i = i - 1;
            let ghost front = self@.take(i + 1);
            assert(front.last() == self@[i as int]);
            assert(front.drop_last() =~= self@.take(i as int));
            if same_text(self.functions[i].0.as_str(), builtin) {
                return Some(&self.functions[i].1);
            }
        }
        None
    }
}

/// What a call of a function of the interpreter gives: its value, if it has
/// one, or a failure; and the state after the call.
pub type BuiltinOutcome = (Result<Option<ValueView>, ErrorView>, ContextView);

/// The length of a text in bytes, in the UTF-8 encoding that strings are
/// kept in.
pub open spec fn byte_len(text: Seq<char>) -> usize {
    vstd::utf8::encode_utf8(text).len() as usize
}

/// The message of a call of a function of the interpreter with arguments
/// that it does not take.
pub open spec fn bad_arguments() -> ErrorView {
    interpreter_error("wrong arguments for a builtin function"@)
}

/// The length of a string: one argument, a string.
pub open spec fn spec_string_len(args: Seq<ValueView>, ctx: ContextView) -> BuiltinOutcome {
    if args.len() == 1 && args[0] is Str && byte_len(args[0]->Str_0) <= i64::MAX {
        (Ok(Some(ValueView::Int(byte_len(args[0]->Str_0) as i64))), ctx)
    } else {
        (Err(bad_arguments()), ctx)
    }
}

/// Two strings, one after the other: two arguments, both strings.
pub open spec fn spec_string_concat(args: Seq<ValueView>, ctx: ContextView) -> BuiltinOutcome {
    if args.len() == 2 && args[0] is Str && args[1] is Str {
        (Ok(Some(ValueView::Str(args[0]->Str_0 + args[1]->Str_0))), ctx)
    } else {
        (Err(bad_arguments()), ctx)
    }
}

/// A string for the standard output: one argument, a string. The host is
/// asked to write it.
pub open spec fn spec_string_display(args: Seq<ValueView>, ctx: ContextView) -> BuiltinOutcome {
    if args.len() == 1 && args[0] is Str {
        (Ok(None), ctx.ask(ActionView::Stdout(args[0]->Str_0)))
    } else {
        (Err(bad_arguments()), ctx)
    }
}

/// A string for the standard error: one argument, a string. The host is
/// asked to write it.
pub open spec fn spec_string_display_err(args: Seq<ValueView>, ctx: ContextView) -> BuiltinOutcome {
    if args.len() == 1 && args[0] is Str {
        (Ok(None), ctx.ask(ActionView::Stderr(args[0]->Str_0)))
    } else {
        (Err(bad_arguments()), ctx)
    }
}

/// Whether a string is empty: one argument, a string.
pub open spec fn spec_string_is_empty(args: Seq<ValueView>, ctx: ContextView) -> BuiltinOutcome {
    if args.len() == 1 && args[0] is Str {
        (Ok(Some(ValueView::Bool(args[0]->Str_0.len() == 0))), ctx)
    } else {
        (Err(bad_arguments()), ctx)
    }
}

/// Whether two strings are equal: two arguments, both strings.
pub open spec fn spec_string_equals(args: Seq<ValueView>, ctx: ContextView) -> BuiltinOutcome {
    if args.len() == 2 && args[0] is Str && args[1] is Str {
        (Ok(Some(ValueView::Bool(args[0]->Str_0 == args[1]->Str_0))), ctx)
    } else {
        (Err(bad_arguments()), ctx)
    }
}

/// A library to link with: one argument, the path as a string. The host is
/// asked to link with it.
pub open spec fn spec_ffi_link_with(args: Seq<ValueView>, ctx: ContextView) -> BuiltinOutcome {
    if args.len() == 1 && args[0] is Str {
        (Ok(None), ctx.ask(ActionView::Link(args[0]->Str_0)))
    } else {
        (Err(bad_arguments()), ctx)
    }
}

/// An argument of the process: one argument, the index as an integer. An
/// index without an argument gives the empty string.
pub open spec fn spec_arg_get(args: Seq<ValueView>, ctx: ContextView) -> BuiltinOutcome {
    if args.len() == 1 && args[0] is Int {
        (Ok(Some(ValueView::Str(ctx.arg(args[0]->Int_0 as int)))), ctx)
    } else {
        (Err(bad_arguments()), ctx)
    }
}

/// What a call of `function` with the values `args` gives.
pub open spec fn spec_call(function: BuiltinFn, args: Seq<ValueView>, ctx: ContextView) -> BuiltinOutcome {
    match function {
        BuiltinFn::StringLen => spec_string_len(args, ctx),
        BuiltinFn::StringConcat => spec_string_concat(args, ctx),
        BuiltinFn::StringDisplay => spec_string_display(args, ctx),
        BuiltinFn::StringDisplayErr => spec_string_display_err(args, ctx),
        BuiltinFn::StringIsEmpty => spec_string_is_empty(args, ctx),
        BuiltinFn::StringEquals => spec_string_equals(args, ctx),
        BuiltinFn::FfiLinkWith => spec_ffi_link_with(args, ctx),
        BuiltinFn::ArgGet => spec_arg_get(args, ctx),
    }
}

/// `called`, the outcome of a call that left the state `after`, is `outcome`.
pub open spec fn call_is(
    called: Result<Option<Value>, Error>,
    after: ContextView,
    outcome: BuiltinOutcome,
) -> bool {
    &&& outcome.1 == after
    &&& match called {
        Ok(Some(v)) => outcome.0 == Ok::<Option<ValueView>, ErrorView>(Some(v@)),
        Ok(None) => outcome.0 == Ok::<Option<ValueView>, ErrorView>(None),
        Err(e) => outcome.0 == Err::<Option<ValueView>, ErrorView>(e@),
    }
}

fn wrong_arguments() -> (err: Error)
    ensures
        err@ == bad_arguments(),
{
    Error::interpreter(String::from_str("wrong arguments for a builtin function"))
}

/// The one string that `args` holds, if it holds one string and no more.
fn one_string(args: &Vec<Value>) -> (text: Option<&String>)
    ensures
        match text {
            Some(t) => value_views(args@) == seq![ValueView::Str(t@)],
            None => !(value_views(args@).len() == 1 && value_views(args@)[0] is Str),
        },
{
    if args.len() == 1 {
        assert(value_views(args@)[0] == args@[0]@);
        match &args[0] {
            Value::Str(t) => {
                assert(value_views(args@) =~= seq![ValueView::Str(t@)]);
                Some(t)
            },
            _ => None,
        }
    } else {
        None
    }
}

/// The two strings that `args` holds, if it holds two strings and no more.
fn two_strings(args: &Vec<Value>) -> (texts: Option<(&String, &String)>)
    ensures
        match texts {
            Some((a, b)) => value_views(args@) == seq![ValueView::Str(a@), ValueView::Str(b@)],
            None => !(value_views(args@).len() == 2 && value_views(args@)[0] is Str
                && value_views(args@)[1] is Str),
        },
{
    if args.len() == 2 {
        assert(value_views(args@)[0] == args@[0]@);
        assert(value_views(args@)[1] == args@[1]@);
        match (&args[0], &args[1]) {
            (Value::Str(a), Value::Str(b)) => {
                assert(value_views(args@) =~= seq![ValueView::Str(a@), ValueView::Str(b@)]);
                Some((a, b))
            },
            _ => None,
        }
    } else {
        None
    }
}

/// The length of a string in bytes.
pub fn string_len(ctx: &mut Context, args: &Vec<Value>) -> (called: Result<Option<Value>, Error>)
    ensures
        call_is(called, final(ctx)@, spec_string_len(value_views(args@), old(ctx)@)),
{
    match one_string(args) {
        Some(text) => {
            let len = text.as_str().len();
            if len as u64 <= i64::MAX as u64 {
                Ok(Some(Value::Int(len as i64)))
            } else {
                Err(wrong_arguments())
            }
        },
        None => Err(wrong_arguments()),
    }
}

/// Two strings, one after the other.
pub fn string_concat(ctx: &mut Context, args: &Vec<Value>) -> (called: Result<
    Option<Value>,
    Error,
>)
    ensures
        call_is(called, final(ctx)@, spec_string_concat(value_views(args@), old(ctx)@)),
{
    match two_strings(args) {
        Some((lhs, rhs)) => Ok(Some(Value::Str(join(lhs.as_str(), rhs.as_str())))),
        None => Err(wrong_arguments()),
    }
}

/// Asks the host to write a string to the standard output.
pub fn string_display(ctx: &mut Context, args: &Vec<Value>) -> (called: Result<
    Option<Value>,
    Error,
>)
    ensures
        call_is(called, final(ctx)@, spec_string_display(value_views(args@), old(ctx)@)),
{
    match one_string(args) {
        Some(text) => {
            ctx.ask(Action::Stdout(text.clone()));
            Ok(None)
        },
        None => Err(wrong_arguments()),
    }
}

/// Asks the host to write a string to the standard error.
pub fn string_display_err(ctx: &mut Context, args: &Vec<Value>) -> (called: Result<
    Option<Value>,
    Error,
>)
    ensures
        call_is(called, final(ctx)@, spec_string_display_err(value_views(args@), old(ctx)@)),
{
    match one_string(args) {
        Some(text) => {
            ctx.ask(Action::Stderr(text.clone()));
            Ok(None)
        },
        None => Err(wrong_arguments()),
    }
}

/// Whether a string is empty.
pub fn string_is_empty(ctx: &mut Context, args: &Vec<Value>) -> (called: Result<
    Option<Value>,
    Error,
>)
    ensures
        call_is(called, final(ctx)@, spec_string_is_empty(value_views(args@), old(ctx)@)),
{
    match one_string(args) {
        Some(text) => Ok(Some(Value::Bool(text.as_str().is_empty()))),
        None => Err(wrong_arguments()),
    }
}

/// Whether two strings are equal.
pub fn string_equals(ctx: &mut Context, args: &Vec<Value>) -> (called: Result<
    Option<Value>,
    Error,
>)
    ensures
        call_is(called, final(ctx)@, spec_string_equals(value_views(args@), old(ctx)@)),
{
    match two_strings(args) {
        Some((lhs, rhs)) => Ok(Some(Value::Bool(same_text(lhs.as_str(), rhs.as_str())))),
        None => Err(wrong_arguments()),
    }
}

/// Asks the host to link with a library.
pub fn ffi_link_with(ctx: &mut Context, args: &Vec<Value>) -> (called: Result<
    Option<Value>,
    Error,
>)
    ensures
        call_is(called, final(ctx)@, spec_ffi_link_with(value_views(args@), old(ctx)@)),
{
    match one_string(args) {
        Some(path) => {
            ctx.ask(Action::Link(path.clone()));
            Ok(None)
        },
        None => Err(wrong_arguments()),
    }
}

/// An argument of the process.
pub fn arg_get(ctx: &mut Context, args: &Vec<Value>) -> (called: Result<Option<Value>, Error>)
    ensures
        call_is(called, final(ctx)@, spec_arg_get(value_views(args@), old(ctx)@)),
{
    if args.len() == 1 {
        assert(value_views(args@)[0] == args@[0]@);
        match &args[0] {
            Value::Int(index) => {
                return Ok(Some(Value::Str(ctx.arg(*index))));
            },
            _ => {},
        }
    }
    Err(wrong_arguments())
}

impl BuiltinFn {
    /// Calls the function with the values `args`.
    pub fn call(&self, ctx: &mut Context, args: &Vec<Value>) -> (called: Result<
        Option<Value>,
        Error,
    >)
        ensures
            call_is(called, final(ctx)@, spec_call(*self, value_views(args@), old(ctx)@)),
    {
        match self {
            BuiltinFn::StringLen => string_len(ctx, args),
            BuiltinFn::StringConcat => string_concat(ctx, args),
            BuiltinFn::StringDisplay => string_display(ctx, args),
            BuiltinFn::StringDisplayErr => string_display_err(ctx, args),
            BuiltinFn::StringIsEmpty => string_is_empty(ctx, args),
            BuiltinFn::StringEquals => string_equals(ctx, args),
            BuiltinFn::FfiLinkWith => ffi_link_with(ctx, args),
            BuiltinFn::ArgGet => arg_get(ctx, args),
        }
    }
}

impl Default for Builtins {
    fn default() -> (builtins: Builtins)
        ensures
            builtins@ == standard_builtins(),
    {
        Self::new()
    }
}

} // verus!
