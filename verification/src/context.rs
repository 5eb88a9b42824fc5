//! The state that a program runs against: its variables, the functions and
//! types that it has declared, and what it asks of its host.
//!
//! Variables are kept on one stack. Entering a scope marks the height of the
//! stack, and leaving the scope cuts the stack back to the mark, so that the
//! variables of a scope are those above its mark. A name stands for the
//! variable nearest to the top: the innermost one.

use crate::builtins::{builtin_named, BuiltinEntry, BuiltinFn, Builtins};
use crate::error::{interpreter_error, Error, ErrorView};
use crate::instruction::{share, FunctionDec, FunctionDecView, TypeDec, TypeDecView};
use crate::names::{find_last, lemma_find_last, Named};
use crate::text::{join, same_text};
use crate::value::{Value, ValueView};
use std::rc::Rc;
use vstd::pervasive::VecAdditionalExecFns;
use vstd::prelude::*;

verus! {

/// A name bound to a value. Whether the binding is mutable is fixed when it
/// is made.
#[derive(Debug, PartialEq)]
pub struct Variable {
    pub name: String,
    pub mutable: bool,
    pub value: Value,
}

pub struct VariableView {
    pub name: Seq<char>,
    pub mutable: bool,
    pub value: ValueView,
}

impl View for Variable {
    type V = VariableView;

    open spec fn view(&self) -> VariableView {
        VariableView { name: self.name@, mutable: self.mutable, value: self.value@ }
    }
}

impl Named for VariableView {
    open spec fn name(self) -> Seq<char> {
        self.name
    }
}

impl Named for FunctionDecView {
    open spec fn name(self) -> Seq<char> {
        self.name
    }
}

impl Named for TypeDecView {
    open spec fn name(self) -> Seq<char> {
        self.name
    }
}

/// What a program asks of its host, which does it after the instruction that
/// asked: a text to write to the standard output or to the standard error,
/// or a library to link with.
#[derive(Debug, PartialEq)]
pub enum Action {
    Stdout(String),
    Stderr(String),
    Link(String),
}

pub enum ActionView {
    Stdout(Seq<char>),
    Stderr(Seq<char>),
    Link(Seq<char>),
}

impl View for Action {
    type V = ActionView;

    open spec fn view(&self) -> ActionView {
        match self {
            Action::Stdout(text) => ActionView::Stdout(text@),
            Action::Stderr(text) => ActionView::Stderr(text@),
            Action::Link(path) => ActionView::Link(path@),
        }
    }
}

/// The state of an interpreter.
pub struct Context {
    variables: Vec<Variable>,
    marks: Vec<usize>,
    functions: Vec<Rc<FunctionDec>>,
    types: Vec<Rc<TypeDec>>,
    builtins: Builtins,
    args: Vec<String>,
    actions: Vec<Action>,
    libraries: Vec<String>,
    errors: Vec<Error>,
}

/// The state of an interpreter, over mathematical sequences.
pub struct ContextView {
    /// The stack of variables; the last one is the innermost.
    pub variables: Seq<VariableView>,
    /// The height of the stack at the entry of each scope that is open.
    pub marks: Seq<nat>,
    pub functions: Seq<FunctionDecView>,
    pub types: Seq<TypeDecView>,
    pub builtins: Seq<BuiltinEntry>,
    /// The arguments of the process.
    pub args: Seq<Seq<char>>,
    /// What the host has been asked and has not done yet.
    pub actions: Seq<ActionView>,
    /// The libraries that the host has linked.
    pub libraries: Seq<Seq<char>>,
    /// The failures reported so far.
    pub errors: Seq<ErrorView>,
}

/// The message of an assignment to an immutable variable.
pub open spec fn immutable_message(name: Seq<char>) -> Seq<char> {
    "cannot assign to immutable variable "@ + name
}

/// The message of a declaration under a name that is taken.
pub open spec fn taken_message(name: Seq<char>) -> Seq<char> {
    "name already declared: "@ + name
}

/// The message that is put in front of the failure of a link.
pub open spec fn link_message(path: Seq<char>) -> Seq<char> {
    "couldn't link with library "@ + path
}

impl ContextView {
    /// The state when a scope has been entered.
    pub open spec fn enter(self) -> ContextView {
        ContextView { marks: self.marks.push(self.variables.len()), ..self }
    }

    /// The state when the innermost scope has been left: its variables are
    /// gone. Outside any scope nothing changes.
    pub open spec fn exit(self) -> ContextView {
        if self.marks.len() == 0 {
            self
        } else {
            ContextView {
                variables: if self.marks.last() <= self.variables.len() {
                    self.variables.take(self.marks.last() as int)
                } else {
                    self.variables
                },
                marks: self.marks.drop_last(),
                ..self
            }
        }
    }

    /// The innermost variable under `name`.
    pub open spec fn lookup(self, name: Seq<char>) -> Option<VariableView> {
        match find_last(self.variables, name) {
            Some(i) => Some(self.variables[i]),
            None => None,
        }
    }

    /// The state with a new variable in the innermost scope. It hides a
    /// variable of the same name, if there is one.
    pub open spec fn declare(self, variable: VariableView) -> ContextView {
        ContextView { variables: self.variables.push(variable), ..self }
    }

    /// The state after an assignment. Where `name` stands for a variable, the
    /// variable takes the value if it is mutable, and the assignment fails if
    /// it is not. Where it stands for none, a variable is made in the
    /// innermost scope, mutable or not as the assignment says.
    pub open spec fn assign(self, name: Seq<char>, mutable: bool, value: ValueView) -> Result<
        ContextView,
        ErrorView,
    > {
        match find_last(self.variables, name) {
            Some(i) => if self.variables[i].mutable {
                Ok(
                    ContextView {
                        variables: self.variables.update(
                            i,
                            VariableView { value, ..self.variables[i] },
                        ),
                        ..self
                    },
                )
            } else {
                Err(interpreter_error(immutable_message(name)))
            },
            None => Ok(self.declare(VariableView { name, mutable, value })),
        }
    }

    /// The function declared under `name`.
    pub open spec fn function(self, name: Seq<char>) -> Option<FunctionDecView> {
        match find_last(self.functions, name) {
            Some(i) => Some(self.functions[i]),
            None => None,
        }
    }

    /// The type declared under `name`.
    pub open spec fn type_dec(self, name: Seq<char>) -> Option<TypeDecView> {
        match find_last(self.types, name) {
            Some(i) => Some(self.types[i]),
            None => None,
        }
    }

    /// The function of the interpreter under `name`.
    pub open spec fn builtin(self, name: Seq<char>) -> Option<BuiltinFn> {
        builtin_named(self.builtins, name)
    }

    /// The state after the declaration of a function. A name stands for one
    /// function only: the declaration fails where the name is that of a
    /// function of the interpreter or of a function declared before.
    pub open spec fn declare_function(self, dec: FunctionDecView) -> Result<
        ContextView,
        ErrorView,
    > {
        if self.builtin(dec.name) is Some || self.function(dec.name) is Some {
            Err(interpreter_error(taken_message(dec.name)))
        } else {
            Ok(ContextView { functions: self.functions.push(dec), ..self })
        }
    }

    /// The state after the declaration of a type. The declaration fails where
    /// a type was declared under the name before.
    pub open spec fn declare_type(self, dec: TypeDecView) -> Result<ContextView, ErrorView> {
        if self.type_dec(dec.name) is Some {
            Err(interpreter_error(taken_message(dec.name)))
        } else {
            Ok(ContextView { types: self.types.push(dec), ..self })
        }
    }

    /// The argument of the process at `index`, or the empty text where there
    /// is none.
    pub open spec fn arg(self, index: int) -> Seq<char> {
        if 0 <= index < self.args.len() {
            self.args[index]
        } else {
            Seq::empty()
        }
    }

    /// The state with one more thing asked of the host.
    pub open spec fn ask(self, action: ActionView) -> ContextView {
        ContextView { actions: self.actions.push(action), ..self }
    }

    /// The state with one more failure reported.
    pub open spec fn report(self, error: ErrorView) -> ContextView {
        ContextView { errors: self.errors.push(error), ..self }
    }

    /// The state when the host has tried to link with the library at `path`:
    /// the library is linked from then on, or the failure is reported with
    /// the path in its message. A library that is linked stays linked.
    pub open spec fn linked(self, path: Seq<char>, outcome: Result<(), ErrorView>) -> ContextView {
        match outcome {
            Ok(_) => ContextView { libraries: self.libraries.push(path), ..self },
            Err(e) => self.report(ErrorView { msg: Some(link_message(path)), ..e }),
        }
    }
}

/// The views of the variables of a stack.
pub open spec fn variable_views(list: Seq<Variable>) -> Seq<VariableView> {
    Seq::new(list.len(), |i: int| list[i]@)
}

/// The views of the declarations of a table of functions.
pub open spec fn function_views(list: Seq<Rc<FunctionDec>>) -> Seq<FunctionDecView> {
    Seq::new(list.len(), |i: int| (*list[i])@)
}

/// The views of the declarations of a table of types.
pub open spec fn type_views(list: Seq<Rc<TypeDec>>) -> Seq<TypeDecView> {
    Seq::new(list.len(), |i: int| (*list[i])@)
}

/// The heights that a list of marks holds.
pub open spec fn mark_views(list: Seq<usize>) -> Seq<nat> {
    Seq::new(list.len(), |i: int| list[i] as nat)
}

/// The characters of each text of a list.
pub open spec fn text_views(list: Seq<String>) -> Seq<Seq<char>> {
    Seq::new(list.len(), |i: int| list[i]@)
}

/// The views of the actions of a list.
pub open spec fn action_views(list: Seq<Action>) -> Seq<ActionView> {
    Seq::new(list.len(), |i: int| list[i]@)
}

/// The views of the failures of a list.
pub open spec fn error_views(list: Seq<Error>) -> Seq<ErrorView> {
    Seq::new(list.len(), |i: int| list[i]@)
}

impl View for Context {
    type V = ContextView;

    closed spec fn view(&self) -> ContextView {
        ContextView {
            variables: variable_views(self.variables@),
            marks: mark_views(self.marks@),
            functions: function_views(self.functions@),
            types: type_views(self.types@),
            builtins: self.builtins@,
            args: text_views(self.args@),
            actions: action_views(self.actions@),
            libraries: text_views(self.libraries@),
            errors: error_views(self.errors@),
        }
    }
}

impl Context {
    /// The state at the start of a program that runs with the arguments
    /// `args`: nothing is declared, and the functions of the interpreter are
    /// there.
    pub fn new(args: Vec<String>) -> (ctx: Context)
        ensures
            ctx@ == (ContextView {
                variables: Seq::empty(),
                marks: Seq::empty(),
                functions: Seq::empty(),
                types: Seq::empty(),
                builtins: crate::builtins::standard_builtins(),
                args: text_views(args@),
                actions: Seq::empty(),
                libraries: Seq::empty(),
                errors: Seq::empty(),
            }),
    {
        let ctx = Context {
            variables: Vec::new(),
            marks: Vec::new(),
            functions: Vec::new(),
            types: Vec::new(),
            builtins: Builtins::new(),
            args,
            actions: Vec::new(),
            libraries: Vec::new(),
            errors: Vec::new(),
        };
        assert(ctx@.variables =~= Seq::empty());
        assert(ctx@.marks =~= Seq::empty());
        assert(ctx@.functions =~= Seq::empty());
        assert(ctx@.types =~= Seq::empty());
        assert(ctx@.actions =~= Seq::empty());
        assert(ctx@.libraries =~= Seq::empty());
        assert(ctx@.errors =~= Seq::empty());
        ctx
    }

    /// Enters a scope.
    pub fn scope_enter(&mut self)
        ensures
            final(self)@ == old(self)@.enter(),
    {
        self.marks.push(self.variables.len());
        assert(self@.marks =~= old(self)@.marks.push(old(self)@.variables.len()));
    }

    /// Leaves the innermost scope.
    pub fn scope_exit(&mut self)
        ensures
            final(self)@ == old(self)@.exit(),
    {
        match self.marks.pop() {
            Some(mark) => {
                assert(old(self)@.marks.last() == mark);
                self.variables.truncate(mark);
                assert(self@.variables =~= old(self)@.exit().variables);
                assert(self@.marks =~= old(self)@.marks.drop_last());
            },
            None => {},
        }
    }

    fn find_variable(&self, name: &str) -> (place: Option<usize>)
        ensures
            match place {
                Some(i) => find_last(self@.variables, name@) == Some(i as int) && i
                    < self.variables.len(),
                None => find_last(self@.variables, name@) is None,
            },
    {
        let ghost all = self@.variables;
        let mut i: usize = self.variables.len();
        assert(all.take(i as int) =~= all);
        while i > 0
            invariant
                i <= self.variables.len(),
                all == self@.variables,
                find_last(all, name@) == find_last(all.take(i as int), name@),
            decreases i,
        {
            i = i - 1;
            let ghost front = all.take(i + 1);
            assert(front.last() == all[i as int]);
            assert(front.drop_last() =~= all.take(i as int));
            if same_text(self.variables[i].name.as_str(), name) {
                return Some(i);
            }
        }
        None
    }

    /// The innermost variable under `name`.
    pub fn get_variable(&self, name: &str) -> (variable: Option<&Variable>)
        ensures
            match variable {
                Some(v) => self@.lookup(name@) == Some(v@),
                None => self@.lookup(name@) is None,
            },
    {
        match self.find_variable(name) {
            Some(i) => Some(&self.variables[i]),
            None => None,
        }
    }

    /// Makes a new variable in the innermost scope.
    pub fn declare(&mut self, variable: Variable)
        ensures
            final(self)@ == old(self)@.declare(variable@),
    {
        self.variables.push(variable);
        assert(self@.variables =~= old(self)@.variables.push(variable@));
    }

    /// Assigns `value` to `name`.
    pub fn assign(&mut self, name: String, mutable: bool, value: Value) -> (done: Result<(), Error>)
        ensures
            match done {
                Ok(_) => old(self)@.assign(name@, mutable, value@) == Ok::<ContextView, ErrorView>(
                    final(self)@,
                ),
                Err(e) => old(self)@.assign(name@, mutable, value@) == Err::<
                    ContextView,
                    ErrorView,
                >(e@) && final(self)@ == old(self)@,
            },
    {
        match self.find_variable(name.as_str()) {
            Some(i) => {
                if self.variables[i].mutable {
                    let ghost before = self@.variables;
                    let updated = Variable { name, mutable: true, value };
                    proof {
                        lemma_find_last(before, name@);
                    }
                    self.variables.set(i, updated);
                    assert(self@.variables =~= before.update(
                        i as int,
                        VariableView { value: value@, ..before[i as int] },
                    ));
                    Ok(())
                } else {
                    Err(Error::interpreter(join("cannot assign to immutable variable ", name.as_str())))
                }
            },
            None => {
                self.declare(Variable { name, mutable, value });
                Ok(())
            },
        }
    }

    /// The function declared under `name`.
    pub fn get_function(&self, name: &str) -> (function: Option<Rc<FunctionDec>>)
        ensures
            match function {
                Some(f) => self@.function(name@) == Some((*f)@),
                None => self@.function(name@) is None,
            },
    {
        let ghost all = self@.functions;
        let mut i: usize = self.functions.len();
        assert(all.take(i as int) =~= all);
        while i > 0
            invariant
                i <= self.functions.len(),
                all == self@.functions,
                find_last(all, name@) == find_last(all.take(i as int), name@),
            decreases i,
        {
            i = i - 1;
            let ghost front = all.take(i + 1);
            assert(front.last() == all[i as int]);
            assert(front.drop_last() =~= all.take(i as int));
            if same_text(self.functions[i].name.as_str(), name) {
                return Some(share(&self.functions[i]));
            }
        }
        None
    }

    /// The type declared under `name`.
    pub fn get_type(&self, name: &str) -> (ty: Option<Rc<TypeDec>>)
        ensures
            match ty {
                Some(t) => self@.type_dec(name@) == Some((*t)@),
                None => self@.type_dec(name@) is None,
            },
    {
        let ghost all = self@.types;
        let mut i: usize = self.types.len();
        assert(all.take(i as int) =~= all);
        while i > 0
            invariant
                i <= self.types.len(),
                all == self@.types,
                find_last(all, name@) == find_last(all.take(i as int), name@),
            decreases i,
        {
            i = i - 1;
            let ghost front = all.take(i + 1);
            assert(front.last() == all[i as int]);
            assert(front.drop_last() =~= all.take(i as int));
            if same_text(self.types[i].name.as_str(), name) {
                return Some(share(&self.types[i]));
            }
        }
        None
    }

    /// The function of the interpreter under `name`.
    pub fn get_builtin(&self, name: &str) -> (function: Option<BuiltinFn>)
        ensures
            function == self@.builtin(name@),
    {
        match self.builtins.get(name) {
            Some(f) => Some(*f),
            None => None,
        }
    }

    /// Registers the declaration of a function.
    pub fn add_function(&mut self, function: Rc<FunctionDec>) -> (done: Result<(), Error>)
        ensures
            match done {
                Ok(_) => old(self)@.declare_function((*function)@) == Ok::<ContextView, ErrorView>(
                    final(self)@,
                ),
                Err(e) => old(self)@.declare_function((*function)@) == Err::<
                    ContextView,
                    ErrorView,
                >(e@) && final(self)@ == old(self)@,
            },
    {
        if self.builtins.contains(function.name.as_str()) || self.get_function(
            function.name.as_str(),
        ).is_some() {
            return Err(Error::interpreter(join("name already declared: ", function.name.as_str())));
        }
        self.functions.push(function);
        assert(self@.functions =~= old(self)@.functions.push((*function)@));
        Ok(())
    }

    /// Registers the declaration of a type.
    pub fn add_type(&mut self, ty: Rc<TypeDec>) -> (done: Result<(), Error>)
        ensures
            match done {
                Ok(_) => old(self)@.declare_type((*ty)@) == Ok::<ContextView, ErrorView>(
                    final(self)@,
                ),
                Err(e) => old(self)@.declare_type((*ty)@) == Err::<ContextView, ErrorView>(e@)
                    && final(self)@ == old(self)@,
            },
    {
        if self.get_type(ty.name.as_str()).is_some() {
            return Err(Error::interpreter(join("name already declared: ", ty.name.as_str())));
        }
        self.types.push(ty);
        assert(self@.types =~= old(self)@.types.push((*ty)@));
        Ok(())
    }

    /// The argument of the process at `index`, or the empty text where there
    /// is none.
    pub fn arg(&self, index: i64) -> (text: String)
        ensures
            text@ == self@.arg(index as int),
    {
        if index >= 0 && (index as u64) < self.args.len() as u64 {
            self.args[index as usize].clone()
        } else {
            String::new()
        }
    }

    /// Asks the host for `action`.
    pub fn ask(&mut self, action: Action)
        ensures
            final(self)@ == old(self)@.ask(action@),
    {
        self.actions.push(action);
        assert(self@.actions =~= old(self)@.actions.push(action@));
    }

    /// Hands what the host has been asked over to it, oldest first.
    pub fn take_actions(&mut self) -> (actions: Vec<Action>)
        ensures
            action_views(actions@) == old(self)@.actions,
            final(self)@ == (ContextView { actions: Seq::empty(), ..old(self)@ }),
    {
        let mut actions: Vec<Action> = Vec::new();
        std::mem::swap(&mut actions, &mut self.actions);
        assert(self@.actions =~= Seq::empty());
        actions
    }

    /// Reports a failure.
    pub fn error(&mut self, error: Error)
        ensures
            final(self)@ == old(self)@.report(error@),
    {
        self.errors.push(error);
        assert(self@.errors =~= old(self)@.errors.push(error@));
    }

    /// The failures reported so far, oldest first.
    pub fn errors(&self) -> (errors: &Vec<Error>)
        ensures
            error_views(errors@) == self@.errors,
    {
        &self.errors
    }

    /// The libraries linked so far.
    pub fn libraries(&self) -> (libraries: &Vec<String>)
        ensures
            text_views(libraries@) == self@.libraries,
    {
        &self.libraries
    }

    /// Takes note of what came of the host's attempt to link with the library
    /// at `path`.
    pub fn link_outcome(&mut self, path: String, outcome: Result<(), Error>)
        ensures
            final(self)@ == old(self)@.linked(
                path@,
                match outcome {
                    Ok(_) => Ok(()),
                    Err(e) => Err(e@),
                },
            ),
    {
        match outcome {
            Ok(_) => {
                self.libraries.push(path);
                assert(self@.libraries =~= old(self)@.libraries.push(path@));
            },
            Err(e) => {
                let reported = e.with_msg(join("couldn't link with library ", path.as_str()));
                self.error(reported);
            },
        }
    }
}

} // verus!
