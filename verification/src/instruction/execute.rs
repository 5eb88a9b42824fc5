//! What executing an instruction does.
//!
//! The meaning of each kind of instruction is stated as a function from the
//! instruction and the state before it to an outcome and the state after it.
//! A call of a declared function executes the body of the function, so the
//! functions take a bound on the depth of calls, which a call uses up: a
//! program that calls deeper than the bound fails.

use super::constant::{Constant, ConstantView};
use super::type_instantiation::{count_error, TypeInstantiation, TypeInstantiationView};
use super::{
    views, BinaryOp, BinaryOpView, Block, FunctionCall, FunctionCallView, FunctionDec, FunctionDecArg, FunctionDecArgView, Instruction, InstructionView, Operator, TypeDec, VarAssign, VarAssignView,
};
use crate::builtins::spec_call;
use crate::context::{Context, ContextView, Variable, VariableView};
use crate::error::{interpreter_error, Error, ErrorView};
use crate::text::{join, decimal_text};
use crate::value::{
    field_views, lemma_field_views_push, lemma_value_views_push, value_views, Field, FieldView,
    InstrKind, InstrKindView, ObjectInstance, ObjectView, Value, ValueView,
};
use vstd::prelude::*;
use vstd::string::StringExecFns;

verus! {

/// What executing an instruction gives, and the state after it.
pub type Outcome = (Result<InstrKindView, ErrorView>, ContextView);

/// The values of a list of expressions, and the state after them.
pub type Values = (Result<Seq<ValueView>, ErrorView>, ContextView);

/// `done`, the outcome of an execution that left the state `after`, is
/// `outcome`.
pub open spec fn executed(done: Result<InstrKind, Error>, after: ContextView, outcome: Outcome) -> bool {
    &&& outcome.1 == after
    &&& match done {
        Ok(kind) => outcome.0 == Ok::<InstrKindView, ErrorView>(kind@),
        Err(e) => outcome.0 == Err::<InstrKindView, ErrorView>(e@),
    }
}

/// `done`, the values of a list of expressions that left the state `after`,
/// is `outcome`.
pub open spec fn evaluated(done: Result<Vec<Value>, Error>, after: ContextView, outcome: Values) -> bool {
    &&& outcome.1 == after
    &&& match done {
        Ok(values) => outcome.0 == Ok::<Seq<ValueView>, ErrorView>(value_views(values@)),
        Err(e) => outcome.0 == Err::<Seq<ValueView>, ErrorView>(e@),
    }
}

/// The failure of a name that stands for no variable.
pub open spec fn unresolved_variable(name: Seq<char>) -> ErrorView {
    interpreter_error("unresolved variable "@ + name)
}

/// The failure of a name that stands for no function.
pub open spec fn unresolved_function(name: Seq<char>) -> ErrorView {
    interpreter_error("unresolved function "@ + name)
}

/// The failure of a name that stands for no type.
pub open spec fn unresolved_type(name: Seq<char>) -> ErrorView {
    interpreter_error("Cannot find type "@ + name)
}

/// The failure of an instruction that gives no value where one is needed.
pub open spec fn no_value() -> ErrorView {
    interpreter_error("expression without a value"@)
}

/// The failure of a call that goes deeper than the bound.
pub open spec fn too_deep() -> ErrorView {
    interpreter_error("call depth limit reached"@)
}

/// The failure of operands that the operator does not take.
pub open spec fn type_mismatch() -> ErrorView {
    interpreter_error("operands of the wrong type"@)
}

/// The failure of a parenthesis where an operator is needed.
pub open spec fn invalid_operator() -> ErrorView {
    interpreter_error("not a binary operator"@)
}

/// The failure of an operation whose result is no 64-bit signed integer: an
/// overflow, or a division by zero.
pub open spec fn arithmetic_failure() -> ErrorView {
    interpreter_error("arithmetic overflow or division by zero"@)
}

/// The failure of a call or of an instantiation under `name` with `actual`
/// values where `expected` are declared. The message gives both numbers.
pub open spec fn wrong_count(name: Seq<char>, expected: nat, actual: nat) -> ErrorView {
    interpreter_error(
        "Wrong number of arguments for call to function `"@ + name + "`: Expected "@
            + decimal_text(expected) + ", got "@ + decimal_text(actual),
    )
}

/// The value of a literal.
pub open spec fn constant_value(c: ConstantView) -> ValueView {
    match c {
        ConstantView::Char(c) => ValueView::Char(c),
        ConstantView::Str(s) => ValueView::Str(s),
        ConstantView::Int(i) => ValueView::Int(i),
        ConstantView::Float(t) => ValueView::Float(t),
    }
}

/// The result of an operator on two values. The four operators are defined
/// on two integers, with results that are integers.
pub open spec fn spec_apply(op: Operator, lhs: ValueView, rhs: ValueView) -> Result<
    ValueView,
    ErrorView,
> {
    match (lhs, rhs) {
        (ValueView::Int(a), ValueView::Int(b)) => {
            let result = match op {
                Operator::Add => Ok(a.checked_add(b)),
                Operator::Sub => Ok(a.checked_sub(b)),
                Operator::Mul => Ok(a.checked_mul(b)),
                Operator::Div => Ok(a.checked_div(b)),
                _ => Err(invalid_operator()),
            };
            match result {
                Ok(Some(v)) => Ok(ValueView::Int(v)),
                Ok(None) => Err(arithmetic_failure()),
                Err(e) => Err(e),
            }
        },
        _ => Err(type_mismatch()),
    }
}

/// The variables that a call makes of the arguments of a function: each
/// under the name of its argument, in order, and immutable.
pub open spec fn bound(params: Seq<FunctionDecArgView>, values: Seq<ValueView>) -> Seq<
    VariableView,
> {
    Seq::new(
        params.len(),
        |i: int| VariableView { name: params[i].name, mutable: false, value: values[i] },
    )
}

/// The fields of an instance: each value under the name of the field at its
/// place in the declaration.
pub open spec fn fields_of(declared: Seq<FunctionDecArgView>, values: Seq<ValueView>) -> Seq<
    FieldView,
> {
    Seq::new(declared.len(), |i: int| FieldView { name: declared[i].name, value: values[i] })
}

/// The value of an outcome, where it has one.
pub open spec fn value_of(kind: InstrKindView) -> Result<ValueView, ErrorView> {
    match kind {
        InstrKindView::Expression(Some(v)) => Ok(v),
        _ => Err(no_value()),
    }
}

/// What executing `instr` in the state `ctx` gives, with calls no deeper than
/// `fuel`.
pub open spec fn spec_execute(instr: InstructionView, ctx: ContextView, fuel: nat) -> Outcome
    decreases fuel, instr, 0nat,
{
    match instr {
        InstructionView::Constant(c) => (
            Ok(InstrKindView::Expression(Some(constant_value(c)))),
            ctx,
        ),
        InstructionView::Var(name) => match ctx.lookup(name) {
            Some(v) => (Ok(InstrKindView::Expression(Some(v.value))), ctx),
            None => (Err(unresolved_variable(name)), ctx),
        },
        InstructionView::VarAssign(a) => spec_assign(a, ctx, fuel),
        InstructionView::FunctionCall(c) => spec_function_call(c, ctx, fuel),
        InstructionView::FunctionDec(f) => match ctx.declare_function(f) {
            Ok(after) => (Ok(InstrKindView::Statement), after),
            Err(e) => (Err(e), ctx),
        },
        InstructionView::TypeDec(t) => match ctx.declare_type(t) {
            Ok(after) => (Ok(InstrKindView::Statement), after),
            Err(e) => (Err(e), ctx),
        },
        InstructionView::TypeInstantiation(t) => spec_instantiate(t, ctx, fuel),
        InstructionView::BinaryOp(b) => spec_binary_op(b, ctx, fuel),
        InstructionView::Block(b) => {
            let (done, after) = spec_run(b.instructions, 0, ctx.enter(), fuel);
            (done, after.exit())
        },
    }
}

/// An assignment: the value is computed, then bound to the name. It is a
/// statement.
pub open spec fn spec_assign(a: VarAssignView, ctx: ContextView, fuel: nat) -> Outcome
    decreases fuel, a, 0nat,
{
    let (done, after) = spec_execute(*a.value, ctx, fuel);
    match done {
        Err(e) => (Err(e), after),
        Ok(kind) => match value_of(kind) {
            Err(e) => (Err(e), after),
            Ok(value) => match after.assign(a.symbol, a.mutable, value) {
                Ok(bound) => (Ok(InstrKindView::Statement), bound),
                Err(e) => (Err(e), after),
            },
        },
    }
}

/// An operation: the left operand is computed, then the right one, then the
/// operator is applied.
pub open spec fn spec_binary_op(b: BinaryOpView, ctx: ContextView, fuel: nat) -> Outcome
    decreases fuel, b, 0nat,
{
    let (left, after_left) = spec_execute(*b.lhs, ctx, fuel);
    match left {
        Err(e) => (Err(e), after_left),
        Ok(kind) => match value_of(kind) {
            Err(e) => (Err(e), after_left),
            Ok(lhs) => {
                let (right, after) = spec_execute(*b.rhs, after_left, fuel);
                match right {
                    Err(e) => (Err(e), after),
                    Ok(kind) => match value_of(kind) {
                        Err(e) => (Err(e), after),
                        Ok(rhs) => match spec_apply(b.op, lhs, rhs) {
                            Ok(v) => (Ok(InstrKindView::Expression(Some(v))), after),
                            Err(e) => (Err(e), after),
                        },
                    },
                }
            },
        }
    }
}

/// The instructions of a list from `from` on, one after the other. The
/// outcome is that of the last one; an empty list is a statement. The first
/// failure ends the list.
pub open spec fn spec_run(list: Seq<InstructionView>, from: int, ctx: ContextView, fuel: nat) -> Outcome
    decreases fuel, list, list.len() - from,
{
    if 0 <= from < list.len() {
        let (done, after) = spec_execute(list[from], ctx, fuel);
        match done {
            Err(e) => (Err(e), after),
            Ok(kind) => if from + 1 == list.len() {
                (Ok(kind), after)
            } else {
                spec_run(list, from + 1, after, fuel)
            },
        }
    } else {
        (Ok(InstrKindView::Statement), ctx)
    }
}

/// The values of the expressions of a list from `from` on, computed from
/// left to right. An expression without a value is a failure.
pub open spec fn spec_values(list: Seq<InstructionView>, from: int, ctx: ContextView, fuel: nat) -> Values
    decreases fuel, list, list.len() - from,
{
    if 0 <= from < list.len() {
        let (done, after) = spec_execute(list[from], ctx, fuel);
        match done {
            Err(e) => (Err(e), after),
            Ok(kind) => match value_of(kind) {
                Err(e) => (Err(e), after),
                Ok(value) => {
                    let (rest, end) = spec_values(list, from + 1, after, fuel);
                    match rest {
                        Ok(values) => (Ok(seq![value] + values), end),
                        Err(e) => (Err(e), end),
                    }
                },
            },
        }
    } else {
        (Ok(Seq::empty()), ctx)
    }
}

/// A call. The name stands for a function of the interpreter or else for a
/// declared function; the arguments are computed from left to right; then
/// the function is invoked. A declared function takes as many values as it
/// has arguments; its body runs in a scope of its own that holds the
/// arguments, and the outcome of the body is the outcome of the call.
pub open spec fn spec_function_call(c: FunctionCallView, ctx: ContextView, fuel: nat) -> Outcome
    decreases fuel, c, 0nat,
{
    match ctx.builtin(c.name) {
        Some(function) => {
            let (args, after) = spec_values(c.args, 0, ctx, fuel);
            match args {
                Err(e) => (Err(e), after),
                Ok(values) => {
                    let (called, end) = spec_call(function, values, after);
                    match called {
                        Ok(value) => (Ok(InstrKindView::Expression(value)), end),
                        Err(e) => (Err(e), end),
                    }
                },
            }
        },
        None => match ctx.function(c.name) {
            None => (Err(unresolved_function(c.name)), ctx),
            Some(f) => {
                let (args, after) = spec_values(c.args, 0, ctx, fuel);
                match args {
                    Err(e) => (Err(e), after),
                    Ok(values) => if values.len() != f.args.len() {
                        (Err(wrong_count(c.name, f.args.len(), values.len())), after)
                    } else if fuel == 0 {
                        (Err(too_deep()), after)
                    } else {
                        let inside = ContextView {
                            variables: after.enter().variables + bound(f.args, values),
                            ..after.enter()
                        };
                        let (done, end) = spec_run(
                            f.block.instructions,
                            0,
                            inside,
                            (fuel - 1) as nat,
                        );
                        (done, end.exit())
                    },
                }
            },
        },
    }
}

/// An instantiation. The name stands for a declared type; there are as many
/// values as the type has fields; the values are computed from left to
/// right and bound to the fields by their places. Where the numbers differ
/// nothing is computed and no instance is made.
pub open spec fn spec_instantiate(t: TypeInstantiationView, ctx: ContextView, fuel: nat) -> Outcome
    decreases fuel, t, 0nat,
{
    match ctx.type_dec(t.name) {
        None => (Err(unresolved_type(t.name)), ctx),
        Some(dec) => if t.fields.len() != dec.fields.len() {
            (Err(wrong_count(t.name, dec.fields.len(), t.fields.len())), ctx)
        } else {
            let (fields, after) = spec_values(t.fields, 0, ctx, fuel);
            match fields {
                Err(e) => (Err(e), after),
                Ok(values) => (
                    Ok(
                        InstrKindView::Expression(
                            Some(
                                ValueView::Object(
                                    ObjectView {
                                        ty: t.name,
                                        fields: fields_of(dec.fields, values),
                                    },
                                ),
                            ),
                        ),
                    ),
                    after,
                ),
            }
        },
    }
}

/// The values `first` before those of `rest`.
pub open spec fn values_after(first: Seq<ValueView>, rest: Values) -> Values {
    match rest.0 {
        Ok(values) => (Ok(first + values), rest.1),
        Err(e) => (Err(e), rest.1),
    }
}

/// One more value before those that follow is one more value at the end of
/// those before them.
pub proof fn lemma_values_after_push(first: Seq<ValueView>, value: ValueView, rest: Values)
    ensures
        values_after(first, values_after(seq![value], rest)) == values_after(
            first.push(value),
            rest,
        ),
{
    match rest.0 {
        Ok(values) => {
            assert(first + (seq![value] + values) =~= first.push(value) + values);
        },
        Err(_) => {},
    }
}

impl Constant {
    /// The value of the literal.
    pub fn to_value(&self) -> (value: Value)
        ensures
            value@ == constant_value(self@),
    {
        match self {
            Constant::Char(c) => Value::Char(*c),
            Constant::Str(s) => Value::Str(s.clone()),
            Constant::Int(i) => Value::Int(*i),
            Constant::Float(t) => Value::Float(t.clone()),
        }
    }
}

fn failure(msg: &str) -> (err: Error)
    ensures
        err@ == interpreter_error(msg@),
{
    Error::interpreter(String::from_str(msg))
}

/// The value of an outcome, where it has one.
pub fn value_from(kind: InstrKind) -> (value: Result<Value, Error>)
    ensures
        match value {
            Ok(v) => value_of(kind@) == Ok::<ValueView, ErrorView>(v@),
            Err(e) => value_of(kind@) == Err::<ValueView, ErrorView>(e@),
        },
{
    match kind {
        InstrKind::Expression(Some(v)) => Ok(v),
        _ => Err(failure("expression without a value")),
    }
}

/// The result of the operator `op` on `lhs` and `rhs`.
pub fn apply(op: Operator, lhs: &Value, rhs: &Value) -> (result: Result<Value, Error>)
    ensures
        match result {
            Ok(v) => spec_apply(op, lhs@, rhs@) == Ok::<ValueView, ErrorView>(v@),
            Err(e) => spec_apply(op, lhs@, rhs@) == Err::<ValueView, ErrorView>(e@),
        },
{
    match (lhs, rhs) {
        (Value::Int(a), Value::Int(b)) => {
            let result = match op {
                Operator::Add => a.checked_add(*b),
                Operator::Sub => a.checked_sub(*b),
                Operator::Mul => a.checked_mul(*b),
                Operator::Div => a.checked_div(*b),
                _ => {
                    return Err(failure("not a binary operator"));
                },
            };
            match result {
                Some(v) => Ok(Value::Int(v)),
                None => Err(failure("arithmetic overflow or division by zero")),
            }
        },
        _ => Err(failure("operands of the wrong type")),
    }
}

/// Executes the instructions of `list` one after the other.
pub fn run(list: &Vec<Instruction>, ctx: &mut Context, fuel: usize) -> (done: Result<
    InstrKind,
    Error,
>)
    ensures
        executed(done, final(ctx)@, spec_run(views(list@), 0, old(ctx)@, fuel as nat)),
    decreases fuel, list,
{
    if list.len() == 0 {
        return Ok(InstrKind::Statement);
    }
    let ghost start = ctx@;
    let mut i: usize = 0;
    loop
        invariant
            i < list.len(),
            start == old(ctx)@,
            spec_run(views(list@), 0, start, fuel as nat) == spec_run(
                views(list@),
                i as int,
                ctx@,
                fuel as nat,
            ),
        decreases list.len() - i,
    {
        proof {
            vstd::std_specs::vec::axiom_vec_index_decreases(*list, i as int);
        }
        assert(views(list@)[i as int] == list[i as int]@);
        match list[i].execute(ctx, fuel) {
            Err(e) => {
                return Err(e);
            },
            Ok(kind) => {
                if i + 1 == list.len() {
                    return Ok(kind);
                }
                i = i + 1;
            },
        }
    }
}

/// Computes the values of the expressions of `list` from left to right.
pub fn values(list: &Vec<Instruction>, ctx: &mut Context, fuel: usize) -> (done: Result<
    Vec<Value>,
    Error,
>)
    ensures
        evaluated(done, final(ctx)@, spec_values(views(list@), 0, old(ctx)@, fuel as nat)),
        done matches Ok(values) ==> values.len() == list.len(),
    decreases fuel, list,
{
    let ghost start = ctx@;
    let ghost all = spec_values(views(list@), 0, start, fuel as nat);
    let mut out: Vec<Value> = Vec::new();
    let mut i: usize = 0;
    proof {
        assert(value_views(out@) =~= Seq::<ValueView>::empty());
        match all.0 {
            Ok(values) => {
                assert(Seq::<ValueView>::empty() + values =~= values);
            },
            Err(_) => {},
        }
    }
    while i < list.len()
        invariant
            i <= list.len(),
            out.len() == i,
            start == old(ctx)@,
            all == spec_values(views(list@), 0, start, fuel as nat),
            all == values_after(
                value_views(out@),
                spec_values(views(list@), i as int, ctx@, fuel as nat),
            ),
        decreases list.len() - i,
    {
        proof {
            vstd::std_specs::vec::axiom_vec_index_decreases(*list, i as int);
        }
        let ghost before = value_views(out@);
        let ghost state = ctx@;
        assert(views(list@)[i as int] == list[i as int]@);
        match list[i].execute(ctx, fuel) {
            Err(e) => {
                return Err(e);
            },
            Ok(kind) => match value_from(kind) {
                Err(e) => {
                    return Err(e);
                },
                Ok(value) => {
                    proof {
                        lemma_values_after_push(
                            before,
                            value@,
                            spec_values(views(list@), i + 1, ctx@, fuel as nat),
                        );
                        lemma_value_views_push(out@, value);
                    }
                    out.push(value);
                    i = i + 1;
                },
            },
        }
    }
    proof {
        assert(value_views(out@) + Seq::<ValueView>::empty() =~= value_views(out@));
    }
    Ok(out)
}

/// Makes of `values` the variables of the arguments `params`, in the
/// innermost scope.
fn bind_args(ctx: &mut Context, params: &Vec<FunctionDecArg>, values: &Vec<Value>)
    requires
        params.len() == values.len(),
    ensures
        final(ctx)@ == (ContextView {
            variables: old(ctx)@.variables + bound(
                super::arg_views(params@),
                value_views(values@),
            ),
            ..old(ctx)@
        }),
{
    let ghost start = ctx@;
    let ghost all = bound(super::arg_views(params@), value_views(values@));
    let mut i: usize = 0;
    assert(start.variables + all.take(0) =~= start.variables);
    while i < params.len()
        invariant
            i <= params.len(),
            params.len() == values.len(),
            all == bound(super::arg_views(params@), value_views(values@)),
            ctx@ == (ContextView { variables: start.variables + all.take(i as int), ..start }),
        decreases params.len() - i,
    {
        let variable = Variable {
            name: params[i].name.clone(),
            mutable: false,
            value: values[i].duplicate(),
        };
        assert(variable@ == all[i as int]);
        assert((start.variables + all.take(i as int)).push(all[i as int]) =~= start.variables
            + all.take(i + 1));
        ctx.declare(variable);
        i = i + 1;
    }
    assert(all.take(params.len() as int) =~= all);
}

/// The fields of an instance of a type with the fields `declared`.
fn make_fields(declared: &Vec<FunctionDecArg>, values: &Vec<Value>) -> (fields: Vec<Field>)
    requires
        declared.len() == values.len(),
    ensures
        field_views(fields@) == fields_of(super::arg_views(declared@), value_views(values@)),
{
    let ghost all = fields_of(super::arg_views(declared@), value_views(values@));
    let mut fields: Vec<Field> = Vec::new();
    let mut i: usize = 0;
    assert(field_views(fields@) =~= all.take(0));
    while i < declared.len()
        invariant
            i <= declared.len(),
            declared.len() == values.len(),
            all == fields_of(super::arg_views(declared@), value_views(values@)),
            field_views(fields@) == all.take(i as int),
        decreases declared.len() - i,
    {
        let field = Field { name: declared[i].name.clone(), value: values[i].duplicate() };
        proof {
            assert(field@ == all[i as int]);
            lemma_field_views_push(fields@, field);
            assert(all.take(i as int).push(all[i as int]) =~= all.take(i + 1));
        }
        fields.push(field);
        i = i + 1;
    }
    assert(all.take(declared.len() as int) =~= all);
    fields
}

impl Instruction {
    /// Executes the instruction in `ctx`, with calls no deeper than `fuel`.
    pub fn execute(&self, ctx: &mut Context, fuel: usize) -> (done: Result<InstrKind, Error>)
        ensures
            executed(done, final(ctx)@, spec_execute(self@, old(ctx)@, fuel as nat)),
        decreases fuel, self,
    {
        match self {
            Instruction::Constant(c) => Ok(InstrKind::Expression(Some(c.to_value()))),
            Instruction::Var(name) => match ctx.get_variable(name.as_str()) {
                Some(v) => Ok(InstrKind::Expression(Some(v.value.duplicate()))),
                None => Err(Error::interpreter(join("unresolved variable ", name.as_str()))),
            },
            Instruction::VarAssign(a) => a.execute(ctx, fuel),
            Instruction::FunctionCall(c) => c.execute(ctx, fuel),
            Instruction::FunctionDec(f) => match ctx.add_function(super::share(f)) {
                Ok(_) => Ok(InstrKind::Statement),
                Err(e) => Err(e),
            },
            Instruction::TypeDec(t) => match ctx.add_type(super::share(t)) {
                Ok(_) => Ok(InstrKind::Statement),
                Err(e) => Err(e),
            },
            Instruction::TypeInstantiation(t) => t.execute(ctx, fuel),
            Instruction::BinaryOp(b) => b.execute(ctx, fuel),
            Instruction::Block(b) => b.execute(ctx, fuel),
        }
    }
}

impl VarAssign {
    /// Computes the value and binds it to the name.
    pub fn execute(&self, ctx: &mut Context, fuel: usize) -> (done: Result<InstrKind, Error>)
        ensures
            executed(done, final(ctx)@, spec_assign(self@, old(ctx)@, fuel as nat)),
        decreases fuel, self,
    {
        let kind = match self.value.execute(ctx, fuel) {
            Ok(kind) => kind,
            Err(e) => {
                return Err(e);
            },
        };
        let value = match value_from(kind) {
            Ok(value) => value,
            Err(e) => {
                return Err(e);
            },
        };
        match ctx.assign(self.symbol.clone(), self.mutable, value) {
            Ok(_) => Ok(InstrKind::Statement),
            Err(e) => Err(e),
        }
    }
}

impl BinaryOp {
    /// Computes the operands, the left one first, and applies the operator.
    pub fn execute(&self, ctx: &mut Context, fuel: usize) -> (done: Result<InstrKind, Error>)
        ensures
            executed(done, final(ctx)@, spec_binary_op(self@, old(ctx)@, fuel as nat)),
        decreases fuel, self,
    {
        let left = match self.lhs.execute(ctx, fuel) {
            Ok(kind) => kind,
            Err(e) => {
                return Err(e);
            },
        };
        let lhs = match value_from(left) {
            Ok(value) => value,
            Err(e) => {
                return Err(e);
            },
        };
        let right = match self.rhs.execute(ctx, fuel) {
            Ok(kind) => kind,
            Err(e) => {
                return Err(e);
            },
        };
        let rhs = match value_from(right) {
            Ok(value) => value,
            Err(e) => {
                return Err(e);
            },
        };
        match apply(self.op, &lhs, &rhs) {
            Ok(v) => Ok(InstrKind::Expression(Some(v))),
            Err(e) => Err(e),
        }
    }
}

impl Block {
    /// Executes the instructions in a scope of their own, which is left
    /// whatever the outcome.
    pub fn execute(&self, ctx: &mut Context, fuel: usize) -> (done: Result<InstrKind, Error>)
        ensures
            executed(
                done,
                final(ctx)@,
                spec_execute(InstructionView::Block(self@), old(ctx)@, fuel as nat),
            ),
        decreases fuel, self,
    {
        ctx.scope_enter();
        let done = run(&self.instructions, ctx, fuel);
        ctx.scope_exit();
        done
    }
}

impl FunctionCall {
    /// Computes the arguments and invokes the function.
    pub fn execute(&self, ctx: &mut Context, fuel: usize) -> (done: Result<InstrKind, Error>)
        ensures
            executed(done, final(ctx)@, spec_function_call(self@, old(ctx)@, fuel as nat)),
        decreases fuel, self,
    {
        match ctx.get_builtin(self.name.as_str()) {
            Some(function) => {
                let args = match values(&self.args, ctx, fuel) {
                    Ok(args) => args,
                    Err(e) => {
                        return Err(e);
                    },
                };
                match function.call(ctx, &args) {
                    Ok(value) => Ok(InstrKind::Expression(value)),
                    Err(e) => Err(e),
                }
            },
            None => {
                let function = match ctx.get_function(self.name.as_str()) {
                    Some(function) => function,
                    None => {
                        return Err(
                            Error::interpreter(join("unresolved function ", self.name.as_str())),
                        );
                    },
                };
                let args = match values(&self.args, ctx, fuel) {
                    Ok(args) => args,
                    Err(e) => {
                        return Err(e);
                    },
                };
                if args.len() != function.args.len() {
                    return Err(count_error(self.name.as_str(), function.args.len(), args.len()));
                }
                if fuel == 0 {
                    return Err(failure("call depth limit reached"));
                }
                ctx.scope_enter();
                bind_args(ctx, &function.args, &args);
                let done = run(&function.block.instructions, ctx, fuel - 1);
                ctx.scope_exit();
                done
            },
        }
    }
}

impl TypeInstantiation {
    /// Computes the values of the fields and makes the instance.
    pub fn execute(&self, ctx: &mut Context, fuel: usize) -> (done: Result<InstrKind, Error>)
        ensures
            executed(done, final(ctx)@, spec_instantiate(self@, old(ctx)@, fuel as nat)),
        decreases fuel, self,
    {
        let type_dec = match self.get_declaration(ctx) {
            Ok(dec) => dec,
            Err(e) => {
                return Err(e);
            },
        };
        match self.check_fields_count(&type_dec) {
            Ok(_) => {},
            Err(e) => {
                return Err(e);
            },
        }
        let fields = match values(&self.fields, ctx, fuel) {
            Ok(fields) => fields,
            Err(e) => {
                return Err(e);
            },
        };
        let instance = ObjectInstance {
            ty: self.name.clone(),
            fields: make_fields(&type_dec.fields, &fields),
        };
        Ok(InstrKind::Expression(Some(Value::Object(instance))))
    }
}

} // verus!
