//! What holds of the interpreter whatever the program: statements about
//! scopes, assignments and instantiations, each proved from the definitions
//! of the operations that it speaks of.

use crate::builtins::{spec_call, BuiltinFn};
use crate::context::{immutable_message, ContextView, VariableView};
use crate::error::{interpreter_error, ErrorView};
use crate::instruction::execute::{
    bound, spec_assign, spec_binary_op, spec_execute, spec_function_call, spec_instantiate, spec_run, spec_values, wrong_count,
};
use crate::instruction::type_instantiation::TypeInstantiationView;
use crate::instruction::{
    BinaryOpView, BlockView, FunctionCallView, InstructionView, VarAssignView,
};
use crate::names::{find_last, lemma_find_last, lemma_find_last_push};
use crate::value::{InstrKindView, ValueView};
use vstd::prelude::*;

verus! {

/// A name that is bound immutable cannot be bound again: whatever the new
/// value, and whether the new assignment says `mut` or not, the assignment
/// is a failure of the interpreter, and the state stays as it is.
pub proof fn lemma_immutable_is_assigned_once(
    ctx: ContextView,
    name: Seq<char>,
    mutable: bool,
    value: ValueView,
)
    requires
        ctx.lookup(name) matches Some(v) && !v.mutable,
    ensures
        ctx.assign(name, mutable, value) == Err::<ContextView, ErrorView>(
            interpreter_error(immutable_message(name)),
        ),
{
}

/// The first assignment to a name makes the binding that the assignment
/// asks for: the name then stands for the value, mutable or not as the
/// assignment said.
pub proof fn lemma_first_assignment_binds(
    ctx: ContextView,
    name: Seq<char>,
    mutable: bool,
    value: ValueView,
)
    requires
        ctx.lookup(name) is None,
    ensures
        ctx.assign(name, mutable, value) matches Ok(after) && after.lookup(name) == Some(
            VariableView { name, mutable, value },
        ),
{
    lemma_find_last_push(ctx.variables, VariableView { name, mutable, value }, name);
}

/// An assignment to a mutable name succeeds, and the new value is what the
/// name stands for afterwards, in the same scope and in every scope entered
/// from it.
pub proof fn lemma_mutable_assignment_is_seen(
    ctx: ContextView,
    name: Seq<char>,
    mutable: bool,
    value: ValueView,
)
    requires
        ctx.lookup(name) matches Some(v) && v.mutable,
    ensures
        ctx.assign(name, mutable, value) matches Ok(after) && after.lookup(name) matches Some(v)
            && v.value == value && v.mutable && after.enter().lookup(name) == after.lookup(name)
            && after.enter().enter().lookup(name) == after.lookup(name),
{
    lemma_find_last(ctx.variables, name);
    let i = find_last(ctx.variables, name)->0;
    let updated = ctx.variables.update(i, VariableView { value, ..ctx.variables[i] });
    lemma_find_last(updated, name);
    match find_last(updated, name) {
        Some(j) => {
            if j < i {
                assert(updated[i].name == name);
            }
            if j > i {
                assert(ctx.variables[j] == updated[j]);
            }
        },
        None => {
            assert(updated[i].name == name);
        },
    }
}

/// A scope that is entered sees the bindings of the scopes around it.
pub proof fn lemma_enclosing_bindings_are_seen(ctx: ContextView, name: Seq<char>)
    ensures
        ctx.enter().lookup(name) == ctx.lookup(name),
{
}

/// A binding made inside a scope is gone when the scope is left: a name that
/// stood for nothing before the scope stands for nothing after it, and the
/// state is what it was before the scope was entered.
pub proof fn lemma_inner_binding_ends_with_scope(
    ctx: ContextView,
    name: Seq<char>,
    mutable: bool,
    value: ValueView,
)
    requires
        ctx.lookup(name) is None,
    ensures
        ctx.enter().assign(name, mutable, value) matches Ok(inside) && inside.lookup(name)
            is Some && inside.exit() == ctx && inside.exit().lookup(name) is None,
{
    let inside = ctx.enter().assign(name, mutable, value)->Ok_0;
    lemma_find_last_push(ctx.variables, VariableView { name, mutable, value }, name);
    assert(inside.variables.take(ctx.variables.len() as int) =~= ctx.variables);
    assert(ctx.enter().marks.drop_last() =~= ctx.marks);
}

/// A mutable binding of an enclosing scope can be written from a scope
/// entered later, and keeps the value when that scope is left.
pub proof fn lemma_enclosing_binding_is_written(
    ctx: ContextView,
    name: Seq<char>,
    mutable: bool,
    value: ValueView,
)
    requires
        ctx.lookup(name) matches Some(v) && v.mutable,
    ensures
        ctx.enter().assign(name, mutable, value) matches Ok(inside) && inside.exit().lookup(name)
            matches Some(v) && v.value == value && inside.exit().marks == ctx.marks
            && inside.exit().variables.len() == ctx.variables.len(),
{
    lemma_find_last(ctx.variables, name);
    lemma_mutable_assignment_is_seen(ctx.enter(), name, mutable, value);
    lemma_mutable_assignment_is_seen(ctx, name, mutable, value);
    let inside = ctx.enter().assign(name, mutable, value)->Ok_0;
    let outside = ctx.assign(name, mutable, value)->Ok_0;
    assert(inside.variables.take(ctx.variables.len() as int) =~= inside.variables);
    assert(ctx.enter().marks.drop_last() =~= ctx.marks);
    assert(inside.exit().variables == outside.variables);
}

/// An instantiation with a number of values that is not the number of the
/// fields of its type is a failure of the interpreter that gives both
/// numbers, the declared one first. None of the values is computed, no
/// instance is made, and the state stays as it is.
pub proof fn lemma_instantiation_needs_every_field(
    t: TypeInstantiationView,
    ctx: ContextView,
    fuel: nat,
)
    requires
        ctx.type_dec(t.name) matches Some(dec) && dec.fields.len() != t.fields.len(),
    ensures
        spec_instantiate(t, ctx, fuel) == (
            Err::<InstrKindView, ErrorView>(
                wrong_count(t.name, ctx.type_dec(t.name)->0.fields.len(), t.fields.len()),
            ),
            ctx,
        ),
{
}

/// `after` has the scopes of `before`, and it has every variable of `before`
/// at its place, under its name and mutable or not as it was; and the
/// variables of `before` that are immutable have the values that they had.
/// What was declared is declared, in the same order; what was asked of the
/// host is asked, in the same order; and the libraries linked, the failures
/// reported, the arguments of the process and the functions of the
/// interpreter are the same.
pub open spec fn continues(before: ContextView, after: ContextView) -> bool {
    &&& after.marks == before.marks
    &&& after.variables.len() >= before.variables.len()
    &&& forall|i: int|
        0 <= i < before.variables.len() ==> (#[trigger] after.variables[i]).name
            == before.variables[i].name && after.variables[i].mutable
            == before.variables[i].mutable && (!before.variables[i].mutable
            ==> after.variables[i].value == before.variables[i].value)
    &&& before.functions.is_prefix_of(after.functions)
    &&& before.types.is_prefix_of(after.types)
    &&& before.actions.is_prefix_of(after.actions)
    &&& after.builtins == before.builtins
    &&& after.args == before.args
    &&& after.libraries == before.libraries
    &&& after.errors == before.errors
}

/// The state after an assignment continues the state before it.
proof fn lemma_assign_continues(
    ctx: ContextView,
    name: Seq<char>,
    mutable: bool,
    value: ValueView,
)
    ensures
        ctx.assign(name, mutable, value) matches Ok(after) ==> continues(ctx, after),
{
    lemma_find_last(ctx.variables, name);
}

/// The state after a call of a function of the interpreter continues the
/// state before it.
proof fn lemma_builtin_continues(function: BuiltinFn, args: Seq<ValueView>, ctx: ContextView)
    ensures
        continues(ctx, spec_call(function, args, ctx).1),
{
}

/// Leaving a scope gives back the scopes of before it was entered, and the
/// variables that there were, whatever was bound inside.
proof fn lemma_leaving_continues(ctx: ContextView, entered: ContextView, inside: ContextView)
    requires
        entered == (ContextView { variables: entered.variables, marks: entered.marks, ..ctx }),
        entered.marks == ctx.marks.push(ctx.variables.len()),
        entered.variables.len() >= ctx.variables.len(),
        forall|i: int|
            0 <= i < ctx.variables.len() ==> #[trigger] entered.variables[i] == ctx.variables[i],
        continues(entered, inside),
    ensures
        continues(ctx, inside.exit()),
        inside.exit().variables.len() == ctx.variables.len(),
{
    assert(inside.marks.drop_last() =~= ctx.marks);
    let left = inside.exit();
    assert forall|i: int| 0 <= i < ctx.variables.len() implies (#[trigger] left.variables[i]).name
        == ctx.variables[i].name && left.variables[i].mutable == ctx.variables[i].mutable && (
    !ctx.variables[i].mutable ==> left.variables[i].value == ctx.variables[i].value) by {
        assert(left.variables[i] == inside.variables[i]);
        assert(inside.variables[i].name == entered.variables[i].name);
        assert(entered.variables[i] == ctx.variables[i]);
    }
}

/// The state after an instruction continues the state before it, whatever
/// the instruction and whatever its outcome. Every scope that the instruction
/// enters is left again, on a failure too, and the variables that there were
/// stay at their places, under their names and mutable or not as they were.
/// No instruction changes the value of an immutable variable, drops a
/// declaration or a request to the host, or unlinks a library.
pub proof fn lemma_execution_continues(instr: InstructionView, ctx: ContextView, fuel: nat)
    ensures
        continues(ctx, spec_execute(instr, ctx, fuel).1),
    decreases fuel, instr, 0nat,
{
    match instr {
        InstructionView::VarAssign(a) => {
            lemma_assignment_continues(a, ctx, fuel);
        },
        InstructionView::FunctionCall(c) => {
            lemma_call_continues(c, ctx, fuel);
        },
        InstructionView::TypeInstantiation(t) => {
            lemma_instantiation_continues(t, ctx, fuel);
        },
        InstructionView::BinaryOp(b) => {
            lemma_operation_continues(b, ctx, fuel);
        },
        InstructionView::Block(b) => {
            lemma_block_continues(b, ctx, fuel);
        },
        _ => {},
    }
}

/// The state after a block continues the state before it, with as many
/// variables as there were.
pub proof fn lemma_block_continues(b: BlockView, ctx: ContextView, fuel: nat)
    ensures
        continues(ctx, spec_execute(InstructionView::Block(b), ctx, fuel).1),
        spec_execute(InstructionView::Block(b), ctx, fuel).1.variables.len()
            == ctx.variables.len(),
    decreases fuel, b, 1nat,
{
    let entered = ctx.enter();
    lemma_run_continues(b.instructions, 0, entered, fuel);
    let inside = spec_run(b.instructions, 0, entered, fuel).1;
    lemma_leaving_continues(ctx, entered, inside);
}

proof fn lemma_assignment_continues(a: VarAssignView, ctx: ContextView, fuel: nat)
    ensures
        continues(ctx, spec_assign(a, ctx, fuel).1),
    decreases fuel, a, 0nat,
{
    lemma_execution_continues(*a.value, ctx, fuel);
    let (done, after) = spec_execute(*a.value, ctx, fuel);
    match done {
        Ok(InstrKindView::Expression(Some(value))) => {
            lemma_assign_continues(after, a.symbol, a.mutable, value);
        },
        _ => {},
    }
}

proof fn lemma_operation_continues(b: BinaryOpView, ctx: ContextView, fuel: nat)
    ensures
        continues(ctx, spec_binary_op(b, ctx, fuel).1),
    decreases fuel, b, 0nat,
{
    lemma_execution_continues(*b.lhs, ctx, fuel);
    let after_left = spec_execute(*b.lhs, ctx, fuel).1;
    lemma_execution_continues(*b.rhs, after_left, fuel);
}

proof fn lemma_run_continues(list: Seq<InstructionView>, from: int, ctx: ContextView, fuel: nat)
    ensures
        continues(ctx, spec_run(list, from, ctx, fuel).1),
    decreases fuel, list, list.len() - from,
{
    if 0 <= from < list.len() {
        lemma_execution_continues(list[from], ctx, fuel);
        let (done, after) = spec_execute(list[from], ctx, fuel);
        if done is Ok && from + 1 != list.len() {
            lemma_run_continues(list, from + 1, after, fuel);
        }
    }
}

proof fn lemma_values_continue(
    list: Seq<InstructionView>,
    from: int,
    ctx: ContextView,
    fuel: nat,
)
    ensures
        continues(ctx, spec_values(list, from, ctx, fuel).1),
    decreases fuel, list, list.len() - from,
{
    if 0 <= from < list.len() {
        lemma_execution_continues(list[from], ctx, fuel);
        let (done, after) = spec_execute(list[from], ctx, fuel);
        match done {
            Ok(InstrKindView::Expression(Some(_))) => {
                lemma_values_continue(list, from + 1, after, fuel);
            },
            _ => {},
        }
    }
}

proof fn lemma_call_continues(c: FunctionCallView, ctx: ContextView, fuel: nat)
    ensures
        continues(ctx, spec_function_call(c, ctx, fuel).1),
    decreases fuel, c, 0nat,
{
    lemma_values_continue(c.args, 0, ctx, fuel);
    let (args, after) = spec_values(c.args, 0, ctx, fuel);
    match ctx.builtin(c.name) {
        Some(function) => {
            if args is Ok {
                lemma_builtin_continues(function, args->Ok_0, after);
            }
        },
        None => match ctx.function(c.name) {
            None => {},
            Some(f) => {
                if args is Ok && args->Ok_0.len() == f.args.len() && fuel != 0 {
                    let entered = ContextView {
                        variables: after.enter().variables + bound(f.args, args->Ok_0),
                        ..after.enter()
                    };
                    lemma_run_continues(f.block.instructions, 0, entered, (fuel - 1) as nat);
                    let inside = spec_run(f.block.instructions, 0, entered, (fuel - 1) as nat).1;
                    assert forall|i: int| 0 <= i < after.variables.len() implies (
                    #[trigger] entered.variables[i]) == after.variables[i] by {}
                    lemma_leaving_continues(after, entered, inside);
                }
            },
        },
    }
}

proof fn lemma_instantiation_continues(t: TypeInstantiationView, ctx: ContextView, fuel: nat)
    ensures
        continues(ctx, spec_instantiate(t, ctx, fuel).1),
    decreases fuel, t, 0nat,
{
    lemma_values_continue(t.fields, 0, ctx, fuel);
}

/// A name that stands for nothing before a block stands for nothing after
/// it, whatever the block binds and whatever its outcome: the bindings of a
/// block end with the block.
pub proof fn lemma_block_bindings_end(
    b: BlockView,
    ctx: ContextView,
    fuel: nat,
    name: Seq<char>,
)
    requires
        ctx.lookup(name) is None,
    ensures
        spec_execute(InstructionView::Block(b), ctx, fuel).1.lookup(name) is None,
{
    lemma_block_continues(b, ctx, fuel);
    let after = spec_execute(InstructionView::Block(b), ctx, fuel).1;
    lemma_find_last(ctx.variables, name);
    lemma_find_last(after.variables, name);
    match find_last(after.variables, name) {
        Some(i) => {
            assert(after.variables[i].name == ctx.variables[i].name);
        },
        None => {},
    }
}

} // verus!
