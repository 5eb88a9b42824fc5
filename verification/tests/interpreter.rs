use jinko::context::Context;
use jinko::error::{ErrKind, Error};
use jinko::instruction::constant::Constant;
use jinko::instruction::type_id::TypeId;
use jinko::instruction::type_instantiation::TypeInstantiation;
use jinko::instruction::{FunctionDecArg, Instruction, TypeDec};
use jinko::parser::constructs::Construct;
use jinko::parser::shunting_yard::ShuntingYard;
use jinko::value::{Field, InstrKind, ObjectInstance, Value};
use std::rc::Rc;

const DEPTH: usize = 64;

fn run(ctx: &mut Context, source: &str) -> Result<InstrKind, Error> {
    let (rest, instruction) = Construct::instruction_at(&source.chars().collect(), 0)
        .map(|(next, i)| (source.chars().skip(next).collect::<String>(), i))
        .unwrap();
    assert_eq!(rest.trim(), "");
    instruction.execute(ctx, DEPTH)
}

fn int_value(ctx: &mut Context, source: &str) -> i64 {
    match run(ctx, source).unwrap() {
        InstrKind::Expression(Some(Value::Int(i))) => i,
        other => panic!("no integer: {:?}", other),
    }
}

fn sy_assert_l(input: &str, result: i64) {
    let boxed_output = ShuntingYard::parse(input).unwrap().1;
    let output = match &boxed_output {
        Instruction::BinaryOp(b) => b,
        other => panic!("not a binary operation: {:?}", other),
    };

    let mut i = Context::new(vec![]);

    assert_eq!(
        output.lhs().execute(&mut i, DEPTH).unwrap(),
        InstrKind::Expression(Some(Value::Int(result)))
    );
}

#[test]
fn t_sy_execute_natural_order() {
    sy_assert_l("4 + 7 + 3", 11);
}

#[test]
fn expressions_compute_with_precedence() {
    let mut ctx = Context::new(vec![]);
    assert_eq!(int_value(&mut ctx, "4 + 2 * 3"), 10);
    assert_eq!(int_value(&mut ctx, "(4 + 2) * 3"), 18);
    assert_eq!(int_value(&mut ctx, "2 * 3 + 4"), 10);
    assert_eq!(int_value(&mut ctx, "7 / 2"), 3);
    assert_eq!(int_value(&mut ctx, "1 - 2 - 3"), -4);
}

#[test]
fn arithmetic_failures_are_interpreter_errors() {
    let mut ctx = Context::new(vec![]);
    let by_zero = run(&mut ctx, "1 / 0").unwrap_err();
    assert_eq!(by_zero.kind(), ErrKind::Interpreter);
    assert_eq!(by_zero.msg(), "arithmetic overflow or division by zero");
    assert!(run(&mut ctx, "9223372036854775807 + 1").is_err());
    let mismatch = run(&mut ctx, "1 + \"a\"").unwrap_err();
    assert_eq!(mismatch.msg(), "operands of the wrong type");
}

#[test]
fn immutable_names_are_assigned_once() {
    let mut ctx = Context::new(vec![]);
    assert_eq!(run(&mut ctx, "x = 12;"), Ok(InstrKind::Statement));
    assert_eq!(int_value(&mut ctx, "x"), 12);
    let again = run(&mut ctx, "x = 13;").unwrap_err();
    assert_eq!(again.kind(), ErrKind::Interpreter);
    assert_eq!(again.msg(), "cannot assign to immutable variable x");
    assert_eq!(int_value(&mut ctx, "x"), 12);
}

#[test]
fn mutable_names_take_new_values() {
    let mut ctx = Context::new(vec![]);
    run(&mut ctx, "mut x = 12;").unwrap();
    run(&mut ctx, "x = 13;").unwrap();
    assert_eq!(int_value(&mut ctx, "x"), 13);
    // The new value is seen from a nested scope too.
    assert_eq!(int_value(&mut ctx, "{ { x + 1 } }"), 14);
}

#[test]
fn unresolved_names_are_interpreter_errors() {
    let mut ctx = Context::new(vec![]);
    let variable = run(&mut ctx, "y + 1").unwrap_err();
    assert_eq!(variable.kind(), ErrKind::Interpreter);
    assert_eq!(variable.msg(), "unresolved variable y");
    let function = run(&mut ctx, "nothing()").unwrap_err();
    assert_eq!(function.msg(), "unresolved function nothing");
}

#[test]
fn bindings_of_a_block_end_with_the_block() {
    let mut ctx = Context::new(vec![]);
    assert_eq!(int_value(&mut ctx, "{ inner = 1; inner }"), 1);
    assert!(run(&mut ctx, "inner").is_err());
    // The scope is left on a failure too.
    assert!(run(&mut ctx, "{ other = 1; nothing() }").is_err());
    assert!(run(&mut ctx, "other").is_err());
}

#[test]
fn enclosing_bindings_are_seen_and_written_from_a_block() {
    let mut ctx = Context::new(vec![]);
    run(&mut ctx, "mut total = 1;").unwrap();
    run(&mut ctx, "fixed = 5;").unwrap();
    assert_eq!(int_value(&mut ctx, "{ total + fixed }"), 6);
    assert_eq!(run(&mut ctx, "{ total = total + 1; }"), Ok(InstrKind::Statement));
    assert_eq!(int_value(&mut ctx, "total"), 2);
    assert!(run(&mut ctx, "{ fixed = 6; }").is_err());
    assert_eq!(int_value(&mut ctx, "fixed"), 5);
}

#[test]
fn blocks_yield_their_last_expression() {
    let mut ctx = Context::new(vec![]);
    assert_eq!(run(&mut ctx, "{ }"), Ok(InstrKind::Statement));
    assert_eq!(run(&mut ctx, "{ a = 1; }"), Ok(InstrKind::Statement));
    assert_eq!(int_value(&mut ctx, "{ a = 1; a + 1 }"), 2);
}

#[test]
fn declared_functions_are_called_with_their_arguments() {
    let mut ctx = Context::new(vec![]);
    assert_eq!(
        run(&mut ctx, "func double(n: int) -> int { n * 2 }"),
        Ok(InstrKind::Statement)
    );
    assert_eq!(int_value(&mut ctx, "double(21)"), 42);
    // The argument was bound in the scope of the call only.
    assert!(run(&mut ctx, "n").is_err());

    let arity = run(&mut ctx, "double(1, 2)").unwrap_err();
    assert_eq!(arity.kind(), ErrKind::Interpreter);
    assert_eq!(
        arity.msg(),
        "Wrong number of arguments for call to function `double`: Expected 1, got 2"
    );
    assert!(run(&mut ctx, "double()").is_err());
}

#[test]
fn names_of_functions_are_taken_once() {
    let mut ctx = Context::new(vec![]);
    run(&mut ctx, "func f() { }").unwrap();
    let again = run(&mut ctx, "func f() { }").unwrap_err();
    assert_eq!(again.msg(), "name already declared: f");
    let reserved = run(&mut ctx, "func __builtin_string_len() { }").unwrap_err();
    assert_eq!(reserved.msg(), "name already declared: __builtin_string_len");
}

#[test]
fn calls_are_bounded_in_depth() {
    let mut ctx = Context::new(vec![]);
    run(&mut ctx, "func forever() { forever() }").unwrap();
    let deep = run(&mut ctx, "forever()").unwrap_err();
    assert_eq!(deep.kind(), ErrKind::Interpreter);
    assert_eq!(deep.msg(), "call depth limit reached");
    // Every scope that a call entered was left.
    run(&mut ctx, "after = 1;").unwrap();
    assert_eq!(int_value(&mut ctx, "after"), 1);
}

#[test]
fn expressions_need_values() {
    let mut ctx = Context::new(vec![]);
    run(&mut ctx, "func nothing() { }").unwrap();
    let empty = run(&mut ctx, "x = nothing();").unwrap_err();
    assert_eq!(empty.kind(), ErrKind::Interpreter);
    assert_eq!(empty.msg(), "expression without a value");
    assert!(run(&mut ctx, "x").is_err());
    assert_eq!(
        run(&mut ctx, "1 + __builtin_string_display(\"a\")").unwrap_err().msg(),
        "expression without a value"
    );
}

#[test]
fn parentheses_are_no_operators() {
    let mut ctx = Context::new(vec![]);
    // A left parenthesis that is never closed is reduced like an operator.
    let (rest, tree) = ShuntingYard::parse("1 ( 2").unwrap();
    assert_eq!(rest, "");
    let invalid = tree.execute(&mut ctx, DEPTH).unwrap_err();
    assert_eq!(invalid.kind(), ErrKind::Interpreter);
    assert_eq!(invalid.msg(), "not a binary operator");
}

#[test]
fn names_of_types_are_taken_once() {
    let mut ctx = Context::new(vec![]);
    point_declaration().execute(&mut ctx, DEPTH).unwrap();
    let again = point_declaration().execute(&mut ctx, DEPTH).unwrap_err();
    assert_eq!(again.msg(), "name already declared: Point");
}

#[test]
fn arguments_hide_outer_names_during_a_call() {
    let mut ctx = Context::new(vec![]);
    run(&mut ctx, "n = 1;").unwrap();
    run(&mut ctx, "func next(n: int) -> int { n + 1 }").unwrap();
    assert_eq!(int_value(&mut ctx, "next(41)"), 42);
    assert_eq!(int_value(&mut ctx, "n"), 1);
}

fn point_declaration() -> Instruction {
    Instruction::TypeDec(Rc::new(TypeDec {
        name: "Point".to_owned(),
        fields: vec![
            FunctionDecArg::new("x".to_owned(), "int".to_owned()),
            FunctionDecArg::new("y".to_owned(), "int".to_owned()),
        ],
    }))
}

fn instantiation(values: &[i64]) -> TypeInstantiation {
    let mut inst = TypeInstantiation::new("Point".to_owned());
    for v in values {
        inst.add_field(Instruction::Constant(Constant::Int(*v)));
    }
    inst
}

#[test]
fn instantiation_binds_fields_by_position() {
    let mut ctx = Context::new(vec![]);
    assert_eq!(
        point_declaration().execute(&mut ctx, DEPTH),
        Ok(InstrKind::Statement)
    );
    let inst = instantiation(&[3, 4]);
    assert_eq!(inst.name(), "Point");
    assert_eq!(inst.fields().len(), 2);
    assert_eq!(inst.kind(), InstrKind::Expression(None));
    assert_eq!(
        inst.execute(&mut ctx, DEPTH),
        Ok(InstrKind::Expression(Some(Value::Object(ObjectInstance {
            ty: "Point".to_owned(),
            fields: vec![
                Field { name: "x".to_owned(), value: Value::Int(3) },
                Field { name: "y".to_owned(), value: Value::Int(4) },
            ],
        }))))
    );
}

#[test]
fn instantiation_with_a_wrong_count_makes_no_instance() {
    let mut ctx = Context::new(vec![]);
    point_declaration().execute(&mut ctx, DEPTH).unwrap();
    let inst = instantiation(&[1, 2, 3]);
    let dec = inst.get_declaration(&ctx).unwrap();
    assert_eq!(dec.fields.len(), 2);
    let mismatch = inst.check_fields_count(&dec).unwrap_err();
    assert_eq!(mismatch.kind(), ErrKind::Interpreter);
    assert_eq!(
        mismatch.msg(),
        "Wrong number of arguments for call to function `Point`: Expected 2, got 3"
    );
    assert_eq!(inst.execute(&mut ctx, DEPTH), Err(mismatch));
    assert!(instantiation(&[1, 2]).check_fields_count(&dec).is_ok());
}

#[test]
fn instantiation_of_an_unknown_type_fails() {
    let mut ctx = Context::new(vec![]);
    let inst = instantiation(&[1, 2]);
    let missing = inst.get_declaration(&ctx).unwrap_err();
    assert_eq!(missing.kind(), ErrKind::Interpreter);
    assert_eq!(missing.msg(), "Cannot find type Point");
    assert_eq!(inst.execute(&mut ctx, DEPTH), Err(missing));
}

#[test]
fn type_ids_know_the_primitive_types() {
    for name in ["bool", "int", "float", "char", "string"] {
        let ty = TypeId::new(name.to_owned());
        assert_eq!(ty.id(), name);
        assert!(ty.is_primitive());
    }
    assert!(!TypeId::new("Custom".to_owned()).is_primitive());
    assert!(!TypeId::new("Int".to_owned()).is_primitive());
    assert!(!TypeId::new("".to_owned()).is_primitive());
}
