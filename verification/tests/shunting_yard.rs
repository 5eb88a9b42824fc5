use jinko::instruction::constant::Constant;
use jinko::instruction::{BinaryOp, Instruction, Operator};
use jinko::parser::shunting_yard::ShuntingYard;
use jinko::parser::{ParseError, ParseErrorKind};

fn num(value: i64) -> Instruction {
    Instruction::Constant(Constant::Int(value))
}

fn node(lhs: Instruction, rhs: Instruction, op: Operator) -> Instruction {
    Instruction::BinaryOp(BinaryOp::new(lhs, rhs, op))
}

fn as_binary_op(node: &Instruction) -> &BinaryOp {
    match node {
        Instruction::BinaryOp(b) => b,
        other => panic!("not a binary operation: {:?}", other),
    }
}

#[test]
fn t_sy_valid_add() {
    let boxed_output = ShuntingYard::parse("1 + 2").unwrap().1;
    let output = as_binary_op(&boxed_output);
    let reference = BinaryOp::new(num(1), num(2), Operator::Add);

    assert_eq!(output.operator(), reference.operator());
}

#[test]
fn t_sy_valid_mul() {
    let boxed_output = ShuntingYard::parse("1 * 2").unwrap().1;
    let output = as_binary_op(&boxed_output);
    let reference = BinaryOp::new(num(1), num(2), Operator::Mul);

    assert_eq!(output.operator(), reference.operator());
}

#[test]
fn t_sy_valid_normal_priority() {
    let boxed_output = ShuntingYard::parse("1 * 2 + 3").unwrap().1;
    let output = as_binary_op(&boxed_output);
    let l_ref = node(num(1), num(2), Operator::Mul);
    let reference = BinaryOp::new(l_ref, num(3), Operator::Add);

    assert_eq!(output.operator(), reference.operator());
}

#[test]
fn t_sy_valid_back_priority() {
    let boxed_output = ShuntingYard::parse("3 + 1 * 2").unwrap().1;
    let output = as_binary_op(&boxed_output);
    let l_ref = node(num(1), num(2), Operator::Mul);
    let reference = BinaryOp::new(l_ref, num(3), Operator::Add);

    assert_eq!(output.operator(), reference.operator());
}

#[test]
fn t_sy_valid_parentheses_priority() {
    let boxed_output = ShuntingYard::parse("(3 + 1) * 2").unwrap().1;
    let output = as_binary_op(&boxed_output);
    let l_ref = node(num(1), num(3), Operator::Add);
    let reference = BinaryOp::new(l_ref, num(2), Operator::Mul);

    assert_eq!(output.operator(), reference.operator());
}

#[test]
fn t_sy_valid_parentheses_priority_reverse() {
    let boxed_output = ShuntingYard::parse("2 * (3 + 1)").unwrap().1;
    let output = as_binary_op(&boxed_output);
    let l_ref = node(num(1), num(3), Operator::Add);
    let reference = BinaryOp::new(l_ref, num(2), Operator::Mul);

    assert_eq!(output.operator(), reference.operator());
}

#[test]
fn precedence_shapes_the_tree() {
    assert_eq!(
        ShuntingYard::parse("1 + 2 * 3"),
        Ok((
            "",
            node(num(1), node(num(2), num(3), Operator::Mul), Operator::Add)
        ))
    );
    assert_eq!(
        ShuntingYard::parse("(1 + 2) * 3"),
        Ok((
            "",
            node(node(num(1), num(2), Operator::Add), num(3), Operator::Mul)
        ))
    );
}

#[test]
fn operators_of_equal_rank_group_from_the_left() {
    assert_eq!(
        ShuntingYard::parse("8 - 4 - 2"),
        Ok((
            "",
            node(node(num(8), num(4), Operator::Sub), num(2), Operator::Sub)
        ))
    );
    assert_eq!(
        ShuntingYard::parse("8 / 4 * 2"),
        Ok((
            "",
            node(node(num(8), num(4), Operator::Div), num(2), Operator::Mul)
        ))
    );
}

#[test]
fn unbalanced_and_empty_inputs_fail() {
    assert_eq!(
        ShuntingYard::parse("(1+2"),
        Err(ParseError::Error(ParseErrorKind::OneOf))
    );
    assert_eq!(
        ShuntingYard::parse(""),
        Err(ParseError::Error(ParseErrorKind::Many1))
    );
    assert_eq!(
        ShuntingYard::parse("   // nothing but a comment"),
        Err(ParseError::Error(ParseErrorKind::Many1))
    );
    assert_eq!(
        ShuntingYard::parse("1 + 2)"),
        Err(ParseError::Failure(ParseErrorKind::OneOf))
    );
    assert_eq!(
        ShuntingYard::parse(")"),
        Err(ParseError::Failure(ParseErrorKind::OneOf))
    );
}

#[test]
fn malformed_expressions_fail() {
    let malformed = Err(ParseError::Error(ParseErrorKind::OneOf));
    assert_eq!(ShuntingYard::parse("1 +"), malformed);
    assert_eq!(ShuntingYard::parse("* 2"), malformed);
    assert_eq!(ShuntingYard::parse("1 * + 2"), malformed);
    // Two nodes are left on the output.
    assert_eq!(ShuntingYard::parse("1 2"), malformed);
}

#[test]
fn operands_are_calls_literals_and_variables() {
    let (rest, node) = ShuntingYard::parse("len(\"jk\") + n ; tail").unwrap();
    assert_eq!(rest, "; tail");
    let sum = as_binary_op(&node);
    assert!(matches!(sum.lhs(), Instruction::FunctionCall(_)));
    assert_eq!(sum.rhs(), &Instruction::Var("n".to_owned()));
    assert_eq!(ShuntingYard::parse("12"), Ok(("", num(12))));
}

#[test]
fn comments_and_whitespace_are_skipped() {
    assert_eq!(
        ShuntingYard::parse("  1 // one\n + // plus\n 2 // two"),
        Ok(("", node(num(1), num(2), Operator::Add)))
    );
    // A division is no comment.
    assert_eq!(
        ShuntingYard::parse("4 / 2"),
        Ok(("", node(num(4), num(2), Operator::Div)))
    );
}
