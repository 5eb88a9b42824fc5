use jinko::instruction::constant::Constant;
use jinko::instruction::type_id::{Rename, TypeId};
use jinko::instruction::type_instantiation::TypeInstantiation;
use jinko::instruction::{
    BinaryOp, Block, FunctionCall, FunctionDec, FunctionDecArg, Instruction, Operator, TypeDec,
    VarAssign,
};
use jinko::parser::constructs::Construct;
use jinko::parser::shunting_yard::ShuntingYard;
use std::rc::Rc;

fn num(value: i64) -> Instruction {
    Instruction::Constant(Constant::Int(value))
}

#[test]
fn constants_print_as_they_are_written() {
    assert_eq!(Constant::Int(0).print(), "0");
    assert_eq!(Constant::Int(-120).print(), "-120");
    assert_eq!(Constant::Int(i64::MAX).print(), "9223372036854775807");
    assert_eq!(Constant::Int(i64::MIN).print(), "-9223372036854775808");
    assert_eq!(Constant::Char('a').print(), "'a'");
    assert_eq!(Constant::Str("jk".to_owned()).print(), "\"jk\"");
    assert_eq!(Constant::Float("12.2".to_owned()).print(), "12.2");
}

#[test]
fn type_instantiation_prints_its_fields() {
    let mut inst = TypeInstantiation::new("Point".to_owned());
    assert_eq!(inst.print(), "Point()");
    inst.add_field(num(1));
    assert_eq!(inst.print(), "Point(1)");
    inst.add_field(Instruction::Var("y".to_owned()));
    inst.add_field(Instruction::Constant(Constant::Str("z".to_owned())));
    assert_eq!(inst.print(), "Point(1, y, \"z\")");
}

#[test]
fn instructions_print_as_source() {
    let sum = Instruction::BinaryOp(BinaryOp::new(
        num(1),
        Instruction::BinaryOp(BinaryOp::new(num(2), num(3), Operator::Mul)),
        Operator::Add,
    ));
    assert_eq!(sum.print(), "(1 + (2 * 3))");

    let assign = Instruction::VarAssign(VarAssign::new(true, "x".to_owned(), num(12)));
    assert_eq!(assign.print(), "mut x = 12;");
    let fixed = Instruction::VarAssign(VarAssign::new(false, "x".to_owned(), num(12)));
    assert_eq!(fixed.print(), "x = 12;");

    let mut call = FunctionCall::new("f".to_owned());
    assert_eq!(Instruction::FunctionCall(FunctionCall::new("f".to_owned())).print(), "f()");
    call.add_arg(num(1));
    call.add_arg(num(2));
    assert_eq!(Instruction::FunctionCall(call).print(), "f(1, 2)");

    let mut block = Block::new();
    block.add_instruction(fixed);
    block.add_instruction(Instruction::Var("x".to_owned()));
    assert_eq!(Instruction::Block(block).print(), "{ x = 12; x }");

    let ty = Instruction::TypeDec(Rc::new(TypeDec {
        name: "Point".to_owned(),
        fields: vec![
            FunctionDecArg::new("x".to_owned(), "int".to_owned()),
            FunctionDecArg::new("y".to_owned(), "int".to_owned()),
        ],
    }));
    assert_eq!(ty.print(), "type Point(x: int, y: int);");
}

#[test]
fn function_declarations_round_trip() {
    for source in [
        "func nothing() { }",
        "func id(n: int) -> int { n }",
        "func add(a: int, b: int, c: Custom) -> int { mut s = ((a + b) * 2); s }",
    ] {
        let (rest, dec) = Construct::function_declaration(source).unwrap();
        assert_eq!(rest, "");
        let printed = Instruction::FunctionDec(Rc::new(dec)).print();
        let (rest, again) = Construct::function_declaration(&printed).unwrap();
        assert_eq!(rest, "");
        assert_eq!(Instruction::FunctionDec(Rc::new(again)).print(), printed);
    }
    let mut dec = FunctionDec::new("f".to_owned(), Some("int".to_owned()));
    dec.set_args(vec![FunctionDecArg::new("a".to_owned(), "int".to_owned())]);
    let mut body = Block::new();
    body.add_instruction(Instruction::Var("a".to_owned()));
    dec.set_block(body);
    assert_eq!(
        Instruction::FunctionDec(Rc::new(dec)).print(),
        "func f(a: int) -> int { a }"
    );
}

#[test]
fn expressions_print_with_their_grouping() {
    let (_, tree) = ShuntingYard::parse("1 + 2 * 3 - 4").unwrap();
    assert_eq!(tree.print(), "((1 + (2 * 3)) - 4)");
    let (_, again) = ShuntingYard::parse(&tree.print()).unwrap();
    assert_eq!(again, tree);
}

#[test]
fn operators_have_ranks() {
    assert_eq!(Operator::new('+'), Some(Operator::Add));
    assert_eq!(Operator::new('/'), Some(Operator::Div));
    assert_eq!(Operator::new('('), Some(Operator::LeftParenthesis));
    assert_eq!(Operator::new('x'), None);
    assert!(Operator::Mul.precedence() > Operator::Add.precedence());
    assert_eq!(Operator::Mul.precedence(), Operator::Div.precedence());
    assert_eq!(Operator::Add.precedence(), Operator::Sub.precedence());
    assert!(Operator::Add.precedence() > Operator::LeftParenthesis.precedence());
    assert!(Operator::Sub.is_left_associative());
    assert_eq!(Operator::Sub.to_char(), '-');
}

#[test]
fn prefix_renames_what_is_not_primitive() {
    let mut custom = TypeId::new("Custom".to_owned());
    custom.prefix("mod_");
    assert_eq!(custom.id(), "mod_Custom");
    let mut primitive = TypeId::new("int".to_owned());
    primitive.prefix("mod_");
    assert_eq!(primitive.id(), "int");
}

#[test]
fn programs_are_read_to_their_end() {
    let program = Construct::program("// a program\nx = 1;\nfunc f() { x }\nf()\n").unwrap();
    assert_eq!(program.instructions().len(), 3);
    assert_eq!(Construct::program("").unwrap().instructions().len(), 0);
    assert!(Construct::program("x = 1; }").is_err());
    assert!(Construct::program("x = ;").is_err());
}
