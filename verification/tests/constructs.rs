use jinko::instruction::constant::{ConstKind, Constant};
use jinko::instruction::Instruction;
use jinko::parser::constructs::Construct;
use jinko::parser::{ParseError, ParseErrorKind};

#[test]
fn t_constant_valid() {
    assert_eq!(Construct::constant("12").unwrap().1.kind(), ConstKind::Int);
    assert_eq!(
        Construct::constant("12.2").unwrap().1.kind(),
        ConstKind::Float
    );
    assert_eq!(
        Construct::constant("'a'").unwrap().1.kind(),
        ConstKind::Char
    );
    assert_eq!(
        Construct::constant("\"a\"").unwrap().1.kind(),
        ConstKind::Str
    );
}

#[test]
fn t_var_assign_valid() {
    assert_eq!(
        Construct::var_assignment("x = 12;").unwrap().1.mutable(),
        false
    );
    assert_eq!(
        Construct::var_assignment("x = 12;").unwrap().1.symbol(),
        "x"
    );

    assert_eq!(
        Construct::var_assignment("mut x_99 = 129;")
            .unwrap()
            .1
            .mutable(),
        true
    );
    assert_eq!(
        Construct::var_assignment("mut x_99 = 129;")
            .unwrap()
            .1
            .symbol(),
        "x_99"
    );

    assert_eq!(
        Construct::var_assignment("mut_x_99 = 129;")
            .unwrap()
            .1
            .mutable(),
        false
    );
    assert_eq!(
        Construct::var_assignment("mut_x_99 = 129;")
            .unwrap()
            .1
            .symbol(),
        "mut_x_99"
    );

    assert_eq!(
        Construct::var_assignment("mut mut_x_99 = 129;")
            .unwrap()
            .1
            .mutable(),
        true
    );
    assert_eq!(
        Construct::var_assignment("mut mut_x_99 = 129;")
            .unwrap()
            .1
            .symbol(),
        "mut_x_99"
    );

    match Construct::var_assignment("mut x=12;") {
        Ok(_) => assert!(true),
        Err(_) => assert!(false, "Equal stuck to id is allowed"),
    }
    match Construct::var_assignment("mut x= 12;") {
        Ok(_) => assert!(true),
        Err(_) => assert!(false, "Equal stuck to id is allowed"),
    }
    match Construct::var_assignment("mut x =12;") {
        Ok(_) => assert!(true),
        Err(_) => assert!(false, "Equal stuck to value is allowed"),
    }
}

#[test]
fn t_var_assign_invalid() {
    match Construct::var_assignment("mutable x = 12") {
        Ok(_) => assert!(false, "Mutable isn't mut"),
        Err(_) => assert!(true),
    }
    match Construct::var_assignment("mut x = 12") {
        Ok(_) => assert!(false, "No semicolon"),
        Err(_) => assert!(true),
    }
    match Construct::var_assignment("mut_x = 12") {
        Ok(_) => assert!(false, "No semicolon"),
        Err(_) => assert!(true),
    }
}

#[test]
fn t_function_call_no_args_valid() {
    assert_eq!(Construct::function_call("fn()").unwrap().1.name(), "fn");
    assert_eq!(Construct::function_call("fn()").unwrap().1.args().len(), 0);
}

#[test]
fn t_function_call_valid() {
    assert_eq!(Construct::function_call("fn(2)").unwrap().1.name(), "fn");
    assert_eq!(Construct::function_call("fn(2)").unwrap().1.args().len(), 1);

    assert_eq!(
        Construct::function_call("fn(1, 2, 3)").unwrap().1.name(),
        "fn"
    );
    assert_eq!(
        Construct::function_call("fn(1, 2, 3)")
            .unwrap()
            .1
            .args()
            .len(),
        3
    );

    assert_eq!(
        Construct::function_call("fn(1   , 2,3)").unwrap().1.name(),
        "fn"
    );
    assert_eq!(
        Construct::function_call("fn(1   , 2,3)")
            .unwrap()
            .1
            .args()
            .len(),
        3
    );
}

#[test]
fn t_function_call_invalid() {
    match Construct::function_call("fn(") {
        Ok(_) => assert!(false, "Unterminated parenthesis"),
        Err(_) => assert!(true),
    }
    match Construct::function_call("fn))") {
        Ok(_) => assert!(false, "Wrong parenthesis"),
        Err(_) => assert!(true),
    }
    match Construct::function_call("fn((") {
        Ok(_) => assert!(false, "Wrong parenthesis again"),
        Err(_) => assert!(true),
    }
    match Construct::function_call("fn((") {
        Ok(_) => assert!(false, "Wrong parenthesis again"),
        Err(_) => assert!(true),
    }

    match Construct::function_call("fn((") {
        Ok(_) => assert!(false, "Wrong parenthesis again"),
        Err(_) => assert!(true),
    }
}

#[test]
fn t_id_type_valid() {
    assert_eq!(
        Construct::identifier_type("name: type").unwrap().1.name(),
        "name"
    );
    assert_eq!(
        Construct::identifier_type("name: type").unwrap().1.ty(),
        "type"
    );

    assert_eq!(
        Construct::identifier_type("name     :type")
            .unwrap()
            .1
            .name(),
        "name"
    );
    assert_eq!(
        Construct::identifier_type("name     :type").unwrap().1.ty(),
        "type"
    );
}

#[test]
fn t_args_dec_empty() {
    assert_eq!(Construct::args_dec("()").unwrap().1.len(), 0);
}

#[test]
fn t_args_dec_one_arg() {
    assert_eq!(Construct::args_dec("(name :type)").unwrap().1.len(), 1);
}

#[test]
fn t_args_dec_valid() {
    assert_eq!(
        Construct::args_dec("(name :type, name1      : type1)")
            .unwrap()
            .1
            .len(),
        2
    );
}

#[test]
fn t_return_type_void() {
    assert_eq!(Construct::return_type(""), Ok(("", None)));
    assert_eq!(Construct::return_type("    "), Ok(("", None)));
    assert_eq!(
        Construct::return_type("        { 12 }"),
        Ok(("{ 12 }", None))
    );
}

#[test]
fn t_return_type_non_void() {
    assert_eq!(
        Construct::return_type("-> int"),
        Ok(("", Some("int".to_owned())))
    );
    assert_eq!(
        Construct::return_type("   ->    int   {"),
        Ok(("{", Some("int".to_owned())))
    );
}

#[test]
fn constant_values_are_read() {
    assert_eq!(Construct::constant("12"), Ok(("", Constant::Int(12))));
    assert_eq!(Construct::constant("-7 "), Ok((" ", Constant::Int(-7))));
    assert_eq!(
        Construct::constant("-9223372036854775808"),
        Ok(("", Constant::Int(i64::MIN)))
    );
    assert_eq!(
        Construct::constant("12.25;"),
        Ok((";", Constant::Float("12.25".to_owned())))
    );
    assert_eq!(Construct::constant("'''"), Ok(("", Constant::Char('\''))));
    assert_eq!(
        Construct::constant("\"file.jk\" + 1"),
        Ok((" + 1", Constant::Str("file.jk".to_owned())))
    );
    assert_eq!(
        Construct::constant("\"\""),
        Ok(("", Constant::Str(String::new())))
    );
}

#[test]
fn constant_rejects_what_is_no_literal() {
    let no_literal = Err(ParseError::Error(ParseErrorKind::OneOf));
    assert_eq!(Construct::constant(""), no_literal);
    assert_eq!(Construct::constant("x"), no_literal);
    assert_eq!(Construct::constant("\"open"), no_literal);
    assert_eq!(Construct::constant("9223372036854775808"), no_literal);
    // Two literals in a row are ambiguous.
    assert_eq!(Construct::constant("'a'\"b\""), no_literal);
    assert_eq!(Construct::constant("1.5-3"), no_literal);
}

#[test]
fn constant_round_trip_on_values() {
    let samples = vec![
        Constant::Int(0),
        Constant::Int(-1),
        Constant::Int(i64::MAX),
        Constant::Int(i64::MIN),
        Constant::Char('x'),
        Constant::Char('"'),
        Constant::Str("to display".to_owned()),
        Constant::Float("-0.5".to_owned()),
        Constant::Float("12.2".to_owned()),
    ];
    for c in samples {
        let text = c.print();
        assert_eq!(Construct::constant(&text), Ok(("", c)));
    }
}

#[test]
fn function_call_keeps_arguments_in_order() {
    let (rest, call) = Construct::function_call("concat(\"file\", \".jk\") tail").unwrap();
    assert_eq!(rest, " tail");
    assert_eq!(call.name(), "concat");
    assert_eq!(
        call.args(),
        &vec![
            Instruction::Constant(Constant::Str("file".to_owned())),
            Instruction::Constant(Constant::Str(".jk".to_owned())),
        ]
    );
}

#[test]
fn function_call_needs_its_closing_parenthesis() {
    assert!(Construct::function_call("fn(2").is_err());
    assert!(Construct::function_call("fn(1, )").is_err());
    assert!(Construct::function_call("fn(1,, 2)").is_err());
    assert!(Construct::function_call("(1)").is_err());
}

#[test]
fn args_dec_round_trip_in_declared_order() {
    let (rest, args) = Construct::args_dec("(a: int, b: string, c: Custom) {").unwrap();
    assert_eq!(rest, " {");
    let names: Vec<(&str, &str)> = args.iter().map(|a| (a.name(), a.ty())).collect();
    assert_eq!(names, vec![("a", "int"), ("b", "string"), ("c", "Custom")]);
    assert_eq!(Construct::args_dec("( )").unwrap().1.len(), 0);
}

#[test]
fn args_dec_rejects_a_dangling_comma() {
    assert!(Construct::args_dec("(a: int, )").is_err());
    assert!(Construct::args_dec("(a: int,)").is_err());
    assert!(Construct::args_dec("(a int)").is_err());
    assert!(Construct::args_dec("(a: int").is_err());
}

#[test]
fn var_assignment_takes_an_expression() {
    let (rest, assign) = Construct::var_assignment("mut total = 1 + 2 * 3; next").unwrap();
    assert_eq!(rest, " next");
    assert!(assign.mutable());
    assert_eq!(assign.symbol(), "total");
    match assign.value() {
        Instruction::BinaryOp(sum) => {
            assert_eq!(sum.lhs(), &Instruction::Constant(Constant::Int(1)));
            assert!(matches!(sum.rhs(), Instruction::BinaryOp(_)));
        }
        other => panic!("not a sum: {:?}", other),
    }
}

#[test]
fn function_declaration_reads_every_part() {
    let source = "func add_one(n: int) -> int {\n    // the body\n    mut m = n + 1;\n    m\n}";
    let (rest, dec) = Construct::function_declaration(source).unwrap();
    assert_eq!(rest, "");
    assert_eq!(dec.name(), "add_one");
    assert_eq!(dec.args().len(), 1);
    assert_eq!(dec.args()[0].name(), "n");
    assert_eq!(dec.args()[0].ty(), "int");
    assert_eq!(dec.ty.as_ref().map(|t| t.id()), Some("int"));
    assert_eq!(dec.block().instructions().len(), 2);
    assert!(matches!(
        dec.block().instructions()[0],
        Instruction::VarAssign(_)
    ));
    assert_eq!(
        dec.block().instructions()[1],
        Instruction::Var("m".to_owned())
    );
}

#[test]
fn function_declaration_without_arguments_or_type() {
    let (rest, dec) = Construct::function_declaration("func nothing() { }").unwrap();
    assert_eq!(rest, "");
    assert_eq!(dec.args().len(), 0);
    assert!(dec.ty.is_none());
    assert_eq!(dec.block().instructions().len(), 0);
    assert!(Construct::function_declaration("funcnothing() { }").is_err());
    assert!(Construct::function_declaration("func nothing() ").is_err());
}

#[test]
fn block_nests_and_needs_its_closing_brace() {
    let (rest, block) = Construct::block("{ x = 1; { y = 2; y } f(); }").unwrap();
    assert_eq!(rest, "");
    assert_eq!(block.instructions().len(), 3);
    assert!(matches!(block.instructions()[1], Instruction::Block(_)));
    assert!(matches!(
        block.instructions()[2],
        Instruction::FunctionCall(_)
    ));
    assert!(Construct::block("{ x = 1; ").is_err());
    assert!(Construct::block("x = 1; }").is_err());
}
