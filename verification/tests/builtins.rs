use jinko::builtins::{BuiltinFn, Builtins};
use jinko::context::{Action, Context};
use jinko::error::{ErrKind, Error};
use jinko::instruction::Instruction;
use jinko::parser::constructs::Construct;
use jinko::value::{InstrKind, Value};

const DEPTH: usize = 64;

/// Reads one call and executes it.
fn call(ctx: &mut Context, source: &str) -> Result<InstrKind, Error> {
    let (rest, call) = Construct::function_call(source).unwrap();
    assert_eq!(rest, "");
    Instruction::FunctionCall(call).execute(ctx, DEPTH)
}

fn value(ctx: &mut Context, source: &str) -> Value {
    match call(ctx, source).unwrap() {
        InstrKind::Expression(Some(v)) => v,
        other => panic!("no value: {:?}", other),
    }
}

#[test]
fn t_string_builtins_are_valid() {
    let mut ctx = Context::new(vec![]);
    call(&mut ctx, "__builtin_string_len(\"jk\")").unwrap();
    call(&mut ctx, "__builtin_string_concat(\"file\", \".jk\")").unwrap();
    call(&mut ctx, "__builtin_string_display(\"to display\")").unwrap();
    call(&mut ctx, "__builtin_string_display_err(\"to display on err\")").unwrap();
}

#[test]
fn t_ffi_builtins_are_valid() {
    let mut ctx = Context::new(vec![]);
    call(
        &mut ctx,
        "__builtin_ffi_link_with(\"tests/fixtures/clib/lib.so\")",
    )
    .unwrap();
}

#[test]
fn string_builtins_give_the_host_results() {
    let mut ctx = Context::new(vec![]);
    assert_eq!(value(&mut ctx, "__builtin_string_len(\"jk\")"), Value::Int(2));
    assert_eq!(value(&mut ctx, "__builtin_string_len(\"\")"), Value::Int(0));
    // The length is counted in bytes.
    assert_eq!(
        value(&mut ctx, "__builtin_string_len(\"é\")"),
        Value::Int("é".len() as i64)
    );
    assert_eq!(
        value(&mut ctx, "__builtin_string_concat(\"file\", \".jk\")"),
        Value::Str("file.jk".to_owned())
    );
    assert_eq!(
        value(&mut ctx, "__builtin_string_is_empty(\"\")"),
        Value::Bool(true)
    );
    assert_eq!(
        value(&mut ctx, "__builtin_string_is_empty(\"jk\")"),
        Value::Bool(false)
    );
    assert_eq!(
        value(&mut ctx, "__builtin_string_equals(\"jk\", \"jk\")"),
        Value::Bool(true)
    );
    assert_eq!(
        value(&mut ctx, "__builtin_string_equals(\"jk\", \"kj\")"),
        Value::Bool(false)
    );
}

#[test]
fn display_builtins_ask_the_host_in_order() {
    let mut ctx = Context::new(vec![]);
    assert_eq!(
        call(&mut ctx, "__builtin_string_display(\"to display\")"),
        Ok(InstrKind::Expression(None))
    );
    call(&mut ctx, "__builtin_string_display_err(\"to display on err\")").unwrap();
    assert_eq!(
        ctx.take_actions(),
        vec![
            Action::Stdout("to display".to_owned()),
            Action::Stderr("to display on err".to_owned()),
        ]
    );
    assert_eq!(ctx.take_actions(), vec![]);
}

#[test]
fn arg_get_is_lenient_out_of_range() {
    let mut ctx = Context::new(vec!["jinko".to_owned(), "main.jk".to_owned()]);
    assert_eq!(
        value(&mut ctx, "__builtin_arg_get(1)"),
        Value::Str("main.jk".to_owned())
    );
    assert_eq!(
        value(&mut ctx, "__builtin_arg_get(2)"),
        Value::Str(String::new())
    );
    assert_eq!(
        value(&mut ctx, "__builtin_arg_get(-1)"),
        Value::Str(String::new())
    );
}

#[test]
fn builtins_reject_wrong_arguments() {
    let mut ctx = Context::new(vec![]);
    let wrong = call(&mut ctx, "__builtin_string_len(12)").unwrap_err();
    assert_eq!(wrong.kind(), ErrKind::Interpreter);
    assert_eq!(wrong.msg(), "wrong arguments for a builtin function");
    assert!(call(&mut ctx, "__builtin_string_len()").is_err());
    assert!(call(&mut ctx, "__builtin_string_concat(\"a\")").is_err());
    assert!(call(&mut ctx, "__builtin_string_equals(\"a\", 1)").is_err());
    assert!(call(&mut ctx, "__builtin_arg_get(\"a\")").is_err());
    assert!(call(&mut ctx, "__builtin_ffi_link_with(1)").is_err());
}

#[test]
fn link_outcomes_are_kept() {
    let mut ctx = Context::new(vec![]);
    assert_eq!(
        call(&mut ctx, "__builtin_ffi_link_with(\"lib.so\")"),
        Ok(InstrKind::Expression(None))
    );
    assert_eq!(ctx.take_actions(), vec![Action::Link("lib.so".to_owned())]);

    ctx.link_outcome("lib.so".to_owned(), Ok(()));
    assert_eq!(ctx.libraries(), &vec!["lib.so".to_owned()]);
    assert_eq!(ctx.errors().len(), 0);

    ctx.link_outcome(
        "missing.so".to_owned(),
        Err(Error::new(ErrKind::IO).with_msg("no such file".to_owned())),
    );
    // A failed link undoes nothing.
    assert_eq!(ctx.libraries(), &vec!["lib.so".to_owned()]);
    assert_eq!(ctx.errors().len(), 1);
    assert_eq!(ctx.errors()[0].kind(), ErrKind::IO);
    assert_eq!(
        ctx.errors()[0].msg(),
        "couldn't link with library missing.so"
    );
}

#[test]
fn the_table_holds_the_eight_builtins() {
    let builtins = Builtins::new();
    assert!(builtins.contains("__builtin_string_len"));
    assert!(builtins.contains("__builtin_arg_get"));
    assert!(!builtins.contains("string_len"));
    assert_eq!(
        builtins.get("__builtin_string_concat"),
        Some(&BuiltinFn::StringConcat)
    );
    assert_eq!(
        builtins.get("__builtin_ffi_link_with"),
        Some(&BuiltinFn::FfiLinkWith)
    );
    assert_eq!(builtins.get("__builtin_nothing"), None);
    assert!(Builtins::default().contains("__builtin_string_equals"));
}
