use schwift::env::Environment;
use schwift::error::ErrorKind;
use schwift::expression::{Expression, Operator};
use schwift::interpreter::{execute, Completion};
use schwift::statement::{Statement, StatementKind};
use schwift::value::Value;

fn st(kind: StatementKind) -> Statement {
    Statement::tnew(kind)
}

fn lit_int(i: i64) -> Expression {
    Expression::Literal(Value::Int(i))
}

fn lit_str(s: &str) -> Expression {
    Expression::Literal(Value::Str(s.to_string()))
}

fn var(name: &str) -> Expression {
    Expression::Variable(name.to_string())
}

fn fresh_env() -> Environment {
    Environment::new(Vec::new())
}

#[test]
fn if_on_truthy_scalar_prints_then_branch() {
    let program = vec![
        st(StatementKind::assignment("x".to_string(), lit_int(5))),
        st(StatementKind::if_block(
            var("x"),
            vec![st(StatementKind::print(lit_str("yes")))],
            Some(vec![st(StatementKind::print(lit_str("no")))]),
        )),
    ];
    let mut env = fresh_env();
    let r = execute(&program, &mut env);
    assert!(matches!(r, Ok(Completion::Normal)));
    assert_eq!(env.output_text().as_str(), "yes\n");
}

#[test]
fn call_with_wrong_arity_names_both_counts() {
    let program = vec![
        st(StatementKind::function(
            "f".to_string(),
            vec![],
            vec![st(StatementKind::return_it(lit_int(1)))],
        )),
        st(StatementKind::FunctionCall(
            "f".to_string(),
            vec![lit_int(2), lit_int(2)],
        )),
    ];
    let mut env = fresh_env();
    let r = execute(&program, &mut env);
    let e = r.err().expect("arity mismatch must fail");
    assert!(e.kind == ErrorKind::InvalidArguments("f".to_string(), 0, 2));
}

#[test]
fn arity_check_precedes_argument_evaluation() {
    // The lone argument would raise UnknownVariable if it were
    // evaluated; the arity failure must come first.
    let program = vec![
        st(StatementKind::function("g".to_string(), vec![], vec![])),
        st(StatementKind::FunctionCall(
            "g".to_string(),
            vec![var("nope")],
        )),
    ];
    let mut env = fresh_env();
    let r = execute(&program, &mut env);
    let e = r.err().expect("arity mismatch must fail");
    assert!(e.kind == ErrorKind::InvalidArguments("g".to_string(), 0, 1));
}

#[test]
fn catch_recovers_from_unknown_variable() {
    let program = vec![st(StatementKind::catch(
        vec![st(StatementKind::print(var("y")))],
        vec![st(StatementKind::print(lit_str("recovered")))],
    ))];
    let mut env = fresh_env();
    let r = execute(&program, &mut env);
    assert!(matches!(r, Ok(Completion::Normal)));
    assert_eq!(env.output_text().as_str(), "recovered\n");
}

#[test]
fn catch_does_not_intercept_return() {
    let program = vec![st(StatementKind::catch(
        vec![st(StatementKind::return_it(lit_int(1)))],
        vec![st(StatementKind::print(lit_str("no")))],
    ))];
    let mut env = fresh_env();
    let r = execute(&program, &mut env);
    match r {
        Ok(Completion::Returned(v)) => assert!(v.eq_value(&Value::Int(1))),
        _ => panic!("the return value must propagate through the catch"),
    }
    assert_eq!(env.output_text().as_str(), "");
}

#[test]
fn list_appends_keep_insertion_order() {
    let program = vec![
        st(StatementKind::new_list("a".to_string())),
        st(StatementKind::list_append("a".to_string(), lit_int(1))),
        st(StatementKind::list_append("a".to_string(), lit_int(2))),
        st(StatementKind::list_append("a".to_string(), lit_int(3))),
    ];
    let mut env = fresh_env();
    let r = execute(&program, &mut env);
    assert!(matches!(r, Ok(Completion::Normal)));
    let a = env.get_var(&"a".to_string()).expect("a must be bound");
    let want = Value::List(vec![Value::Int(1), Value::Int(2), Value::Int(3)]);
    assert!(a.eq_value(&want));
}

#[test]
fn list_delete_removes_exactly_the_indexed_element() {
    let program = vec![
        st(StatementKind::new_list("a".to_string())),
        st(StatementKind::list_append("a".to_string(), lit_int(1))),
        st(StatementKind::list_append("a".to_string(), lit_int(2))),
        st(StatementKind::list_append("a".to_string(), lit_int(3))),
        st(StatementKind::list_delete("a".to_string(), lit_int(1))),
    ];
    let mut env = fresh_env();
    let r = execute(&program, &mut env);
    assert!(matches!(r, Ok(Completion::Normal)));
    let a = env.get_var(&"a".to_string()).expect("a must be bound");
    let want = Value::List(vec![Value::Int(1), Value::Int(3)]);
    assert!(a.eq_value(&want));
}

#[test]
fn list_delete_past_the_end_reports_the_list_and_index() {
    let program = vec![
        st(StatementKind::new_list("a".to_string())),
        st(StatementKind::list_append("a".to_string(), lit_int(1))),
        st(StatementKind::list_append("a".to_string(), lit_int(2))),
        st(StatementKind::list_append("a".to_string(), lit_int(3))),
        st(StatementKind::list_delete("a".to_string(), lit_int(5))),
    ];
    let mut env = fresh_env();
    let r = execute(&program, &mut env);
    let e = r.err().expect("deleting past the end must fail");
    let want_list = Value::List(vec![Value::Int(1), Value::Int(2), Value::Int(3)]);
    assert!(e.kind == ErrorKind::IndexOutOfBounds(want_list, 5));
}

#[test]
fn list_assign_overwrites_one_element() {
    let program = vec![
        st(StatementKind::new_list("a".to_string())),
        st(StatementKind::list_append("a".to_string(), lit_int(1))),
        st(StatementKind::list_append("a".to_string(), lit_int(2))),
        st(StatementKind::list_append("a".to_string(), lit_int(3))),
        st(StatementKind::list_assign(
            "a".to_string(),
            lit_int(1),
            lit_int(9),
        )),
        st(StatementKind::print(Expression::ListIndex(
            "a".to_string(),
            Box::new(lit_int(1)),
        ))),
    ];
    let mut env = fresh_env();
    let r = execute(&program, &mut env);
    assert!(matches!(r, Ok(Completion::Normal)));
    assert_eq!(env.output_text().as_str(), "9\n");
    let a = env.get_var(&"a".to_string()).expect("a must be bound");
    let want = Value::List(vec![Value::Int(1), Value::Int(9), Value::Int(3)]);
    assert!(a.eq_value(&want));
}

#[test]
fn list_operation_on_scalar_is_unindexable() {
    let program = vec![
        st(StatementKind::assignment("x".to_string(), lit_int(7))),
        st(StatementKind::list_append("x".to_string(), lit_int(1))),
    ];
    let mut env = fresh_env();
    let r = execute(&program, &mut env);
    let e = r.err().expect("appending to a scalar must fail");
    assert!(e.kind == ErrorKind::IndexUnindexable(Value::Int(7)));
}

#[test]
fn while_loop_counts_down() {
    let program = vec![
        st(StatementKind::assignment("x".to_string(), lit_int(3))),
        st(StatementKind::while_block(
            var("x"),
            vec![
                st(StatementKind::print(var("x"))),
                st(StatementKind::assignment(
                    "x".to_string(),
                    Expression::Binary(Operator::Sub, Box::new(var("x")), Box::new(lit_int(1))),
                )),
            ],
        )),
    ];
    let mut env = fresh_env();
    let r = execute(&program, &mut env);
    assert!(matches!(r, Ok(Completion::Normal)));
    assert_eq!(env.output_text().as_str(), "3\n2\n1\n");
}

#[test]
fn call_frame_holds_only_the_parameters() {
    let program = vec![
        st(StatementKind::assignment("x".to_string(), lit_int(1))),
        st(StatementKind::function(
            "show".to_string(),
            vec!["a".to_string()],
            vec![st(StatementKind::print(var("a")))],
        )),
        st(StatementKind::FunctionCall(
            "show".to_string(),
            vec![lit_int(5)],
        )),
        st(StatementKind::function(
            "leaky".to_string(),
            vec![],
            vec![st(StatementKind::print(var("x")))],
        )),
        st(StatementKind::FunctionCall("leaky".to_string(), vec![])),
    ];
    let mut env = fresh_env();
    let r = execute(&program, &mut env);
    let e = r.err().expect("the callee must not see the caller's locals");
    assert!(e.kind == ErrorKind::UnknownVariable("x".to_string()));
    assert_eq!(env.output_text().as_str(), "5\n");
}

#[test]
fn caller_locals_survive_a_call() {
    let program = vec![
        st(StatementKind::assignment("x".to_string(), lit_int(1))),
        st(StatementKind::function(
            "noop".to_string(),
            vec![],
            vec![st(StatementKind::assignment("x".to_string(), lit_int(99)))],
        )),
        st(StatementKind::FunctionCall("noop".to_string(), vec![])),
        st(StatementKind::print(var("x"))),
    ];
    let mut env = fresh_env();
    let r = execute(&program, &mut env);
    assert!(matches!(r, Ok(Completion::Normal)));
    assert_eq!(env.output_text().as_str(), "1\n");
}

#[test]
fn input_binds_the_next_line() {
    let program = vec![
        st(StatementKind::input("x".to_string())),
        st(StatementKind::print(var("x"))),
    ];
    let mut env = Environment::new(vec!["42".to_string()]);
    let r = execute(&program, &mut env);
    assert!(matches!(r, Ok(Completion::Normal)));
    assert_eq!(env.output_text().as_str(), "42\n");
}

#[test]
fn input_without_a_line_is_an_io_failure() {
    let program = vec![st(StatementKind::input("x".to_string()))];
    let mut env = fresh_env();
    let r = execute(&program, &mut env);
    let e = r.err().expect("input on an empty queue must fail");
    assert!(e.kind == ErrorKind::IOError("anything".to_string()));
}

#[test]
fn delete_unbinds_a_variable() {
    let program = vec![
        st(StatementKind::assignment("x".to_string(), lit_int(1))),
        st(StatementKind::delete("x".to_string())),
        st(StatementKind::print(var("x"))),
    ];
    let mut env = fresh_env();
    let r = execute(&program, &mut env);
    let e = r.err().expect("a deleted variable must be unbound");
    assert!(e.kind == ErrorKind::UnknownVariable("x".to_string()));
}

#[test]
fn natively_bound_symbols_keep_the_arity_check() {
    let program = vec![
        st(StatementKind::dylib_load(
            "libthing".to_string(),
            vec![st(StatementKind::function(
                "nf".to_string(),
                vec!["p".to_string()],
                vec![],
            ))],
        )),
        st(StatementKind::FunctionCall("nf".to_string(), vec![])),
    ];
    let mut env = fresh_env();
    let r = execute(&program, &mut env);
    let e = r.err().expect("calling with no argument must fail");
    assert!(e.kind == ErrorKind::InvalidArguments("nf".to_string(), 1, 0));
}

#[test]
fn native_call_without_a_bridge_is_an_io_failure() {
    let program = vec![
        st(StatementKind::dylib_load(
            "libthing".to_string(),
            vec![st(StatementKind::function(
                "nf".to_string(),
                vec!["p".to_string()],
                vec![],
            ))],
        )),
        st(StatementKind::FunctionCall("nf".to_string(), vec![lit_int(1)])),
    ];
    let mut env = fresh_env();
    let r = execute(&program, &mut env);
    let e = r.err().expect("a native call must fail on this host");
    assert!(e.kind == ErrorKind::IOError("any detail".to_string()));
}

#[test]
fn errors_propagate_unmodified_from_nested_statements() {
    // Two levels of nesting with no catch in between: the error kind
    // and payload reach the top level untouched.
    let program = vec![
        st(StatementKind::assignment("x".to_string(), lit_int(1))),
        st(StatementKind::if_block(
            var("x"),
            vec![st(StatementKind::while_block(
                var("x"),
                vec![st(StatementKind::print(var("ghost_name")))],
            ))],
            None,
        )),
    ];
    let mut env = fresh_env();
    let r = execute(&program, &mut env);
    let e = r.err().expect("the nested error must surface");
    assert!(e.kind == ErrorKind::UnknownVariable("ghost_name".to_string()));
}

#[test]
fn equality_compares_any_values() {
    let program = vec![st(StatementKind::print(Expression::Binary(
        Operator::Equality,
        Box::new(lit_int(1)),
        Box::new(lit_int(1)),
    )))];
    let mut env = fresh_env();
    let r = execute(&program, &mut env);
    assert!(matches!(r, Ok(Completion::Normal)));
    assert_eq!(env.output_text().as_str(), "true\n");
}

#[test]
fn adding_a_string_and_an_int_is_invalid() {
    let program = vec![st(StatementKind::print(Expression::Binary(
        Operator::Add,
        Box::new(lit_str("a")),
        Box::new(lit_int(1)),
    )))];
    let mut env = fresh_env();
    let r = execute(&program, &mut env);
    let e = r.err().expect("mismatched operands must fail");
    assert!(
        e.kind
            == ErrorKind::InvalidBinaryExpression(
                Value::Str("a".to_string()),
                Value::Int(1),
                Operator::Add,
            )
    );
}

#[test]
fn indexing_with_a_string_wants_an_int() {
    let program = vec![
        st(StatementKind::new_list("a".to_string())),
        st(StatementKind::print(Expression::ListIndex(
            "a".to_string(),
            Box::new(lit_str("x")),
        ))),
    ];
    let mut env = fresh_env();
    let r = execute(&program, &mut env);
    let e = r.err().expect("a string index must fail");
    assert!(
        e.kind == ErrorKind::UnexpectedType("int".to_string(), Value::Str("x".to_string()))
    );
}

#[test]
fn print_no_newline_runs_chunks_together() {
    let program = vec![
        st(StatementKind::PrintNoNl(lit_str("ab"))),
        st(StatementKind::PrintNoNl(lit_str("cd"))),
    ];
    let mut env = fresh_env();
    let r = execute(&program, &mut env);
    assert!(matches!(r, Ok(Completion::Normal)));
    assert_eq!(env.output_text().as_str(), "abcd");
}

#[test]
fn negative_numbers_and_lists_render_readably() {
    let program = vec![
        st(StatementKind::print(lit_int(-5))),
        st(StatementKind::new_list("a".to_string())),
        st(StatementKind::list_append("a".to_string(), lit_int(1))),
        st(StatementKind::list_append("a".to_string(), lit_str("x"))),
        st(StatementKind::print(var("a"))),
    ];
    let mut env = fresh_env();
    let r = execute(&program, &mut env);
    assert!(matches!(r, Ok(Completion::Normal)));
    assert_eq!(env.output_text().as_str(), "-5\n[1, x]\n");
}

#[test]
fn side_effects_before_a_caught_error_persist() {
    let program = vec![st(StatementKind::catch(
        vec![
            st(StatementKind::print(lit_str("before"))),
            st(StatementKind::print(var("missing"))),
        ],
        vec![st(StatementKind::print(lit_str("after")))],
    ))];
    let mut env = fresh_env();
    let r = execute(&program, &mut env);
    assert!(matches!(r, Ok(Completion::Normal)));
    assert_eq!(env.output_text().as_str(), "before\nafter\n");
}

#[test]
fn long_loops_still_finish() {
    let program = vec![
        st(StatementKind::assignment("x".to_string(), lit_int(500))),
        st(StatementKind::while_block(
            var("x"),
            vec![st(StatementKind::assignment(
                "x".to_string(),
                Expression::Binary(Operator::Sub, Box::new(var("x")), Box::new(lit_int(1))),
            ))],
        )),
    ];
    let mut env = fresh_env();
    let r = execute(&program, &mut env);
    assert!(matches!(r, Ok(Completion::Normal)));
    let x = env.get_var(&"x".to_string()).expect("x must be bound");
    assert!(x.eq_value(&Value::Int(0)));
}

#[test]
fn recursive_calls_reach_the_base_case() {
    let program = vec![
        st(StatementKind::function(
            "count".to_string(),
            vec!["n".to_string()],
            vec![st(StatementKind::if_block(
                var("n"),
                vec![st(StatementKind::FunctionCall(
                    "count".to_string(),
                    vec![Expression::Binary(
                        Operator::Sub,
                        Box::new(var("n")),
                        Box::new(lit_int(1)),
                    )],
                ))],
                Some(vec![st(StatementKind::print(lit_str("done")))]),
            ))],
        )),
        st(StatementKind::FunctionCall(
            "count".to_string(),
            vec![lit_int(40)],
        )),
    ];
    let mut env = fresh_env();
    let r = execute(&program, &mut env);
    assert!(matches!(r, Ok(Completion::Normal)));
    assert_eq!(env.output_text().as_str(), "done\n");
}

#[test]
fn redefining_a_function_overwrites_it() {
    let program = vec![
        st(StatementKind::function(
            "f".to_string(),
            vec![],
            vec![st(StatementKind::print(lit_str("old")))],
        )),
        st(StatementKind::function(
            "f".to_string(),
            vec![],
            vec![st(StatementKind::print(lit_str("new")))],
        )),
        st(StatementKind::FunctionCall("f".to_string(), vec![])),
    ];
    let mut env = fresh_env();
    let r = execute(&program, &mut env);
    assert!(matches!(r, Ok(Completion::Normal)));
    assert_eq!(env.output_text().as_str(), "new\n");
}
