use schwift::error::{quote, Error, ErrorKind};
use schwift::expression::Operator;
use schwift::statement::{Statement, StatementKind};
use schwift::value::Value;

fn place() -> Statement {
    Statement::new(StatementKind::delete("x".to_string()), 0, 1)
}

#[test]
fn unknown_variable_message_names_the_variable() {
    let e = Error::new(ErrorKind::UnknownVariable("morty".to_string()), place());
    assert_eq!(
        e.panic_message().as_str(),
        "There's no morty in this universe, Morty!"
    );
}

#[test]
fn unindexable_message_names_the_type() {
    let e = Error::new(ErrorKind::IndexUnindexable(Value::Int(3)), place());
    assert_eq!(
        e.panic_message().as_str(),
        "I'll try and say this slowly Morty. You can't index that. It's a int"
    );
}

#[test]
fn out_of_bounds_message_names_index_and_list() {
    let list = Value::List(vec![Value::Int(1), Value::Int(2)]);
    let e = Error::new(ErrorKind::IndexOutOfBounds(list, 5), place());
    assert_eq!(
        e.panic_message().as_str(),
        "This isn't your mom's wine bottle Morty, you can't just keep asking for more, \
         there's not that much here! You want 5, but you're dealing with [1, 2]!"
    );
}

#[test]
fn unexpected_type_message_names_both_types() {
    let e = Error::new(
        ErrorKind::UnexpectedType("int".to_string(), Value::Str("x".to_string())),
        place(),
    );
    assert_eq!(
        e.panic_message().as_str(),
        "I asked for a int, not a string Morty."
    );
}

#[test]
fn invalid_binary_message_names_operator_and_types() {
    let e = Error::new(
        ErrorKind::InvalidBinaryExpression(
            Value::Str("a".to_string()),
            Value::Int(1),
            Operator::Add,
        ),
        place(),
    );
    assert_eq!(
        e.panic_message().as_str(),
        "It's like apples and space worms Morty! You can't Add a string and a int!"
    );
}

#[test]
fn invalid_arguments_message_names_both_counts() {
    let e = Error::new(
        ErrorKind::InvalidArguments("f".to_string(), 0, 2),
        place(),
    );
    assert_eq!(
        e.panic_message().as_str(),
        "I'm confused Morty, a minute ago you said that f takes 0 paramaters, \
         but you just tried to give it 2. WHICH IS IT MORTY?"
    );
}

#[test]
fn io_failures_compare_equal_whatever_their_detail() {
    let a = ErrorKind::IOError("disk on fire".to_string());
    let b = ErrorKind::IOError("other".to_string());
    assert!(a == b);
    assert!(a != ErrorKind::UnknownVariable("disk on fire".to_string()));
}

#[test]
fn payloads_decide_equality_of_other_kinds() {
    assert!(
        ErrorKind::UnknownVariable("x".to_string())
            == ErrorKind::UnknownVariable("x".to_string())
    );
    assert!(
        ErrorKind::UnknownVariable("x".to_string())
            != ErrorKind::UnknownVariable("y".to_string())
    );
    assert!(
        ErrorKind::IndexOutOfBounds(Value::List(vec![Value::Int(1)]), 4)
            == ErrorKind::IndexOutOfBounds(Value::List(vec![Value::Int(1)]), 4)
    );
    assert!(
        ErrorKind::IndexOutOfBounds(Value::List(vec![Value::Int(1)]), 4)
            != ErrorKind::IndexOutOfBounds(Value::List(vec![Value::Int(2)]), 4)
    );
}

#[test]
fn span_extraction_returns_exactly_the_spanned_text() {
    let source = "0123456789foo(1, 2)tail";
    let s = Statement::new(StatementKind::delete("x".to_string()), 10, 19);
    assert_eq!(s.get_source(source).as_str(), "foo(1, 2)");
}

#[test]
fn full_report_quotes_the_offending_source() {
    let source = "zzzzzzzzzzwubba lubba";
    let s = Statement::new(StatementKind::delete("w".to_string()), 10, 21);
    let e = Error::new(ErrorKind::UnknownVariable("w".to_string()), s);
    let report = e.full_panic_message(source);
    assert!(report.starts_with("\n    You made a Rickdiculous mistake:"));
    assert!(report.contains("wubba lubba"));
    assert!(report.contains("There's no w in this universe, Morty!"));
    let mut quoted = false;
    for i in 0..9 {
        if report.contains(quote(i)) {
            quoted = true;
        }
    }
    assert!(quoted, "the report must end with one of the pool's lines");
}

#[test]
fn the_quote_pool_has_nine_distinct_lines() {
    for i in 0..9 {
        for j in 0..9 {
            if i != j {
                assert_ne!(quote(i), quote(j));
            }
        }
    }
}
