use rust_book::basics::{
    annotate_type, calling, constants, data_types, foo, immutable, mutable, shadowing,
    statements_and_expressions, typed_function_parameters, MESSAGE, MESSAGE_COUNT,
};

#[test]
fn variables_show_their_values() {
    assert_eq!(immutable(), "1");
    assert_eq!(mutable(), ("1".to_string(), "2".to_string()));
    assert_eq!(shadowing(), (2, "Hello World".to_string()));
    assert_eq!(annotate_type(), 42);
    data_types();
    foo();
}

#[test]
fn the_message_is_repeated() {
    assert_eq!(MESSAGE, "Hello World");
    assert_eq!(MESSAGE_COUNT, 2);
    assert_eq!(constants(), vec!["Hello World", "Hello World"]);
}

#[test]
fn rounds_are_numbered_from_zero() {
    let lines = calling();
    assert_eq!(lines.len(), 10);
    assert_eq!(lines[0], "0. Hello World!");
    assert_eq!(lines[9], "9. Hello World!");
    assert!(typed_function_parameters(0, "x").is_empty());
    assert_eq!(typed_function_parameters(2, ""), vec!["0. ", "1. "]);
}

#[test]
fn statements_and_expressions_has_three_cases() {
    assert_eq!(statements_and_expressions(0), 42);
    assert_eq!(statements_and_expressions(11), 12);
    assert_eq!(statements_and_expressions(10), 10);
    assert_eq!(statements_and_expressions(1), 1);
    assert_eq!(statements_and_expressions(-5), -5);
    assert_eq!(statements_and_expressions(i32::MIN), i32::MIN);
    assert_eq!(statements_and_expressions(i32::MAX - 1), i32::MAX);
}
