use rust_book::enums::{
    a_or_something_else, example, exhaustive_matches, hello_or_same, hello_or_unknown, if_let,
    inner_text, known_value, letter_name, option_unwraps, patterns_that_bind_to_values, Arm,
    DataEnum, Letter, PlainEnumNoData, Point, Value,
};

#[test]
fn explode_names_the_arm_that_matches() {
    assert_eq!(DataEnum::Empty.explode(), Arm::Empty);
    assert_eq!(DataEnum::Point(Point { x: 0, y: 1 }).explode(), Arm::PointAtZero);
    assert_eq!(DataEnum::Point(Point { x: 1, y: 0 }).explode(), Arm::Other);
    assert_eq!(DataEnum::UnnamedStruct { x: 0, y: 1 }.explode(), Arm::FieldsAtZero);
    assert_eq!(DataEnum::UnnamedStruct { x: 2, y: 0 }.explode(), Arm::Other);
    assert_eq!(example(), Arm::FieldsAtZero);
    assert!(matches!(PlainEnumNoData::Green, PlainEnumNoData::Green));
}

#[test]
fn an_empty_option_falls_back() {
    assert_eq!(option_unwraps(), (0, 255, 42));
}

#[test]
fn letters_match_exhaustively() {
    assert_eq!(letter_name(&Letter::A), "A");
    assert_eq!(letter_name(&Letter::B), "B");
    assert_eq!(letter_name(&Letter::C), "C");
    assert_eq!(a_or_something_else(&Letter::A), "A");
    assert_eq!(a_or_something_else(&Letter::B), "something else");
    assert_eq!(a_or_something_else(&Letter::C), "something else");
    assert_eq!(
        exhaustive_matches(),
        vec!["B", "something else", "-------------- HELLO", "-------------- HELLO"]
    );
}

#[test]
fn texts_match_by_value() {
    assert_eq!(hello_or_unknown("hello"), "-------------- HELLO");
    assert_eq!(hello_or_unknown("Hello"), "unknown string");
    assert_eq!(hello_or_unknown(""), "unknown string");
    assert_eq!(hello_or_same("hello"), "-------------- HELLO");
    assert_eq!(hello_or_same("goodbye"), "goodbye");
}

#[test]
fn patterns_bind_what_a_variant_holds() {
    assert_eq!(known_value(&Value::S("hello")), "I know the value was 'hello'");
    assert_eq!(known_value(&Value::I(42)), "I know the value was 42)");
    assert_eq!(
        known_value(&Value::S("bye")),
        "I need the catch-all because I haven't covered all values"
    );
    assert_eq!(
        known_value(&Value::I(41)),
        "I need the catch-all because I haven't covered all values"
    );
    assert_eq!(inner_text(&Value::I(u64::MAX)), "18446744073709551615");
    assert_eq!(inner_text(&Value::S("hello")), "hello");
    assert_eq!(
        patterns_that_bind_to_values(),
        ("I know the value was 'hello'".to_string(), "hello".to_string())
    );
}

#[test]
fn if_let_says_what_match_says() {
    let line = Some("the value is 42".to_string());
    assert_eq!(if_let(Some(42)), (line.clone(), line));
    assert_eq!(if_let(None), (None, None));
    assert_eq!(if_let(Some(-1)).1, Some("the value is -1".to_string()));
}
