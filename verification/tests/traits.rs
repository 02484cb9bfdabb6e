use rust_book::traits::{
    call_add_and_print, do_greetings, only_one_return_type_allowed, print_name_a, print_name_b,
    print_name_c, something_displayable, use_conditional_impl, AddToSelf, Anything, Bar, Different,
    Displayable, Foo, FullName, Greet, MyBar, MyType, Name, Nickname, PrintAddSelfToSelf, Show,
};

#[test]
fn greetings_use_the_provided_method_unless_overridden() {
    assert_eq!(
        do_greetings(),
        vec!["Hello: Leonardo Dunlap", "Hello: Leo", "I'm doing something different"]
    );
    let full = FullName { first_name: "Ada".to_string(), last_name: "Lovelace".to_string() };
    assert_eq!(Greet::name(&full), "Ada Lovelace");
    assert_eq!(full.greet(), "Hello: Ada Lovelace");
    assert_eq!(Greet::name(&Different {}), "I'm different");
}

#[test]
fn foo_is_implemented_for_local_and_foreign_types() {
    assert_eq!(Bar {}.foo(), "Bar");
    assert_eq!(vec![1, 2].foo(), "[1, 2]");
    assert_eq!(MyBar { bar: Bar {} }.foo(), "Bar");
}

#[test]
fn the_three_ways_to_write_a_bound_are_the_same() {
    let nick = || Nickname { value: "Leo".to_string() };
    assert_eq!(Name::name(&nick()), "Leo");
    assert_eq!(print_name_a(nick()), "Leo");
    assert_eq!(print_name_b(nick()), "Leo");
    assert_eq!(print_name_c(nick()), "Leo");
}

#[test]
fn opaque_return_types_can_be_shown() {
    assert_eq!(something_displayable().show(), "this is a displayable type");
    assert_eq!(only_one_return_type_allowed().show(), "5");
}

#[test]
fn show_writes_numbers_in_decimal() {
    assert_eq!((-17i32).show(), "-17");
    assert_eq!(i32::MIN.show(), "-2147483648");
    assert_eq!(u64::MAX.show(), "18446744073709551615");
    assert_eq!("text".show(), "text");
}

#[test]
fn a_wrapper_can_be_shown_where_its_content_can() {
    assert_eq!(
        use_conditional_impl(),
        vec![
            "use_conditional_impl: I am a displayable string",
            "use_conditional_impl: I am a displayable struct."
        ]
    );
    assert_eq!(Anything(Anything(7u64)).show(), "7");
    assert_eq!(Anything(Displayable).show(), "I am a displayable struct.");
}

#[test]
fn add_and_print_serves_every_type_that_adds_to_itself() {
    assert_eq!(call_add_and_print(), vec!["5 + 5 = 10", "7 + 7 = 14", "abc + abc = abcabc"]);
    assert_eq!((-3i32).add_and_print(), "-3 + -3 = -6");
    assert_eq!(0u64.add_and_print(), "0 + 0 = 0");
    assert_eq!(MyType(String::new()).add_and_print(), " +  = ");
}

#[test]
fn my_type_adds_the_left_operand_to_itself() {
    let sum = MyType("ab".to_string()) + MyType("cd".to_string());
    assert_eq!(sum.0, "abab");
    assert_eq!(MyType("x".to_string()).add_to_self().0, "xx");
    assert_eq!(21i32.add_to_self(), 42);
    assert_eq!((u64::MAX / 2).add_to_self(), u64::MAX - 1);
}
