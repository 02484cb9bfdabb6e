use rust_book::docs::{documentation, other_sections, profiles};
use rust_book::functional::{comparing_performance, improving_our_io_project};
use rust_book::greeting::{greet, Greeting};
use rust_book::visibility::some_module::ClashingName;
use rust_book::visibility::some_trait::{ClashingTrait, MyFoo};
use rust_book::visibility::utils::frobincators;
use rust_book::visibility::{do_this, not_this, rename_a_symbol, rename_a_trait};

#[test]
fn greet_has_words_for_each_greeting() {
    assert_eq!(greet(Greeting::Hello), "Hello World!");
    assert_eq!(greet(Greeting::Goodbye), "Goodbye World!");
}

#[test]
fn public_items_are_reached_by_their_paths() {
    frobincators::frobnicate();
    do_this::some_function();
    not_this::some_function();
    let _renamed: ClashingName = rename_a_symbol::some_function();
    rename_a_trait::use_clashing_name_trait();
    MyFoo.foo();
}

#[test]
fn functions_without_work_return() {
    profiles();
    documentation();
    other_sections();
    improving_our_io_project();
    comparing_performance();
}
