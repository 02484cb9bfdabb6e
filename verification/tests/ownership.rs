use rust_book::ownership::{
    bad_function_signature, calculate_length, change, change2, first_word,
    good_function_signature, let_me_dangle, memory_and_allocation,
    not_ok_to_have_mut_an_immutable, ok_mut_ref_goes_out_of_scope, program_1, program_2,
    program_3, show_me_slices, show_why_the_first_function_is_bad, this_does_not_dangle,
    this_has_lifetimes_annotated, use_the_above_function, CONSTANT,
};

#[test]
fn borrowing_leaves_the_string_with_its_owner() {
    memory_and_allocation();
    let_me_dangle();
    assert_eq!(calculate_length(&"hello".to_string()), 5);
    assert_eq!(calculate_length(&"é".to_string()), 2);
    assert_eq!(calculate_length(&String::new()), 0);
    assert_eq!(program_1(), "The length of 'hello' is 5.");
    let s = "hello".to_string();
    change(&s);
    assert_eq!(s, "hello");
    assert_eq!(program_2(), "hello");
}

#[test]
fn a_mutable_borrow_can_change_the_string() {
    let mut s = String::new();
    change2(&mut s);
    assert_eq!(s, ", world");
    assert_eq!(program_3(), "hello, world");
    assert_eq!(ok_mut_ref_goes_out_of_scope(), "hello, world, world");
    assert_eq!(not_ok_to_have_mut_an_immutable(), 10);
}

#[test]
fn a_reference_handed_back_is_the_one_handed_in() {
    let s = "hello".to_string();
    assert!(std::ptr::eq(this_does_not_dangle(&s), &s));
    assert!(std::ptr::eq(this_has_lifetimes_annotated(&s), &s));
    assert_eq!(use_the_above_function(), 5);
}

#[test]
fn first_word_ends_at_the_first_space() {
    assert_eq!(first_word(&"hello world".to_string()), 5);
    assert_eq!(first_word(&"hello".to_string()), 5);
    assert_eq!(first_word(&" hello".to_string()), 0);
    assert_eq!(first_word(&"".to_string()), 0);
    assert_eq!(first_word(&"a b c".to_string()), 1);
    assert_eq!(first_word(&"héllo wörld".to_string()), 6);
    assert_eq!(first_word(&"tab\tno space".to_string()), 6);
}

#[test]
fn slices_are_parts_of_the_string() {
    assert_eq!(CONSTANT, "hello world");
    assert_eq!(show_me_slices(), ("hello".to_string(), "world".to_string()));
    assert_eq!(show_why_the_first_function_is_bad(), "the string length is: 5");
    assert_eq!(bad_function_signature(&"héllo".to_string()), "the string length is: 6");
    assert_eq!(good_function_signature(""), "the string length is: 0");
}
