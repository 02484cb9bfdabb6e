use rust_book::smart_pointers::{
    box_t, change_person, dynamic_dispatch_with_box, simple_ptr, speak_all, std_mem_drop, List,
    Node, Person, SayOne, SayTwo, SimplePtr, Speak, Speaker,
};
use std::rc::Rc;

#[test]
fn simple_ptr_gives_back_what_it_was_given() {
    let ptr = SimplePtr::new(String::from("std::mem::drop"));
    assert_eq!(ptr.get(), "std::mem::drop");
    assert_eq!(ptr.len(), 14);
    let mut number = SimplePtr::new(5u64);
    assert_eq!(*number, 5);
    *number.get_mut() = 6;
    assert_eq!(*number.get(), 6);
    *number += 1;
    assert_eq!(*number, 7);
}

#[test]
fn a_person_changes_through_the_pointer() {
    let ptr = simple_ptr();
    assert_eq!(
        format!("{:?}", ptr.get()),
        "Person { name: \"Name Surname\", age: 31, id: 11111 }"
    );
    let mut person = Person { name: "A".to_string(), age: 254, id: 0 };
    change_person(&mut person);
    assert_eq!(person.name, "A Surname");
    assert_eq!(person.age, 255);
    assert_eq!(person.id, 11111);
}

#[test]
fn a_box_hands_its_value_back() {
    assert_eq!(box_t(), 0);
    let leaf = Node { left: None, right: None };
    let tree = Node { left: Some(Box::new(leaf)), right: None };
    assert!(tree.left.is_some() && tree.right.is_none());
}

#[test]
fn speakers_of_different_types_share_a_list() {
    assert_eq!(dynamic_dispatch_with_box(), vec!["One", "Two"]);
    assert_eq!(SayOne.speak(), "One");
    assert_eq!(SayTwo.speak(), "Two");
    let speakers = vec![Speaker::two(), Speaker(Box::new(SayOne)), Speaker::one(), Speaker::two()];
    assert_eq!(speak_all(&speakers), vec!["Two", "One", "One", "Two"]);
    assert!(speak_all(&vec![]).is_empty());
}

#[test]
fn dropping_early_leaves_the_function_running() {
    assert_eq!(
        std_mem_drop(),
        vec![
            "Using std::mem::drop",
            "Dropping simple_ptr early, before the end of the function",
            "Function is till alive but simple_ptr is dropped",
        ]
    );
}

#[test]
fn tail_is_the_rest_of_the_list() {
    let a = Rc::new(List::Cons(5, Rc::new(List::Nil)));
    assert!(matches!(**a.tail().unwrap(), List::Nil));
    let b = List::Cons(10, Rc::clone(&a));
    assert!(Rc::ptr_eq(b.tail().unwrap(), &a));
    assert_eq!(Rc::strong_count(&a), 2);
    assert!(List::Nil.tail().is_none());
}
