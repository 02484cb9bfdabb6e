use rust_book::collections::{
    all_collections, element_at, first_element_line, hash_maps, or_insert, returns_an_owned,
    takes_and_returns_ref, tally_by_entry, tally_by_get, this_fixes_the_problem, this_works,
    typical_string_operations, vector_of_enums, vectors, TwoTypes,
};
use vstd::hash_map::StringHashMap;

#[test]
fn the_first_element_is_named() {
    all_collections();
    assert_eq!(vectors().ok().unwrap(), "The first element is 1");
    assert_eq!(first_element_line(&vec![-9, 4]).ok().unwrap(), "The first element is -9");
    assert_eq!(first_element_line(&vec![]).err().unwrap().to_string(), "Vector is empty");
}

#[test]
fn element_at_is_none_past_the_end() {
    let v = vec![1, 2, 3, 4, 5, 6];
    assert_eq!(element_at(&v, 100), None);
    assert_eq!(element_at(&v, 6), None);
    assert_eq!(element_at(&v, 5), Some(6));
    assert_eq!(element_at(&v, 0), Some(1));
    assert_eq!(element_at(&vec![], 0), None);
}

#[test]
fn an_enum_puts_two_types_in_one_list() {
    let list = vector_of_enums();
    assert_eq!(list.len(), 2);
    assert!(matches!(list[0], TwoTypes::I(0)));
    assert!(matches!(&list[1], TwoTypes::S(s) if s == "Hello"));
}

#[test]
fn string_operations_give_the_expected_texts() {
    let r = typical_string_operations();
    assert_eq!("Hello, World", r.mut_string);
    assert_eq!("Hello, World!", r.hello_world);
    assert_eq!("foo bar", r.format_1);
    assert_eq!('o', r.c);
    assert_eq!(r.que, "Qué");
    assert_eq!(r.que, &"¿Qué?"[2..6]);
    assert_eq!(r.safer_que, "Qué");
}

#[test]
fn or_insert_keeps_what_is_there() {
    let mut map: StringHashMap<i32> = StringHashMap::new();
    assert_eq!(or_insert(&mut map, "Five", 5), 5);
    assert_eq!(or_insert(&mut map, "Five", 98765), 5);
    assert_eq!(map.get("Five"), Some(&5));
    assert_eq!(map.len(), 1);
    assert_eq!(or_insert(&mut map, "Six", 6), 6);
    assert_eq!(map.len(), 2);
}

#[test]
fn hash_maps_hold_numbers_and_counts() {
    let r = hash_maps();
    assert_eq!(r.five, 5);
    assert_eq!(r.still_five, 5);
    assert_eq!(r.numbers.len(), 5);
    for (name, number) in [("One", 1), ("Two", 2), ("Three", 3), ("Four", 4), ("Five", 5)] {
        assert_eq!(r.numbers.get(name), Some(&number));
    }
    assert_eq!(r.counts.len(), 3);
    assert_eq!(r.counts.get("hello"), Some(&2));
    assert_eq!(r.counts.get("world"), Some(&4));
    assert_eq!(r.counts.get("wonderful"), Some(&2));
    assert_eq!(r.counts.get("goodbye"), None);
}

#[test]
fn both_ways_of_counting_agree() {
    let words: Vec<String> = ["a", "b", "a", "c", "a"].iter().map(|w| w.to_string()).collect();
    let mut by_entry: StringHashMap<i32> = StringHashMap::new();
    tally_by_entry(&mut by_entry, &words);
    let mut by_get: StringHashMap<i32> = StringHashMap::new();
    tally_by_get(&mut by_get, &words);
    for (word, count) in [("a", Some(&3)), ("b", Some(&1)), ("c", Some(&1)), ("d", None)] {
        assert_eq!(by_entry.get(word), count);
        assert_eq!(by_get.get(word), count);
    }
    tally_by_get(&mut by_entry, &vec![]);
    assert_eq!(by_entry.len(), 3);
}

#[test]
fn a_returned_reference_borrows_from_the_argument() {
    assert_eq!(returns_an_owned(), "blah");
    assert_eq!(takes_and_returns_ref("blah  \n"), "blah");
    assert_eq!(takes_and_returns_ref("  blah"), "  blah");
    assert_eq!(this_works(), 4);
    assert_eq!(this_fixes_the_problem(), "blah");
}
