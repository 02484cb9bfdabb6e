use rust_book::functional::{
    add_one_to_each, add_one_v1, borrows_mutably, closure_immutable_borrow, closure_move_ownership,
    closure_mutable_borrow, closures, closures_used_in_iterators_can_also_capture_the_environment,
    collect_consumes_the_iterator_and_creates_a_vector, iterator_demonstration, iterators,
    methods_like_map_and_filter_return_a_new_iterator, sep, shoes_in_size, sum,
    the_sum_method_consumes_the_iterator, unwrap_or_default, MyIterator, Numbers, Shoe,
};

#[test]
fn closures_give_what_they_compute() {
    assert_eq!(closures(), (10, 4, 4));
    assert_eq!(add_one_v1(0), 1);
    assert_eq!(add_one_v1(u32::MAX - 1), u32::MAX);
}

#[test]
fn sep_fills_the_line_with_dashes() {
    assert_eq!(sep("Iterators"), format!("-- Iterators --{}", "-".repeat(61)));
    assert_eq!(
        sep("Immutable Borrow Closure"),
        "-- Immutable Borrow Closure ------------------------------------------------"
    );
    assert_eq!(sep("Iterators").len(), 6 + 70);
    assert_eq!(sep("").len(), 6 + 70);
    let full = "x".repeat(70);
    assert_eq!(sep(&full), format!("-- {} --", full));
}

#[test]
fn sep_counts_bytes_not_characters() {
    assert_eq!(sep("é").chars().count(), 3 + 1 + 3 + 68);
}

#[test]
fn closure_demos_show_the_list() {
    assert_eq!(
        closure_immutable_borrow(),
        vec![
            "Before defining closure: [1, 2, 3]",
            "Before calling closure: [1, 2, 3]",
            "From closure: [1, 2, 3]",
            "After calling closure: [1, 2, 3]",
        ]
    );
    assert_eq!(
        closure_mutable_borrow(),
        vec!["Before defining closure: [1, 2, 3]", "After calling closure: [1, 2, 3, 7]"]
    );
    assert_eq!(
        closure_move_ownership(),
        vec!["Before defining closure: [1, 2, 3]", "From thread: [1, 2, 3]"]
    );
}

#[test]
fn borrows_mutably_appends_seven() {
    let mut list = vec![];
    borrows_mutably(&mut list);
    borrows_mutably(&mut list);
    assert_eq!(list, vec![7, 7]);
}

#[test]
fn unwrap_or_default_calls_the_closure_only_for_none() {
    assert_eq!(unwrap_or_default(Some(3), || 5), 3);
    assert_eq!(unwrap_or_default(None, || 5), 5);
    let mut called = false;
    let _ = unwrap_or_default(Some(1), || {
        called = true;
        2
    });
    assert!(!called);
}

#[test]
fn numbers_hand_out_items_in_order_then_none() {
    assert_eq!(iterator_demonstration(), (Some(1), Some(2), Some(3), None));
    let mut it = Numbers::new(vec![4]);
    assert_eq!(it.next(), Some(4));
    assert_eq!(it.next(), None);
    assert_eq!(it.next(), None);
    assert_eq!(Numbers::new(vec![]).next(), None);
}

#[test]
fn sum_adds_what_is_left() {
    assert_eq!(the_sum_method_consumes_the_iterator(), 6);
    assert_eq!(sum(Numbers::new(vec![])), 0);
    assert_eq!(sum(Numbers::new(vec![i32::MAX, -1, i32::MIN + 1])), -1);
    let mut it = Numbers::new(vec![10, 20, 30]);
    it.next();
    assert_eq!(sum(it), 50);
}

#[test]
fn map_and_collect_add_one() {
    assert_eq!(methods_like_map_and_filter_return_a_new_iterator(), vec![1, 2, 3]);
    assert_eq!(collect_consumes_the_iterator_and_creates_a_vector(), vec![2, 3, 4]);
    assert_eq!(add_one_to_each(&vec![-1, 0, i32::MAX - 1]), vec![0, 1, i32::MAX]);
    assert!(add_one_to_each(&vec![]).is_empty());
}

#[test]
fn shoes_in_size_keeps_the_order() {
    let shoes = closures_used_in_iterators_can_also_capture_the_environment();
    assert_eq!(format!("{:?}", shoes), "[Shoe { size: 10, style: \"sneaker\" }, Shoe { size: 10, style: \"boot\" }]");
    let none = shoes_in_size(vec![Shoe { size: 1, style: "a".to_string() }], 2);
    assert!(none.is_empty());
    assert!(shoes_in_size(vec![], 2).is_empty());
}

#[test]
fn iterators_runs_every_example() {
    let (steps, total, collected, shoes) = iterators();
    assert_eq!(steps, (Some(1), Some(2), Some(3), None));
    assert_eq!(total, 6);
    assert_eq!(collected, vec![2, 3, 4]);
    assert_eq!(shoes.len(), 2);
}
