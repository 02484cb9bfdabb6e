use rust_book::generics::{
    largest, print, print_i32, print_str, use_in_examples, use_largest, use_point_a, use_point_b,
    use_point_b_more, use_print, PointA, PointB, Value,
};

#[test]
fn largest_serves_numbers_and_texts() {
    assert_eq!(use_largest(), (5, "foo"));
    assert_eq!(largest(&[4, 3, 2, 5, 1]), 5);
    assert_eq!(largest(&["foo", "bar", "baz"]), "foo");
    assert_eq!(largest(&[7]), 7);
    assert_eq!(largest(&[-3, -1, -2]), -1);
    assert_eq!(largest(&[2, 9, 9, 1]), 9);
    assert_eq!(largest(&['x', 'z', 'y']), 'z');
}

#[test]
fn largest_keeps_the_first_of_equal_items() {
    #[derive(Clone, Copy, Debug)]
    struct Keyed(u8, u8);
    impl PartialEq for Keyed {
        fn eq(&self, other: &Self) -> bool {
            self.0 == other.0
        }
    }
    impl PartialOrd for Keyed {
        fn partial_cmp(&self, other: &Self) -> Option<std::cmp::Ordering> {
            self.0.partial_cmp(&other.0)
        }
    }
    let r = largest(&[Keyed(1, 0), Keyed(5, 1), Keyed(5, 2), Keyed(2, 3)]);
    assert_eq!((r.0, r.1), (5, 1));
}

#[test]
fn points_hold_one_or_two_types() {
    let a: PointA<&str> = use_point_a();
    assert_eq!((a.x, a.y), ("foo", "bar"));
    let b = use_point_b();
    assert_eq!((*b.x(), *b.y()), (1, "bar"));
    let c = PointB::new("foo", 'c');
    assert_eq!(*c.x(), "foo");
    assert_eq!(*c.y(), 'c');
    assert_eq!(
        use_point_b_more(),
        ("point_b x is: foo".to_string(), "point_b y is: 1".to_string())
    );
}

#[test]
fn methods_exist_where_their_bounds_hold() {
    assert_eq!(use_in_examples(), (false, "1".to_string()));
    assert!(Value { inner: -1 }.is_less_than_zero());
    assert!(!Value { inner: 0 }.is_less_than_zero());
    assert_eq!(*Value { inner: Some("Hi") }.get(), Some("Hi"));
    assert_eq!(Value { inner: "Hi" }.print(), "Hi");
}

#[test]
fn print_has_one_copy_per_type() {
    assert_eq!(
        use_print(),
        ("I'm printing this: 1".to_string(), "I'm printing this: str".to_string())
    );
    assert_eq!(print(7u64), "I'm printing this: 7");
    assert_eq!(print_i32(-1), "I'm printing this: -1");
    assert_eq!(print_str("str"), "I'm printing this: str");
}

#[test]
fn no_number_is_greater_than_the_largest() {
    for list in [vec![4, 3, 2, 5, 1], vec![i32::MIN], vec![0, 0], vec![-1, i32::MAX, 7]] {
        let top = largest(&list);
        assert!(list.contains(&top));
        assert!(list.iter().all(|item| *item <= top));
    }
}
