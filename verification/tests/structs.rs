use rust_book::structs::{
    build_user, increment_sign_in_count, no_shorthand, not_interchangeable, shorthand,
    tuples_are_like_structs, use_borrowed_data_struct, use_color, use_point, use_the_empty_struct,
    BorrowedData, Color, Hello, Point, PrintMe, SuperUser, User, WrappedString,
};

fn is_new(user: &User) -> bool {
    user.email == "foo@bar.com" && user.username == "foobar" && user.active && user.sign_in_count == 1
}

#[test]
fn every_way_of_building_a_user_gives_the_same() {
    let email = || "foo@bar.com".to_string();
    let name = || "foobar".to_string();
    assert!(is_new(&build_user(email(), name())));
    assert!(is_new(&User::new(email(), name())));
    assert!(is_new(&no_shorthand(email(), name())));
    assert!(is_new(&shorthand(email(), name())));
    let (tuple, user) = tuples_are_like_structs();
    assert_eq!(tuple, (email(), name(), false, 0));
    assert_eq!((user.email, user.username, user.active, user.sign_in_count), tuple);
}

#[test]
fn signing_in_changes_the_count_alone() {
    let user = User {
        email: "a@b.c".to_string(),
        username: "abc".to_string(),
        active: false,
        sign_in_count: u64::MAX - 1,
    };
    let user = increment_sign_in_count(user);
    assert_eq!(user.sign_in_count, u64::MAX);
    assert_eq!(user.email, "a@b.c");
    assert_eq!(user.username, "abc");
    assert!(!user.active);
    let root = SuperUser {
        email: user.email,
        username: user.username,
        active: true,
        sign_in_count: 0,
        permission_level: 9,
    };
    assert_eq!(root.permission_level, 9);
}

#[test]
fn tuple_structs_are_types_of_their_own() {
    assert_eq!(use_point(&Point(1, 2, 3)), vec!["X is 1", "Y is 2", "Z is 3"]);
    assert_eq!(use_color(&Color(0, 160, 255)), vec!["Red is 0", "Green is 160", "Blue is 255"]);
    let (point, color) = not_interchangeable();
    assert_eq!(point, vec!["X is 1", "Y is 2", "Z is 3"]);
    assert_eq!(color, vec!["Red is 1", "Green is 2", "Blue is 3"]);
}

#[test]
fn an_empty_struct_has_methods() {
    assert_eq!(Hello.as_ref(), "Hello");
    assert_eq!(Hello.to_string(), "World!");
    assert_eq!(use_the_empty_struct(), "Hello World!");
    assert_eq!(std::mem::size_of::<Hello>(), 0);
}

#[test]
fn a_struct_can_borrow_its_texts() {
    assert_eq!(use_borrowed_data_struct(), "foo@example.com foo");
    let email = String::from("e");
    let data = BorrowedData { email: &email, username: "u" };
    assert_eq!((data.email, data.username), ("e", "u"));
    let print_me = PrintMe { first_word: "a".to_string(), second_word: "b".to_string() };
    assert_eq!(print_me.first_word + &print_me.second_word, "ab");
}

#[test]
fn wrapped_string_reads_changes_and_builds() {
    let mut wrapped = WrappedString::new("x");
    assert_eq!(wrapped.print(), "x");
    wrapped.mutate();
    assert_eq!(wrapped.print(), "x foo");
    wrapped.mutate();
    let built = wrapped.be_like_a_builder().be_like_a_builder();
    assert_eq!(built.print(), "x foo foo bar bar");
    assert_eq!(WrappedString::new(String::from("owned")).print(), "owned");
}
