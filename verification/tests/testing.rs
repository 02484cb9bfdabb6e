use rust_book::testing::{double, first_word_on_page, gimme_a_value_greater_than_10, trim, MyType};
use std::io::Write;
use std::path::PathBuf;

#[test]
fn a_test() {
    let p = PathBuf::from("128471").join("foo.txt");
    assert!(p.ends_with("foo.txt"));
}

#[test]
fn i_hate_this() {
    let inputs = [" test 1", "test 2 ", " test 3 "];
    let outputs = ["test 1", "test 2", "test 3"];
    for i in 0usize..2 {
        assert_eq!(outputs.get(i).unwrap(), &trim(inputs.get(i).unwrap()));
    }
}

#[test]
fn trim_test_1_leading_space() {
    assert_eq!("test 1", trim(" test 1"));
}

#[test]
fn trim_test_2_trailing_space() {
    assert_eq!("test 2", trim("test 2 "));
}

#[test]
fn trim_test_3_leading_and_trailing() {
    assert_eq!("test 3", trim("      test 3     "));
}

#[test]
fn example() {
    println!("Hello Nocapture!");
    std::io::stderr().write_all(b"This is stderr!\n").unwrap();
}

#[test]
fn integrate_with_postgres() {
    // launch a docker container running postgres
    // wait for it to come up
    // insert rows
    // check the inserted rows
}

#[test]
fn unit_test() {
    // check some input parsing logic
}

#[test]
fn trim_agrees_with_the_standard_library() {
    let inputs = [
        "", " ", "a", " a", "a ", "  a b  ", "\t\n a\r\n", "\u{a0}x\u{3000}", "\u{2003}é \u{85}",
        "\u{200b}x", "x\u{1680}", "\u{feff}x",
    ];
    for input in inputs {
        assert_eq!(trim(input), input.trim(), "{:?}", input);
    }
}

#[test]
fn ruminate_says_the_thought_twice() {
    let foo = MyType::new("balloon");
    assert_eq!("balloon is a thing that I say when I am thinking about balloon", foo.ruminate());
    assert_eq!(MyType::new(String::new()).ruminate(), " is a thing that I say when I am thinking about ");
}

#[test]
fn first_word_on_page_skips_leading_white_space() {
    assert_eq!(first_word_on_page("  Example Domain\nThis domain"), "Example");
    assert_eq!(first_word_on_page("word"), "word");
    assert_eq!(first_word_on_page(" \n\t"), "");
    assert_eq!(first_word_on_page(""), "");
}

#[test]
fn double_three_is_six() {
    assert_eq!(6, double(3));
    assert_ne!(7, double(3));
    assert_eq!(double(-4), -8);
    assert_eq!(double(0), 0);
    assert_eq!(double(i32::MAX / 2), i32::MAX - 1);
}

#[test]
fn gimme_takes_one_off() {
    assert_eq!(gimme_a_value_greater_than_10(10), 9);
    assert_eq!(gimme_a_value_greater_than_10(255), 254);
}
