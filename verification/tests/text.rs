use rust_book::text::{
    decimal_string, digit, join, list_debug_text, parse_decimal, parse_u32, parse_u8, push_decimal,
    push_signed, same_text, signed_string, IntoText,
};

#[test]
fn digits_are_the_ten_characters() {
    let all: String = (0u8..10).map(digit).collect();
    assert_eq!(all, "0123456789");
}

#[test]
fn decimal_string_writes_numbers_like_the_standard_library() {
    for n in [0u128, 1, 9, 10, 11, 99, 100, 101, 12345, u64::MAX as u128, u128::MAX] {
        assert_eq!(decimal_string(n), n.to_string());
    }
}

#[test]
fn signed_string_writes_the_sign_first() {
    for n in [0i64, 1, -1, 10, -10, 160, 255, -93856723, i64::MAX, i64::MIN] {
        assert_eq!(signed_string(n), n.to_string());
    }
}

#[test]
fn push_decimal_appends_to_what_is_there() {
    let mut s = String::from("n = ");
    push_decimal(&mut s, 407);
    assert_eq!(s, "n = 407");
    push_signed(&mut s, -3);
    assert_eq!(s, "n = 407-3");
}

#[test]
fn join_puts_head_before_tail() {
    assert_eq!(join("Hello: ", "Leo"), "Hello: Leo");
    assert_eq!(join("", ""), "");
    assert_eq!(join("a", ""), "a");
}

#[test]
fn list_debug_text_writes_lists_like_the_standard_library() {
    for list in [vec![], vec![1], vec![1, 2, 3], vec![-5, 0, i32::MAX, i32::MIN]] {
        assert_eq!(list_debug_text(&list), format!("{:?}", list));
    }
}

#[test]
fn parse_u8_reads_what_the_standard_library_reads() {
    let inputs = [
        "", "+", "-", "0", "+0", "34", "+34", "255", "256", "0255", "00000000001", "999", "-1",
        "1 ", " 1", "1_0", "12a", "a", "++1", "+-1", "٣",
    ];
    for input in inputs {
        assert_eq!(parse_u8(input), input.parse::<u8>().ok(), "{:?}", input);
    }
}

#[test]
fn parse_u32_reads_what_the_standard_library_reads() {
    let inputs = ["42", "4294967295", "4294967296", "+4294967295", "99999999999999999999999", "x"];
    for input in inputs {
        assert_eq!(parse_u32(input), input.parse::<u32>().ok(), "{:?}", input);
    }
}

#[test]
fn parse_decimal_respects_the_limit() {
    assert_eq!(parse_decimal("10", 10), Some(10));
    assert_eq!(parse_decimal("11", 10), None);
    assert_eq!(parse_decimal("18446744073709551615", u64::MAX), Some(u64::MAX));
    assert_eq!(parse_decimal("18446744073709551616", u64::MAX), None);
    assert_eq!(parse_decimal("0", 0), Some(0));
    assert_eq!(parse_decimal("1", 0), None);
}

#[test]
fn same_text_compares_character_by_character() {
    assert!(same_text("hello", "hello"));
    assert!(same_text("", ""));
    assert!(!same_text("hello", "hellO"));
    assert!(!same_text("hello", "hell"));
    assert!(!same_text("é", "e"));
}

#[test]
fn reading_back_what_was_written_gives_the_number() {
    for n in [0u64, 7, 10, 99, 100, 4096, 1234567890, u64::MAX - 1, u64::MAX] {
        assert_eq!(parse_decimal(&decimal_string(n as u128), u64::MAX), Some(n));
        assert_eq!(parse_decimal(&decimal_string(n as u128), n), Some(n));
        if n > 0 {
            assert_eq!(parse_decimal(&decimal_string(n as u128), n - 1), None);
        }
    }
}

#[test]
fn texts_and_strings_turn_into_strings() {
    assert_eq!("balloon".into_text(), "balloon");
    assert_eq!(String::from("owned").into_text(), "owned");
}
