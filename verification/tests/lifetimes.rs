use rust_book::lifetimes::{
    dangle_3, longest, no_lifetime_annotation_needed, required_lifetimes,
    unnecessary_lifetime_annotation, use_longest_1, Simple, WithLifetime,
};

#[test]
fn the_first_byte_is_cut_off() {
    assert_eq!(no_lifetime_annotation_needed("hello"), "ello");
    assert_eq!(no_lifetime_annotation_needed("h"), "");
    assert_eq!(unnecessary_lifetime_annotation("hello"), "ello");
    assert_eq!(unnecessary_lifetime_annotation("xé"), "é");
}

#[test]
fn required_lifetimes_picks_the_longer_of_the_first_two() {
    assert_eq!(required_lifetimes("abc", "de", "xyz"), ("bc", "yz"));
    assert_eq!(required_lifetimes("ab", "cde", "x"), ("de", ""));
    assert_eq!(required_lifetimes("ab", "cd", "x"), ("d", ""));
}

#[test]
fn longest_goes_by_bytes_and_prefers_the_second_on_a_tie() {
    assert_eq!(longest("The longer string", "short"), "The longer string");
    assert_eq!(longest("short", "The longer string"), "The longer string");
    assert_eq!(longest("abc", "xyz"), "xyz");
    assert_eq!(longest("", ""), "");
    assert_eq!(longest("éé", "abc"), "éé");
    assert_eq!(use_longest_1(), "The longer string");
}

#[test]
fn wrappers_lend_what_they_hold() {
    assert_eq!(dangle_3(), "r: 5");
    assert_eq!(Simple("inside".to_string()).inner(), "inside");
    let text = String::from("borrowed");
    assert_eq!(WithLifetime { something: &text }.inner(), "borrowed");
}
