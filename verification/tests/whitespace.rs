use rust_book::whitespace::{split_words, trim, trim_end, trim_start, whitespace};

#[test]
fn whitespace_agrees_with_the_standard_library_on_every_character() {
    for code in 0u32..=0x10ffff {
        if let Some(c) = char::from_u32(code) {
            assert_eq!(whitespace(c), c.is_whitespace(), "U+{:04X}", code);
        }
    }
}

#[test]
fn trim_start_keeps_the_end() {
    assert_eq!(trim_start("  a b  "), "a b  ");
    assert_eq!(trim_start("a"), "a");
    assert_eq!(trim_start("   "), "");
    assert_eq!(trim_start(""), "");
}

#[test]
fn trim_end_keeps_the_start() {
    assert_eq!(trim_end("  a b  "), "  a b");
    assert_eq!(trim_end("blah"), "blah");
    assert_eq!(trim_end("blah\n"), "blah");
    assert_eq!(trim_end("   "), "");
    assert_eq!(trim_end(""), "");
}

#[test]
fn trim_takes_both_ends() {
    assert_eq!(trim("\t a b \n"), "a b");
    assert_eq!(trim(" \u{3000} "), "");
}

#[test]
fn split_words_agrees_with_the_standard_library() {
    let texts = [
        "", " ", "a", " a ", "hello world wonderful world", "  two  spaces  ", "tab\tand\nnewline",
        "é\u{a0}ü", "x\u{2003}y", "one",
    ];
    for text in texts {
        let expected: Vec<&str> = text.split_whitespace().collect();
        assert_eq!(split_words(text), expected, "{:?}", text);
    }
}

#[test]
fn trimming_twice_is_trimming_once() {
    for text in ["", "  ", " a ", "\t a b \n", "a", "\u{3000}x y\u{a0}"] {
        assert_eq!(trim(trim(text)), trim(text));
        assert!(!trim(text).starts_with(char::is_whitespace));
        assert!(!trim(text).ends_with(char::is_whitespace));
    }
}
