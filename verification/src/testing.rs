//! Small functions of the kind that tests are written for.

use crate::text::IntoText;
use crate::whitespace::{split_words, trimmed, words};
use vstd::prelude::*;
use vstd::string::*;

verus! {

/// A thing with something on its mind.
pub struct MyType {
    inner: String,
}

impl MyType {
    /// What is on its mind.
    pub closed spec fn view(&self) -> Seq<char> {
        self.inner@
    }

    /// A thing that thinks about whatever can be turned into a string.
    pub fn new<S: IntoText>(value: S) -> (r: Self)
        ensures
            r@ == value.text(),
    {
        Self { inner: value.into_text() }
    }

    /// What it says when it is thinking.
    pub fn ruminate(&self) -> (r: String)
        ensures
            r@ == self@ + " is a thing that I say when I am thinking about "@ + self@,
    {
        let mut r = self.inner.clone();
        r.append(" is a thing that I say when I am thinking about ");
        r.append(self.inner.as_str());
        r
    }
}

/// The first word of a text, or nothing where it has no words.
pub open spec fn first_word_of(page: Seq<char>) -> Seq<char> {
    if words(page).len() > 0 {
        words(page)[0]
    } else {
        Seq::empty()
    }
}

/// The first word on a page, given the text of the page. Fetching the page
/// is the caller's part.
pub fn first_word_on_page(page: &str) -> (r: String)
    ensures
        r@ == first_word_of(page@),
{
    let found = split_words(page);
    if found.len() > 0 {
        found[0].clone()
    } else {
        String::new()
    }
}

/// The text without the white space at either end.
pub fn trim(s: &str) -> (r: &str)
    ensures
        r@ == trimmed(s@),
{
    crate::whitespace::trim(s)
}

/// Twice the number.
pub fn double(x: i32) -> (r: i32)
    requires
        i32::MIN <= x + x <= i32::MAX,
    ensures
        r == x + x,
{
    x + x
}

/// One less than a number that is at least 10. Smaller numbers are not
/// accepted.
pub fn gimme_a_value_greater_than_10(x: u8) -> (r: u8)
    requires
        x >= 10,
    ensures
        r == x - 1,
{
    let result = x - 1;
    result
}

} // verus!
