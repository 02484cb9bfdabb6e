//! References and how long they live: functions that hand back a part of
//! what they were given, and a struct that holds a reference.

use crate::text::{push_signed, signed_decimal};
use vstd::prelude::*;
use vstd::string::*;
use vstd::utf8::is_char_boundary;

verus! {

/// A reference to a value that lives long enough: the line that shows it.
pub fn dangle_3() -> (line: String)
    ensures
        line@ == "r: "@ + signed_decimal(5),
{
    let x: i32 = 5;
    let r = &x;
    let mut line = String::from_str("r: ");
    push_signed(&mut line, *r as i64);
    line
}

/// Whether the text can be cut after its first byte: it has one, and the
/// first character ends there.
pub open spec fn has_first_byte(s: &str) -> bool {
    s.spec_bytes().len() >= 1 && is_char_boundary(s.spec_bytes(), 1)
}

/// The bytes of a text after the first one.
pub open spec fn after_first_byte(s: &str) -> Seq<u8> {
    s.spec_bytes().subrange(1, s.spec_bytes().len() as int)
}

/// The text after its first byte. With one reference going in, the one
/// coming out can only borrow from it, and nothing needs saying.
pub fn no_lifetime_annotation_needed(s: &str) -> (r: &str)
    requires
        has_first_byte(s),
    ensures
        r.spec_bytes() == after_first_byte(s),
{
    s.split_at(1).1
}

/// The same, with the lifetime spelled out.
pub fn unnecessary_lifetime_annotation<'a>(s: &'a str) -> (r: &'a str)
    requires
        has_first_byte(s),
    ensures
        r.spec_bytes() == after_first_byte(s),
{
    s.split_at(1).1
}

/// A text in a wrapper.
pub struct Simple(pub String);

impl Simple {
    /// The text inside, borrowed from the wrapper.
    pub fn inner(&self) -> (r: &str)
        ensures
            r@ == self.0@,
    {
        self.0.as_str()
    }
}

/// The longer of the first two texts, by bytes, and the third, each without
/// its first byte. The first result may borrow from either of the first two
/// arguments, so those share a lifetime; the second borrows from the third
/// alone.
pub fn required_lifetimes<'a, 'b>(s1: &'a str, s2: &'a str, s3: &'b str) -> (r: (&'a str, &'b str))
    requires
        has_first_byte(s1),
        has_first_byte(s2),
        has_first_byte(s3),
    ensures
        r.0.spec_bytes() == if s1.len() > s2.len() {
            after_first_byte(s1)
        } else {
            after_first_byte(s2)
        },
        r.1.spec_bytes() == after_first_byte(s3),
{
    (
        if s1.len() > s2.len() {
            s1.split_at(1).1
        } else {
            s2.split_at(1).1
        },
        s3.split_at(1).1,
    )
}

/// The longer of two texts, by bytes; the second where they are equally
/// long.
pub fn longest<'a>(s1: &'a str, s2: &'a str) -> (r: &'a str)
    ensures
        r@ == if s1.len() > s2.len() {
            s1@
        } else {
            s2@
        },
{
    if s1.len() > s2.len() {
        s1
    } else {
        s2
    }
}

/// The longer of two strings, used while both are alive.
pub fn use_longest_1() -> (line: String)
    ensures
        line@ == "The longer string"@,
{
    let s1 = String::from_str("The longer string");
    let s2 = String::from_str("short");
    proof {
        reveal_strlit("The longer string");
        reveal_strlit("short");
        is_ascii_spec_bytes("The longer string");
        is_ascii_spec_bytes("short");
    }
    let result = longest(s1.as_str(), s2.as_str());
    String::from_str(result)
}

/// A struct that holds a reference says for how long.
pub struct WithLifetime<'a> {
    pub something: &'a str,
}

impl<'a> WithLifetime<'a> {
    /// The text that the struct refers to.
    pub fn inner(&self) -> (r: &str)
        ensures
            r@ == self.something@,
    {
        self.something
    }
}

} // verus!
