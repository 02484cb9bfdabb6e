//! Ownership, references and slices.

use crate::text::{decimal, push_decimal};
use vstd::prelude::*;
use vstd::string::*;
use vstd::utf8::encode_utf8;

verus! {

/// Where values live and who frees them is the subject here; there is
/// nothing to run.
pub fn memory_and_allocation() {
}

/// The length of a string in bytes. The function borrows the string and
/// gives it back untouched.
pub fn calculate_length(s: &String) -> (n: usize)
    ensures
        n == encode_utf8(s@).len(),
{
    s.as_str().as_bytes().len()
}

/// Lends a string to a function and uses it afterwards.
pub fn program_1() -> (line: String)
    ensures
        line@ == "The length of '"@ + "hello"@ + "' is "@ + decimal(5) + "."@,
{
    let s1 = String::from_str("hello");
    proof {
        reveal_strlit("hello");
        is_ascii_spec_bytes("hello");
    }
    let len = calculate_length(&s1);
    let mut line = String::from_str("The length of '");
    line.append(s1.as_str());
    line.append("' is ");
    push_decimal(&mut line, len as u128);
    line.append(".");
    line
}

/// A shared reference gives no right to change what it refers to.
pub fn change(some_string: &String) {
}

/// Lends a string to a function that cannot change it.
pub fn program_2() -> (s: String)
    ensures
        s@ == "hello"@,
{
    let s = String::from_str("hello");
    change(&s);
    s
}

/// A mutable reference does: appends ", world".
pub fn change2(some_string: &mut String)
    ensures
        final(some_string)@ == old(some_string)@ + ", world"@,
{
    some_string.append(", world");
}

/// Lends a string to a function that changes it.
pub fn program_3() -> (s: String)
    ensures
        s@ == "hello"@ + ", world"@,
{
    let mut s = String::from_str("hello");
    change2(&mut s);
    s
}

/// Two mutable references to one value are fine, one after the other.
pub fn ok_mut_ref_goes_out_of_scope() -> (s: String)
    ensures
        s@ == "hello"@ + ", world"@ + ", world"@,
{
    let mut s = String::from_str("hello");
    {
        let r1 = &mut s;
        change2(r1);
    }
    let r2 = &mut s;
    change2(r2);
    s
}

/// Any number of shared references to one value are fine, as long as no
/// mutable one is in use with them.
pub fn not_ok_to_have_mut_an_immutable() -> (n: usize)
    ensures
        n == encode_utf8("hello"@).len() + encode_utf8("hello"@).len(),
{
    let mut s = String::from_str("hello");
    let r1 = &s;
    let r2 = &s;
    proof {
        reveal_strlit("hello");
        is_ascii_spec_bytes("hello");
    }
    calculate_length(r1) + calculate_length(r2)
}

/// A reference to a value that is gone cannot be made; there is nothing to
/// run.
pub fn let_me_dangle() {
}

/// Hands back the reference it was given, which lives as long as the
/// caller's value.
pub fn this_does_not_dangle(s: &String) -> (r: &String)
    ensures
        r == s,
{
    s
}

/// The same, with the lifetime spelled out.
pub fn this_has_lifetimes_annotated<'a>(s: &'a String) -> (r: &'a String)
    ensures
        r == s,
{
    s
}

/// Takes a second reference to a string by way of a function.
pub fn use_the_above_function() -> (n: usize)
    ensures
        n == encode_utf8("hello"@).len(),
{
    let mut my_precious_string = String::from_str("hello");
    let a_ref_to_the_same = this_does_not_dangle(&my_precious_string);
    calculate_length(a_ref_to_the_same)
}

/// The number of bytes before the first space, or all of them where there
/// is no space.
pub open spec fn first_space(bytes: Seq<u8>) -> nat
    decreases bytes.len(),
{
    if bytes.len() == 0 || bytes[0] == 32 {
        0
    } else {
        1 + first_space(bytes.drop_first())
    }
}

/// Bytes other than a space up to `k`, and a space or the end there, put
/// the first space at `k`.
pub proof fn lemma_first_space(bytes: Seq<u8>, k: int)
    requires
        0 <= k <= bytes.len(),
        forall|i: int| 0 <= i < k ==> #[trigger] bytes[i] != 32,
        k < bytes.len() ==> bytes[k] == 32,
    ensures
        first_space(bytes) == k,
    decreases k,
{
    if k > 0 {
        let rest = bytes.drop_first();
        assert forall|i: int| 0 <= i < k - 1 implies #[trigger] rest[i] != 32 by {
            assert(rest[i] == bytes[i + 1]);
        }
        lemma_first_space(rest, k - 1);
    }
}

/// Where the first word of a string ends: the byte offset of the first
/// space, or the length of the string. The number says nothing once the
/// string has changed, which is what slices are for.
pub fn first_word(s: &String) -> (end: usize)
    ensures
        end == first_space(encode_utf8(s@)),
{
    let bytes = s.as_str().as_bytes();
    let mut i: usize = 0;
    while i < bytes.len()
        invariant
            i <= bytes@.len(),
            bytes@ == encode_utf8(s@),
            forall|j: int| 0 <= j < i ==> #[trigger] bytes@[j] != 32,
        decreases bytes@.len() - i,
    {
        let item = bytes[i];
        if item == 32u8 {
            proof {
                lemma_first_space(bytes@, i as int);
            }
            return i;
        }
        i = i + 1;
    }
    proof {
        lemma_first_space(bytes@, i as int);
    }
    bytes.len()
}

/// The two words of "hello world", as slices of the one string.
pub fn show_me_slices() -> (words: (String, String))
    ensures
        words.0@ == "hello"@,
        words.1@ == "world"@,
{
    let s = String::from_str("hello world");
    proof {
        reveal_strlit("hello world");
        reveal_strlit("hello");
        reveal_strlit("world");
    }
    let hello = s.as_str().substring_ascii(0, 5);
    let world = s.as_str().substring_ascii(6, 11);
    assert(hello@ =~= "hello"@);
    assert(world@ =~= "world"@);
    (String::from_str(hello), String::from_str(world))
}

/// A text known when the program is built.
pub const CONSTANT: &'static str = "hello world";

/// The line that tells the length of a text in bytes.
pub open spec fn length_line(s: Seq<char>) -> Seq<char> {
    "the string length is: "@ + decimal(encode_utf8(s).len())
}

/// Tells the length of a string. A parameter of this type turns away
/// callers that hold a slice.
pub fn bad_function_signature(s: &String) -> (line: String)
    ensures
        line@ == length_line(s@),
{
    let mut line = String::from_str("the string length is: ");
    push_decimal(&mut line, s.as_str().as_bytes().len() as u128);
    line
}

/// Tells the length of a text. A slice parameter serves callers that hold a
/// string, a part of one, or a literal.
pub fn good_function_signature(s: &str) -> (line: String)
    ensures
        line@ == length_line(s@),
{
    let mut line = String::from_str("the string length is: ");
    push_decimal(&mut line, s.as_bytes().len() as u128);
    line
}

/// Takes a part of a constant, for which no `String` exists, and tells its
/// length.
pub fn show_why_the_first_function_is_bad() -> (line: String)
    ensures
        line@ == length_line("world"@),
{
    proof {
        reveal_strlit("hello world");
        reveal_strlit("world");
    }
    let s = CONSTANT.substring_ascii(6, 11);
    assert(s@ =~= "world"@);
    good_function_signature(s)
}

} // verus!
