//! Variables, constants, shadowing, types, functions, statements and
//! expressions.

use crate::text::{
    decimal, numeral_value, parse_u32, parsed, push_decimal, signed_decimal, signed_string,
    without_plus,
};
use vstd::prelude::*;
use vstd::string::*;

verus! {

/// A variable that is bound once: the line that shows it.
pub fn immutable() -> (line: String)
    ensures
        line@ == signed_decimal(1),
{
    let x: i32 = 1;
    signed_string(x as i64)
}

/// A variable that is assigned again: the lines that show it before and
/// after.
pub fn mutable() -> (lines: (String, String))
    ensures
        lines.0@ == signed_decimal(1),
        lines.1@ == signed_decimal(2),
{
    let mut x: i32 = 1;
    let before = signed_string(x as i64);
    x = 2;
    let after = signed_string(x as i64);
    (before, after)
}

/// The message that `constants` repeats.
pub const MESSAGE: &'static str = "Hello World";

/// How often it is repeated.
pub const MESSAGE_COUNT: u64 = 2;

/// The message, once for each count.
pub fn constants() -> (lines: Vec<String>)
    ensures
        lines@.len() == MESSAGE_COUNT,
        forall|i: int| 0 <= i < lines@.len() ==> (#[trigger] lines@[i])@ == MESSAGE@,
{
    let mut lines: Vec<String> = Vec::new();
    let mut i: u64 = 0;
    while i < MESSAGE_COUNT
        invariant
            i <= MESSAGE_COUNT,
            lines@.len() == i,
            forall|j: int| 0 <= j < lines@.len() ==> (#[trigger] lines@[j])@ == MESSAGE@,
        decreases MESSAGE_COUNT - i,
    {
        lines.push(String::from_str(MESSAGE));
        i = i + 1;
    }
    lines
}

/// A name can be bound again, to a new value and even to a new type; the
/// old binding is out of sight from then on.
pub fn shadowing() -> (r: (i32, String))
    ensures
        r.0 == 2,
        r.1@ == "Hello World"@,
{
    let x: i32 = 1;
    let x: i32 = x + 1;
    let mut y: i32 = 3;
    let y = String::from_str("Hello World");
    (x, y)
}

/// The text "42" is the number 42.
proof fn lemma_forty_two()
    ensures
        parsed("42"@, 0xffff_ffff) == Some(42nat),
{
    reveal_strlit("42");
    let s = "42"@;
    assert(without_plus(s) == s);
    assert(s.drop_last() =~= seq!['4']);
    assert(s.drop_last().drop_last() =~= Seq::<char>::empty());
    reveal_with_fuel(numeral_value, 3);
    assert(numeral_value(s.drop_last()) == 4);
    assert(numeral_value(s) == 42);
}

/// Reading a number from text needs to know which type of number is meant;
/// the annotation on the variable says so.
pub fn annotate_type() -> (does_compile: u32)
    ensures
        does_compile == 42,
{
    proof {
        lemma_forty_two();
    }
    let does_compile: u32 = parse_u32("42").expect("Not a number!");
    does_compile
}

/// The scalar and compound types are the subject here; there is nothing to
/// run.
pub fn data_types() {
}

/// The line for one round: the number of the round, a full stop and the
/// message.
pub open spec fn numbered(i: nat, message: Seq<char>) -> Seq<char> {
    decimal(i) + ". "@ + message
}

/// The message, once for each round, with the number of the round before
/// it. Parameters state their types.
pub fn typed_function_parameters(loop_count: usize, message: &'static str) -> (lines: Vec<String>)
    ensures
        lines@.len() == loop_count,
        forall|i: int|
            0 <= i < lines@.len() ==> (#[trigger] lines@[i])@ == numbered(i as nat, message@),
{
    let mut lines: Vec<String> = Vec::new();
    let mut i: usize = 0;
    while i < loop_count
        invariant
            i <= loop_count,
            lines@.len() == i,
            forall|j: int|
                0 <= j < lines@.len() ==> (#[trigger] lines@[j])@ == numbered(j as nat, message@),
        decreases loop_count - i,
    {
        let mut line = String::new();
        push_decimal(&mut line, i as u128);
        line.append(". ");
        line.append(message);
        assert(line@ =~= numbered(i as nat, message@));
        lines.push(line);
        i = i + 1;
    }
    lines
}

/// Ten rounds of "Hello World!".
pub fn calling() -> (lines: Vec<String>)
    ensures
        lines@.len() == 10,
        forall|i: int|
            0 <= i < 10 ==> (#[trigger] lines@[i])@ == numbered(i as nat, "Hello World!"@),
{
    typed_function_parameters(10, "Hello World!")
}

/// 42 for 0; one more than the argument where it is over 10; else the
/// argument. A block is an expression, and `return` leaves the function from
/// inside it.
pub fn statements_and_expressions(decide: i32) -> (r: i32)
    requires
        decide < i32::MAX,
    ensures
        r == if decide == 0 {
            42
        } else if decide > 10 {
            decide + 1
        } else {
            decide as int
        },
{
    let mut x = {
        if decide == 0 {
            return 42;
        }
        let mut m = decide;
        if decide > 10 {
            m = m + 1;
        }
        m
    };
    x
}

/// A constant with a remark for its readers.
pub const THIS_HAS_A_DOC_COMMENT: () = ();

pub const NO_DOCUMENTATION: () = ();

/// A function that does nothing: the place where a remark on the code, as
/// opposed to one for its readers, would stand.
pub fn foo() {
}

} // verus!
