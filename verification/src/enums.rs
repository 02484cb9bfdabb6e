//! Enums with and without data, and the ways to take them apart: `match`
//! with all cases covered, patterns that bind, and `if let`.

use crate::text::{decimal, push_decimal, push_signed, same_text, signed_decimal};
use vstd::prelude::*;
use vstd::string::*;

verus! {

/// An enum whose variants carry nothing.
pub enum PlainEnumNoData {
    Red,
    Green,
    Blue,
}

/// A point in the plane.
pub struct Point {
    pub x: u64,
    pub y: u64,
}

/// An enum whose variants carry nothing, a struct, or named fields.
pub enum DataEnum {
    Empty,
    Point(Point),
    UnnamedStruct { x: u64, y: u64 },
}

/// The arms of the match in `explode`, in order.
#[derive(Debug, Clone, Copy, PartialEq, Eq)]
pub enum Arm {
    /// The value carries nothing.
    Empty,
    /// A point whose `x` is 0.
    PointAtZero,
    /// Named fields with `x` at 0.
    FieldsAtZero,
    /// Anything else.
    Other,
}

impl DataEnum {
    /// Says which arm takes the value: patterns can reach into the data of a
    /// variant and test a field against a literal.
    pub fn explode(&self) -> (arm: Arm)
        ensures
            arm == match *self {
                DataEnum::Empty => Arm::Empty,
                DataEnum::Point(p) => if p.x == 0 {
                    Arm::PointAtZero
                } else {
                    Arm::Other
                },
                DataEnum::UnnamedStruct { x, y } => if x == 0 {
                    Arm::FieldsAtZero
                } else {
                    Arm::Other
                },
            },
    {
        match self {
            DataEnum::Empty => Arm::Empty,
            DataEnum::Point(Point { x: 0, .. }) => Arm::PointAtZero,
            DataEnum::UnnamedStruct { x: 0, .. } => Arm::FieldsAtZero,
            _ => Arm::Other,
        }
    }
}

/// Makes one value of each variant and takes the last one apart.
pub fn example() -> (arm: Arm)
    ensures
        arm == Arm::FieldsAtZero,
{
    let value_1 = DataEnum::Empty;
    let value_2 = DataEnum::Point(Point { x: 0, y: 1 });
    let value_3 = DataEnum::UnnamedStruct { x: 0, y: 1 };
    value_3.explode()
}

/// The ways to get a value out of an option that has none, short of
/// panicking: the default of the type, a given value, a computed one.
pub fn option_unwraps() -> (r: (u8, u8, u8))
    ensures
        r == (0u8, 255u8, 42u8),
{
    let null: Option<u8> = None;
    let not_null: Option<u8> = Some(0u8);
    let a = null.unwrap_or_default();
    let b = null.unwrap_or(255);
    let forty_two = || -> (v: u8)
        ensures
            v == 42,
        { 42u8 };
    let c = null.unwrap_or_else(forty_two);
    (a, b, c)
}

/// Three letters.
pub enum Letter {
    A,
    B,
    C,
}

/// The name of a letter. Every variant has an arm.
pub fn letter_name(letter: &Letter) -> (name: &'static str)
    ensures
        name@ == match *letter {
            Letter::A => "A"@,
            Letter::B => "B"@,
            Letter::C => "C"@,
        },
{
    match letter {
        Letter::A => "A",
        Letter::B => "B",
        Letter::C => "C",
    }
}

/// The name of the first letter; a catch-all arm takes the others.
pub fn a_or_something_else(letter: &Letter) -> (name: &'static str)
    ensures
        name@ == match *letter {
            Letter::A => "A"@,
            _ => "something else"@,
        },
{
    match letter {
        Letter::A => "A",
        _ => "something else",
    }
}

/// Greets "hello"; any other text is unknown.
pub fn hello_or_unknown(some_str: &str) -> (line: &'static str)
    ensures
        line@ == if some_str@ == "hello"@ {
            "-------------- HELLO"@
        } else {
            "unknown string"@
        },
{
    if same_text(some_str, "hello") {
        "-------------- HELLO"
    } else {
        "unknown string"
    }
}

/// Greets "hello"; any other text comes back as it is, bound to a name by
/// the last arm.
pub fn hello_or_same(some_str: &str) -> (line: String)
    ensures
        line@ == if some_str@ == "hello"@ {
            "-------------- HELLO"@
        } else {
            some_str@
        },
{
    if same_text(some_str, "hello") {
        String::from_str("-------------- HELLO")
    } else {
        let new_str_variable = some_str;
        String::from_str(new_str_variable)
    }
}

/// Matches the letter B in both ways, then the text "hello" in both ways.
pub fn exhaustive_matches() -> (lines: Vec<String>)
    ensures
        lines@.len() == 4,
        lines@[0]@ == "B"@,
        lines@[1]@ == "something else"@,
        lines@[2]@ == "-------------- HELLO"@,
        lines@[3]@ == "-------------- HELLO"@,
{
    let letter = Letter::B;
    let some_str = "hello";
    let mut lines: Vec<String> = Vec::new();
    lines.push(String::from_str(letter_name(&letter)));
    lines.push(String::from_str(a_or_something_else(&letter)));
    lines.push(String::from_str(hello_or_unknown(some_str)));
    lines.push(hello_or_same(some_str));
    lines
}

/// A number or a text.
pub enum Value {
    I(u64),
    S(&'static str),
}

/// Recognizes two values by what they hold; a catch-all arm is needed for
/// the rest.
pub fn known_value(value: &Value) -> (line: &'static str)
    ensures
        line@ == match *value {
            Value::S(s) => if s@ == "hello"@ {
                "I know the value was 'hello'"@
            } else {
                "I need the catch-all because I haven't covered all values"@
            },
            Value::I(i) => if i == 42 {
                "I know the value was 42)"@
            } else {
                "I need the catch-all because I haven't covered all values"@
            },
        },
{
    match value {
        Value::S(s) => if same_text(s, "hello") {
            "I know the value was 'hello'"
        } else {
            "I need the catch-all because I haven't covered all values"
        },
        Value::I(42) => "I know the value was 42)",
        _ => "I need the catch-all because I haven't covered all values",
    }
}

/// What the value holds, written out; each arm binds the data of its
/// variant.
pub fn inner_text(value: &Value) -> (line: String)
    ensures
        line@ == match *value {
            Value::I(i) => decimal(i as nat),
            Value::S(s) => s@,
        },
{
    match value {
        Value::I(i) => {
            let mut line = String::new();
            push_decimal(&mut line, *i as u128);
            assert(line@ =~= decimal(*i as nat));
            line
        },
        Value::S(s) => String::from_str(s),
    }
}

/// Takes the text "hello" apart by what it holds, then by its variant.
pub fn patterns_that_bind_to_values() -> (lines: (String, String))
    ensures
        lines.0@ == "I know the value was 'hello'"@,
        lines.1@ == "hello"@,
{
    let value = Value::S("hello");
    (String::from_str(known_value(&value)), inner_text(&value))
}

/// The line for a value, if there is one.
pub open spec fn value_line(value: Option<i32>) -> Option<Seq<char>> {
    match value {
        Some(i) => Some("the value is "@ + signed_decimal(i as int)),
        None => None,
    }
}

/// Reads an option with a `match` that has an empty arm, and with `if let`,
/// which says the same in less.
pub fn if_let(value: Option<i32>) -> (lines: (Option<String>, Option<String>))
    ensures
        lines.0 is Some == value is Some,
        lines.1 is Some == value is Some,
        value is Some ==> lines.0->0@ == value_line(value)->0 && lines.1->0@ == value_line(
            value,
        )->0,
{
    let by_match = match value {
        Some(i) => {
            let mut line = String::from_str("the value is ");
            push_signed(&mut line, i as i64);
            Some(line)
        },
        _ => None,
    };
    let mut by_if_let: Option<String> = None;
    if let Some(i) = value {
        let mut line = String::from_str("the value is ");
        push_signed(&mut line, i as i64);
        by_if_let = Some(line);
    }
    (by_match, by_if_let)
}

} // verus!
