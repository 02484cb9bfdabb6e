//! Generic functions, generic structs, and methods that exist only for some
//! choices of the type parameter.

use crate::order::{largest_of, largest_so_far, ordered};
use crate::text::{join, signed_decimal};
use crate::traits::Show;
use vstd::prelude::*;
use vstd::string::*;

verus! {

/// The largest item of a list that is not empty.
pub fn largest<T>(list: &[T]) -> (r: T) where T: Copy + PartialOrd
    requires
        list@.len() > 0,
    ensures
        ordered::<T>() ==> r == largest_of(list@),
{
    let mut largest = list[0];
    let mut i: usize = 0;
    while i < list.len()
        invariant
            i <= list@.len(),
            list@.len() > 0,
            ordered::<T>() ==> largest == largest_so_far(list@, i as int),
        decreases list@.len() - i,
    {
        let item = list[i];
        if item > largest {
            largest = item;
        }
        i = i + 1;
    }
    largest
}

/// Among numbers, the largest item is an item of the list, and no item is
/// greater.
pub proof fn lemma_largest_number(list: Seq<i32>, n: int)
    requires
        0 <= n <= list.len(),
        list.len() > 0,
    ensures
        list.contains(largest_so_far(list, n)),
        forall|i: int| 0 <= i < n ==> #[trigger] list[i] <= largest_so_far(list, n),
    decreases n,
{
    if n <= 0 {
        assert(list[0] == largest_so_far(list, n));
    } else {
        lemma_largest_number(list, n - 1);
        assert(list[n - 1] == list[n - 1]);
    }
}

/// The largest of the numbers 4, 3, 2, 5, 1 and the largest of the texts
/// "foo", "bar", "baz": one function serves both types.
pub fn use_largest() -> (r: (i32, &'static str))
    ensures
        r.0 == 5,
        ordered::<&'static str>() ==> r.1 == largest_of(seq!["foo", "bar", "baz"]),
{
    let number_list: [i32; 5] = [4, 3, 2, 5, 1];
    let string_list: [&'static str; 3] = ["foo", "bar", "baz"];
    let largest_number = largest(number_list.as_slice());
    let largest_string = largest(string_list.as_slice());
    proof {
        let list = number_list@;
        reveal_with_fuel(largest_so_far, 6);
        assert(largest_so_far(list, 0) == 4);
        assert(largest_so_far(list, 1) == 4);
        assert(largest_so_far(list, 2) == 4);
        assert(largest_so_far(list, 3) == 4);
        assert(largest_so_far(list, 4) == 5);
        assert(largest_so_far(list, 5) == 5);
        assert(string_list@ =~= seq!["foo", "bar", "baz"]);
    }
    (largest_number, largest_string)
}

/// A point whose coordinates have one type, whatever it is.
pub struct PointA<T> {
    pub x: T,
    pub y: T,
}

/// A point of two texts.
pub fn use_point_a() -> (point: PointA<&'static str>)
    ensures
        point.x@ == "foo"@,
        point.y@ == "bar"@,
{
    PointA { x: "foo", y: "bar" }
}

/// A point whose coordinates may differ in type.
pub struct PointB<T, U> {
    x: T,
    y: U,
}

impl<T, U> PointB<T, U> {
    /// The first coordinate, for contracts.
    pub closed spec fn spec_x(self) -> T {
        self.x
    }

    /// The second coordinate, for contracts.
    pub closed spec fn spec_y(self) -> U {
        self.y
    }

    /// A point with the given coordinates.
    pub fn new(x: T, y: U) -> (r: Self)
        ensures
            r.spec_x() == x,
            r.spec_y() == y,
    {
        Self { x, y }
    }

    /// The first coordinate.
    pub fn x(&self) -> (r: &T)
        ensures
            *r == self.spec_x(),
    {
        &self.x
    }

    /// The second coordinate.
    pub fn y(&self) -> (r: &U)
        ensures
            *r == self.spec_y(),
    {
        &self.y
    }
}

/// A point of a number and a text.
pub fn use_point_b() -> (point: PointB<i32, &'static str>)
    ensures
        point.spec_x() == 1,
        point.spec_y()@ == "bar"@,
{
    PointB { x: 1, y: "bar" }
}

/// Builds a point of a text and a number and reads both coordinates back.
pub fn use_point_b_more() -> (lines: (String, String))
    ensures
        lines.0@ == "point_b x is: "@ + "foo"@,
        lines.1@ == "point_b y is: "@ + signed_decimal(1),
{
    let point = PointB::new("foo", 1i32);
    let x = join("point_b x is: ", point.x().show().as_str());
    let y = join("point_b y is: ", point.y().show().as_str());
    (x, y)
}

/// A value of any type.
pub struct Value<T> {
    pub inner: T,
}

impl<T> Value<T> {
    /// The value inside: a method for every `T`.
    pub fn get(&self) -> (r: &T)
        ensures
            *r == self.inner,
    {
        &self.inner
    }
}

impl Value<i32> {
    /// Whether the number is negative: a method for `Value<i32>` alone.
    pub fn is_less_than_zero(&self) -> (r: bool)
        ensures
            r == (self.inner < 0),
    {
        self.inner < 0
    }
}

impl<T: Show> Value<T> {
    /// The value written out: a method for every `T` that can be shown.
    pub fn print(&self) -> (line: String)
        ensures
            line@ == self.inner.shown(),
    {
        self.inner.show()
    }
}

/// Wraps a number, a text and an option. All three have `get`; only the
/// number has `is_less_than_zero`, and only what can be shown has `print`.
pub fn use_in_examples() -> (r: (bool, String))
    ensures
        r.0 == false,
        r.1@ == signed_decimal(1),
{
    let t_is_an_i32 = Value { inner: 1i32 };
    let t_is_a_str = Value { inner: "Hi" };
    let t_is_an_option = Value { inner: Some("Hi") };
    let negative = t_is_an_i32.is_less_than_zero();
    (negative, t_is_an_i32.print())
}

/// The line for any value that can be shown. The compiler makes one copy of
/// this function for each type it is used with.
pub fn print<T: Show>(value: T) -> (line: String)
    ensures
        line@ == "I'm printing this: "@ + value.shown(),
{
    join("I'm printing this: ", value.show().as_str())
}

/// Uses the generic function with a number and with a text.
pub fn use_print() -> (lines: (String, String))
    ensures
        lines.0@ == "I'm printing this: "@ + signed_decimal(1),
        lines.1@ == "I'm printing this: "@ + "str"@,
{
    (print(1i32), print("str"))
}

/// The copy of `print` for numbers, written by hand.
pub fn print_i32(value: i32) -> (line: String)
    ensures
        line@ == "I'm printing this: "@ + signed_decimal(value as int),
{
    join("I'm printing this: ", value.show().as_str())
}

/// The copy of `print` for texts, written by hand.
pub fn print_str(value: &str) -> (line: String)
    ensures
        line@ == "I'm printing this: "@ + value@,
{
    join("I'm printing this: ", value)
}

} // verus!
