//! Structs: named fields, tuple structs, unit structs, methods and
//! builders.

use crate::text::{decimal, push_decimal, IntoText};
use vstd::prelude::*;
use vstd::string::*;

verus! {

/// An account.
pub struct User {
    pub email: String,
    pub username: String,
    pub active: bool,
    pub sign_in_count: u64,
}

/// What a new account holds: the given address and name, active, signed in
/// once.
pub open spec fn is_new_user(user: User, email: String, username: String) -> bool {
    &&& user.email == email
    &&& user.username == username
    &&& user.active
    &&& user.sign_in_count == 1
}

/// The same data as a tuple and as a struct; the struct names its parts.
pub fn tuples_are_like_structs() -> (r: ((String, String, bool, u64), User))
    ensures
        r.0.0@ == "foo@bar.com"@ && r.0.1@ == "foobar"@ && !r.0.2 && r.0.3 == 0,
        r.1.email@ == "foo@bar.com"@ && r.1.username@ == "foobar"@ && !r.1.active
            && r.1.sign_in_count == 0,
{
    let user = (String::from_str("foo@bar.com"), String::from_str("foobar"), false, 0u64);
    let tuple = user;
    let user = User {
        email: String::from_str("foo@bar.com"),
        username: String::from_str("foobar"),
        active: false,
        sign_in_count: 0,
    };
    (tuple, user)
}

/// A new account, built by a free function.
pub fn build_user(email: String, username: String) -> (user: User)
    ensures
        is_new_user(user, email, username),
{
    User { email, username, active: true, sign_in_count: 1 }
}

impl User {
    /// A new account, built by a constructor.
    pub fn new(email: String, username: String) -> (user: Self)
        ensures
            is_new_user(user, email, username),
    {
        User { email, username, active: true, sign_in_count: 1 }
    }
}

/// A new account, every field written out with its value.
pub fn no_shorthand(email: String, username: String) -> (user: User)
    ensures
        is_new_user(user, email, username),
{
    User { email: email, username: username, active: true, sign_in_count: 1 }
}

/// A new account, the fields named like the variables written once.
pub fn shorthand(email: String, username: String) -> (user: User)
    ensures
        is_new_user(user, email, username),
{
    User { email, username, active: true, sign_in_count: 1 }
}

/// The account signed in once more; the other fields are taken over.
pub fn increment_sign_in_count(user: User) -> (r: User)
    requires
        user.sign_in_count < u64::MAX,
    ensures
        r.sign_in_count == user.sign_in_count + 1,
        r.email == user.email,
        r.username == user.username,
        r.active == user.active,
{
    User { sign_in_count: user.sign_in_count + 1, ..user }
}

/// An account with a permission level: a type of its own, whatever it shares
/// with `User`.
pub struct SuperUser {
    pub email: String,
    pub username: String,
    pub active: bool,
    pub sign_in_count: u64,
    pub permission_level: u16,
}

/// Three coordinates.
pub struct Point(pub u64, pub u64, pub u64);

/// Three colour components.
pub struct Color(pub u64, pub u64, pub u64);

/// The three lines that name the parts of a triple.
pub open spec fn triple_lines(names: (Seq<char>, Seq<char>, Seq<char>), parts: (u64, u64, u64)) -> Seq<
    Seq<char>,
> {
    seq![
        names.0 + " is "@ + decimal(parts.0 as nat),
        names.1 + " is "@ + decimal(parts.1 as nat),
        names.2 + " is "@ + decimal(parts.2 as nat),
    ]
}

/// One line: a name, " is " and a number.
fn part_line(name: &str, part: u64) -> (line: String)
    ensures
        line@ == name@ + " is "@ + decimal(part as nat),
{
    let mut line = String::from_str(name);
    line.append(" is ");
    push_decimal(&mut line, part as u128);
    line
}

/// The lines for a point.
pub fn use_point(point: &Point) -> (lines: Vec<String>)
    ensures
        lines@.map_values(|l: String| l@) == triple_lines(
            ("X"@, "Y"@, "Z"@),
            (point.0, point.1, point.2),
        ),
{
    let mut lines: Vec<String> = Vec::new();
    lines.push(part_line("X", point.0));
    lines.push(part_line("Y", point.1));
    lines.push(part_line("Z", point.2));
    assert(lines@.map_values(|l: String| l@) =~= triple_lines(
        ("X"@, "Y"@, "Z"@),
        (point.0, point.1, point.2),
    ));
    lines
}

/// The lines for a colour.
pub fn use_color(color: &Color) -> (lines: Vec<String>)
    ensures
        lines@.map_values(|l: String| l@) == triple_lines(
            ("Red"@, "Green"@, "Blue"@),
            (color.0, color.1, color.2),
        ),
{
    let mut lines: Vec<String> = Vec::new();
    lines.push(part_line("Red", color.0));
    lines.push(part_line("Green", color.1));
    lines.push(part_line("Blue", color.2));
    assert(lines@.map_values(|l: String| l@) =~= triple_lines(
        ("Red"@, "Green"@, "Blue"@),
        (color.0, color.1, color.2),
    ));
    lines
}

/// A point and a colour hold the same numbers and are different types all
/// the same: each goes to its own function and no other.
pub fn not_interchangeable() -> (lines: (Vec<String>, Vec<String>))
    ensures
        lines.0@.map_values(|l: String| l@) == triple_lines(("X"@, "Y"@, "Z"@), (1, 2, 3)),
        lines.1@.map_values(|l: String| l@) == triple_lines(
            ("Red"@, "Green"@, "Blue"@),
            (1, 2, 3),
        ),
{
    let point = Point(1, 2, 3);
    let color = Color(1, 2, 3);
    (use_point(&point), use_color(&color))
}

/// A struct without fields. It takes no space and can still have methods.
pub struct Hello;

impl Hello {
    /// What the value is as a text.
    pub fn as_ref(&self) -> (r: &'static str)
        ensures
            r@ == "Hello"@,
    {
        "Hello"
    }

    /// What the value is when written out.
    pub fn to_string(&self) -> (r: String)
        ensures
            r@ == "World!"@,
    {
        String::from_str("World!")
    }
}

/// Puts the two texts of the empty struct side by side.
pub fn use_the_empty_struct() -> (line: String)
    ensures
        line@ == "Hello"@ + " "@ + "World!"@,
{
    let h = Hello;
    let mut line = String::from_str(h.as_ref());
    line.append(" ");
    line.append(h.to_string().as_str());
    line
}

/// A struct that borrows its texts; it cannot outlive them.
pub struct BorrowedData<'a> {
    pub email: &'a str,
    pub username: &'a str,
}

/// Builds a struct from borrowed texts and reads it while they are alive.
pub fn use_borrowed_data_struct() -> (line: String)
    ensures
        line@ == "foo@example.com"@ + " "@ + "foo"@,
{
    let email = String::from_str("foo@example.com");
    let username = String::from_str("foo");
    let borrowed_data = BorrowedData { email: email.as_str(), username: username.as_str() };
    let mut line = String::from_str(borrowed_data.email);
    line.append(" ");
    line.append(borrowed_data.username);
    line
}

/// Two words to print.
pub struct PrintMe {
    pub first_word: String,
    pub second_word: String,
}

/// A string in a wrapper, with methods that read it, change it and use it
/// up.
pub struct WrappedString {
    value: String,
}

impl WrappedString {
    /// The text inside.
    pub closed spec fn view(&self) -> Seq<char> {
        self.value@
    }

    /// Wraps whatever can be turned into a string.
    pub fn new<S: IntoText>(value: S) -> (r: Self)
        ensures
            r@ == value.text(),
    {
        Self { value: value.into_text() }
    }

    /// Appends " foo" in place.
    pub fn mutate(&mut self)
        ensures
            final(self)@ == old(self)@ + " foo"@,
    {
        self.value.append(" foo");
    }

    /// The text, for printing.
    pub fn print(&self) -> (line: String)
        ensures
            line@ == self@,
    {
        self.value.clone()
    }

    /// Takes the wrapper and gives back one with " bar" appended, so that
    /// calls can be chained.
    pub fn be_like_a_builder(self) -> (r: Self)
        ensures
            r@ == self@ + " bar"@,
    {
        let mut value = self.value;
        value.append(" bar");
        Self { value }
    }
}

} // verus!
