//! Traits: required and provided methods, traits as parameters and as
//! return types, methods that exist only where a bound holds, and an
//! implementation for every type at once.

use crate::text::{decimal, join, list_debug, list_debug_text, push_decimal, push_signed, signed_decimal};
use vstd::prelude::*;
use vstd::string::*;

verus! {

/// Something that has a name and can greet by it.
pub trait Greet {
    /// The name, for contracts.
    spec fn name_text(&self) -> Seq<char>;

    /// The name.
    fn name(&self) -> (r: String)
        ensures
            r@ == self.name_text(),
    ;

    /// The greeting. Unless a type brings its own, it is "Hello: " and the
    /// name.
    fn greet(&self) -> (r: String)
        default_ensures
            r@ == "Hello: "@ + self.name_text(),
    {
        join("Hello: ", self.name().as_str())
    }
}

/// A first and a last name.
pub struct FullName {
    pub first_name: String,
    pub last_name: String,
}

impl Greet for FullName {
    open spec fn name_text(&self) -> Seq<char> {
        self.first_name@ + " "@ + self.last_name@
    }

    fn name(&self) -> (r: String) {
        let mut r = self.first_name.clone();
        r.append(" ");
        r.append(self.last_name.as_str());
        r
    }
}

/// A name that somebody goes by.
pub struct Nickname {
    pub value: String,
}

impl Greet for Nickname {
    open spec fn name_text(&self) -> Seq<char> {
        self.value@
    }

    fn name(&self) -> (r: String) {
        self.value.clone()
    }
}

/// Something that greets in its own way.
pub struct Different {}

impl Greet for Different {
    open spec fn name_text(&self) -> Seq<char> {
        "I'm different"@
    }

    fn name(&self) -> (r: String) {
        String::from_str("I'm different")
    }

    fn greet(&self) -> (r: String)
        ensures
            r@ == "I'm doing something different"@,
    {
        String::from_str("I'm doing something different")
    }
}

/// Greets as Leonardo Dunlap, as Leo, and as something different.
pub fn do_greetings() -> (lines: Vec<String>)
    ensures
        lines@.len() == 3,
        lines@[0]@ == "Hello: "@ + ("Leonardo"@ + " "@ + "Dunlap"@),
        lines@[1]@ == "Hello: "@ + "Leo"@,
        lines@[2]@ == "I'm doing something different"@,
{
    let fullname = FullName {
        first_name: String::from_str("Leonardo"),
        last_name: String::from_str("Dunlap"),
    };
    let nickname = Nickname { value: String::from_str("Leo") };
    let different = Different {  };
    let mut lines: Vec<String> = Vec::new();
    lines.push(fullname.greet());
    lines.push(nickname.greet());
    lines.push(different.greet());
    lines
}

/// A trait from one place...
pub trait Foo {
    /// What `foo` gives, for contracts.
    spec fn foo_text(&self) -> Seq<char>;

    fn foo(&self) -> (r: String)
        ensures
            r@ == self.foo_text(),
    ;
}

/// ...and a type from another. One of the two has to be local for the trait
/// to be implemented for the type.
pub struct Bar {}

impl Foo for Bar {
    open spec fn foo_text(&self) -> Seq<char> {
        "Bar"@
    }

    fn foo(&self) -> (r: String) {
        String::from_str("Bar")
    }
}

impl Foo for Vec<i32> {
    open spec fn foo_text(&self) -> Seq<char> {
        list_debug(self@)
    }

    fn foo(&self) -> (r: String) {
        list_debug_text(self)
    }
}

/// A local wrapper, for which any trait can be implemented.
pub struct MyBar {
    pub bar: Bar,
}

impl Foo for MyBar {
    open spec fn foo_text(&self) -> Seq<char> {
        self.bar.foo_text()
    }

    fn foo(&self) -> (r: String) {
        self.bar.foo()
    }
}

/// Something with a name.
pub trait Name {
    /// The name, for contracts.
    spec fn name_text(&self) -> Seq<char>;

    fn name(&self) -> (r: &str)
        ensures
            r@ == self.name_text(),
    ;
}

impl Name for Nickname {
    open spec fn name_text(&self) -> Seq<char> {
        self.value@
    }

    fn name(&self) -> (r: &str) {
        self.value.as_str()
    }
}

/// Takes anything with a name, the bound written in the parameter's type.
pub fn print_name_a(name: impl Name) -> (r: String)
    ensures
        r@ == name.name_text(),
{
    String::from_str(name.name())
}

/// The same, the bound written with the type parameter.
pub fn print_name_b<N: Name>(name: N) -> (r: String)
    ensures
        r@ == name.name_text(),
{
    String::from_str(name.name())
}

/// The same, the bound written in a `where` clause.
pub fn print_name_c<N>(name: N) -> (r: String) where N: Name
    ensures
        r@ == name.name_text(),
{
    String::from_str(name.name())
}

/// Something that can be written out as text.
pub trait Show {
    /// The text, for contracts.
    spec fn shown(&self) -> Seq<char>;

    fn show(&self) -> (s: String)
        ensures
            s@ == self.shown(),
    ;
}

impl Show for &str {
    open spec fn shown(&self) -> Seq<char> {
        self@
    }

    fn show(&self) -> (s: String) {
        String::from_str(*self)
    }
}

impl Show for i32 {
    open spec fn shown(&self) -> Seq<char> {
        signed_decimal(*self as int)
    }

    fn show(&self) -> (s: String) {
        let mut s = String::new();
        push_signed(&mut s, *self as i64);
        assert(s@ =~= signed_decimal(*self as int));
        s
    }
}

impl Show for u64 {
    open spec fn shown(&self) -> Seq<char> {
        decimal(*self as nat)
    }

    fn show(&self) -> (s: String) {
        let mut s = String::new();
        push_decimal(&mut s, *self as u128);
        assert(s@ =~= decimal(*self as nat));
        s
    }
}

/// Returns some type that can be shown; the caller learns no more than
/// that.
pub fn something_displayable() -> (r: impl Show)
    ensures
        r.shown() == "this is a displayable type"@,
{
    "this is a displayable type"
}

/// The type behind `impl Show` is one type, whatever the function does.
pub fn only_one_return_type_allowed() -> (r: impl Show)
    ensures
        r.shown() == signed_decimal(5),
{
    5i32
}

/// A wrapper around any value. It can be shown where the value can.
pub struct Anything<T>(pub T);

impl<T: Show> Show for Anything<T> {
    open spec fn shown(&self) -> Seq<char> {
        self.0.shown()
    }

    fn show(&self) -> (s: String) {
        self.0.show()
    }
}

/// A type that cannot be shown.
pub struct NotDisplayable;

/// A type that can.
pub struct Displayable;

impl Show for Displayable {
    open spec fn shown(&self) -> Seq<char> {
        "I am a displayable struct."@
    }

    fn show(&self) -> (s: String) {
        String::from_str("I am a displayable struct.")
    }
}

/// Wraps a string, a type that can be shown and one that cannot. All three
/// wrappers exist; only the first two can be shown.
pub fn use_conditional_impl() -> (lines: Vec<String>)
    ensures
        lines@.len() == 2,
        lines@[0]@ == "use_conditional_impl: "@ + "I am a displayable string"@,
        lines@[1]@ == "use_conditional_impl: "@ + "I am a displayable struct."@,
{
    let displayable_string_inner = Anything("I am a displayable string");
    let displayable_struct = Anything(Displayable);
    let non_displayable = Anything(NotDisplayable);
    let mut lines: Vec<String> = Vec::new();
    lines.push(join("use_conditional_impl: ", displayable_string_inner.show().as_str()));
    lines.push(join("use_conditional_impl: ", displayable_struct.show().as_str()));
    lines
}

/// Something that can be added to itself, with a sum that can be shown.
pub trait AddToSelf: Show + Sized {
    /// Whether the sum exists.
    spec fn can_add(&self) -> bool;

    /// The text of the sum, for contracts.
    spec fn sum_text(&self) -> Seq<char>;

    /// The sum of a copy of the value and another copy of it.
    fn add_to_self(&self) -> (sum: Self)
        requires
            self.can_add(),
        ensures
            sum.shown() == self.sum_text(),
    ;
}

impl AddToSelf for i32 {
    open spec fn can_add(&self) -> bool {
        i32::MIN <= *self + *self <= i32::MAX
    }

    open spec fn sum_text(&self) -> Seq<char> {
        signed_decimal(*self + *self)
    }

    fn add_to_self(&self) -> (sum: Self) {
        self.clone() + self.clone()
    }
}

impl AddToSelf for u64 {
    open spec fn can_add(&self) -> bool {
        *self + *self <= u64::MAX
    }

    open spec fn sum_text(&self) -> Seq<char> {
        decimal((*self + *self) as nat)
    }

    fn add_to_self(&self) -> (sum: Self) {
        self.clone() + self.clone()
    }
}

/// A string that adds by concatenation.
pub struct MyType(pub String);

impl Clone for MyType {
    fn clone(&self) -> (r: Self)
        ensures
            r.0@ == self.0@,
    {
        MyType(self.0.clone())
    }
}

impl Show for MyType {
    open spec fn shown(&self) -> Seq<char> {
        self.0@
    }

    fn show(&self) -> (s: String) {
        self.0.clone()
    }
}

impl core::ops::Add for MyType {
    type Output = MyType;

    /// The left operand followed by itself; the right operand plays no part.
    fn add(self, rhs: Self) -> (r: MyType)
        ensures
            r.0@ == self.0@ + self.0@,
    {
        let mut sum = self.0.clone();
        sum.append(self.0.as_str());
        MyType(sum)
    }
}

impl vstd::std_specs::ops::AddSpecImpl for MyType {
    open spec fn obeys_add_spec() -> bool {
        false
    }

    open spec fn add_req(self, rhs: MyType) -> bool {
        true
    }

    open spec fn add_spec(self, rhs: MyType) -> MyType {
        self
    }
}

impl AddToSelf for MyType {
    open spec fn can_add(&self) -> bool {
        true
    }

    open spec fn sum_text(&self) -> Seq<char> {
        self.0@ + self.0@
    }

    fn add_to_self(&self) -> (sum: Self) {
        self.clone() + self.clone()
    }
}

/// Something that can write out the sum of itself and itself.
pub trait PrintAddSelfToSelf {
    /// Whether the sum exists.
    spec fn printable(&self) -> bool;

    /// The line, for contracts.
    spec fn printed(&self) -> Seq<char>;

    /// The line that shows the value, added to itself, and the sum.
    fn add_and_print(&self) -> (line: String)
        requires
            self.printable(),
        ensures
            line@ == self.printed(),
    ;
}

/// Every type that can be added to itself can print the addition: one
/// implementation serves them all.
impl<T: AddToSelf> PrintAddSelfToSelf for T {
    open spec fn printable(&self) -> bool {
        self.can_add()
    }

    open spec fn printed(&self) -> Seq<char> {
        self.shown() + " + "@ + self.shown() + " = "@ + self.sum_text()
    }

    fn add_and_print(&self) -> (line: String) {
        let sum = self.add_to_self();
        let mut line = self.show();
        line.append(" + ");
        line.append(self.show().as_str());
        line.append(" = ");
        line.append(sum.show().as_str());
        line
    }
}

/// Prints the addition for an `i32`, a `u64` and a string type.
pub fn call_add_and_print() -> (lines: Vec<String>)
    ensures
        lines@.len() == 3,
        lines@[0]@ == signed_decimal(5) + " + "@ + signed_decimal(5) + " = "@ + signed_decimal(10),
        lines@[1]@ == decimal(7) + " + "@ + decimal(7) + " = "@ + decimal(14),
        lines@[2]@ == "abc"@ + " + "@ + "abc"@ + " = "@ + ("abc"@ + "abc"@),
{
    let mut lines: Vec<String> = Vec::new();
    lines.push(5i32.add_and_print());
    lines.push(7u64.add_and_print());
    lines.push(MyType(String::from_str("abc")).add_and_print());
    lines
}

} // verus!
