//! What object-oriented programs do, done with structs and traits:
//! encapsulation, shared behaviour, and values of several types behind one
//! interface.

use crate::text::{push_signed, signed_decimal};
use vstd::prelude::*;
use vstd::string::*;

verus! {

/// Why a value was turned away.
#[derive(Debug, Clone, Copy, PartialEq, Eq)]
pub struct InvalidValue {
    /// The value that was offered.
    pub received: i32,
}

impl InvalidValue {
    /// The text of the error.
    pub open spec fn text(self) -> Seq<char> {
        "The value needs to be greater than -1, received '"@ + signed_decimal(self.received as int)
            + "'"@
    }

    /// Writes the error out.
    pub fn to_string(&self) -> (s: String)
        ensures
            s@ == self.text(),
    {
        let mut s = String::from_str("The value needs to be greater than -1, received '");
        push_signed(&mut s, self.received as i64);
        s.append("'");
        s
    }
}

/// A number that is never negative. The field is private, so the only ways
/// to it are the functions below, and they check.
pub struct Encapsulated {
    private_data: i32,
}

impl Encapsulated {
    /// The number inside, for contracts.
    pub closed spec fn view(&self) -> i32 {
        self.private_data
    }

    #[verifier::type_invariant]
    spec fn not_negative(self) -> bool {
        self.private_data > -1
    }

    /// Wraps a number that is greater than -1, and turns any other away.
    pub fn new(value: i32) -> (r: Result<Self, InvalidValue>)
        ensures
            value > -1 ==> r is Ok && r->Ok_0@ == value,
            value <= -1 ==> r == Err::<Self, InvalidValue>(InvalidValue { received: value }),
    {
        match Self::validate(value) {
            Ok(_) => Ok(Self { private_data: value }),
            Err(e) => Err(e),
        }
    }

    /// The number inside, which is never negative.
    pub fn value(&self) -> (r: i32)
        ensures
            r == self@,
            r > -1,
    {
        proof {
            use_type_invariant(self);
        }
        self.private_data
    }

    /// Replaces the number by one that is greater than -1. Any other is
    /// turned away, and the number inside stays.
    pub fn set_value(&mut self, value: i32) -> (r: Result<(), InvalidValue>)
        ensures
            value > -1 ==> r is Ok && final(self)@ == value,
            value <= -1 ==> r == Err::<(), InvalidValue>(InvalidValue { received: value })
                && final(self)@ == old(self)@,
    {
        match Self::validate(value) {
            Ok(_) => {
                self.private_data = value;
                Ok(())
            },
            Err(e) => Err(e),
        }
    }

    /// Accepts the numbers greater than -1.
    pub fn validate(value: i32) -> (r: Result<(), InvalidValue>)
        ensures
            value > -1 ==> r is Ok,
            value <= -1 ==> r == Err::<(), InvalidValue>(InvalidValue { received: value }),
    {
        if value > -1 {
            Ok(())
        } else {
            Err(InvalidValue { received: value })
        }
    }
}

/// A number that anyone can set to anything.
pub struct NotEncapsulated {
    pub public_data: i32,
}

/// A trait can bring an implementation with it, which every implementor
/// then has: behaviour is shared without a parent class.
pub trait HasImplementation {
    fn say_hello() -> (r: &'static str)
        default_ensures
            r@ == "Hello"@,
    {
        "Hello"
    }
}

/// An implementor that takes the trait's method as it is.
pub struct HelloBot;

impl HasImplementation for HelloBot {

}

/// The greeting of an implementor that wrote no method of its own.
pub fn polymorphism() -> (r: &'static str)
    ensures
        r@ == "Hello"@,
{
    HelloBot::say_hello()
}

/// A pet.
pub trait Pet {
    /// What kind of pet it is, for contracts.
    spec fn kind(&self) -> Seq<char>;

    /// Lives, and says what kind of pet it is.
    fn live(&self) -> (r: &'static str)
        ensures
            r@ == self.kind(),
    ;
}

pub struct Cat;

impl Pet for Cat {
    open spec fn kind(&self) -> Seq<char> {
        "Cat"@
    }

    fn live(&self) -> (r: &'static str) {
        "Cat"
    }
}

pub struct Dog;

impl Pet for Dog {
    open spec fn kind(&self) -> Seq<char> {
        "Dog"@
    }

    fn live(&self) -> (r: &'static str) {
        "Dog"
    }
}

/// Takes a pet of a type known when the program is built; the compiler
/// makes one copy of the function for each such type.
pub fn compile_time_trait_usage<T: Pet>(pet: T) -> (r: &'static str)
    ensures
        r@ == pet.kind(),
{
    pet.live()
}

/// Takes a pet of a type known only when the program runs; one copy of the
/// function serves them all.
pub fn runtime_trait_usage_dynamic_dispatch(pet: &Box<dyn Pet>) -> (r: &'static str)
    ensures
        r@ == pet.kind(),
{
    pet.live()
}

/// A pet of some type that is known only when the program runs.
pub struct AnyPet(pub Box<dyn Pet>);

impl AnyPet {
    /// A dog, its type forgotten.
    pub fn dog() -> (r: AnyPet)
        ensures
            r.0.kind() == "Dog"@,
    {
        AnyPet(Box::new(Dog))
    }

    /// A cat, its type forgotten.
    pub fn cat() -> (r: AnyPet)
        ensures
            r.0.kind() == "Cat"@,
    {
        AnyPet(Box::new(Cat))
    }
}

/// A cat goes to the one function and a boxed dog to the other.
pub fn use_the_above_functions() -> (r: (&'static str, &'static str))
    ensures
        r.0@ == "Cat"@,
        r.1@ == "Dog"@,
{
    let cat = Cat;
    let dog = AnyPet::dog();
    (compile_time_trait_usage(cat), runtime_trait_usage_dynamic_dispatch(&dog.0))
}

/// A list has one item type, so a list of different pets holds boxes.
pub fn holding_a_vector_of_pets_requires_dynamic_dispatch() -> (pets: Vec<AnyPet>)
    ensures
        pets@.len() == 2,
        pets@[0].0.kind() == "Cat"@,
        pets@[1].0.kind() == "Dog"@,
{
    let mut pets: Vec<AnyPet> = Vec::new();
    pets.push(AnyPet::cat());
    pets.push(AnyPet::dog());
    pets
}

} // verus!
