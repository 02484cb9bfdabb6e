//! Smart pointers: a pointer type of our own, boxes, shared ownership and
//! dynamic dispatch.

use vstd::prelude::*;
use vstd::string::*;

verus! {

/// `drop` of the standard library: takes a value and ends its life there.
/// It returns nothing, and nothing is claimed of it.
pub assume_specification<T>[ core::mem::drop::<T> ](x: T);

/// A pointer that owns one value on the heap: the value is stored when the
/// pointer is made and freed when the pointer goes.
pub struct SimplePtr<T> {
    item: Box<T>,
}

impl<T> SimplePtr<T> {
    /// The value that the pointer owns.
    pub closed spec fn view(self) -> T {
        *self.item
    }

    /// Moves a value to the heap.
    pub fn new(item: T) -> (r: Self)
        ensures
            r.view() == item,
    {
        Self { item: Box::new(item) }
    }

    /// A mutable reference to the value.
    pub fn get_mut(&mut self) -> (r: &mut T)
        ensures
            *r == old(self).view(),
            final(self).view() == *final(r),
    {
        &mut *self.item
    }

    /// A reference to the value.
    pub fn get(&self) -> (r: &T)
        ensures
            *r == self.view(),
    {
        &*self.item
    }
}

impl<T> core::ops::Deref for SimplePtr<T> {
    type Target = T;

    fn deref(&self) -> (r: &T)
        ensures
            *r == self.view(),
    {
        self.get()
    }
}

impl<T> core::ops::DerefMut for SimplePtr<T> {
    fn deref_mut(&mut self) -> (r: &mut T)
        ensures
            *r == old(self).view(),
            final(self).view() == *final(r),
    {
        self.get_mut()
    }
}

/// A person on record.
#[derive(Debug)]
pub struct Person {
    pub name: String,
    pub age: u8,
    pub id: u64,
}

/// Gives the person a surname, a birthday and a new identifier.
pub fn change_person(person: &mut Person)
    requires
        old(person).age < 255,
    ensures
        final(person).name@ == old(person).name@ + " Surname"@,
        final(person).age == old(person).age + 1,
        final(person).id == 11111,
{
    person.name.append(" Surname");
    person.age += 1;
    person.id = 11111;
}

/// Stores a person behind a pointer and changes the person through it.
pub fn simple_ptr() -> (r: SimplePtr<Person>)
    ensures
        r.view().name@ == "Name"@ + " Surname"@,
        r.view().age == 31,
        r.view().id == 11111,
{
    let mut simple_ptr = SimplePtr::new(
        Person { name: String::from_str("Name"), age: 30, id: 93856723 },
    );
    change_person(simple_ptr.get_mut());
    simple_ptr
}

/// A box owns a value on the heap; taking the value out gives it back
/// unchanged.
pub fn box_t() -> (r: i32)
    ensures
        r == 0,
{
    let boxed: Box<i32> = Box::new(0);
    *boxed
}

/// A node of a binary tree. Without the boxes the type would contain itself
/// and have no finite size.
pub struct Node {
    pub left: Option<Box<Node>>,
    pub right: Option<Box<Node>>,
}

/// A list whose tails are shared.
#[derive(Debug)]
pub enum List {
    Cons(i32, std::rc::Rc<List>),
    Nil,
}

impl List {
    /// The rest of the list after its first item, if it has one.
    pub fn tail(&self) -> (r: Option<&std::rc::Rc<List>>)
        ensures
            r is Some == self is Cons,
            r is Some ==> *r->0 == self->Cons_1,
    {
        match self {
            List::Cons(_, item) => Some(item),
            List::Nil => None,
        }
    }
}

/// Hands a pointer over before the end of the scope, which frees what it
/// owns at that point. Returns the lines that mark the steps.
pub fn std_mem_drop() -> (lines: Vec<String>)
    ensures
        lines@.len() == 3,
        lines@[0]@ == "Using std::mem::drop"@,
        lines@[1]@ == "Dropping simple_ptr early, before the end of the function"@,
        lines@[2]@ == "Function is till alive but simple_ptr is dropped"@,
{
    let mut lines: Vec<String> = Vec::new();
    lines.push(String::from_str("Using std::mem::drop"));
    let simple_ptr = SimplePtr::new(String::from_str("std::mem::drop"));
    lines.push(String::from_str("Dropping simple_ptr early, before the end of the function"));
    drop(simple_ptr);
    lines.push(String::from_str("Function is till alive but simple_ptr is dropped"));
    lines
}

/// Something that can say a word.
pub trait Speak {
    /// The word, for contracts.
    spec fn word(&self) -> Seq<char>;

    fn speak(&self) -> (r: String)
        ensures
            r@ == self.word(),
    ;
}

pub struct SayOne;

impl Speak for SayOne {
    open spec fn word(&self) -> Seq<char> {
        "One"@
    }

    fn speak(&self) -> (r: String) {
        String::from_str("One")
    }
}

pub struct SayTwo;

impl Speak for SayTwo {
    open spec fn word(&self) -> Seq<char> {
        "Two"@
    }

    fn speak(&self) -> (r: String) {
        String::from_str("Two")
    }
}

/// A speaker of some type that is known only when the program runs.
pub struct Speaker(pub Box<dyn Speak>);

/// The words of all the speakers, in order.
pub fn speak_all(speakers: &Vec<Speaker>) -> (lines: Vec<String>)
    ensures
        lines@.len() == speakers@.len(),
        forall|i: int| 0 <= i < lines@.len() ==> (#[trigger] lines@[i])@ == speakers@[i].0.word(),
{
    let mut lines: Vec<String> = Vec::new();
    let mut i: usize = 0;
    while i < speakers.len()
        invariant
            i <= speakers@.len(),
            lines@.len() == i,
            forall|j: int|
                0 <= j < lines@.len() ==> (#[trigger] lines@[j])@ == speakers@[j].0.word(),
        decreases speakers@.len() - i,
    {
        lines.push(speakers[i].0.speak());
        i = i + 1;
    }
    lines
}

impl Speaker {
    /// A boxed speaker that says "One".
    pub fn one() -> (r: Speaker)
        ensures
            r.0.word() == "One"@,
    {
        Speaker(Box::new(SayOne))
    }

    /// A boxed speaker that says "Two".
    pub fn two() -> (r: Speaker)
        ensures
            r.0.word() == "Two"@,
    {
        Speaker(Box::new(SayTwo))
    }
}

/// Values of different types behind one trait, in one list: which `speak`
/// runs is decided when the program runs.
pub fn dynamic_dispatch_with_box() -> (lines: Vec<String>)
    ensures
        lines@.len() == 2,
        lines@[0]@ == "One"@,
        lines@[1]@ == "Two"@,
{
    let mut vec: Vec<Speaker> = Vec::new();
    vec.push(Speaker::one());
    vec.push(Speaker::two());
    speak_all(&vec)
}

} // verus!
