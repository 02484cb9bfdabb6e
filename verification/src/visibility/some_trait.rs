//! A trait whose name is taken elsewhere.

use vstd::prelude::*;

verus! {

pub trait ClashingTrait {
    /// Does nothing, unless a type brings its own.
    fn foo(&self) {
    }
}

/// A type with the trait's provided method.
pub struct MyFoo;

impl ClashingTrait for MyFoo {

}

} // verus!
