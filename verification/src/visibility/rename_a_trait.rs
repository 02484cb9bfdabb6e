//! Importing a trait for its methods alone, without giving it a name.

use crate::visibility::some_trait::ClashingTrait as _;
use crate::visibility::some_trait::MyFoo;
use vstd::prelude::*;

verus! {

/// Calls a method of the trait; the trait is in scope, though nameless.
pub fn use_clashing_name_trait() {
    let x = MyFoo;
    x.foo();
}

} // verus!
