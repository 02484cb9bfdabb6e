//! Bringing a function into scope the usual way: import its module, and
//! call the function through it.

use crate::visibility::utils::frobincators;
use vstd::prelude::*;

verus! {

/// The call shows where the function comes from.
pub fn some_function() {
    frobincators::frobnicate()
}

} // verus!
