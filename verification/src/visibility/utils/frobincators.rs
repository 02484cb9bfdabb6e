//! A module with a public function.

use vstd::prelude::*;

verus! {

/// A function that any code can reach by its path. It has nothing to do.
pub fn frobnicate() {
}

} // verus!
