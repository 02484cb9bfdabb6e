//! Importing the function itself works as well, but at the call nothing
//! shows where it is defined.

use crate::visibility::utils::frobincators::frobnicate;
use vstd::prelude::*;

verus! {

/// The call looks like one of a local function.
pub fn some_function() {
    frobnicate()
}

} // verus!
