//! A child module: it sees what is private to its parent.

use vstd::prelude::*;

verus! {

/// Calls the private function of the parent module.
pub(crate) fn private() {
    crate::visibility::a::private()
}

} // verus!
