//! A module with a private function and a child module.

use vstd::prelude::*;

pub mod b;

verus! {

/// Private to this module, and visible to the modules inside it.
pub(crate) fn private() {
}

} // verus!
