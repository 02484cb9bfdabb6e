//! Build profiles and documentation comments. The subject is how a crate is
//! built and described, so the functions here have nothing to do.

use vstd::prelude::*;

verus! {

/// A crate is built with the settings of a profile: one for development,
/// one for release.
pub fn profiles() {
}

/// Comments with three slashes become the documentation of the item that
/// follows them.
pub fn documentation() {
}

/// By custom such a comment has sections on panics, errors and safety
/// where they apply.
pub fn other_sections() {
}

} // verus!
