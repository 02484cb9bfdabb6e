//! Importing a type under another name.

use crate::visibility::some_module::ClashingName as Renamed;
use vstd::prelude::*;

verus! {

/// Makes a value of the type by its local name.
pub fn some_function() -> (r: Renamed) {
    Renamed
}

} // verus!
