//! A module whose type has a name that is taken elsewhere.

use vstd::prelude::*;

verus! {

pub struct ClashingName;

} // verus!
