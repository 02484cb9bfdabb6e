//! Public modules, one inside the other.

pub mod frobincators;
