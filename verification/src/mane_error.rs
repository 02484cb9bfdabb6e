//! An error that tells which of its two texts it was shown with.

use vstd::prelude::*;
use vstd::string::*;

verus! {

/// Fails, always.
pub fn always_err() -> (r: Result<(), ManeError>)
    ensures
        r == Err::<(), ManeError>(ManeError),
{
    Err(ManeError)
}

/// An error whose text for display differs from its text for inspection.
pub struct ManeError;

impl ManeError {
    /// The text for display.
    pub fn to_string(&self) -> (s: String)
        ensures
            s@ == "Error: This is the DISPLAY print"@,
    {
        String::from_str("Error: This is the DISPLAY print")
    }

    /// The text for inspection, which a program shows when `main` returns
    /// the error.
    pub fn debug_string(&self) -> (s: String)
        ensures
            s@ == "Error: This is the DEBUG print"@,
    {
        String::from_str("Error: This is the DEBUG print")
    }
}

/// What a program that starts, announces itself and fails hands to its
/// caller: the line it prints, and the error.
pub fn run_program() -> (r: (String, Result<(), ManeError>))
    ensures
        r.0@ == "Chapter 9!"@,
        r.1 is Err,
{
    (String::from_str("Chapter 9!"), Err(ManeError))
}

} // verus!
