//! A library that greets, for other crates to call.

use vstd::prelude::*;

verus! {

/// What to say.
pub enum Greeting {
    Hello,
    Goodbye,
}

/// The words of a greeting.
pub fn greet(greeting: Greeting) -> (line: &'static str)
    ensures
        line@ == match greeting {
            Greeting::Hello => "Hello World!"@,
            Greeting::Goodbye => "Goodbye World!"@,
        },
{
    match greeting {
        Greeting::Hello => "Hello World!",
        Greeting::Goodbye => "Goodbye World!",
    }
}

} // verus!
