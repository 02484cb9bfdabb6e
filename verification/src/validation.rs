//! Keeping bad input out: by checking it on arrival, or by a type that
//! cannot hold it.

use vstd::prelude::*;

verus! {

/// Whether the guess is 5. A guess outside 1 to 10 is not accepted.
pub fn bad_guess_between_1_and_10(guess: u8) -> (r: bool)
    requires
        1 <= guess <= 10,
    ensures
        r == (guess == 5),
{
    guess == 5
}

/// A number held within `MIN` and `MAX`.
pub struct Clamp<const MIN: u8, const MAX: u8>(u8);

/// The number nearest to `input` that is at least `min` and, with that
/// settled, at most `max`.
pub open spec fn clamped(input: u8, min: u8, max: u8) -> u8 {
    if input < min {
        min
    } else if input > max {
        max
    } else {
        input
    }
}

/// Where the range is not empty, what comes out lies in it, stays as it is
/// when clamped again, and is the input itself when the input lay in the
/// range.
pub proof fn lemma_clamped(input: u8, min: u8, max: u8)
    requires
        min <= max,
    ensures
        min <= clamped(input, min, max) <= max,
        clamped(clamped(input, min, max), min, max) == clamped(input, min, max),
        min <= input <= max ==> clamped(input, min, max) == input,
{
}

impl<const MIN: u8, const MAX: u8> Clamp<MIN, MAX> {
    /// The number inside.
    pub closed spec fn value(self) -> u8 {
        self.0
    }

    #[verifier::type_invariant]
    spec fn within_bounds(self) -> bool {
        MIN <= MAX ==> MIN <= self.0 <= MAX
    }

    /// Brings any input into the range.
    pub fn new(input: u8) -> (r: Self)
        ensures
            r.value() == clamped(input, MIN, MAX),
    {
        if input < MIN {
            Self(MIN)
        } else if input > MAX {
            Self(MAX)
        } else {
            Self(input)
        }
    }

    /// The number inside, which lies in the range wherever the range is not
    /// empty.
    pub fn get(&self) -> (r: u8)
        ensures
            r == self.value(),
            MIN <= MAX ==> MIN <= r <= MAX,
    {
        proof {
            use_type_invariant(self);
        }
        self.0
    }
}

/// Whether the guess is 5. The type of the argument leaves no bad input to
/// check for.
pub fn good_guess_between_1_and_10(guess: Clamp<1, 10>) -> (r: bool)
    ensures
        r == (guess.value() == 5),
{
    guess.get() == 5
}

} // verus!
