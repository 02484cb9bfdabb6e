//! What the `?` operator does: it returns early with the error, converting
//! it where the function's error type differs.

use vstd::prelude::*;
use vstd::std_specs::convert::{FromSpec, FromSpecImpl};

verus! {

/// A call that fails.
pub fn result() -> (r: Result<(), ()>)
    ensures
        r == Err::<(), ()>(()),
{
    Err(())
}

/// Hands the error on, spelled out as a `match`.
pub fn verbose() -> (r: Result<(), ()>)
    ensures
        r == Err::<(), ()>(()),
{
    let _ = match result() {
        Ok(ok) => ok,
        Err(e) => return Err(e),
    };
    Ok(())
}

/// Hands the error on with `?`, which does the same as the `match`.
pub fn shorthand() -> (r: Result<(), ()>)
    ensures
        r == Err::<(), ()>(()),
{
    let _ = result()?;
    Ok(())
}

/// The error of an inner layer.
pub struct ErrorTypeOne;

/// The error of an outer layer, which an inner error converts to.
pub struct ErrorTypeTwo;

/// An error that nothing converts to.
pub struct ErrorTypeThree;

impl From<ErrorTypeOne> for ErrorTypeTwo {
    fn from(e: ErrorTypeOne) -> (r: Self) {
        ErrorTypeTwo
    }
}

impl FromSpecImpl<ErrorTypeOne> for ErrorTypeTwo {
    open spec fn obeys_from_spec() -> bool {
        true
    }

    open spec fn from_spec(e: ErrorTypeOne) -> Self {
        ErrorTypeTwo
    }
}

/// A call that fails with the inner error.
pub fn returns_error_type_one() -> (r: Result<(), ErrorTypeOne>)
    ensures
        r == Err::<(), ErrorTypeOne>(ErrorTypeOne),
{
    Err(ErrorTypeOne)
}

/// Fails with the outer error: `?` converts the inner one on the way out.
pub fn returns_error_type_two() -> (r: Result<(), ErrorTypeTwo>)
    ensures
        r == Err::<(), ErrorTypeTwo>(
            <ErrorTypeTwo as FromSpec<ErrorTypeOne>>::from_spec(ErrorTypeOne),
        ),
{
    Ok(returns_error_type_one()?)
}

} // verus!
