//! An error enum that is public as it stands. Every variant, and every field
//! of it, is part of the interface: a new message means a new variant.

use crate::custom_error::ErrorMessage;
use vstd::prelude::*;
use vstd::string::*;

verus! {

/// What can go wrong, one variant for each message.
#[derive(Debug)]
pub enum Error {
    UnableToOpen { path: String, source: ErrorMessage },
    Something { source: ErrorMessage },
}

impl Error {
    /// The message of the variant, with the path where there is one, and the
    /// text of the underlying error.
    pub open spec fn text(self) -> Seq<char> {
        match self {
            Error::UnableToOpen { path, source } => "Unable to canonicalize path '"@ + path@
                + "': "@ + source.0@,
            Error::Something { source } => "Failed to so something: "@ + source.0@,
        }
    }

    /// Writes the error out.
    pub fn to_string(&self) -> (s: String)
        ensures
            s@ == self.text(),
    {
        match self {
            Error::UnableToOpen { path, source } => {
                let mut s = String::from_str("Unable to canonicalize path '");
                s.append(path.as_str());
                s.append("': ");
                s.append(source.0.as_str());
                s
            },
            Error::Something { source } => {
                let mut s = String::from_str("Failed to so something: ");
                s.append(source.0.as_str());
                s
            },
        }
    }

    /// The underlying error.
    pub fn source(&self) -> (r: &ErrorMessage)
        ensures
            *r == match *self {
                Error::UnableToOpen { path, source } => source,
                Error::Something { source } => source,
            },
    {
        match self {
            Error::UnableToOpen { path, source } => source,
            Error::Something { source } => source,
        }
    }
}

} // verus!
