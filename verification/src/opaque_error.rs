//! A public error that hides the enum behind it. Callers see a stable kind
//! and a text; the variants can change freely.

use crate::custom_error::ErrorMessage;
use vstd::prelude::*;
use vstd::string::*;

verus! {

/// The public error: a wrapper around the private one.
#[derive(Debug)]
pub struct Error(PrivateError);

/// The kinds of error that callers are told about.
#[derive(Debug, Clone, Copy, PartialEq, Eq)]
pub enum Kind {
    Io,
    Implosion,
    HeatDeath,
}

/// What can go wrong inside. Not part of the interface.
#[derive(Debug)]
enum PrivateError {
    UnableToOpen { path: String, source: ErrorMessage },
    Something { source: ErrorMessage },
}

impl Error {
    /// The text of the error.
    pub closed spec fn text(self) -> Seq<char> {
        match self.0 {
            PrivateError::UnableToOpen { path, source } => "Unable to canonicalize path '"@
                + path@ + "': "@ + source.0@,
            PrivateError::Something { source } => "Failed to so something: "@ + source.0@,
        }
    }

    /// The error for a path that could not be opened.
    pub fn unable_to_open(path: &str, source: ErrorMessage) -> (e: Error)
        ensures
            e.text() == "Unable to canonicalize path '"@ + path@ + "': "@ + source.0@,
    {
        Error(PrivateError::UnableToOpen { path: String::from_str(path), source })
    }

    /// The error for anything else that failed.
    pub fn something(source: ErrorMessage) -> (e: Error)
        ensures
            e.text() == "Failed to so something: "@ + source.0@,
    {
        Error(PrivateError::Something { source })
    }

    /// The kind of the error. Every error that exists so far comes from
    /// input or output.
    pub fn kind(&self) -> (k: Kind)
        ensures
            k == Kind::Io,
    {
        match &self.0 {
            PrivateError::UnableToOpen { .. } | PrivateError::Something { .. } => Kind::Io,
        }
    }

    /// Writes the error out.
    pub fn to_string(&self) -> (s: String)
        ensures
            s@ == self.text(),
    {
        match &self.0 {
            PrivateError::UnableToOpen { path, source } => {
                let mut s = String::from_str("Unable to canonicalize path '");
                s.append(path.as_str());
                s.append("': ");
                s.append(source.0.as_str());
                s
            },
            PrivateError::Something { source } => {
                let mut s = String::from_str("Failed to so something: ");
                s.append(source.0.as_str());
                s
            },
        }
    }
}

} // verus!
