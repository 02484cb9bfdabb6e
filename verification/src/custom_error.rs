//! Error types written by hand: a bare message, a message that wraps an
//! underlying error, and an error that also tells its kind.

use vstd::prelude::*;
use vstd::string::*;

verus! {

/// Anything can serve as an error, even a string; callers can do little
/// with it.
pub fn dumb_error_type() -> (r: Result<(), String>)
    ensures
        r is Err,
        r->Err_0@ == "Oh no!"@,
{
    Err(String::from_str("Oh no!"))
}

/// An error that is nothing but its message.
#[derive(Debug)]
pub struct ErrorMessage(pub String);

impl ErrorMessage {
    /// An error with the given message.
    pub fn new(message: &str) -> (e: ErrorMessage)
        ensures
            e.0@ == message@,
    {
        ErrorMessage(String::from_str(message))
    }

    /// The message.
    pub fn to_string(&self) -> (s: String)
        ensures
            s@ == self.0@,
    {
        self.0.clone()
    }
}

/// An error that adds a message to the error underneath it, if there is one.
#[derive(Debug)]
pub struct BetterError {
    /// What went wrong, in the words of this layer.
    pub message: String,
    /// The error that this one wraps.
    pub source: Option<Box<ErrorMessage>>,
}

impl BetterError {
    /// The message alone, or the message, a colon and the text of the
    /// underlying error.
    pub open spec fn text(self) -> Seq<char> {
        match self.source {
            None => self.message@,
            Some(source) => self.message@ + ": "@ + source.0@,
        }
    }

    /// Writes the error out.
    pub fn to_string(&self) -> (s: String)
        ensures
            s@ == self.text(),
    {
        match &self.source {
            None => self.message.clone(),
            Some(source) => {
                let mut s = self.message.clone();
                s.append(": ");
                s.append(source.0.as_str());
                s
            },
        }
    }

    /// The underlying error: one link of the chain that a caller can walk.
    pub fn source(&self) -> (r: Option<&ErrorMessage>)
        ensures
            r is Some == self.source is Some,
            r is Some ==> *r->0 == *self.source->0,
    {
        match &self.source {
            None => None,
            Some(source) => Some(&**source),
        }
    }
}

/// What went wrong, for callers that act on it.
#[derive(Debug, Clone, Copy, PartialEq, Eq)]
pub enum Kind {
    /// The universe collapsed.
    Implosion,
    /// The universe didn't collapse.
    HeatDeath,
}

/// An error with a message, a kind and the error underneath.
#[derive(Debug)]
pub struct BestError {
    pub message: String,
    pub kind: Kind,
    pub source: Option<Box<BetterError>>,
}

impl BestError {
    /// What kind of error this is.
    pub fn kind(&self) -> (k: Kind)
        ensures
            k == self.kind,
    {
        self.kind
    }

    /// The message alone, or the message, a colon and the text of the
    /// underlying error.
    pub open spec fn text(self) -> Seq<char> {
        match self.source {
            None => self.message@,
            Some(source) => self.message@ + ": "@ + source.text(),
        }
    }

    /// Writes the error out, with the chain beneath it.
    pub fn to_string(&self) -> (s: String)
        ensures
            s@ == self.text(),
    {
        match &self.source {
            None => self.message.clone(),
            Some(source) => {
                let mut s = self.message.clone();
                s.append(": ");
                s.append(source.to_string().as_str());
                s
            },
        }
    }

    /// The underlying error.
    pub fn source(&self) -> (r: Option<&BetterError>)
        ensures
            r is Some == self.source is Some,
            r is Some ==> *r->0 == *self.source->0,
    {
        match &self.source {
            None => None,
            Some(source) => Some(&**source),
        }
    }
}

/// Looks for the signal that the universe has run down. The signal can only
/// be missing, and then the universe has imploded: the failure to read it is
/// wrapped and reported as an implosion.
pub fn simulate_universe(signal: Result<String, BetterError>) -> (r: Result<(), BestError>)
    requires
        signal is Err,
    ensures
        r is Err,
        r->Err_0.message@ == "The universe experience an implosion situation"@,
        r->Err_0.kind == Kind::Implosion,
        r->Err_0.source == Some(Box::new(signal->Err_0)),
{
    match signal {
        Ok(_) => Ok(()),
        Err(err) => Err(
            BestError {
                message: String::from_str("The universe experience an implosion situation"),
                kind: Kind::Implosion,
                source: Some(Box::new(err)),
            },
        ),
    }
}

/// What to do about the outcome of a simulation.
#[derive(Debug, Clone, Copy, PartialEq, Eq)]
pub enum Recovery {
    /// Nothing went wrong.
    Carry,
    /// Restart the universe with a new big bang.
    BigBang,
    /// Nothing can be done.
    Rest,
}

/// Decides what to do by the kind of the error, without reading its text.
pub fn handle_error(outcome: &Result<(), BestError>) -> (r: Recovery)
    ensures
        r == match *outcome {
            Ok(_) => Recovery::Carry,
            Err(e) => match e.kind {
                Kind::Implosion => Recovery::BigBang,
                Kind::HeatDeath => Recovery::Rest,
            },
        },
{
    match outcome {
        Ok(_) => Recovery::Carry,
        Err(e) => match e.kind {
            Kind::Implosion => Recovery::BigBang,
            Kind::HeatDeath => Recovery::Rest,
        },
    }
}

} // verus!
