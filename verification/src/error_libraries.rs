//! Errors in the style of the common error libraries: an error that gathers
//! context as it travels upward, a public error with a kind that wraps it,
//! and an enum whose variants name their fields.

use crate::custom_error::ErrorMessage;
use vstd::prelude::*;
use vstd::string::*;

verus! {

/// An error with a line of context on top of its cause.
#[derive(Debug)]
pub struct ContextError {
    pub context: String,
    pub cause: ErrorMessage,
}

impl ContextError {
    /// The text for display: the context alone. The cause is left out.
    pub open spec fn text(self) -> Seq<char> {
        self.context@
    }

    /// The text for inspection: the context, then the cause under a heading
    /// of its own.
    pub open spec fn debug_text(self) -> Seq<char> {
        self.context@ + "\n\nCaused by:\n    "@ + self.cause.0@
    }

    /// Writes the error out for display.
    pub fn to_string(&self) -> (s: String)
        ensures
            s@ == self.text(),
    {
        self.context.clone()
    }

    /// Writes the error out for inspection, with its cause.
    pub fn debug_string(&self) -> (s: String)
        ensures
            s@ == self.debug_text(),
    {
        let mut s = self.context.clone();
        s.append("\n\nCaused by:\n    ");
        s.append(self.cause.0.as_str());
        s
    }

    /// The cause.
    pub fn source(&self) -> (r: &ErrorMessage)
        ensures
            *r == self.cause,
    {
        &self.cause
    }
}

/// The kinds of a public error.
#[derive(Debug, Clone, Copy, PartialEq, Eq)]
pub enum PublicErrorKind {
    Foo,
    Bar,
}

/// The name of a kind.
pub open spec fn kind_name(kind: PublicErrorKind) -> Seq<char> {
    match kind {
        PublicErrorKind::Foo => "Foo"@,
        PublicErrorKind::Bar => "Bar"@,
    }
}

/// A public error: a kind for callers to act on, and the error with context
/// that caused it.
#[derive(Debug)]
pub struct PublicError {
    kind: PublicErrorKind,
    source: ContextError,
}

impl PublicError {
    /// The kind, for contracts.
    pub closed spec fn spec_kind(self) -> PublicErrorKind {
        self.kind
    }

    /// The wrapped error, for contracts.
    pub closed spec fn spec_source(self) -> ContextError {
        self.source
    }

    /// The text of the error: its kind, then the wrapped error with its
    /// cause, which the wrapped error's own text for display would leave out.
    pub open spec fn text(self) -> Seq<char> {
        "A "@ + kind_name(self.spec_kind()) + " error occurred: "@
            + self.spec_source().debug_text()
    }

    /// Wraps an error under a kind.
    pub fn new(kind: PublicErrorKind, source: ContextError) -> (e: PublicError)
        ensures
            e.spec_kind() == kind,
            e.spec_source() == source,
    {
        PublicError { kind, source }
    }

    /// What kind of error this is.
    pub fn kind(&self) -> (k: PublicErrorKind)
        ensures
            k == self.spec_kind(),
    {
        self.kind
    }

    /// The wrapped error.
    pub fn source(&self) -> (r: &ContextError)
        ensures
            *r == self.spec_source(),
    {
        &self.source
    }

    /// Writes the error out.
    pub fn to_string(&self) -> (s: String)
        ensures
            s@ == self.text(),
    {
        let mut s = String::from_str("A ");
        match self.kind {
            PublicErrorKind::Foo => s.append("Foo"),
            PublicErrorKind::Bar => s.append("Bar"),
        }
        s.append(" error occurred: ");
        s.append(self.source.debug_string().as_str());
        s
    }
}

/// The context given to a failure to read the file.
pub open spec fn read_context() -> Seq<char> {
    "Unable to read file /very/fake/path/foo/bar"@
}

/// Takes the outcome of reading a file and, if it failed, says in a line of
/// context which file it was.
pub fn use_anyhow(read: Result<String, ErrorMessage>) -> (r: Result<(), ContextError>)
    ensures
        read is Ok ==> r is Ok,
        read is Err ==> r is Err && r->Err_0.context@ == read_context() && r->Err_0.cause
            == read->Err_0,
{
    match read {
        Ok(_) => Ok(()),
        Err(cause) => Err(
            ContextError {
                context: String::from_str("Unable to read file /very/fake/path/foo/bar"),
                cause,
            },
        ),
    }
}

/// As `use_anyhow`, with the error wrapped in a public error of kind `Foo`.
pub fn use_anyhow_with_public_error(read: Result<String, ErrorMessage>) -> (r: Result<
    (),
    PublicError,
>)
    ensures
        read is Ok ==> r is Ok,
        read is Err ==> r is Err && r->Err_0.spec_kind() == PublicErrorKind::Foo
            && r->Err_0.spec_source().context@ == read_context() && r->Err_0.spec_source().cause
            == read->Err_0,
{
    match use_anyhow(read) {
        Ok(_) => Ok(()),
        Err(e) => Err(PublicError { kind: PublicErrorKind::Foo, source: e }),
    }
}

/// The error with context itself, not wrapped.
pub fn produce_an_anyhow_error(read: Result<String, ErrorMessage>) -> (r: Result<
    (),
    ContextError,
>)
    ensures
        read is Ok ==> r is Ok,
        read is Err ==> r is Err && r->Err_0.context@ == read_context() && r->Err_0.cause
            == read->Err_0,
{
    use_anyhow(read)
}

/// An error whose variant names the path and the cause.
#[derive(Debug)]
pub enum MyError {
    ErrorOne { path: String, source: ErrorMessage },
}

impl MyError {
    /// The text of the error: which file, and why.
    pub open spec fn text(self) -> Seq<char> {
        "Unable to read file "@ + self->path@ + ": "@ + self->source.0@
    }

    /// Writes the error out.
    pub fn to_string(&self) -> (s: String)
        ensures
            s@ == self.text(),
    {
        match self {
            MyError::ErrorOne { path, source } => {
                let mut s = String::from_str("Unable to read file ");
                s.append(path.as_str());
                s.append(": ");
                s.append(source.0.as_str());
                s
            },
        }
    }
}

/// Takes the outcome of reading the file at a path that does not exist and
/// turns a failure into the error that names the path.
pub fn use_thiserror(read: Result<String, ErrorMessage>) -> (r: Result<(), MyError>)
    ensures
        read is Ok ==> r is Ok,
        read is Err ==> r is Err && r->Err_0->path@ == "/bad/path/foo/bar"@ && r->Err_0->source
            == read->Err_0,
{
    match read {
        Ok(_) => Ok(()),
        Err(e) => Err(MyError::ErrorOne { path: String::from_str("/bad/path/foo/bar"), source: e }),
    }
}

} // verus!
