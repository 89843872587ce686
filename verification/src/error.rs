//! Server-side errors of the gateway core.
//!
//! Every [`Error`] carries an [`ErrorKind`] and, optionally, the rendered
//! text of an underlying cause.  The admin surface maps kinds to HTTP
//! status codes without leaking the internal message.

use vstd::prelude::*;
use vstd::string::*;

verus! {

/// The error taxonomy at the core boundary.
#[derive(Clone, Copy, Debug, PartialEq, Eq, Structural)]
pub enum ErrorKind {
    /// A project name failed validation; client error.
    InvalidProjectName,
    /// An account name failed validation (it was empty); client error.
    InvalidAccountName,
    /// Project lookup found nothing.
    ProjectNotFound,
    /// A project with that name already exists.
    ProjectAlreadyExists,
    /// Account lookup found nothing.
    AccountNotFound,
    /// An account with that name already exists.
    AccountAlreadyExists,
    /// Transient condition; the client may retry.
    ProjectUnavailable,
    /// The task queue is saturated or the gateway is shutting down.
    ServiceUnavailable,
    /// Unexpected failure.
    Internal,
}

impl ErrorKind {
    /// The HTTP status code the admin surface answers with for this kind.
    pub open spec fn spec_status(self) -> u16 {
        match self {
            ErrorKind::InvalidProjectName => 400,
            ErrorKind::InvalidAccountName => 400,
            ErrorKind::ProjectNotFound => 404,
            ErrorKind::ProjectAlreadyExists => 409,
            ErrorKind::AccountNotFound => 404,
            ErrorKind::AccountAlreadyExists => 409,
            ErrorKind::ProjectUnavailable => 503,
            ErrorKind::ServiceUnavailable => 503,
            ErrorKind::Internal => 500,
        }
    }

    pub fn status(self) -> (code: u16)
        ensures
            code == self.spec_status(),
    {
        match self {
            ErrorKind::InvalidProjectName => 400,
            ErrorKind::InvalidAccountName => 400,
            ErrorKind::ProjectNotFound => 404,
            ErrorKind::ProjectAlreadyExists => 409,
            ErrorKind::AccountNotFound => 404,
            ErrorKind::AccountAlreadyExists => 409,
            ErrorKind::ProjectUnavailable => 503,
            ErrorKind::ServiceUnavailable => 503,
            ErrorKind::Internal => 500,
        }
    }

    /// The kind's name, as shown to clients.
    pub open spec fn spec_text(self) -> Seq<char> {
        match self {
            ErrorKind::InvalidProjectName => "invalid project name"@,
            ErrorKind::InvalidAccountName => "invalid account name"@,
            ErrorKind::ProjectNotFound => "project not found"@,
            ErrorKind::ProjectAlreadyExists => "project already exists"@,
            ErrorKind::AccountNotFound => "account not found"@,
            ErrorKind::AccountAlreadyExists => "account already exists"@,
            ErrorKind::ProjectUnavailable => "project unavailable"@,
            ErrorKind::ServiceUnavailable => "service unavailable"@,
            ErrorKind::Internal => "internal error"@,
        }
    }

    pub fn text(self) -> (s: &'static str)
        ensures
            s@ == self.spec_text(),
    {
        match self {
            ErrorKind::InvalidProjectName => "invalid project name",
            ErrorKind::InvalidAccountName => "invalid account name",
            ErrorKind::ProjectNotFound => "project not found",
            ErrorKind::ProjectAlreadyExists => "project already exists",
            ErrorKind::AccountNotFound => "account not found",
            ErrorKind::AccountAlreadyExists => "account already exists",
            ErrorKind::ProjectUnavailable => "project unavailable",
            ErrorKind::ServiceUnavailable => "service unavailable",
            ErrorKind::Internal => "internal error",
        }
    }
}

/// A server-side error: a kind, plus an optional diagnostic rendered from
/// the underlying cause.  The diagnostic never reaches clients.
#[derive(Debug)]
pub struct Error {
    kind: ErrorKind,
    message: Option<String>,
}

impl Error {
    pub closed spec fn spec_kind(&self) -> ErrorKind {
        self.kind
    }

    pub closed spec fn spec_message(&self) -> Option<Seq<char>> {
        match self.message {
            Some(m) => Some(m@),
            None => None,
        }
    }

    pub fn from_kind(kind: ErrorKind) -> (e: Self)
        ensures
            e.spec_kind() == kind,
            e.spec_message() is None,
    {
        Error { kind, message: None }
    }

    /// An error with a custom diagnostic message.
    pub fn custom(kind: ErrorKind, message: String) -> (e: Self)
        ensures
            e.spec_kind() == kind,
            e.spec_message() == Some(message@),
    {
        Error { kind, message: Some(message) }
    }

    /// Wraps an underlying cause, keeping its rendered text as the
    /// diagnostic.
    pub fn source(kind: ErrorKind, source_text: String) -> (e: Self)
        ensures
            e.spec_kind() == kind,
            e.spec_message() == Some(source_text@),
    {
        Error { kind, message: Some(source_text) }
    }

    pub fn kind(&self) -> (kind: ErrorKind)
        ensures
            kind == self.spec_kind(),
    {
        self.kind
    }

    /// The text of [`Self::describe`].
    pub open spec fn spec_describe(&self) -> Seq<char> {
        match self.spec_message() {
            Some(m) => self.spec_kind().spec_text() + ": "@ + m,
            None => self.spec_kind().spec_text(),
        }
    }

    /// Renders the error for logs: the kind, then the diagnostic if any.
    pub fn describe(&self) -> (s: String)
        ensures
            s@ == self.spec_describe(),
    {
        let mut s = String::from_str(self.kind.text());
        match &self.message {
            Some(m) => {
                s.append(": ");
                s.append(m.as_str());
            }
            None => {}
        }
        s
    }
}

impl From<ErrorKind> for Error {
    fn from(kind: ErrorKind) -> Self {
        Error { kind, message: None }
    }
}

impl vstd::std_specs::convert::FromSpecImpl<ErrorKind> for Error {
    open spec fn obeys_from_spec() -> bool {
        true
    }

    closed spec fn from_spec(kind: ErrorKind) -> Error {
        Error { kind, message: None }
    }
}

} // verus!
