//! `Error` and `Result` types for this crate.

use vstd::prelude::*;

verus! {

/// Different kinds of errors reported by most faillible operations.
#[derive(Debug, Copy, Clone, Hash, PartialEq, Eq, Structural)]
pub enum ErrorKind {
    /// Operation not supported for target platform / current build settings.
    Unsupported,
    /// Some arguments were invalid; You could retry with different ones.
    InvalidArgument,
    /// Operation is supported and arguments were valid, but the operation failed for other
    /// reasons (e.g user-specific environment).
    Failed,
}

/// The short description of an error kind.
pub open spec fn describe_quick_spec(k: ErrorKind) -> Seq<char> {
    match k {
        ErrorKind::InvalidArgument => "Invalid argument(s)"@,
        ErrorKind::Unsupported => "Unsupported operation for target platform"@,
        ErrorKind::Failed => "Operation has failed"@,
    }
}

impl ErrorKind {
    /// A short, human-readable description of this kind of error.
    pub fn describe_quick(&self) -> (r: &'static str)
        ensures
            r@ == describe_quick_spec(*self),
    {
        match *self {
            ErrorKind::InvalidArgument => "Invalid argument(s)",
            ErrorKind::Unsupported => "Unsupported operation for target platform",
            ErrorKind::Failed => "Operation has failed",
        }
    }
}

/// An `ErrorKind` packed with an optional `reason` string.
#[derive(Debug, Clone, Hash, PartialEq, Eq)]
pub struct Error {
    /// The error kind.
    pub kind: ErrorKind,
    /// A hopefully useful reason string, or `None` if unknown or not meaningful.
    pub reason: Option<String>,
}

/// The reason of an error, as a sequence of characters.
pub open spec fn reason_view(r: Option<String>) -> Option<Seq<char>> {
    match r {
        Some(s) => Some(s@),
        None => None,
    }
}

/// The full message of an error: its kind's description, then its reason (or a note that
/// there is none).
pub open spec fn error_message_spec(kind: ErrorKind, reason: Option<Seq<char>>) -> Seq<char> {
    match reason {
        None => describe_quick_spec(kind) + " (no reason given)"@,
        Some(s) => describe_quick_spec(kind) + ": "@ + s,
    }
}

impl Error {
    /// An error of the given kind with the given reason.
    pub fn with_reason(kind: ErrorKind, s: String) -> (e: Error)
        ensures
            e.kind == kind,
            reason_view(e.reason) == Some(s@),
    {
        Error { kind, reason: Some(s) }
    }

    /// An `Unsupported` error with the given reason.
    pub fn unsupported(s: String) -> (e: Error)
        ensures
            e.kind == ErrorKind::Unsupported,
            reason_view(e.reason) == Some(s@),
    {
        Error { kind: ErrorKind::Unsupported, reason: Some(s) }
    }

    /// An `InvalidArgument` error with the given reason.
    pub fn invalid_arg(s: String) -> (e: Error)
        ensures
            e.kind == ErrorKind::InvalidArgument,
            reason_view(e.reason) == Some(s@),
    {
        Error { kind: ErrorKind::InvalidArgument, reason: Some(s) }
    }

    /// A `Failed` error with the given reason.
    pub fn failed(s: String) -> (e: Error)
        ensures
            e.kind == ErrorKind::Failed,
            reason_view(e.reason) == Some(s@),
    {
        Error { kind: ErrorKind::Failed, reason: Some(s) }
    }

    /// An `Unsupported` error without a reason.
    pub fn unsupported_unexplained() -> (e: Error)
        ensures
            e.kind == ErrorKind::Unsupported,
            e.reason is None,
    {
        Error { kind: ErrorKind::Unsupported, reason: None }
    }

    /// An `InvalidArgument` error without a reason.
    pub fn invalid_arg_unexplained() -> (e: Error)
        ensures
            e.kind == ErrorKind::InvalidArgument,
            e.reason is None,
    {
        Error { kind: ErrorKind::InvalidArgument, reason: None }
    }

    /// A `Failed` error without a reason.
    pub fn failed_unexplained() -> (e: Error)
        ensures
            e.kind == ErrorKind::Failed,
            e.reason is None,
    {
        Error { kind: ErrorKind::Failed, reason: None }
    }

    /// The short description of this error's kind.
    pub fn description(&self) -> (r: &'static str)
        ensures
            r@ == describe_quick_spec(self.kind),
    {
        self.kind.describe_quick()
    }

    /// The full, human-readable message for this error.
    pub fn message(&self) -> (r: String)
        ensures
            r@ == error_message_spec(self.kind, reason_view(self.reason)),
    {
        let mut m = String::from_str(self.kind.describe_quick());
        match &self.reason {
            None => {
                m.append(" (no reason given)");
            },
            Some(s) => {
                m.append(": ");
                m.append(s.as_str());
            },
        }
        m
    }
}

/// Fails with an `Unsupported` error and the given reason.
pub fn unsupported<T>(s: String) -> (r: Result<T, Error>)
    ensures
        r matches Err(e) && e.kind == ErrorKind::Unsupported && reason_view(e.reason) == Some(s@),
{
    Err(Error::unsupported(s))
}

/// Fails with an `InvalidArgument` error and the given reason.
pub fn invalid_arg<T>(s: String) -> (r: Result<T, Error>)
    ensures
        r matches Err(e) && e.kind == ErrorKind::InvalidArgument && reason_view(e.reason) == Some(s@),
{
    Err(Error::invalid_arg(s))
}

/// Fails with a `Failed` error and the given reason.
pub fn failed<T>(s: String) -> (r: Result<T, Error>)
    ensures
        r matches Err(e) && e.kind == ErrorKind::Failed && reason_view(e.reason) == Some(s@),
{
    Err(Error::failed(s))
}

/// Fails with an `Unsupported` error without a reason.
pub fn unsupported_unexplained<T>() -> (r: Result<T, Error>)
    ensures
        r matches Err(e) && e.kind == ErrorKind::Unsupported && e.reason is None,
{
    Err(Error::unsupported_unexplained())
}

/// Fails with an `InvalidArgument` error without a reason.
pub fn invalid_arg_unexplained<T>() -> (r: Result<T, Error>)
    ensures
        r matches Err(e) && e.kind == ErrorKind::InvalidArgument && e.reason is None,
{
    Err(Error::invalid_arg_unexplained())
}

/// Fails with a `Failed` error without a reason.
pub fn failed_unexplained<T>() -> (r: Result<T, Error>)
    ensures
        r matches Err(e) && e.kind == ErrorKind::Failed && e.reason is None,
{
    Err(Error::failed_unexplained())
}

} // verus!
