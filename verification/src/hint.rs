//! Hints affect this crate's behaviour globally.

use vstd::prelude::*;
use crate::error::{Error, ErrorKind};

verus! {

/// A global hint for use by this crate.
#[derive(Debug, Copy, Clone, PartialEq, Eq, Structural)]
pub enum Hint {
    /// Calls `XInitThreads()`, which allows using Xlib from multiple threads. Setting this
    /// hint only works before any call to Xlib is made.
    XlibXInitThreads,
    /// If `false`, this crate's Xlib error handlers are used. Otherwise, they aren't.
    XlibDefaultErrorHandlers(bool),
}

/// What the caller does with Xlib to set a hint.
#[derive(Debug, Copy, Clone, PartialEq, Eq, Structural)]
pub enum XlibHintAction {
    /// Call `XInitThreads()`.
    CallXInitThreads,
    /// Use Xlib's default error handlers (`true`) or this crate's own (`false`).
    UseDefaultErrorHandlers(bool),
}

/// Sets a global hint for this crate, on X11: every hint is accepted, and says what is done
/// with Xlib for it.
pub fn set_hint(hint: Hint) -> (r: Result<XlibHintAction, Error>)
    ensures
        r == Ok::<XlibHintAction, Error>(match hint {
            Hint::XlibXInitThreads => XlibHintAction::CallXInitThreads,
            Hint::XlibDefaultErrorHandlers(b) => XlibHintAction::UseDefaultErrorHandlers(b),
        }),
{
    match hint {
        Hint::XlibXInitThreads => Ok(XlibHintAction::CallXInitThreads),
        Hint::XlibDefaultErrorHandlers(b) => Ok(XlibHintAction::UseDefaultErrorHandlers(b)),
    }
}

/// Sets a global hint for this crate, on a platform without Xlib: every hint is about
/// Xlib, so each fails as unsupported.
pub fn set_hint_without_xlib(hint: Hint) -> (r: Result<(), Error>)
    ensures
        r matches Err(e) && e.kind == ErrorKind::Unsupported && e.reason is None,
{
    match hint {
        Hint::XlibDefaultErrorHandlers(_) => crate::error::unsupported_unexplained(),
        Hint::XlibXInitThreads => crate::error::unsupported_unexplained(),
    }
}

} // verus!
