//! The backup engine's error domain, at its interface boundary.
//!
//! The engine itself (command execution, repository semantics) is an external
//! collaborator; the runtime only classifies its failures. The one condition
//! the classification must tell apart exactly is an abort initiated by the
//! user: it is silently suppressed, every other failure is shown.

use vstd::prelude::*;

verus! {

/// Why the engine aborted an operation.
#[derive(Clone, Copy, Debug, PartialEq, Eq, Structural)]
pub enum Abort {
    /// The user asked for the operation to stop. The only abort reason that
    /// is reported silently.
    User,
    /// The operation was stopped from outside the user's control.
    Signal,
}

/// A failure reported by the backup engine.
#[derive(Clone, Debug)]
pub enum Error {
    /// The engine aborted the operation for the given reason.
    Aborted(Abort),
    /// The engine failed with the given human-readable rendering.
    Failed(String),
}

/// The human-readable rendering of an engine failure, used as the detail
/// text of a shown message.
pub open spec fn error_text(e: Error) -> Seq<char> {
    match e {
        Error::Aborted(Abort::User) => "Aborted by user."@,
        Error::Aborted(Abort::Signal) => "Aborted by signal."@,
        Error::Failed(s) => s@,
    }
}

impl Error {
    /// Whether this failure represents an abort initiated by the user.
    pub open spec fn is_user_aborted(&self) -> bool {
        *self matches Error::Aborted(Abort::User)
    }

    /// The human-readable rendering of the failure.
    pub fn message_text(&self) -> (r: String)
        ensures
            r@ == error_text(*self),
    {
        match self {
            Error::Aborted(Abort::User) => "Aborted by user.".to_owned(),
            Error::Aborted(Abort::Signal) => "Aborted by signal.".to_owned(),
            Error::Failed(s) => s.clone(),
        }
    }
}

impl PartialEq for Error {
    fn eq(&self, other: &Self) -> bool {
        match (self, other) {
            (Error::Aborted(a), Error::Aborted(b)) => *a == *b,
            (Error::Failed(s), Error::Failed(t)) => *s == *t,
            _ => false,
        }
    }
}

impl vstd::std_specs::cmp::PartialEqSpecImpl for Error {
    open spec fn obeys_eq_spec() -> bool {
        true
    }

    open spec fn eq_spec(&self, other: &Self) -> bool {
        match (self, other) {
            (Error::Aborted(a), Error::Aborted(b)) => a == b,
            (Error::Failed(s), Error::Failed(t)) => s@ == t@,
            _ => false,
        }
    }
}

} // verus!
