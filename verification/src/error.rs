//! Errors of machine operations.

use crate::model::Model;
use crate::text::own;
use vstd::prelude::*;

verus! {

/// Why a machine operation failed.
#[derive(Debug, PartialEq, Eq)]
pub enum Error {
    /// The request or the configuration is not acceptable.
    Config { operation: String, reason: String },
    /// The hypervisor, the guest agent or another helper failed.
    Agent { operation: String, reason: String },
    /// A disk or a file on the host could not be handled.
    Storage { operation: String, reason: String },
    /// No machine has this name.
    VmNotFound { name: String },
    /// The machine is in a state that does not allow the operation.
    InvalidState { expected: String, actual: String },
    /// Any other failure, with its message.
    Other { message: String },
}

/// Mathematical model of a [`Error`].
pub enum ErrorView {
    Config { operation: Seq<char>, reason: Seq<char> },
    Agent { operation: Seq<char>, reason: Seq<char> },
    Storage { operation: Seq<char>, reason: Seq<char> },
    VmNotFound { name: Seq<char> },
    InvalidState { expected: Seq<char>, actual: Seq<char> },
    Other { message: Seq<char> },
}

impl Model for Error {
    type V = ErrorView;

    open spec fn model(&self) -> ErrorView {
        match self {
            Error::Config { operation, reason } => ErrorView::Config { operation: operation.model(), reason: reason.model() },
            Error::Agent { operation, reason } => ErrorView::Agent { operation: operation.model(), reason: reason.model() },
            Error::Storage { operation, reason } => ErrorView::Storage { operation: operation.model(), reason: reason.model() },
            Error::VmNotFound { name } => ErrorView::VmNotFound { name: name.model() },
            Error::InvalidState { expected, actual } => ErrorView::InvalidState { expected: expected.model(), actual: actual.model() },
            Error::Other { message } => ErrorView::Other { message: message.model() },
        }
    }

    fn dup(&self) -> (copy: Self) {
        match self {
            Error::Config { operation, reason } => Error::Config { operation: operation.dup(), reason: reason.dup() },
            Error::Agent { operation, reason } => Error::Agent { operation: operation.dup(), reason: reason.dup() },
            Error::Storage { operation, reason } => Error::Storage { operation: operation.dup(), reason: reason.dup() },
            Error::VmNotFound { name } => Error::VmNotFound { name: name.dup() },
            Error::InvalidState { expected, actual } => Error::InvalidState { expected: expected.dup(), actual: actual.dup() },
            Error::Other { message } => Error::Other { message: message.dup() },
        }
    }
}

impl Error {
    /// A configuration error.
    pub fn config(operation: &str, reason: String) -> (error: Error)
        ensures
            error.model() == (ErrorView::Config { operation: operation@, reason: reason@ }),
    {
        Error::Config { operation: own(operation), reason }
    }

    /// An agent error.
    pub fn agent(operation: &str, reason: String) -> (error: Error)
        ensures
            error.model() == (ErrorView::Agent { operation: operation@, reason: reason@ }),
    {
        Error::Agent { operation: own(operation), reason }
    }

    /// A storage error.
    pub fn storage(operation: &str, reason: String) -> (error: Error)
        ensures
            error.model() == (ErrorView::Storage { operation: operation@, reason: reason@ }),
    {
        Error::Storage { operation: own(operation), reason }
    }

    /// The error for a machine that does not exist.
    pub fn vm_not_found(name: &str) -> (error: Error)
        ensures
            error.model() == (ErrorView::VmNotFound { name: name@ }),
    {
        Error::VmNotFound { name: own(name) }
    }

    /// The error for a machine in the wrong state.
    pub fn invalid_state(expected: &str, actual: &str) -> (error: Error)
        ensures
            error.model() == (ErrorView::InvalidState { expected: expected@, actual: actual@ }),
    {
        Error::InvalidState { expected: own(expected), actual: own(actual) }
    }
}

} // verus!
