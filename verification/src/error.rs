//! The typed failures that a transaction reports.

use vstd::prelude::*;

verus! {

/// What went wrong, by kind.
#[derive(Clone, Copy, Debug, PartialEq, Eq, Structural)]
pub enum ErrorKind {
    /// The engine could not create a transaction or a snapshot.
    AllocationFailed,
    /// The operation was attempted on a transaction that has ended.
    InvalidState,
    /// A row lock was denied at once.
    LockConflict,
    /// A row lock was waited for and the wait ran out.
    LockTimeout,
    /// Commit-time validation found a write-write overlap.
    Conflict,
    /// A rollback to a savepoint was asked for with no savepoint set.
    NoSavepoint,
    /// The engine failed to read or write its storage.
    IOError,
    /// Any other failure that the engine reported.
    EngineError,
}

/// A failure: its kind and the message that goes with it.
#[derive(Clone, Debug, PartialEq, Eq)]
pub struct Error {
    pub kind: ErrorKind,
    pub message: String,
}

/// The mathematical value of an [`Error`].
pub ghost struct ErrorView {
    pub kind: ErrorKind,
    pub message: Seq<char>,
}

impl View for Error {
    type V = ErrorView;

    open spec fn view(&self) -> ErrorView {
        ErrorView { kind: self.kind, message: self.message@ }
    }
}

impl ErrorView {
    /// Reported when the engine hands back a null transaction.
    pub open spec fn null_transaction() -> ErrorView {
        ErrorView {
            kind: ErrorKind::AllocationFailed,
            message: "Transaction's inner pointer is NULL"@,
        }
    }

    /// Reported when the engine hands back a null database.
    pub open spec fn null_database() -> ErrorView {
        ErrorView {
            kind: ErrorKind::AllocationFailed,
            message: "Database's inner pointer is NULL"@,
        }
    }

    /// Reported when the engine hands back a null snapshot.
    pub open spec fn null_snapshot() -> ErrorView {
        ErrorView {
            kind: ErrorKind::AllocationFailed,
            message: "Snapshot's inner pointer is NULL"@,
        }
    }

    /// Reported for any operation on a transaction that has ended.
    pub open spec fn invalid_state() -> ErrorView {
        ErrorView { kind: ErrorKind::InvalidState, message: "Transaction is no longer open"@ }
    }

    /// Reported for a rollback to a savepoint when none is set.
    pub open spec fn no_savepoint() -> ErrorView {
        ErrorView { kind: ErrorKind::NoSavepoint, message: "No savepoint is set"@ }
    }
}

impl Error {
    pub fn new(kind: ErrorKind, message: String) -> (e: Error)
        ensures
            e@ == (ErrorView { kind, message: message@ }),
    {
        Error { kind, message }
    }

    pub fn null_transaction() -> (e: Error)
        ensures
            e@ == ErrorView::null_transaction(),
    {
        Error {
            kind: ErrorKind::AllocationFailed,
            message: "Transaction's inner pointer is NULL".to_owned(),
        }
    }

    pub fn null_database() -> (e: Error)
        ensures
            e@ == ErrorView::null_database(),
    {
        Error {
            kind: ErrorKind::AllocationFailed,
            message: "Database's inner pointer is NULL".to_owned(),
        }
    }

    pub fn null_snapshot() -> (e: Error)
        ensures
            e@ == ErrorView::null_snapshot(),
    {
        Error {
            kind: ErrorKind::AllocationFailed,
            message: "Snapshot's inner pointer is NULL".to_owned(),
        }
    }

    pub fn invalid_state() -> (e: Error)
        ensures
            e@ == ErrorView::invalid_state(),
    {
        Error { kind: ErrorKind::InvalidState, message: "Transaction is no longer open".to_owned() }
    }

    pub fn no_savepoint() -> (e: Error)
        ensures
            e@ == ErrorView::no_savepoint(),
    {
        Error { kind: ErrorKind::NoSavepoint, message: "No savepoint is set".to_owned() }
    }

    pub fn kind(&self) -> (k: ErrorKind)
        ensures
            k == self@.kind,
    {
        self.kind
    }

    /// The message, as an owned string.
    pub fn to_string(&self) -> (s: String)
        ensures
            s@ == self@.message,
    {
        self.message.clone()
    }

    pub fn into_string(self) -> (s: String)
        ensures
            s@ == self@.message,
    {
        self.message
    }
}

} // verus!
