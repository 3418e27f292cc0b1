//! What this crate asks of the storage engine, and what the engine answers.
//!
//! A [`Request`] names one call of the engine's transaction interface with
//! its arguments as plain values. The embedding program performs it on the
//! engine object that the issuing handle stands for, a database for a begin
//! and a transaction for everything else, and hands the engine's answer back
//! for settlement.

use crate::error::{Error, ErrorKind, ErrorView};
use crate::options::{ColumnFamily, ReadOptions, TransactionOptions, WriteOptions};
use vstd::prelude::*;

verus! {

/// The column family that a request is aimed at.
#[derive(Clone, Copy, Debug, PartialEq, Eq)]
pub enum CfTarget {
    /// The engine's default column family.
    Default,
    /// The column family behind this engine handle.
    Handle(u64),
}

impl CfTarget {
    /// The target that an optional column family stands for: the engine's
    /// default one where the caller named none.
    pub open spec fn of(cf: Option<&ColumnFamily>) -> CfTarget {
        match cf {
            Some(cf) => CfTarget::Handle(cf.inner),
            None => CfTarget::Default,
        }
    }

    pub fn resolve(cf: Option<&ColumnFamily>) -> (t: CfTarget)
        ensures
            t == Self::of(cf),
    {
        match cf {
            Some(cf) => CfTarget::Handle(cf.inner),
            None => CfTarget::Default,
        }
    }
}

/// One call of the engine's transaction interface.
#[derive(Clone, Debug, PartialEq, Eq)]
pub enum Request {
    /// Begin a transaction on the database.
    BeginTransaction { write_options: WriteOptions, tx_options: TransactionOptions },
    /// Apply the buffered writes and release the locks.
    Commit,
    /// Discard the buffered writes and release the locks.
    Rollback,
    /// Mark the current position of the write set.
    SetSavepoint,
    /// Discard the writes made since the newest mark, and the mark.
    RollbackToSavepoint,
    /// Hand out the snapshot of the transaction.
    GetSnapshot,
    /// Look a key up.
    Get { cf: CfTarget, key: Vec<u8>, readopts: ReadOptions },
    /// Look a key up and lock its row for the transaction.
    GetForUpdate { cf: CfTarget, key: Vec<u8>, readopts: ReadOptions, exclusive: bool },
    /// Buffer the write of a value.
    Put { cf: CfTarget, key: Vec<u8>, value: Vec<u8> },
    /// Buffer a merge operand.
    Merge { cf: CfTarget, key: Vec<u8>, value: Vec<u8> },
    /// Buffer the removal of a key.
    Delete { cf: CfTarget, key: Vec<u8> },
    /// Create a cursor.
    CreateIterator { cf: CfTarget, readopts: ReadOptions },
    /// Free a snapshot that was handed out.
    FreeSnapshot { snapshot: u64 },
    /// Destroy the transaction.
    DestroyTransaction,
}

/// The mathematical value of a [`Request`]: keys and values as sequences of
/// bytes.
pub ghost enum RequestView {
    BeginTransaction { write_options: WriteOptions, tx_options: TransactionOptions },
    Commit,
    Rollback,
    SetSavepoint,
    RollbackToSavepoint,
    GetSnapshot,
    Get { cf: CfTarget, key: Seq<u8>, readopts: ReadOptions },
    GetForUpdate { cf: CfTarget, key: Seq<u8>, readopts: ReadOptions, exclusive: bool },
    Put { cf: CfTarget, key: Seq<u8>, value: Seq<u8> },
    Merge { cf: CfTarget, key: Seq<u8>, value: Seq<u8> },
    Delete { cf: CfTarget, key: Seq<u8> },
    CreateIterator { cf: CfTarget, readopts: ReadOptions },
    FreeSnapshot { snapshot: u64 },
    DestroyTransaction,
}

impl View for Request {
    type V = RequestView;

    open spec fn view(&self) -> RequestView {
        match *self {
            Request::BeginTransaction { write_options, tx_options } => {
                RequestView::BeginTransaction { write_options, tx_options }
            },
            Request::Commit => RequestView::Commit,
            Request::Rollback => RequestView::Rollback,
            Request::SetSavepoint => RequestView::SetSavepoint,
            Request::RollbackToSavepoint => RequestView::RollbackToSavepoint,
            Request::GetSnapshot => RequestView::GetSnapshot,
            Request::Get { cf, key, readopts } => RequestView::Get { cf, key: key@, readopts },
            Request::GetForUpdate { cf, key, readopts, exclusive } => RequestView::GetForUpdate {
                cf,
                key: key@,
                readopts,
                exclusive,
            },
            Request::Put { cf, key, value } => RequestView::Put { cf, key: key@, value: value@ },
            Request::Merge { cf, key, value } => RequestView::Merge {
                cf,
                key: key@,
                value: value@,
            },
            Request::Delete { cf, key } => RequestView::Delete { cf, key: key@ },
            Request::CreateIterator { cf, readopts } => RequestView::CreateIterator {
                cf,
                readopts,
            },
            Request::FreeSnapshot { snapshot } => RequestView::FreeSnapshot { snapshot },
            Request::DestroyTransaction => RequestView::DestroyTransaction,
        }
    }
}

impl RequestView {
    /// Whether the request buffers a change to the stored state.
    pub open spec fn writes(self) -> bool {
        self is Put || self is Merge || self is Delete
    }

    /// Whether the request makes the engine take a row lock for the
    /// transaction.
    pub open spec fn acquires_lock(self) -> bool {
        self is GetForUpdate || self.writes()
    }

    /// Whether the request only reads: a lookup or a cursor.
    pub open spec fn reads_only(self) -> bool {
        self is Get || self is CreateIterator
    }

    /// The snapshot that a reading request is pinned to, if any.
    pub open spec fn snapshot(self) -> Option<u64> {
        match self {
            RequestView::Get { readopts, .. } => readopts.snapshot,
            RequestView::GetForUpdate { readopts, .. } => readopts.snapshot,
            RequestView::CreateIterator { readopts, .. } => readopts.snapshot,
            _ => None,
        }
    }
}

impl Request {
    /// Whether the request makes the engine take a row lock.
    pub fn acquires_lock(&self) -> (b: bool)
        ensures
            b == self@.acquires_lock(),
    {
        match self {
            Request::GetForUpdate { .. } => true,
            Request::Put { .. } => true,
            Request::Merge { .. } => true,
            Request::Delete { .. } => true,
            _ => false,
        }
    }

    /// Whether the request only reads.
    pub fn reads_only(&self) -> (b: bool)
        ensures
            b == self@.reads_only(),
    {
        match self {
            Request::Get { .. } => true,
            Request::CreateIterator { .. } => true,
            _ => false,
        }
    }
}

/// The status code with which the engine refused a request.
#[derive(Clone, Copy, Debug, PartialEq, Eq)]
pub enum FaultCode {
    /// What the request referred to does not exist.
    NotFound,
    /// A resource that the request needs is held by someone else.
    Busy,
    /// The engine waited for a resource and gave up.
    TimedOut,
    /// Storage could not be read or written.
    IoError,
    /// Any other status.
    Other,
}

/// The status code that a message of the engine stands for. The engine
/// starts every message with the name of its status.
pub open spec fn code_of(message: Seq<char>) -> FaultCode {
    if "NotFound: "@.is_prefix_of(message) {
        FaultCode::NotFound
    } else if "Resource busy: "@.is_prefix_of(message) {
        FaultCode::Busy
    } else if "Operation timed out: "@.is_prefix_of(message) {
        FaultCode::TimedOut
    } else if "IO error: "@.is_prefix_of(message) {
        FaultCode::IoError
    } else {
        FaultCode::Other
    }
}

/// Whether `message` begins with `prefix`.
pub fn starts_with(message: &str, prefix: &str) -> (b: bool)
    ensures
        b == prefix@.is_prefix_of(message@),
{
    let n = prefix.unicode_len();
    if message.unicode_len() < n {
        return false;
    }
    let mut i: usize = 0;
    while i < n
        invariant
            n == prefix@.len(),
            n <= message@.len(),
            i <= n,
            forall|j: int| 0 <= j < i ==> prefix@[j] == message@[j],
        decreases n - i,
    {
        if prefix.get_char(i) != message.get_char(i) {
            assert(message@.subrange(0, n as int)[i as int] != prefix@[i as int]);
            return false;
        }
        i = i + 1;
    }
    assert(prefix@ =~= message@.subrange(0, n as int));
    true
}

impl FaultCode {
    /// Reads the status code off a message of the engine.
    pub fn of_message(message: &str) -> (code: FaultCode)
        ensures
            code == code_of(message@),
    {
        if starts_with(message, "NotFound: ") {
            FaultCode::NotFound
        } else if starts_with(message, "Resource busy: ") {
            FaultCode::Busy
        } else if starts_with(message, "Operation timed out: ") {
            FaultCode::TimedOut
        } else if starts_with(message, "IO error: ") {
            FaultCode::IoError
        } else {
            FaultCode::Other
        }
    }
}

/// A refusal by the engine: its status code and its message.
#[derive(Clone, Debug, PartialEq, Eq)]
pub struct EngineFault {
    pub code: FaultCode,
    pub message: String,
}

/// The kind of error that a refusal by the engine surfaces as, given the
/// request that was refused and the lock timeout of the transaction.
///
/// A storage failure is an I/O error whatever was asked. A busy resource is a
/// write conflict at commit and a lock conflict where a row lock was asked
/// for. A wait that ran out where a row lock was asked for is a lock conflict
/// if the transaction does not wait at all, and a lock timeout otherwise.
/// Nothing found on a rollback to a savepoint means that no savepoint is set.
/// Everything else stays an engine error.
pub open spec fn fault_kind(request: RequestView, code: FaultCode, lock_timeout: i64) -> ErrorKind {
    match code {
        FaultCode::IoError => ErrorKind::IOError,
        FaultCode::Busy => if request is Commit {
            ErrorKind::Conflict
        } else if request.acquires_lock() {
            ErrorKind::LockConflict
        } else {
            ErrorKind::EngineError
        },
        FaultCode::TimedOut => if request.acquires_lock() {
            if lock_timeout == 0 {
                ErrorKind::LockConflict
            } else {
                ErrorKind::LockTimeout
            }
        } else {
            ErrorKind::EngineError
        },
        FaultCode::NotFound => if request is RollbackToSavepoint {
            ErrorKind::NoSavepoint
        } else {
            ErrorKind::EngineError
        },
        FaultCode::Other => ErrorKind::EngineError,
    }
}

impl EngineFault {
    /// The error that this refusal surfaces as: the kind by [`fault_kind`],
    /// the engine's message carried over.
    pub open spec fn surfaced(self, request: RequestView, lock_timeout: i64) -> ErrorView {
        ErrorView {
            kind: fault_kind(request, self.code, lock_timeout),
            message: self.message@,
        }
    }

    /// Wraps a message of the engine, with the status code read off it.
    pub fn from_message(message: String) -> (f: EngineFault)
        ensures
            f.code == code_of(message@),
            f.message@ == message@,
    {
        let code = FaultCode::of_message(message.as_str());
        EngineFault { code, message }
    }

    /// The error that this refusal surfaces as where no transaction is
    /// involved: an I/O error for a storage failure, an engine error for
    /// everything else, with the engine's message carried over.
    pub open spec fn surfaced_plain(self) -> ErrorView {
        ErrorView {
            kind: if self.code is IoError {
                ErrorKind::IOError
            } else {
                ErrorKind::EngineError
            },
            message: self.message@,
        }
    }

    /// Turns a refusal that no transaction was involved in into the caller's
    /// error.
    pub fn into_error(self) -> (e: Error)
        ensures
            e@ == self.surfaced_plain(),
    {
        let kind = match self.code {
            FaultCode::IoError => ErrorKind::IOError,
            _ => ErrorKind::EngineError,
        };
        Error { kind, message: self.message }
    }

    /// Turns the engine's refusal of `request` into the caller's error.
    pub fn surface(self, request: &Request, lock_timeout: i64) -> (e: Error)
        ensures
            e@ == self.surfaced(request@, lock_timeout),
    {
        let locks = request.acquires_lock();
        let kind = match self.code {
            FaultCode::IoError => ErrorKind::IOError,
            FaultCode::Busy => match request {
                Request::Commit => ErrorKind::Conflict,
                _ => if locks {
                    ErrorKind::LockConflict
                } else {
                    ErrorKind::EngineError
                },
            },
            FaultCode::TimedOut => if locks {
                if lock_timeout == 0 {
                    ErrorKind::LockConflict
                } else {
                    ErrorKind::LockTimeout
                }
            } else {
                ErrorKind::EngineError
            },
            FaultCode::NotFound => match request {
                Request::RollbackToSavepoint => ErrorKind::NoSavepoint,
                _ => ErrorKind::EngineError,
            },
            FaultCode::Other => ErrorKind::EngineError,
        };
        Error { kind, message: self.message }
    }

    pub fn new(code: FaultCode, message: String) -> (f: EngineFault)
        ensures
            f.code == code,
            f.message@ == message@,
    {
        EngineFault { code, message }
    }
}

} // verus!
