//! Configuration values that travel with a request to the engine.

use vstd::prelude::*;

verus! {

/// Options of a write. The defaults are the engine's own.
#[derive(Clone, Copy, Debug, PartialEq, Eq)]
pub struct WriteOptions {
    /// Flush the write-ahead log to storage before the write returns.
    pub sync: bool,
    /// Skip the write-ahead log for this write.
    pub disable_wal: bool,
}

impl Default for WriteOptions {
    fn default() -> (o: WriteOptions)
        ensures
            o == (WriteOptions { sync: false, disable_wal: false }),
    {
        WriteOptions { sync: false, disable_wal: false }
    }
}

/// How long a transaction waits for a row lock that another one holds.
#[derive(Clone, Copy, Debug, PartialEq, Eq)]
pub enum LockWait {
    /// Do not wait: a held lock is a failure at once.
    FailImmediately,
    /// Wait for at most this many milliseconds.
    Millis(u64),
    /// Wait until the lock is free.
    Indefinitely,
}

/// Options of a transaction. The defaults are the engine's own: no snapshot
/// at the start, and a lock wait of one second.
#[derive(Clone, Copy, Debug, PartialEq, Eq)]
pub struct TransactionOptions {
    /// Take a snapshot when the transaction begins.
    pub set_snapshot: bool,
    /// Lock wait in milliseconds; zero fails at once, a negative number waits
    /// without limit.
    pub lock_timeout: i64,
}

/// The waiting policy that a lock timeout in milliseconds stands for.
pub open spec fn lock_wait_of(lock_timeout: i64) -> LockWait {
    if lock_timeout == 0 {
        LockWait::FailImmediately
    } else if lock_timeout < 0 {
        LockWait::Indefinitely
    } else {
        LockWait::Millis(lock_timeout as u64)
    }
}

impl Default for TransactionOptions {
    fn default() -> (o: TransactionOptions)
        ensures
            o == (TransactionOptions { set_snapshot: false, lock_timeout: 1000 }),
    {
        TransactionOptions { set_snapshot: false, lock_timeout: 1000 }
    }
}

impl TransactionOptions {
    pub fn new() -> (o: TransactionOptions)
        ensures
            o == (TransactionOptions { set_snapshot: false, lock_timeout: 1000 }),
    {
        TransactionOptions { set_snapshot: false, lock_timeout: 1000 }
    }

    pub fn set_snapshot(&mut self, snapshot: bool)
        ensures
            *final(self) == (TransactionOptions { set_snapshot: snapshot, ..*old(self) }),
    {
        self.set_snapshot = snapshot;
    }

    pub fn set_lock_timeout(&mut self, lock_timeout: i64)
        ensures
            *final(self) == (TransactionOptions { lock_timeout, ..*old(self) }),
    {
        self.lock_timeout = lock_timeout;
    }

    /// The waiting policy that the configured lock timeout stands for.
    pub fn lock_wait(&self) -> (w: LockWait)
        ensures
            w == lock_wait_of(self.lock_timeout),
    {
        if self.lock_timeout == 0 {
            LockWait::FailImmediately
        } else if self.lock_timeout < 0 {
            LockWait::Indefinitely
        } else {
            LockWait::Millis(self.lock_timeout as u64)
        }
    }
}

/// Options of a read. The defaults are the engine's own: checksums are
/// verified, the block cache is filled, and no snapshot is pinned.
#[derive(Clone, Copy, Debug, PartialEq, Eq)]
pub struct ReadOptions {
    pub verify_checksums: bool,
    pub fill_cache: bool,
    /// The engine snapshot that the read must see, if any.
    pub snapshot: Option<u64>,
}

impl Default for ReadOptions {
    fn default() -> (o: ReadOptions)
        ensures
            o == (ReadOptions { verify_checksums: true, fill_cache: true, snapshot: None }),
    {
        ReadOptions { verify_checksums: true, fill_cache: true, snapshot: None }
    }
}

impl ReadOptions {
    /// The caller's options, or the defaults where the caller gave none.
    pub open spec fn or_default(readopts: Option<&ReadOptions>) -> ReadOptions {
        match readopts {
            Some(ro) => *ro,
            None => ReadOptions { verify_checksums: true, fill_cache: true, snapshot: None },
        }
    }

    /// These options with the snapshot replaced by the given one.
    pub open spec fn pinned_to(self, snapshot: u64) -> ReadOptions {
        ReadOptions { snapshot: Some(snapshot), ..self }
    }

    pub fn input_or_default(readopts: Option<&ReadOptions>) -> (o: ReadOptions)
        ensures
            o == Self::or_default(readopts),
    {
        match readopts {
            Some(ro) => *ro,
            None => ReadOptions { verify_checksums: true, fill_cache: true, snapshot: None },
        }
    }

    /// Pins every read made with these options to the given engine snapshot.
    pub fn set_snapshot(&mut self, snapshot: u64)
        ensures
            *final(self) == old(self).pinned_to(snapshot),
    {
        self.snapshot = Some(snapshot);
    }
}

/// A column family of the store, by the handle the engine gave for it.
#[derive(Clone, Copy, Debug, PartialEq, Eq)]
pub struct ColumnFamily {
    pub inner: u64,
}

impl ColumnFamily {
    pub fn new(inner: u64) -> (cf: ColumnFamily)
        ensures
            cf.inner == inner,
    {
        ColumnFamily { inner }
    }

    pub fn handle(&self) -> (h: u64)
        ensures
            h == self.inner,
    {
        self.inner
    }
}

} // verus!
