//! The database handle as a factory of transactions.

use crate::engine::{Request, RequestView};
use crate::error::{Error, ErrorView};
use crate::options::{TransactionOptions, WriteOptions};
use vstd::prelude::*;

verus! {

/// Begins transactions.
pub trait TransactionBegin: Sized {
    /// Asks the engine to begin a transaction with the given options.
    fn transaction(&self, write_options: &WriteOptions, tx_options: &TransactionOptions) -> (r:
        Request)
        ensures
            r@ == (RequestView::BeginTransaction {
                write_options: *write_options,
                tx_options: *tx_options,
            }),
    ;

    /// Asks the engine to begin a transaction with default options.
    fn transaction_default(&self) -> (r: Request)
        ensures
            r@ == (RequestView::BeginTransaction {
                write_options: WriteOptions { sync: false, disable_wal: false },
                tx_options: TransactionOptions { set_snapshot: false, lock_timeout: 1000 },
            }),
    ;
}

/// A database that runs transactions, by the handle the engine gave for it.
#[derive(Debug)]
pub struct TransactionDB {
    inner: u64,
}

impl View for TransactionDB {
    type V = u64;

    closed spec fn view(&self) -> u64 {
        self.inner
    }
}

impl TransactionBegin for TransactionDB {
    fn transaction(&self, write_options: &WriteOptions, tx_options: &TransactionOptions) -> (r:
        Request) {
        Request::BeginTransaction { write_options: *write_options, tx_options: *tx_options }
    }

    fn transaction_default(&self) -> (r: Request) {
        let write_options = WriteOptions::default();
        let transaction_options = TransactionOptions::default();
        self.transaction(&write_options, &transaction_options)
    }
}

impl TransactionDB {
    #[verifier::type_invariant]
    spec fn valid(self) -> bool {
        self.inner != 0
    }

    /// Wraps the identity that the engine gave for an open database. The
    /// null identity means that the engine could not open it.
    pub fn new(inner: u64) -> (r: Result<TransactionDB, Error>)
        ensures
            inner != 0 ==> (r matches Ok(db) && db@ == inner),
            inner == 0 ==> (r matches Err(e) && e@ == ErrorView::null_database()),
    {
        if inner != 0 {
            Ok(TransactionDB { inner })
        } else {
            Err(Error::null_database())
        }
    }

    /// The engine's identity of this database; never null.
    pub fn handle(&self) -> (h: u64)
        ensures
            h == self@,
            h != 0,
    {
        proof {
            use_type_invariant(self);
        }
        self.inner
    }
}

} // verus!
