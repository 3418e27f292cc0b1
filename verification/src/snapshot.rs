//! A read-only view of the store, frozen at the moment it was taken.
//!
//! A snapshot belongs to one transaction and cannot outlive it. Every read
//! that goes through it is rewritten to carry the snapshot in its read
//! options before it takes the transaction's own read path, so it sees
//! neither what the transaction wrote since nor what others committed.

use crate::engine::{CfTarget, EngineFault, Request, RequestView};
use crate::error::{Error, ErrorView};
use crate::ops::Read;
use crate::options::{ColumnFamily, ReadOptions};
use crate::transaction::{decision_view, value_view, Transaction, TransactionView};
use vstd::prelude::*;

verus! {

/// A snapshot of the store, bound to the transaction it was taken in.
#[derive(Debug)]
pub struct TransactionSnapshot<'a> {
    db: &'a Transaction,
    inner: u64,
}

/// The mathematical value of a [`TransactionSnapshot`].
pub ghost struct TransactionSnapshotView {
    /// The transaction that the snapshot belongs to.
    pub parent: TransactionView,
    /// The engine's identity of the snapshot.
    pub handle: u64,
}

impl TransactionSnapshotView {
    /// The read options that a read through the snapshot reaches the engine
    /// with: the caller's, or the defaults, with the snapshot put in.
    pub open spec fn read_options(self, readopts: Option<&ReadOptions>) -> ReadOptions {
        ReadOptions::or_default(readopts).pinned_to(self.handle)
    }

    /// What a lookup through the snapshot decides.
    pub open spec fn decide_get(
        self,
        cf: Option<&ColumnFamily>,
        key: Seq<u8>,
        readopts: Option<&ReadOptions>,
    ) -> Result<RequestView, ErrorView> {
        self.parent.decide(
            RequestView::Get { cf: CfTarget::of(cf), key, readopts: self.read_options(readopts) },
        )
    }

    /// What a cursor through the snapshot decides.
    pub open spec fn decide_iter(self, cf: Option<&ColumnFamily>, readopts: &ReadOptions) -> Result<
        RequestView,
        ErrorView,
    > {
        self.parent.decide(
            RequestView::CreateIterator {
                cf: CfTarget::of(cf),
                readopts: self.read_options(Some(readopts)),
            },
        )
    }
}

impl<'a> View for TransactionSnapshot<'a> {
    type V = TransactionSnapshotView;

    closed spec fn view(&self) -> TransactionSnapshotView {
        TransactionSnapshotView { parent: self.db@, handle: self.inner }
    }
}

impl<'a> Read for TransactionSnapshot<'a> {

}

impl<'a> TransactionSnapshot<'a> {
    #[verifier::type_invariant]
    spec fn valid(self) -> bool {
        self.inner != 0
    }

    /// Wraps the snapshot that the engine gave for `db`. The null identity
    /// means that the engine could not create one.
    pub fn new(db: &'a Transaction, inner: u64) -> (r: Result<TransactionSnapshot<'a>, Error>)
        ensures
            inner != 0 ==> (r matches Ok(s) && s@ == TransactionSnapshotView {
                parent: db@,
                handle: inner,
            }),
            inner == 0 ==> (r matches Err(e) && e@ == ErrorView::null_snapshot()),
    {
        if inner != 0 {
            Ok(TransactionSnapshot { db, inner })
        } else {
            Err(Error::null_snapshot())
        }
    }

    /// The engine's identity of this snapshot; never null.
    pub fn const_handle(&self) -> (h: u64)
        ensures
            h == self@.handle,
            h != 0,
    {
        proof {
            use_type_invariant(self);
        }
        self.inner
    }

    /// The transaction that the snapshot belongs to.
    pub fn transaction(&self) -> (db: &'a Transaction)
        ensures
            db@ == self@.parent,
    {
        self.db
    }

    /// Asks for the value of `key` as it was when the snapshot was taken.
    pub fn get_cf_full(
        &self,
        cf: Option<&ColumnFamily>,
        key: &[u8],
        readopts: Option<&ReadOptions>,
    ) -> (r: Result<Request, Error>)
        ensures
            decision_view(r) == self@.decide_get(cf, key@, readopts),
    {
        let mut ro = ReadOptions::input_or_default(readopts);
        ro.set_snapshot(self.inner);
        self.db.get_cf_full(cf, key, Some(&ro))
    }

    /// Asks for the value of `key` in the default column family as it was
    /// when the snapshot was taken.
    pub fn get(&self, key: &[u8]) -> (r: Result<Request, Error>)
        ensures
            decision_view(r) == self@.decide_get(None, key@, None),
    {
        self.get_cf_full(None, key, None)
    }

    /// Asks for the value of `key` in `cf` as it was when the snapshot was
    /// taken.
    pub fn get_cf(&self, cf: &ColumnFamily, key: &[u8]) -> (r: Result<Request, Error>)
        ensures
            decision_view(r) == self@.decide_get(Some(cf), key@, None),
    {
        self.get_cf_full(Some(cf), key, None)
    }

    /// Asks for a cursor over the default column family as it was when the
    /// snapshot was taken.
    pub fn get_raw_iter(&self, readopts: &ReadOptions) -> (r: Result<Request, Error>)
        ensures
            decision_view(r) == self@.decide_iter(None, readopts),
    {
        let mut readopts = *readopts;
        readopts.set_snapshot(self.inner);
        self.db.get_raw_iter(&readopts)
    }

    /// Asks for a cursor over `cf_handle` as it was when the snapshot was
    /// taken.
    pub fn get_raw_iter_cf(&self, cf_handle: &ColumnFamily, readopts: &ReadOptions) -> (r: Result<
        Request,
        Error,
    >)
        ensures
            decision_view(r) == self@.decide_iter(Some(cf_handle), readopts),
    {
        let mut readopts = *readopts;
        readopts.set_snapshot(self.inner);
        self.db.get_raw_iter_cf(cf_handle, &readopts)
    }

    /// Takes the engine's answer to a read made through the snapshot.
    pub fn settle_read(&self, request: &Request, reply: Result<Option<Vec<u8>>, EngineFault>) -> (r:
        Result<Option<Vec<u8>>, Error>)
        ensures
            value_view(r) == self@.parent.value_outcome(request@, reply),
    {
        self.db.settle_read(request, reply)
    }

    /// Ends the snapshot and says what the engine must be told: the snapshot
    /// is freed, exactly once, and the transaction is left as it is.
    pub fn release(self) -> (request: Request)
        ensures
            request@ == (RequestView::FreeSnapshot { snapshot: self@.handle }),
    {
        Request::FreeSnapshot { snapshot: self.inner }
    }
}

} // verus!
