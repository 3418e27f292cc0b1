//! The transaction handle: one unit of work against the engine.
//!
//! The handle tracks what the engine does not tell twice: whether the
//! transaction is still open, and how many savepoints are set. Every
//! operation first decides, from that state, whether the engine is to be
//! called and with what; [`Transaction::settle`] and
//! [`Transaction::settle_read`] then take the engine's answer.

use crate::engine::{CfTarget, EngineFault, Request, RequestView};
use crate::error::{Error, ErrorView};
use crate::ops::{Read, Write};
use crate::options::{ColumnFamily, ReadOptions, TransactionOptions};
use crate::snapshot::{TransactionSnapshot, TransactionSnapshotView};
use vstd::prelude::*;
use vstd::slice::slice_to_vec;

verus! {

/// Where a transaction stands in its life.
#[derive(Clone, Copy, Debug, PartialEq, Eq)]
pub enum TxStatus {
    /// Work may be done.
    Open,
    /// Ended by a commit that the engine applied.
    Committed,
    /// Ended by a rollback, or by a commit that the engine refused.
    RolledBack,
}

/// The mathematical value of a [`Transaction`].
pub ghost struct TransactionView {
    /// The engine's identity of the transaction.
    pub handle: u64,
    pub status: TxStatus,
    /// The number of savepoints that are set and not yet rolled back to.
    pub savepoints: nat,
    /// Lock wait in milliseconds, as the transaction was begun with.
    pub lock_timeout: i64,
}

/// The view of a decision: the request or the error, by their views.
pub open spec fn decision_view(r: Result<Request, Error>) -> Result<RequestView, ErrorView> {
    match r {
        Ok(request) => Ok(request@),
        Err(e) => Err(e@),
    }
}

/// The view of a settled call without a value.
pub open spec fn unit_view(r: Result<(), Error>) -> Result<(), ErrorView> {
    match r {
        Ok(_) => Ok(()),
        Err(e) => Err(e@),
    }
}

/// The view of a settled read: the bytes found, if any, or the error.
pub open spec fn value_view(r: Result<Option<Vec<u8>>, Error>) -> Result<
    Option<Seq<u8>>,
    ErrorView,
> {
    match r {
        Ok(Some(v)) => Ok(Some(v@)),
        Ok(None) => Ok(None),
        Err(e) => Err(e@),
    }
}

impl TransactionView {
    pub open spec fn is_open(self) -> bool {
        self.status is Open
    }

    /// A fresh transaction on the given engine identity.
    pub open spec fn begun(handle: u64, lock_timeout: i64) -> TransactionView {
        TransactionView { handle, status: TxStatus::Open, savepoints: 0, lock_timeout }
    }

    /// What a transaction in this state decides when the caller wants
    /// `wanted` done: an ended transaction refuses everything, an open one
    /// refuses only a rollback to a savepoint that was never set.
    pub open spec fn decide(self, wanted: RequestView) -> Result<RequestView, ErrorView> {
        if !self.is_open() {
            Err(ErrorView::invalid_state())
        } else if wanted is RollbackToSavepoint && self.savepoints == 0 {
            Err(ErrorView::no_savepoint())
        } else {
            Ok(wanted)
        }
    }

    /// The state with one more savepoint set.
    pub open spec fn with_savepoint(self) -> TransactionView {
        TransactionView { savepoints: self.savepoints + 1, ..self }
    }

    /// The state after the engine answered `request`, with success if `ok`.
    ///
    /// A commit ends the transaction either way: applied, or refused and
    /// released. A rollback ends it if it succeeded. A rollback to a savepoint
    /// that succeeded takes the newest savepoint off. Nothing else changes
    /// the state, and nothing changes the state of an ended transaction.
    pub open spec fn settled(self, request: RequestView, ok: bool) -> TransactionView {
        if !self.is_open() {
            self
        } else {
            match request {
                RequestView::Commit => TransactionView {
                    status: if ok {
                        TxStatus::Committed
                    } else {
                        TxStatus::RolledBack
                    },
                    savepoints: 0,
                    ..self
                },
                RequestView::Rollback => if ok {
                    TransactionView { status: TxStatus::RolledBack, savepoints: 0, ..self }
                } else {
                    self
                },
                RequestView::RollbackToSavepoint => if ok && self.savepoints > 0 {
                    TransactionView { savepoints: (self.savepoints - 1) as nat, ..self }
                } else {
                    self
                },
                _ => self,
            }
        }
    }

    /// The state after the engine answered each of `events` in turn; an event
    /// is a request and whether the engine performed it.
    pub open spec fn settled_all(self, events: Seq<(RequestView, bool)>) -> TransactionView
        decreases events.len(),
    {
        if events.len() == 0 {
            self
        } else {
            self.settled_all(events.drop_last()).settled(events.last().0, events.last().1)
        }
    }

    /// What the caller gets when the engine answered `request` with `reply`.
    pub open spec fn unit_outcome(
        self,
        request: RequestView,
        reply: Result<(), EngineFault>,
    ) -> Result<(), ErrorView> {
        if !self.is_open() {
            Err(ErrorView::invalid_state())
        } else {
            match reply {
                Ok(_) => Ok(()),
                Err(fault) => Err(fault.surfaced(request, self.lock_timeout)),
            }
        }
    }

    /// What the caller gets when the engine answered the read `request` with
    /// `reply`: an absent key is `None`, never an error.
    pub open spec fn value_outcome(
        self,
        request: RequestView,
        reply: Result<Option<Vec<u8>>, EngineFault>,
    ) -> Result<Option<Seq<u8>>, ErrorView> {
        if !self.is_open() {
            Err(ErrorView::invalid_state())
        } else {
            match reply {
                Ok(Some(v)) => Ok(Some(v@)),
                Ok(None) => Ok(None),
                Err(fault) => Err(fault.surfaced(request, self.lock_timeout)),
            }
        }
    }

    /// The calls that release a transaction in this state: an open one is
    /// rolled back first.
    pub open spec fn release_plan(self) -> Seq<RequestView> {
        if self.is_open() {
            seq![RequestView::Rollback, RequestView::DestroyTransaction]
        } else {
            seq![RequestView::DestroyTransaction]
        }
    }
}

/// A transaction against the engine.
#[derive(Debug)]
pub struct Transaction {
    inner: u64,
    status: TxStatus,
    savepoints: u64,
    lock_timeout: i64,
}

impl View for Transaction {
    type V = TransactionView;

    closed spec fn view(&self) -> TransactionView {
        TransactionView {
            handle: self.inner,
            status: self.status,
            savepoints: self.savepoints as nat,
            lock_timeout: self.lock_timeout,
        }
    }
}

impl Read for Transaction {

}

impl Write for Transaction {

}

impl Transaction {
    #[verifier::type_invariant]
    spec fn valid(self) -> bool {
        self.inner != 0
    }

    /// Wraps the identity that the engine gave for a new transaction. The
    /// null identity means that the engine could not create one.
    pub fn new(inner: u64, tx_options: &TransactionOptions) -> (r: Result<Transaction, Error>)
        ensures
            inner != 0 ==> (r matches Ok(t) && t@ == TransactionView::begun(
                inner,
                tx_options.lock_timeout,
            )),
            inner == 0 ==> (r matches Err(e) && e@ == ErrorView::null_transaction()),
    {
        if inner != 0 {
            Ok(
                Transaction {
                    inner,
                    status: TxStatus::Open,
                    savepoints: 0,
                    lock_timeout: tx_options.lock_timeout,
                },
            )
        } else {
            Err(Error::null_transaction())
        }
    }

    /// The engine's identity of this transaction; never null.
    pub fn handle(&self) -> (h: u64)
        ensures
            h == self@.handle,
            h != 0,
    {
        proof {
            use_type_invariant(self);
        }
        self.inner
    }

    pub fn status(&self) -> (s: TxStatus)
        ensures
            s == self@.status,
    {
        self.status
    }

    pub fn is_open(&self) -> (b: bool)
        ensures
            b == self@.is_open(),
    {
        match self.status {
            TxStatus::Open => true,
            _ => false,
        }
    }

    /// The number of savepoints that are set.
    pub fn savepoints(&self) -> (n: u64)
        ensures
            n == self@.savepoints,
    {
        self.savepoints
    }

    pub fn lock_timeout(&self) -> (t: i64)
        ensures
            t == self@.lock_timeout,
    {
        self.lock_timeout
    }

    fn issue(&self, wanted: Request) -> (r: Result<Request, Error>)
        ensures
            decision_view(r) == self@.decide(wanted@),
    {
        if !self.is_open() {
            return Err(Error::invalid_state());
        }
        match wanted {
            Request::RollbackToSavepoint => if self.savepoints == 0 {
                Err(Error::no_savepoint())
            } else {
                Ok(wanted)
            },
            _ => Ok(wanted),
        }
    }

    /// Asks to apply all buffered writes and release all locks.
    pub fn commit(&self) -> (r: Result<Request, Error>)
        ensures
            decision_view(r) == self@.decide(RequestView::Commit),
    {
        self.issue(Request::Commit)
    }

    /// Asks to discard all buffered writes and release all locks.
    pub fn rollback(&self) -> (r: Result<Request, Error>)
        ensures
            decision_view(r) == self@.decide(RequestView::Rollback),
    {
        self.issue(Request::Rollback)
    }

    /// Asks to discard the writes made since the newest savepoint.
    pub fn rollback_to_savepoint(&self) -> (r: Result<Request, Error>)
        ensures
            decision_view(r) == self@.decide(RequestView::RollbackToSavepoint),
    {
        self.issue(Request::RollbackToSavepoint)
    }

    /// Sets a savepoint at the current position of the write set. The engine
    /// cannot refuse it, so the handle counts it at once.
    pub fn set_savepoint(&mut self) -> (r: Result<Request, Error>)
        requires
            old(self)@.is_open() ==> old(self)@.savepoints < u64::MAX,
        ensures
            decision_view(r) == old(self)@.decide(RequestView::SetSavepoint),
            final(self)@ == if old(self)@.is_open() {
                old(self)@.with_savepoint()
            } else {
                old(self)@
            },
    {
        if !self.is_open() {
            return Err(Error::invalid_state());
        }
        proof {
            use_type_invariant(&*self);
        }
        self.savepoints = self.savepoints + 1;
        Ok(Request::SetSavepoint)
    }

    /// Asks for the engine snapshot of this transaction.
    pub fn snapshot(&self) -> (r: Result<Request, Error>)
        ensures
            decision_view(r) == self@.decide(RequestView::GetSnapshot),
    {
        self.issue(Request::GetSnapshot)
    }

    /// Asks for a locking read of `key` in the default column family, with
    /// default read options and an exclusive lock.
    pub fn get_for_update(&self, key: &[u8]) -> (r: Result<Request, Error>)
        ensures
            decision_view(r) == self@.decide(
                RequestView::GetForUpdate {
                    cf: CfTarget::Default,
                    key: key@,
                    readopts: ReadOptions::or_default(None),
                    exclusive: true,
                },
            ),
    {
        let opt = ReadOptions::input_or_default(None);
        self.get_for_update_opt(key, &opt, true)
    }

    /// Asks for a locking read of `key` in the default column family. An
    /// exclusive lock keeps other transactions from locking and from writing
    /// the key; a shared one keeps them from writing it.
    pub fn get_for_update_opt(&self, key: &[u8], readopts: &ReadOptions, exclusive: bool) -> (r:
        Result<Request, Error>)
        ensures
            decision_view(r) == self@.decide(
                RequestView::GetForUpdate {
                    cf: CfTarget::Default,
                    key: key@,
                    readopts: *readopts,
                    exclusive,
                },
            ),
    {
        self.issue(
            Request::GetForUpdate {
                cf: CfTarget::resolve(None),
                key: slice_to_vec(key),
                readopts: *readopts,
                exclusive,
            },
        )
    }

    /// Asks for a locking read of `key` in `cf`, with default read options
    /// and an exclusive lock.
    pub fn get_for_update_cf(&self, cf: &ColumnFamily, key: &[u8]) -> (r: Result<Request, Error>)
        ensures
            decision_view(r) == self@.decide(
                RequestView::GetForUpdate {
                    cf: CfTarget::Handle(cf.inner),
                    key: key@,
                    readopts: ReadOptions::or_default(None),
                    exclusive: true,
                },
            ),
    {
        let opt = ReadOptions::input_or_default(None);
        self.get_for_update_cf_opt(cf, key, &opt, true)
    }

    /// Asks for a locking read of `key` in `cf`.
    pub fn get_for_update_cf_opt(
        &self,
        cf: &ColumnFamily,
        key: &[u8],
        readopts: &ReadOptions,
        exclusive: bool,
    ) -> (r: Result<Request, Error>)
        ensures
            decision_view(r) == self@.decide(
                RequestView::GetForUpdate {
                    cf: CfTarget::Handle(cf.inner),
                    key: key@,
                    readopts: *readopts,
                    exclusive,
                },
            ),
    {
        self.issue(
            Request::GetForUpdate {
                cf: CfTarget::resolve(Some(cf)),
                key: slice_to_vec(key),
                readopts: *readopts,
                exclusive,
            },
        )
    }

    /// Asks for the value of `key`, as this transaction sees it: its own
    /// buffered writes over the committed state, unless the read options pin
    /// a snapshot.
    pub fn get_cf_full(
        &self,
        cf: Option<&ColumnFamily>,
        key: &[u8],
        readopts: Option<&ReadOptions>,
    ) -> (r: Result<Request, Error>)
        ensures
            decision_view(r) == self@.decide(
                RequestView::Get {
                    cf: CfTarget::of(cf),
                    key: key@,
                    readopts: ReadOptions::or_default(readopts),
                },
            ),
    {
        let readopts = ReadOptions::input_or_default(readopts);
        self.issue(Request::Get { cf: CfTarget::resolve(cf), key: slice_to_vec(key), readopts })
    }

    /// Asks to buffer the write of `value` under `key`.
    pub fn put_cf_full(&self, cf: Option<&ColumnFamily>, key: &[u8], value: &[u8]) -> (r: Result<
        Request,
        Error,
    >)
        ensures
            decision_view(r) == self@.decide(
                RequestView::Put { cf: CfTarget::of(cf), key: key@, value: value@ },
            ),
    {
        self.issue(
            Request::Put {
                cf: CfTarget::resolve(cf),
                key: slice_to_vec(key),
                value: slice_to_vec(value),
            },
        )
    }

    /// Asks to buffer a merge of the operand `value` into what is stored
    /// under `key`.
    pub fn merge_cf_full(&self, cf: Option<&ColumnFamily>, key: &[u8], value: &[u8]) -> (r: Result<
        Request,
        Error,
    >)
        ensures
            decision_view(r) == self@.decide(
                RequestView::Merge { cf: CfTarget::of(cf), key: key@, value: value@ },
            ),
    {
        self.issue(
            Request::Merge {
                cf: CfTarget::resolve(cf),
                key: slice_to_vec(key),
                value: slice_to_vec(value),
            },
        )
    }

    /// Asks to buffer the removal of `key`.
    pub fn delete_cf_full(&self, cf: Option<&ColumnFamily>, key: &[u8]) -> (r: Result<
        Request,
        Error,
    >)
        ensures
            decision_view(r) == self@.decide(
                RequestView::Delete { cf: CfTarget::of(cf), key: key@ },
            ),
    {
        self.issue(Request::Delete { cf: CfTarget::resolve(cf), key: slice_to_vec(key) })
    }

    /// Asks for the value of `key` in the default column family.
    pub fn get(&self, key: &[u8]) -> (r: Result<Request, Error>)
        ensures
            decision_view(r) == self@.decide(
                RequestView::Get {
                    cf: CfTarget::Default,
                    key: key@,
                    readopts: ReadOptions::or_default(None),
                },
            ),
    {
        self.get_cf_full(None, key, None)
    }

    /// Asks for the value of `key` in `cf`.
    pub fn get_cf(&self, cf: &ColumnFamily, key: &[u8]) -> (r: Result<Request, Error>)
        ensures
            decision_view(r) == self@.decide(
                RequestView::Get {
                    cf: CfTarget::Handle(cf.inner),
                    key: key@,
                    readopts: ReadOptions::or_default(None),
                },
            ),
    {
        self.get_cf_full(Some(cf), key, None)
    }

    /// Asks to write `value` under `key` in the default column family.
    pub fn put(&self, key: &[u8], value: &[u8]) -> (r: Result<Request, Error>)
        ensures
            decision_view(r) == self@.decide(
                RequestView::Put { cf: CfTarget::Default, key: key@, value: value@ },
            ),
    {
        self.put_cf_full(None, key, value)
    }

    /// Asks to write `value` under `key` in `cf`.
    pub fn put_cf(&self, cf: &ColumnFamily, key: &[u8], value: &[u8]) -> (r: Result<Request, Error>)
        ensures
            decision_view(r) == self@.decide(
                RequestView::Put { cf: CfTarget::Handle(cf.inner), key: key@, value: value@ },
            ),
    {
        self.put_cf_full(Some(cf), key, value)
    }

    /// Asks to merge `value` into `key` in the default column family.
    pub fn merge(&self, key: &[u8], value: &[u8]) -> (r: Result<Request, Error>)
        ensures
            decision_view(r) == self@.decide(
                RequestView::Merge { cf: CfTarget::Default, key: key@, value: value@ },
            ),
    {
        self.merge_cf_full(None, key, value)
    }

    /// Asks to merge `value` into `key` in `cf`.
    pub fn merge_cf(&self, cf: &ColumnFamily, key: &[u8], value: &[u8]) -> (r: Result<
        Request,
        Error,
    >)
        ensures
            decision_view(r) == self@.decide(
                RequestView::Merge { cf: CfTarget::Handle(cf.inner), key: key@, value: value@ },
            ),
    {
        self.merge_cf_full(Some(cf), key, value)
    }

    /// Asks to remove `key` from the default column family.
    pub fn delete(&self, key: &[u8]) -> (r: Result<Request, Error>)
        ensures
            decision_view(r) == self@.decide(
                RequestView::Delete { cf: CfTarget::Default, key: key@ },
            ),
    {
        self.delete_cf_full(None, key)
    }

    /// Asks to remove `key` from `cf`.
    pub fn delete_cf(&self, cf: &ColumnFamily, key: &[u8]) -> (r: Result<Request, Error>)
        ensures
            decision_view(r) == self@.decide(
                RequestView::Delete { cf: CfTarget::Handle(cf.inner), key: key@ },
            ),
    {
        self.delete_cf_full(Some(cf), key)
    }

    /// Asks for a cursor over the default column family with default read
    /// options.
    pub fn raw_iterator(&self) -> (r: Result<Request, Error>)
        ensures
            decision_view(r) == self@.decide(
                RequestView::CreateIterator {
                    cf: CfTarget::Default,
                    readopts: ReadOptions::or_default(None),
                },
            ),
    {
        let opt = ReadOptions::input_or_default(None);
        self.get_raw_iter(&opt)
    }

    /// Binds the snapshot that the engine gave for this transaction. The
    /// null identity means that the engine could not create one.
    pub fn bind_snapshot<'a>(&'a self, inner: u64) -> (r: Result<TransactionSnapshot<'a>, Error>)
        ensures
            inner != 0 ==> (r matches Ok(s) && s@ == TransactionSnapshotView {
                parent: self@,
                handle: inner,
            }),
            inner == 0 ==> (r matches Err(e) && e@ == ErrorView::null_snapshot()),
    {
        TransactionSnapshot::new(self, inner)
    }

    /// Asks for a cursor over the default column family, made with exactly
    /// the given read options.
    pub fn get_raw_iter(&self, readopts: &ReadOptions) -> (r: Result<Request, Error>)
        ensures
            decision_view(r) == self@.decide(
                RequestView::CreateIterator { cf: CfTarget::Default, readopts: *readopts },
            ),
    {
        self.issue(Request::CreateIterator { cf: CfTarget::resolve(None), readopts: *readopts })
    }

    /// Asks for a cursor over `cf_handle`, made with exactly the given read
    /// options.
    pub fn get_raw_iter_cf(&self, cf_handle: &ColumnFamily, readopts: &ReadOptions) -> (r: Result<
        Request,
        Error,
    >)
        ensures
            decision_view(r) == self@.decide(
                RequestView::CreateIterator {
                    cf: CfTarget::Handle(cf_handle.inner),
                    readopts: *readopts,
                },
            ),
    {
        self.issue(
            Request::CreateIterator { cf: CfTarget::resolve(Some(cf_handle)), readopts: *readopts },
        )
    }

    /// Takes the engine's answer to a request that returns no value, and
    /// moves the transaction to its next state.
    pub fn settle(&mut self, request: &Request, reply: Result<(), EngineFault>) -> (r: Result<
        (),
        Error,
    >)
        ensures
            unit_view(r) == old(self)@.unit_outcome(request@, reply),
            final(self)@ == old(self)@.settled(request@, reply is Ok),
    {
        proof {
            use_type_invariant(&*self);
        }
        if !self.is_open() {
            return Err(Error::invalid_state());
        }
        match reply {
            Ok(_) => {
                match request {
                    Request::Commit => {
                        self.status = TxStatus::Committed;
                        self.savepoints = 0;
                    },
                    Request::Rollback => {
                        self.status = TxStatus::RolledBack;
                        self.savepoints = 0;
                    },
                    Request::RollbackToSavepoint => {
                        if self.savepoints > 0 {
                            self.savepoints = self.savepoints - 1;
                        }
                    },
                    _ => {},
                }
                Ok(())
            },
            Err(fault) => {
                let e = fault.surface(request, self.lock_timeout);
                match request {
                    Request::Commit => {
                        self.status = TxStatus::RolledBack;
                        self.savepoints = 0;
                    },
                    _ => {},
                }
                Err(e)
            },
        }
    }

    /// Takes the engine's answer to a read. The state does not change.
    pub fn settle_read(&self, request: &Request, reply: Result<Option<Vec<u8>>, EngineFault>) -> (r:
        Result<Option<Vec<u8>>, Error>)
        ensures
            value_view(r) == self@.value_outcome(request@, reply),
    {
        if !self.is_open() {
            return Err(Error::invalid_state());
        }
        match reply {
            Ok(value) => Ok(value),
            Err(fault) => Err(fault.surface(request, self.lock_timeout)),
        }
    }

    /// Ends the handle and says what the engine must be told: the
    /// transaction is destroyed exactly once, and one that is still open is
    /// rolled back first.
    pub fn release(self) -> (plan: Vec<Request>)
        ensures
            plan@.map_values(|request: Request| request@) == self@.release_plan(),
            plan@.len() == self@.release_plan().len(),
    {
        let mut plan: Vec<Request> = Vec::new();
        if self.is_open() {
            plan.push(Request::Rollback);
        }
        plan.push(Request::DestroyTransaction);
        assert(plan@.map_values(|request: Request| request@) =~= self@.release_plan());
        plan
    }
}

} // verus!
