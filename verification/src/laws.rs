//! What holds of every transaction, stated over the views of the handles
//! and proved from the definitions that the operations' contracts use.

use crate::engine::{fault_kind, CfTarget, EngineFault, FaultCode, RequestView};
use crate::error::ErrorView;
use crate::options::{ColumnFamily, ReadOptions};
use crate::snapshot::TransactionSnapshotView;
use crate::transaction::TransactionView;
use vstd::prelude::*;

verus! {

/// An ended transaction is ended for good: it refuses every operation with
/// an invalid-state error, and no answer of the engine changes its state.
pub proof fn lemma_ended_is_final(t: TransactionView, wanted: RequestView, ok: bool)
    requires
        !t.is_open(),
    ensures
        t.decide(wanted) == Err::<RequestView, ErrorView>(ErrorView::invalid_state()),
        t.settled(wanted, ok) == t,
{
}

/// Only a commit or a successful rollback ends a transaction: after any other
/// answer it is open as before, with the same engine identity.
pub proof fn lemma_open_until_ended(t: TransactionView, request: RequestView, ok: bool)
    requires
        t.is_open(),
    ensures
        t.settled(request, ok).handle == t.handle,
        !t.settled(request, ok).is_open() <==> (request is Commit || (request is Rollback && ok)),
        t.settled(RequestView::Commit, true).status is Committed,
        t.settled(RequestView::Commit, false).status is RolledBack,
        t.settled(RequestView::Rollback, true).status is RolledBack,
{
}

/// However long a transaction is worked on, it keeps its engine identity and
/// its lock timeout, and once it has ended it stays as it ended.
pub proof fn lemma_life_goes_one_way(t: TransactionView, events: Seq<(RequestView, bool)>)
    ensures
        t.settled_all(events).handle == t.handle,
        t.settled_all(events).lock_timeout == t.lock_timeout,
        !t.is_open() ==> t.settled_all(events) == t,
        t.settled_all(events).is_open() ==> t.is_open(),
    decreases events.len(),
{
    if events.len() > 0 {
        lemma_life_goes_one_way(t, events.drop_last());
    }
}

/// A transaction is open after a run of events exactly if it was open
/// before and the engine was asked for no commit and performed no rollback.
pub proof fn lemma_open_while_not_ended(t: TransactionView, events: Seq<(RequestView, bool)>)
    requires
        t.is_open(),
    ensures
        t.settled_all(events).is_open() <==> forall|i: int|
            0 <= i < events.len() ==> !(#[trigger] events[i].0 is Commit || (events[i].0 is Rollback
                && events[i].1)),
    decreases events.len(),
{
    if events.len() > 0 {
        let head = events.drop_last();
        lemma_open_while_not_ended(t, head);
        lemma_life_goes_one_way(t, head);
        assert forall|i: int| 0 <= i < head.len() implies head[i] == events[i] by {}
        if t.settled_all(events).is_open() {
            assert(t.settled_all(head).is_open());
        } else if t.settled_all(head).is_open() {
            let last = events.len() - 1;
            assert(events[last].0 is Commit || (events[last].0 is Rollback && events[last].1));
        } else {
            let i = choose|i: int|
                0 <= i < head.len() && (#[trigger] head[i].0 is Commit || (head[i].0 is Rollback
                    && head[i].1));
            assert(events[i].0 is Commit || (events[i].0 is Rollback && events[i].1));
        }
    }
}

/// Reads and writes, however many and whatever the engine answered, leave
/// the handle's state alone.
pub proof fn lemma_reads_and_writes_keep_the_state(
    t: TransactionView,
    events: Seq<(RequestView, bool)>,
)
    requires
        forall|i: int|
            0 <= i < events.len() ==> (#[trigger] events[i].0.acquires_lock()
                || events[i].0.reads_only()),
    ensures
        t.settled_all(events) == t,
    decreases events.len(),
{
    if events.len() > 0 {
        let head = events.drop_last();
        assert forall|i: int| 0 <= i < head.len() implies (#[trigger] head[i].0.acquires_lock()
            || head[i].0.reads_only()) by {
            assert(head[i] == events[i]);
        }
        lemma_reads_and_writes_keep_the_state(t, head);
        let last = events.len() - 1;
        assert(events[last].0.acquires_lock() || events[last].0.reads_only());
    }
}

/// Setting a savepoint, reading and writing any number of times, and rolling
/// back to the savepoint leaves the handle in the state it had before the
/// savepoint was set: the rollback is let through to the engine, and once
/// the engine performed it the savepoint count is what it was.
pub proof fn lemma_savepoint_round_trip_over_any_work(
    t: TransactionView,
    work: Seq<(RequestView, bool)>,
)
    requires
        t.is_open(),
        forall|i: int|
            0 <= i < work.len() ==> (#[trigger] work[i].0.acquires_lock()
                || work[i].0.reads_only()),
    ensures
        t.with_savepoint().settled_all(work).decide(RequestView::RollbackToSavepoint) == Ok::<
            RequestView,
            ErrorView,
        >(RequestView::RollbackToSavepoint),
        t.with_savepoint().settled_all(work).settled(RequestView::RollbackToSavepoint, true) == t,
{
    lemma_reads_and_writes_keep_the_state(t.with_savepoint(), work);
}

/// The handle adds nothing to a write followed by a read of the same key.
/// Whatever the engine answered to the write, the read is let through to the
/// same column family with the same key and with no snapshot pinned, so that
/// the engine answers it from the transaction's own writes; and what the
/// engine finds is what the caller gets.
pub proof fn lemma_read_after_write_passes_through(
    t: TransactionView,
    cf: Option<&ColumnFamily>,
    key: Seq<u8>,
    value: Seq<u8>,
    write_ok: bool,
    found: Option<Vec<u8>>,
)
    requires
        t.is_open(),
    ensures
        ({
            let put = RequestView::Put { cf: CfTarget::of(cf), key, value };
            let get = RequestView::Get {
                cf: CfTarget::of(cf),
                key,
                readopts: ReadOptions::or_default(None),
            };
            let after = t.settled(put, write_ok);
            &&& t.decide(put) == Ok::<RequestView, ErrorView>(put)
            &&& after.decide(get) == Ok::<RequestView, ErrorView>(get)
            &&& get.snapshot() is None
            &&& after.value_outcome(get, Ok(found)) == Ok::<Option<Seq<u8>>, ErrorView>(
                match found {
                    Some(v) => Some(v@),
                    None => None,
                },
            )
        }),
{
}

/// Setting a savepoint, writing, and rolling back to the savepoint leaves
/// the handle in the state it had before the savepoint was set, whether or
/// not the engine accepted the write: the write and the rollback are both
/// let through to the engine, and the savepoint count is what it was.
pub proof fn lemma_savepoint_round_trip(t: TransactionView, write: RequestView, write_ok: bool)
    requires
        t.is_open(),
        write.writes(),
    ensures
        t.with_savepoint().decide(write) == Ok::<RequestView, ErrorView>(write),
        t.with_savepoint().settled(write, write_ok).decide(RequestView::RollbackToSavepoint) == Ok::<
            RequestView,
            ErrorView,
        >(RequestView::RollbackToSavepoint),
        t.with_savepoint().settled(write, write_ok).settled(RequestView::RollbackToSavepoint, true)
            == t,
{
}

/// Savepoints are a stack: each rollback to a savepoint that the engine
/// performed takes one off, and with none left the next one is refused
/// without the engine being asked.
pub proof fn lemma_savepoints_are_counted(t: TransactionView)
    requires
        t.is_open(),
    ensures
        t.savepoints == 0 ==> t.decide(RequestView::RollbackToSavepoint) == Err::<
            RequestView,
            ErrorView,
        >(ErrorView::no_savepoint()),
        t.savepoints > 0 ==> t.settled(RequestView::RollbackToSavepoint, true).savepoints
            == t.savepoints - 1,
        t.settled(RequestView::RollbackToSavepoint, false) == t,
{
}

/// Every read through a snapshot that reaches the engine carries that
/// snapshot in its read options, whatever options the caller gave, keeps the
/// caller's other options, and is a pure read.
pub proof fn lemma_snapshot_reads_are_pinned(
    s: TransactionSnapshotView,
    cf: Option<&ColumnFamily>,
    key: Seq<u8>,
    readopts: Option<&ReadOptions>,
    request: RequestView,
)
    requires
        s.decide_get(cf, key, readopts) == Ok::<RequestView, ErrorView>(request) || (
        readopts is Some && s.decide_iter(cf, readopts->0) == Ok::<RequestView, ErrorView>(
            request,
        )),
    ensures
        request.snapshot() == Some(s.handle),
        request.reads_only(),
        !request.writes(),
        request matches RequestView::Get { readopts: sent, cf: target, .. } ==> {
            &&& target == CfTarget::of(cf)
            &&& sent.fill_cache == ReadOptions::or_default(readopts).fill_cache
            &&& sent.verify_checksums == ReadOptions::or_default(readopts).verify_checksums
        },
{
}

/// Repeating a read through a snapshot asks the engine the same thing again:
/// the decision depends on nothing that an answer to a read can change.
pub proof fn lemma_snapshot_reads_repeat(
    s: TransactionSnapshotView,
    cf: Option<&ColumnFamily>,
    key: Seq<u8>,
    readopts: Option<&ReadOptions>,
    between: RequestView,
    ok: bool,
)
    requires
        between.reads_only() || between is GetForUpdate || between.writes(),
    ensures
        (TransactionSnapshotView { parent: s.parent.settled(between, ok), ..s }).decide_get(
            cf,
            key,
            readopts,
        ) == s.decide_get(cf, key, readopts),
{
}

/// A refusal by the engine is never swallowed: the caller of an open
/// transaction gets an error that carries the engine's message.
pub proof fn lemma_faults_surface(t: TransactionView, request: RequestView, fault: EngineFault)
    requires
        t.is_open(),
    ensures
        t.unit_outcome(request, Err(fault)) matches Err(e) && e.message == fault.message@,
        t.value_outcome(request, Err(fault)) matches Err(e) && e.message == fault.message@,
{
}

/// A row lock that is held elsewhere and a write conflict at commit stay
/// apart: the first is reported on the operation that asked for the lock, as
/// a lock conflict if the transaction does not wait and as a lock timeout if
/// the wait ran out, the second on the commit alone.
pub proof fn lemma_lock_and_conflict_stay_apart(
    request: RequestView,
    code: FaultCode,
    lock_timeout: i64,
)
    ensures
        fault_kind(request, code, lock_timeout) is Conflict <==> (request is Commit
            && code is Busy),
        fault_kind(request, code, lock_timeout) is LockTimeout <==> (request.acquires_lock()
            && code is TimedOut && lock_timeout != 0),
        fault_kind(request, code, lock_timeout) is LockConflict <==> (request.acquires_lock() && (
        code is Busy || (code is TimedOut && lock_timeout == 0))),
        fault_kind(request, code, lock_timeout) is NoSavepoint <==> (request is RollbackToSavepoint
            && code is NotFound),
        fault_kind(request, code, lock_timeout) is IOError <==> code is IoError,
        !(fault_kind(request, code, lock_timeout) is InvalidState),
        !(fault_kind(request, code, lock_timeout) is AllocationFailed),
{
}

/// Releasing a transaction destroys it exactly once, as the last call, and
/// rolls it back before that exactly if it was left open.
pub proof fn lemma_release_cleans_up(t: TransactionView)
    ensures
        t.release_plan().last() == RequestView::DestroyTransaction,
        t.release_plan().drop_last() == if t.is_open() {
            seq![RequestView::Rollback]
        } else {
            Seq::<RequestView>::empty()
        },
{
    assert(t.release_plan().drop_last() =~= if t.is_open() {
        seq![RequestView::Rollback]
    } else {
        Seq::<RequestView>::empty()
    });
}

} // verus!
