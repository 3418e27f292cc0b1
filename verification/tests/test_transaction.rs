use rocksdb_txn::{
    CfTarget, ColumnFamily, EngineFault, Error, ErrorKind, FaultCode, ReadOptions, Request,
    Transaction, TransactionBegin, TransactionDB, TransactionOptions, WriteOptions,
};
use std::collections::BTreeMap;

type Key = (u64, Vec<u8>);
type Table = BTreeMap<Key, Vec<u8>>;

#[derive(Clone)]
enum Change {
    Put(Vec<u8>),
    Merge(Vec<u8>),
    Delete,
}

struct Pending {
    changes: Vec<(Key, Change)>,
    savepoints: Vec<usize>,
    snapshot: Option<Table>,
}

/// A small in-memory engine with row locks, savepoints, snapshots and a
/// concatenating merge operator. It performs the requests that the library
/// decides on, so that whole scenarios can be run.
struct MemEngine {
    table: Table,
    locks: BTreeMap<Key, u64>,
    pending: BTreeMap<u64, Pending>,
    snapshots: BTreeMap<u64, Table>,
    next: u64,
}

fn cf_id(cf: &CfTarget) -> u64 {
    match cf {
        CfTarget::Default => 0,
        CfTarget::Handle(h) => *h,
    }
}

fn apply(table: &mut Table, key: &Key, change: &Change) {
    match change {
        Change::Put(v) => {
            table.insert(key.clone(), v.clone());
        }
        Change::Merge(v) => {
            table.entry(key.clone()).or_default().extend_from_slice(v);
        }
        Change::Delete => {
            table.remove(key);
        }
    }
}

impl MemEngine {
    fn new() -> MemEngine {
        MemEngine {
            table: Table::new(),
            locks: BTreeMap::new(),
            pending: BTreeMap::new(),
            snapshots: BTreeMap::new(),
            next: 1,
        }
    }

    fn fresh(&mut self) -> u64 {
        self.next += 1;
        self.next
    }

    fn begin(&mut self, request: &Request) -> u64 {
        let snapshot = match request {
            Request::BeginTransaction { tx_options, .. } if tx_options.set_snapshot => {
                Some(self.table.clone())
            }
            Request::BeginTransaction { .. } => None,
            _ => return 0,
        };
        let h = self.fresh();
        self.pending.insert(h, Pending { changes: Vec::new(), savepoints: Vec::new(), snapshot });
        h
    }

    fn lock(&mut self, tx: u64, key: &Key) -> Result<(), EngineFault> {
        match self.locks.get(key) {
            Some(owner) if *owner != tx => Err(EngineFault::from_message(
                "Operation timed out: Timeout waiting to lock key".to_string(),
            )),
            _ => {
                self.locks.insert(key.clone(), tx);
                Ok(())
            }
        }
    }

    fn unlock_all(&mut self, tx: u64) {
        self.locks.retain(|_, owner| *owner != tx);
    }

    fn write(&mut self, tx: u64, key: Key, change: Change) -> Result<(), EngineFault> {
        self.lock(tx, &key)?;
        self.pending.get_mut(&tx).unwrap().changes.push((key, change));
        Ok(())
    }

    fn visible(&self, tx: u64) -> Table {
        let mut table = self.table.clone();
        for (key, change) in &self.pending[&tx].changes {
            apply(&mut table, key, change);
        }
        table
    }

    fn perform(&mut self, tx: u64, request: &Request) -> Result<(), EngineFault> {
        match request {
            Request::Put { cf, key, value } => {
                self.write(tx, (cf_id(cf), key.clone()), Change::Put(value.clone()))
            }
            Request::Merge { cf, key, value } => {
                self.write(tx, (cf_id(cf), key.clone()), Change::Merge(value.clone()))
            }
            Request::Delete { cf, key } => self.write(tx, (cf_id(cf), key.clone()), Change::Delete),
            Request::SetSavepoint => {
                let p = self.pending.get_mut(&tx).unwrap();
                p.savepoints.push(p.changes.len());
                Ok(())
            }
            Request::RollbackToSavepoint => {
                let p = self.pending.get_mut(&tx).unwrap();
                match p.savepoints.pop() {
                    Some(n) => {
                        p.changes.truncate(n);
                        Ok(())
                    }
                    None => Err(EngineFault::from_message("NotFound: ".to_string())),
                }
            }
            Request::Commit => {
                let p = self.pending.get_mut(&tx).unwrap();
                let changes: Vec<(Key, Change)> = p.changes.drain(..).collect();
                p.savepoints.clear();
                for (key, change) in &changes {
                    apply(&mut self.table, key, change);
                }
                self.unlock_all(tx);
                Ok(())
            }
            Request::Rollback => {
                let p = self.pending.get_mut(&tx).unwrap();
                p.changes.clear();
                p.savepoints.clear();
                self.unlock_all(tx);
                Ok(())
            }
            Request::DestroyTransaction => {
                self.pending.remove(&tx);
                self.unlock_all(tx);
                Ok(())
            }
            Request::FreeSnapshot { snapshot } => {
                self.snapshots.remove(snapshot);
                Ok(())
            }
            _ => Err(EngineFault::new(FaultCode::Other, "Not implemented: ".to_string())),
        }
    }

    fn view_for(&self, tx: u64, readopts: &ReadOptions) -> Table {
        match readopts.snapshot {
            Some(s) => self.snapshots[&s].clone(),
            None => self.visible(tx),
        }
    }

    fn read(&mut self, tx: u64, request: &Request) -> Result<Option<Vec<u8>>, EngineFault> {
        match request {
            Request::Get { cf, key, readopts } => {
                Ok(self.view_for(tx, readopts).get(&(cf_id(cf), key.clone())).cloned())
            }
            Request::GetForUpdate { cf, key, readopts, .. } => {
                let k = (cf_id(cf), key.clone());
                self.lock(tx, &k)?;
                Ok(self.view_for(tx, readopts).get(&k).cloned())
            }
            _ => Err(EngineFault::new(FaultCode::Other, "Not implemented: ".to_string())),
        }
    }

    fn get_snapshot(&mut self, tx: u64) -> u64 {
        match self.pending[&tx].snapshot.clone() {
            Some(table) => {
                let h = self.fresh();
                self.snapshots.insert(h, table);
                h
            }
            None => 0,
        }
    }

    fn scan(&mut self, tx: u64, request: &Request) -> Vec<(Vec<u8>, Vec<u8>)> {
        match request {
            Request::CreateIterator { cf, readopts } => self
                .view_for(tx, readopts)
                .into_iter()
                .filter(|((c, _), _)| *c == cf_id(cf))
                .map(|((_, k), v)| (k, v))
                .collect(),
            _ => Vec::new(),
        }
    }
}

/// A database over the in-memory engine. It runs each operation the way an
/// embedding program does: decide, perform, settle.
struct Db {
    engine: MemEngine,
    db: TransactionDB,
}

impl Db {
    fn open() -> Db {
        Db { engine: MemEngine::new(), db: TransactionDB::new(1).unwrap() }
    }

    fn transaction(
        &mut self,
        write_options: &WriteOptions,
        tx_options: &TransactionOptions,
    ) -> Result<Transaction, Error> {
        let request = self.db.transaction(write_options, tx_options);
        let inner = self.engine.begin(&request);
        Transaction::new(inner, tx_options)
    }

    fn transaction_default(&mut self) -> Result<Transaction, Error> {
        let request = self.db.transaction_default();
        let inner = self.engine.begin(&request);
        Transaction::new(inner, &TransactionOptions::default())
    }

    fn run(&mut self, tx: &mut Transaction, decision: Result<Request, Error>) -> Result<(), Error> {
        let request = decision?;
        let reply = self.engine.perform(tx.handle(), &request);
        tx.settle(&request, reply)
    }

    fn read(
        &mut self,
        tx: &Transaction,
        decision: Result<Request, Error>,
    ) -> Result<Option<Vec<u8>>, Error> {
        let request = decision?;
        let reply = self.engine.read(tx.handle(), &request);
        tx.settle_read(&request, reply)
    }

    fn snapshot_get(&mut self, tx: &Transaction, key: &[u8]) -> Result<Option<Vec<u8>>, Error> {
        tx.snapshot()?;
        let inner = self.engine.get_snapshot(tx.handle());
        let snapshot = tx.bind_snapshot(inner)?;
        let request = snapshot.get(key)?;
        let reply = self.engine.read(tx.handle(), &request);
        let out = snapshot.settle_read(&request, reply);
        let free = snapshot.release();
        self.engine.perform(tx.handle(), &free).unwrap();
        out
    }

    fn scan(&mut self, tx: &Transaction, decision: Result<Request, Error>) -> Vec<(Vec<u8>, Vec<u8>)> {
        let request = decision.unwrap();
        self.engine.scan(tx.handle(), &request)
    }

    fn close(&mut self, tx: Transaction) {
        let handle = tx.handle();
        for request in tx.release() {
            self.engine.perform(handle, &request).unwrap();
        }
    }

    fn put_cf(&mut self, cf: Option<&ColumnFamily>, key: &[u8], value: &[u8]) -> Result<(), Error> {
        let mut tx = self.transaction_default()?;
        let d = tx.put_cf_full(cf, key, value);
        let mut r = self.run(&mut tx, d);
        if r.is_ok() {
            let d = tx.commit();
            r = self.run(&mut tx, d);
        }
        self.close(tx);
        r
    }

    fn get_cf(&mut self, cf: Option<&ColumnFamily>, key: &[u8]) -> Result<Option<Vec<u8>>, Error> {
        let tx = self.transaction_default()?;
        let r = self.read(&tx, tx.get_cf_full(cf, key, None));
        self.close(tx);
        r
    }

    fn put(&mut self, key: &[u8], value: &[u8]) -> Result<(), Error> {
        self.put_cf(None, key, value)
    }

    fn get(&mut self, key: &[u8]) -> Result<Option<Vec<u8>>, Error> {
        self.get_cf(None, key)
    }
}

fn put(db: &mut Db, tx: &mut Transaction, key: &[u8], value: &[u8]) -> Result<(), Error> {
    let d = tx.put(key, value);
    db.run(tx, d)
}

fn merge(db: &mut Db, tx: &mut Transaction, key: &[u8], value: &[u8]) -> Result<(), Error> {
    let d = tx.merge(key, value);
    db.run(tx, d)
}

fn delete(db: &mut Db, tx: &mut Transaction, key: &[u8]) -> Result<(), Error> {
    let d = tx.delete(key);
    db.run(tx, d)
}

fn get(db: &mut Db, tx: &Transaction, key: &[u8]) -> Result<Option<Vec<u8>>, Error> {
    db.read(tx, tx.get(key))
}

fn get_for_update(db: &mut Db, tx: &Transaction, key: &[u8]) -> Result<Option<Vec<u8>>, Error> {
    db.read(tx, tx.get_for_update(key))
}

fn commit(db: &mut Db, tx: &mut Transaction) -> Result<(), Error> {
    let d = tx.commit();
    db.run(tx, d)
}

fn rollback(db: &mut Db, tx: &mut Transaction) -> Result<(), Error> {
    let d = tx.rollback();
    db.run(tx, d)
}

fn set_savepoint(db: &mut Db, tx: &mut Transaction) {
    let d = tx.set_savepoint();
    db.run(tx, d).unwrap();
}

fn rollback_to_savepoint(db: &mut Db, tx: &mut Transaction) -> Result<(), Error> {
    let d = tx.rollback_to_savepoint();
    db.run(tx, d)
}

#[test]
pub fn test_transaction() {
    let mut db = Db::open();

    let mut trans = db.transaction_default().unwrap();

    put(&mut db, &mut trans, b"k1", b"v1").unwrap();
    put(&mut db, &mut trans, b"k2", b"v2").unwrap();
    put(&mut db, &mut trans, b"k3", b"v3").unwrap();
    put(&mut db, &mut trans, b"k4", b"v4").unwrap();

    assert_eq!(&*get(&mut db, &trans, b"k1").unwrap().unwrap(), b"v1");
    assert_eq!(&*get(&mut db, &trans, b"k2").unwrap().unwrap(), b"v2");
    assert_eq!(&*get(&mut db, &trans, b"k3").unwrap().unwrap(), b"v3");
    assert_eq!(&*get(&mut db, &trans, b"k4").unwrap().unwrap(), b"v4");

    commit(&mut db, &mut trans).unwrap();

    let mut trans2 = db.transaction_default().unwrap();

    let rows = db.scan(&trans2, trans2.raw_iterator());
    let mut iter = rows.iter();

    let row = iter.next(); // k1
    assert_eq!(row.is_some(), true);
    assert_eq!(row.map(|r| r.0.as_slice()), Some(b"k1".to_vec().as_slice()));
    assert_eq!(row.map(|r| r.1.as_slice()), Some(b"v1".to_vec().as_slice()));

    let row = iter.next(); // k2
    assert_eq!(row.is_some(), true);
    assert_eq!(row.map(|r| r.0.as_slice()), Some(b"k2".to_vec().as_slice()));
    assert_eq!(row.map(|r| r.1.as_slice()), Some(b"v2".to_vec().as_slice()));

    let row = iter.next(); // k3
    assert_eq!(row.is_some(), true);
    assert_eq!(row.map(|r| r.0.as_slice()), Some(b"k3".to_vec().as_slice()));
    assert_eq!(row.map(|r| r.1.as_slice()), Some(b"v3".to_vec().as_slice()));

    let row = iter.next(); // k4
    assert_eq!(row.is_some(), true);
    assert_eq!(row.map(|r| r.0.as_slice()), Some(b"k4".to_vec().as_slice()));
    assert_eq!(row.map(|r| r.1.as_slice()), Some(b"v4".to_vec().as_slice()));

    let row = iter.next(); // past the end
    assert_eq!(row.is_some(), false);
    assert_eq!(row.map(|r| r.0.as_slice()), None);
    assert_eq!(row.map(|r| r.1.as_slice()), None);

    let mut trans3 = db.transaction_default().unwrap();

    assert!(put(&mut db, &mut trans2, b"k2", b"v5").is_ok());
    // Attempt to change the same key in a parallel transaction
    let refused = put(&mut db, &mut trans3, b"k2", b"v6");
    assert!(refused.is_err());
    assert_eq!(refused.unwrap_err().kind(), ErrorKind::LockTimeout);

    commit(&mut db, &mut trans3).unwrap();
    commit(&mut db, &mut trans2).unwrap();
}

#[test]
pub fn test_transaction_rollback_savepoint() {
    let mut db = Db::open();
    let write_options = WriteOptions::default();
    let transaction_options = TransactionOptions::new();

    let mut trans1 = db.transaction(&write_options, &transaction_options).unwrap();
    let mut trans2 = db.transaction(&write_options, &transaction_options).unwrap();

    put(&mut db, &mut trans1, b"k1", b"v1").unwrap();

    let k1_2 = get(&mut db, &trans2, b"k1").unwrap();
    assert!(k1_2.is_none());

    commit(&mut db, &mut trans1).unwrap();

    let mut trans3 = db.transaction(&write_options, &transaction_options).unwrap();

    assert_eq!(&*get(&mut db, &trans2, b"k1").unwrap().unwrap(), b"v1");

    delete(&mut db, &mut trans3, b"k1").unwrap();
    assert!(get(&mut db, &trans3, b"k1").unwrap().is_none());

    assert_eq!(&*get(&mut db, &trans2, b"k1").unwrap().unwrap(), b"v1");

    rollback(&mut db, &mut trans3).unwrap();
    // a transaction that was rolled back has ended and refuses further work
    assert_eq!(get(&mut db, &trans3, b"k1").unwrap_err().kind(), ErrorKind::InvalidState);
    assert_eq!(&*db.get(b"k1").unwrap().unwrap(), b"v1");

    let mut trans4 = db.transaction(&write_options, &transaction_options).unwrap();

    assert_eq!(&*get(&mut db, &trans2, b"k1").unwrap().unwrap(), b"v1");

    delete(&mut db, &mut trans4, b"k1").unwrap();
    set_savepoint(&mut db, &mut trans4);
    put(&mut db, &mut trans4, b"k2", b"v2").unwrap();
    rollback_to_savepoint(&mut db, &mut trans4).unwrap();
    put(&mut db, &mut trans4, b"k3", b"v3").unwrap();
    commit(&mut db, &mut trans4).unwrap();

    assert!(get(&mut db, &trans2, b"k1").unwrap().is_none());
    assert!(get(&mut db, &trans2, b"k2").unwrap().is_none());
    assert_eq!(&*get(&mut db, &trans2, b"k3").unwrap().unwrap(), b"v3");

    commit(&mut db, &mut trans2).unwrap();
}

#[test]
pub fn test_transaction_snapshot() {
    let mut db = Db::open();

    let write_options = WriteOptions::default();
    let transaction_options = TransactionOptions::new();
    let mut trans1 = db.transaction(&write_options, &transaction_options).unwrap();

    let mut transaction_options_snapshot = TransactionOptions::new();
    transaction_options_snapshot.set_snapshot(true);
    // create transaction with snapshot
    let mut trans2 = db.transaction(&write_options, &transaction_options_snapshot).unwrap();

    put(&mut db, &mut trans1, b"k1", b"v1").unwrap();

    let k1_2 = get(&mut db, &trans2, b"k1").unwrap();
    assert!(k1_2.is_none());

    commit(&mut db, &mut trans1).unwrap();
    db.close(trans1);

    commit(&mut db, &mut trans2).unwrap();
    db.close(trans2);

    let mut trans3 = db.transaction(&write_options, &transaction_options_snapshot).unwrap();

    let mut trans4 = db.transaction(&write_options, &transaction_options).unwrap();
    delete(&mut db, &mut trans4, b"k1").unwrap();
    commit(&mut db, &mut trans4).unwrap();
    db.close(trans4);

    // Transaction returns value according to the current state of DB
    assert!(get(&mut db, &trans3, b"k1").unwrap().is_none());

    // Snapshot inside of transaction returns value according to a state of DB at the moment of trans3 creation
    let k1_3 = db.snapshot_get(&trans3, b"k1").unwrap().unwrap();
    assert_eq!(&*k1_3, b"v1");

    commit(&mut db, &mut trans3).unwrap();
    db.close(trans3);

    let mut trans5 = db.transaction(&write_options, &transaction_options_snapshot).unwrap();

    let k1_5 = db.snapshot_get(&trans5, b"k1").unwrap();
    assert!(k1_5.is_none());

    commit(&mut db, &mut trans5).unwrap();
}

#[test]
pub fn test_transaction_get_for_update() {
    let mut db = Db::open();

    db.put(b"k1", b"v1").expect("failed to put k1 v1");
    let v1 = db.get(b"k1").expect("failed to get k1").expect("k1 is not exists");
    assert_eq!(&*v1, b"v1");

    let mut tran1 = db.transaction_default().unwrap();
    let v1 = get_for_update(&mut db, &tran1, b"k1")
        .expect("failed to get for update k1")
        .expect("k1 is not exists");
    assert_eq!(&*v1, b"v1");

    // k1 is locked for updating outside of the current transaction
    assert!(db.put(b"k1", b"v2").is_err());
    // k1 can be updated within the current transaction
    assert!(put(&mut db, &mut tran1, b"k1", b"v11").is_ok());

    let v11 = get_for_update(&mut db, &tran1, b"k1")
        .expect("failed to get for update k1")
        .expect("k1 is not exists");
    assert_eq!(&*v11, b"v11");

    put(&mut db, &mut tran1, b"k2", b"v2").expect("failed to put k2 v2");
    commit(&mut db, &mut tran1).unwrap();

    assert_eq!(&*db.get(b"k1").unwrap().unwrap(), b"v11");
}

#[test]
pub fn test_transaction_get_for_update_cf() {
    let mut db = Db::open();

    let cf1 = ColumnFamily::new(11);

    db.put_cf(Some(&cf1), b"k1", b"v1").expect("failed to put k1 v1");
    let v1 = db.get_cf(Some(&cf1), b"k1").expect("failed to get k1").expect("k1 is not exists");
    assert_eq!(&*v1, b"v1");

    let mut tran1 = db.transaction_default().unwrap();
    let v1 = db
        .read(&tran1, tran1.get_for_update_cf(&cf1, b"k1"))
        .expect("failed to get for update k1")
        .expect("k1 does not exist");
    assert_eq!(&*v1, b"v1");

    assert!(db.put_cf(Some(&cf1), b"k1", b"v2").is_err());

    let v1 = db
        .read(&tran1, tran1.get_for_update_cf(&cf1, b"k1"))
        .expect("failed to get for update k1")
        .expect("k1 does not exist");
    assert_eq!(&*v1, b"v1");

    let d = tran1.put_cf(&cf1, b"k2", b"v2");
    db.run(&mut tran1, d).expect("failed to put k1 v1");
    commit(&mut db, &mut tran1).unwrap();

    // the same key in the default column family was never written
    assert!(db.get(b"k1").unwrap().is_none());
}

#[test]
pub fn test_transaction_merge() {
    let mut db = Db::open();
    let mut trans1 = db.transaction_default().unwrap();

    put(&mut db, &mut trans1, b"k1", b"a").unwrap();
    merge(&mut db, &mut trans1, b"k1", b"b").unwrap();
    merge(&mut db, &mut trans1, b"k1", b"c").unwrap();
    merge(&mut db, &mut trans1, b"k1", b"d").unwrap();
    merge(&mut db, &mut trans1, b"k1", b"efg").unwrap();

    let merged_value = b"abcdefg";

    // transaction contains all the recent updates
    assert_eq!(&*get(&mut db, &trans1, b"k1").unwrap().unwrap(), merged_value);
    // there is no uncommitted value k1 in DB
    assert!(db.get(b"k1").unwrap().is_none());

    commit(&mut db, &mut trans1).unwrap();

    // DB contains all the recent updates after transaction is committed
    assert_eq!(&*db.get(b"k1").unwrap().unwrap(), merged_value);

    // transaction started for the updated DB also contains all the updates from previously committed transaction
    let mut trans2 = db.transaction_default().unwrap();
    assert_eq!(&*get(&mut db, &trans2, b"k1").unwrap().unwrap(), merged_value);

    // Empty transaction can be successfully committed
    commit(&mut db, &mut trans2).unwrap();
}

#[test]
fn disjoint_writers_commit_in_either_order() {
    for a_first in [true, false] {
        let mut db = Db::open();
        let mut a = db.transaction_default().unwrap();
        let mut b = db.transaction_default().unwrap();
        put(&mut db, &mut a, b"a1", b"1").unwrap();
        put(&mut db, &mut b, b"b1", b"2").unwrap();
        put(&mut db, &mut a, b"a2", b"3").unwrap();
        if a_first {
            commit(&mut db, &mut a).unwrap();
            commit(&mut db, &mut b).unwrap();
        } else {
            commit(&mut db, &mut b).unwrap();
            commit(&mut db, &mut a).unwrap();
        }
        assert_eq!(db.get(b"a1").unwrap(), Some(b"1".to_vec()));
        assert_eq!(db.get(b"a2").unwrap(), Some(b"3".to_vec()));
        assert_eq!(db.get(b"b1").unwrap(), Some(b"2".to_vec()));
    }
}

#[test]
fn locked_key_refuses_the_other_writer() {
    let mut db = Db::open();
    db.put(b"k", b"v0").unwrap();
    let mut opts = TransactionOptions::new();
    opts.set_lock_timeout(0);
    let mut a = db.transaction(&WriteOptions::default(), &opts).unwrap();
    let b = db.transaction(&WriteOptions::default(), &opts).unwrap();
    assert_eq!(get_for_update(&mut db, &b, b"k").unwrap(), Some(b"v0".to_vec()));
    let refused = put(&mut db, &mut a, b"k", b"v1").unwrap_err();
    assert_eq!(refused.kind(), ErrorKind::LockConflict);
    assert_eq!(refused.to_string(), "Operation timed out: Timeout waiting to lock key");
    assert!(a.is_open());
    let refused = get_for_update(&mut db, &a, b"k").unwrap_err();
    assert_eq!(refused.kind(), ErrorKind::LockConflict);
    commit(&mut db, &mut a).unwrap();
    assert_eq!(db.get(b"k").unwrap(), Some(b"v0".to_vec()));
}

#[test]
fn put_then_get_in_the_same_transaction() {
    let mut db = Db::open();
    let mut tx = db.transaction_default().unwrap();
    put(&mut db, &mut tx, b"k", b"v").unwrap();
    assert_eq!(get(&mut db, &tx, b"k").unwrap(), Some(b"v".to_vec()));
    assert_eq!(db.get(b"k").unwrap(), None);
    put(&mut db, &mut tx, b"k", b"").unwrap();
    assert_eq!(get(&mut db, &tx, b"k").unwrap(), Some(Vec::new()));
}

#[test]
fn snapshot_never_sees_a_later_commit() {
    let mut db = Db::open();
    db.put(b"k", b"old").unwrap();
    let mut opts = TransactionOptions::new();
    opts.set_snapshot(true);
    let mut tx = db.transaction(&WriteOptions::default(), &opts).unwrap();
    assert_eq!(db.snapshot_get(&tx, b"k").unwrap(), Some(b"old".to_vec()));
    db.put(b"k", b"new").unwrap();
    db.put(b"k2", b"new").unwrap();
    for _ in 0..3 {
        assert_eq!(db.snapshot_get(&tx, b"k").unwrap(), Some(b"old".to_vec()));
        assert_eq!(db.snapshot_get(&tx, b"k2").unwrap(), None);
    }
    assert_eq!(get(&mut db, &tx, b"k").unwrap(), Some(b"new".to_vec()));
    put(&mut db, &mut tx, b"k3", b"mine").unwrap();
    assert_eq!(db.snapshot_get(&tx, b"k3").unwrap(), None);
}

#[test]
fn snapshot_of_a_transaction_without_one_is_an_allocation_failure() {
    let mut db = Db::open();
    let tx = db.transaction_default().unwrap();
    assert_eq!(db.snapshot_get(&tx, b"k").unwrap_err().kind(), ErrorKind::AllocationFailed);
}

#[test]
fn savepoint_rollback_restores_what_gets_see() {
    let mut db = Db::open();
    db.put(b"k0", b"v0").unwrap();
    let mut tx = db.transaction_default().unwrap();
    put(&mut db, &mut tx, b"k1", b"v1").unwrap();
    let keys: [&[u8]; 3] = [b"k0", b"k1", b"k2"];
    let before: Vec<_> = keys.iter().map(|k| get(&mut db, &tx, k).unwrap()).collect();
    let depth = tx.savepoints();
    set_savepoint(&mut db, &mut tx);
    put(&mut db, &mut tx, b"k2", b"v2").unwrap();
    assert_eq!(get(&mut db, &tx, b"k2").unwrap(), Some(b"v2".to_vec()));
    rollback_to_savepoint(&mut db, &mut tx).unwrap();
    let after: Vec<_> = keys.iter().map(|k| get(&mut db, &tx, k).unwrap()).collect();
    assert_eq!(before, after);
    assert_eq!(tx.savepoints(), depth);
    assert_eq!(rollback_to_savepoint(&mut db, &mut tx).unwrap_err().kind(), ErrorKind::NoSavepoint);
}

#[test]
fn dropped_transaction_releases_its_locks() {
    let mut db = Db::open();
    db.put(b"k", b"v").unwrap();
    let mut first = db.transaction_default().unwrap();
    get_for_update(&mut db, &first, b"k").unwrap();
    put(&mut db, &mut first, b"k", b"lost").unwrap();
    let second = db.transaction_default().unwrap();
    assert!(get_for_update(&mut db, &second, b"k").is_err());
    db.close(first);
    assert_eq!(get_for_update(&mut db, &second, b"k").unwrap(), Some(b"v".to_vec()));
}

#[test]
fn lock_then_update_scenario() {
    let mut db = Db::open();
    let mut tx1 = db.transaction_default().unwrap();
    put(&mut db, &mut tx1, b"k1", b"v1").unwrap();
    put(&mut db, &mut tx1, b"k2", b"v2").unwrap();
    commit(&mut db, &mut tx1).unwrap();
    let mut tx2 = db.transaction_default().unwrap();
    assert_eq!(get_for_update(&mut db, &tx2, b"k1").unwrap(), Some(b"v1".to_vec()));
    let refused = db.put(b"k1", b"v2").unwrap_err();
    assert!(matches!(refused.kind(), ErrorKind::LockConflict | ErrorKind::LockTimeout));
    put(&mut db, &mut tx2, b"k1", b"v3").unwrap();
    commit(&mut db, &mut tx2).unwrap();
    assert_eq!(db.get(b"k1").unwrap(), Some(b"v3".to_vec()));
}

#[test]
fn uncommitted_write_is_not_read_by_others() {
    let mut db = Db::open();
    let mut tx1 = db.transaction_default().unwrap();
    put(&mut db, &mut tx1, b"k1", b"v1").unwrap();
    let tx2 = db.transaction_default().unwrap();
    assert_eq!(get(&mut db, &tx2, b"k1").unwrap(), None);
    commit(&mut db, &mut tx1).unwrap();
    let tx3 = db.transaction_default().unwrap();
    assert_eq!(get(&mut db, &tx3, b"k1").unwrap(), Some(b"v1".to_vec()));
}

#[test]
fn factory_begins_with_the_given_options() {
    let db = TransactionDB::new(5).unwrap();
    assert_eq!(db.handle(), 5);
    let mut t = TransactionOptions::new();
    t.set_snapshot(true);
    t.set_lock_timeout(0);
    let w = WriteOptions { sync: true, disable_wal: false };
    assert_eq!(db.transaction(&w, &t), Request::BeginTransaction { write_options: w, tx_options: t });
    assert_eq!(
        db.transaction_default(),
        Request::BeginTransaction {
            write_options: WriteOptions::default(),
            tx_options: TransactionOptions::default(),
        }
    );
    let e = TransactionDB::new(0).err().unwrap();
    assert_eq!(e.kind(), ErrorKind::AllocationFailed);
    assert_eq!(e.to_string(), "Database's inner pointer is NULL");
}
