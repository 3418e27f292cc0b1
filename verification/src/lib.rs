//! Transactional semantics over an embedded key-value storage engine.
//!
//! The engine is a collaborator that lives outside this crate. Every
//! operation of a transaction is therefore split in two verified halves: a
//! decision, which turns the handle's state and the caller's arguments into
//! the [`Request`] the engine has to perform, and a settlement, which turns
//! the engine's reply into the caller's result and the handle's next state.
//! The embedding program performs the request between the two.

pub mod engine;
pub mod error;
pub mod factory;
pub mod laws;
pub mod ops;
pub mod options;
pub mod snapshot;
pub mod transaction;

pub use engine::{
    code_of, fault_kind, starts_with, CfTarget, EngineFault, FaultCode, Request, RequestView,
};
pub use error::{Error, ErrorKind, ErrorView};
pub use factory::{TransactionBegin, TransactionDB};
pub use ops::{Read, Write};
pub use options::{
    lock_wait_of, ColumnFamily, LockWait, ReadOptions, TransactionOptions, WriteOptions,
};
pub use snapshot::{TransactionSnapshot, TransactionSnapshotView};
pub use transaction::{
    decision_view, unit_view, value_view, Transaction, TransactionView, TxStatus,
};
