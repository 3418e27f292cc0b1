//! Capability markers for the accessors of a store.
//!
//! A transaction reads and writes; a snapshot only reads. The markers say so
//! in the types, and the requests that each accessor can issue say so again
//! in their contracts.

use vstd::prelude::*;

verus! {

/// Marker trait for accessors whose operations leave the stored state
/// unchanged.
pub trait Read {

}

/// Marker trait for accessors with operations that change the stored state.
pub trait Write {

}

} // verus!
