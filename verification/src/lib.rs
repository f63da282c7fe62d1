//! Client-side core of a distributed graph-store transaction protocol:
//! linearizable-read vector merging, the transaction lifecycle state
//! machine, and pool-wide read-timestamp propagation.
use vstd::prelude::*;

pub mod api;
pub mod client;
pub mod error;
pub mod numerals;
pub mod read_vector;
pub mod transaction;

pub use api::{Assigned, Mutation, NQuad, Operation, Request, Response, TxnContext};
pub use client::{Dgraph, NodeId, Query};
pub use error::Error;
pub use read_vector::ReadVector;
pub use transaction::Transaction;
pub use read_vector::merge_lin_reads;

verus! {

/// The mathematical meaning of merging read vector `s` into `d`: for every
/// group id, keep the larger of the two timestamps; ids present on only one
/// side are kept as they are.
pub open spec fn merged(d: Map<u64, u64>, s: Map<u64, u64>) -> Map<u64, u64> {
    Map::new(
        |k: u64| d.dom().contains(k) || s.dom().contains(k),
        |k: u64|
            if s.dom().contains(k) && (!d.dom().contains(k) || d[k] < s[k]) {
                s[k]
            } else {
                d[k]
            },
    )
}

} // verus!
