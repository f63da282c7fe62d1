//! The closed error taxonomy of the client: every public operation returns
//! success or exactly one of these typed failures.
use vstd::prelude::*;
use vstd::string::StringExecFns;
use crate::numerals::{dec_rep, render_u64};

verus! {

/// One variant per failure kind: an operation on a finalized transaction,
/// a snapshot-timestamp disagreement with the server, a transport failure,
/// and transport failures during discard, mutation, commit, or UID lookup.
#[derive(Debug, Clone, PartialEq, Eq)]
pub enum Error {
    Finished,
    TransactionTs(u64, u64),
    GrpcError(String),
    Discard(String),
    Mutation(String),
    Commit(String),
    UID(String),
}

/// The diagnostic text each error renders to.
pub open spec fn error_message(e: Error) -> Seq<char> {
    match e {
        Error::Finished => "Transaction has already been committed or discarded"@,
        Error::TransactionTs(txn, src) => "`start_ts` of transaction ("@ + dec_rep(
            txn as nat,
        ) + ") does not match that of source ("@ + dec_rep(src as nat) + ")"@,
        Error::GrpcError(m) => "gRPC error: "@ + m@,
        Error::Discard(m) => "Error discarding transaction: "@ + m@,
        Error::Mutation(m) => "Mutation error: "@ + m@,
        Error::Commit(m) => "Commit error: "@ + m@,
        Error::UID(m) => "UID resolution error: "@ + m@,
    }
}

impl Error {
    /// Render the error as diagnostic text.
    pub fn message(&self) -> (s: String)
        ensures
            s@ == error_message(*self),
    {
        match self {
            Error::Finished => "Transaction has already been committed or discarded".to_owned(),
            Error::TransactionTs(txn, src) => {
                let mut m = "`start_ts` of transaction (".to_owned();
                m.append(render_u64(*txn).as_str());
                m.append(") does not match that of source (");
                m.append(render_u64(*src).as_str());
                m.append(")");
                m
            },
            Error::GrpcError(e) => {
                let mut m = "gRPC error: ".to_owned();
                m.append(e.as_str());
                m
            },
            Error::Discard(e) => {
                let mut m = "Error discarding transaction: ".to_owned();
                m.append(e.as_str());
                m
            },
            Error::Mutation(e) => {
                let mut m = "Mutation error: ".to_owned();
                m.append(e.as_str());
                m
            },
            Error::Commit(e) => {
                let mut m = "Commit error: ".to_owned();
                m.append(e.as_str());
                m
            },
            Error::UID(e) => {
                let mut m = "UID resolution error: ".to_owned();
                m.append(e.as_str());
                m
            },
        }
    }
}

} // verus!
