//! The transaction lifecycle state machine: Active until exactly one
//! commit-or-discard, accumulating conflict keys and a snapshot timestamp
//! from every server-reported context, and propagating read vectors into
//! the owning pool. Network sends happen outside; each operation is split
//! into the request it builds and the handling of the transport's outcome.
use vstd::prelude::*;
use crate::api::{append_keys, Assigned, Mutation, Request, Response, TxnContext, TxnContextV};
use crate::client::Dgraph;
use crate::error::Error;
use crate::merged;
use crate::read_vector::ReadVector;

verus! {

/// The read vector a context carries, or the empty one if it has none yet.
pub open spec fn lr_or_empty(lr: Option<Map<u64, u64>>) -> Map<u64, u64> {
    match lr {
        Some(m) => m,
        None => Map::empty(),
    }
}

/// Whether merging server context `src` into local context `c` succeeds:
/// it does unless `c` is already pinned to a snapshot timestamp and `src`
/// reports a different one.
pub open spec fn merge_ok(c: TxnContextV, src: TxnContextV) -> bool {
    ||| src.lin_read is None
    ||| c.start_ts == 0
    ||| c.start_ts == src.start_ts
}

/// The local context after merging server context `src` into it. A source
/// without a read vector changes nothing. Otherwise the read vectors are
/// merged, an unassigned snapshot timestamp adopts the server's, and on
/// success the server's conflict keys are appended in order, duplicates
/// kept; on a timestamp mismatch the keys are not taken.
pub open spec fn ctx_after_merge(c: TxnContextV, src: TxnContextV) -> TxnContextV {
    match src.lin_read {
        None => c,
        Some(slr) => TxnContextV {
            start_ts: if c.start_ts == 0 {
                src.start_ts
            } else {
                c.start_ts
            },
            keys: if merge_ok(c, src) {
                c.keys + src.keys
            } else {
                c.keys
            },
            aborted: c.aborted,
            lin_read: Some(merged(lr_or_empty(c.lin_read), slr)),
        },
    }
}

/// The context with no snapshot, no keys, no vector: what a response that
/// carries no transaction context amounts to.
pub open spec fn empty_ctx_v() -> TxnContextV {
    TxnContextV { start_ts: 0, keys: Seq::empty(), aborted: false, lin_read: None }
}

/// The context a query response reports, or the empty one.
pub open spec fn response_ctx(r: Response) -> TxnContextV {
    match r.txn {
        Some(c) => c@,
        None => empty_ctx_v(),
    }
}

pub open spec fn response_wf(r: Response) -> bool {
    match r.txn {
        Some(c) => c.wf(),
        None => true,
    }
}

/// The context a mutation result reports, or the empty one.
pub open spec fn assigned_ctx(a: Assigned) -> TxnContextV {
    match a.context {
        Some(c) => c@,
        None => empty_ctx_v(),
    }
}

pub open spec fn assigned_wf(a: Assigned) -> bool {
    match a.context {
        Some(c) => c.wf(),
        None => true,
    }
}

/// One logical unit of work against a pool: its accumulated context and
/// the two one-way flags, `finished` and `mutated`. A transaction is used
/// by one thread and becomes permanently inert once finished.
pub struct Transaction<'a> {
    context: TxnContext,
    finished: bool,
    mutated: bool,
    dg: &'a Dgraph,
}

impl<'a> Transaction<'a> {
    /// The mathematical value of the accumulated context.
    pub closed spec fn ctx(&self) -> TxnContextV {
        self.context@
    }

    /// Whether the transaction has been finalized (committed or discarded).
    pub closed spec fn finished(&self) -> bool {
        self.finished
    }

    /// Whether any mutation was ever attempted on this transaction.
    pub closed spec fn mutated(&self) -> bool {
        self.mutated
    }

    /// Besides the context's own validity: an unfinished transaction is
    /// never aborted, so what a commit sends is never an abort.
    pub closed spec fn wf(&self) -> bool {
        &&& self.context.wf()
        &&& self.dg.wf()
        &&& !self.finished ==> !self.context.aborted
    }

    /// Open a transaction on `d`, seeded with the pool's current shared
    /// read vector: it starts from at least the highest consistency point
    /// any earlier transaction on the pool observed.
    pub fn new(d: &'a Dgraph) -> (t: Transaction<'a>)
        requires
            d.wf(),
        ensures
            t.wf(),
            !t.finished(),
            !t.mutated(),
            t.ctx().start_ts == 0,
            t.ctx().keys == Seq::<Seq<u8>>::empty(),
            !t.ctx().aborted,
            t.ctx().lin_read is Some,
    {
        let mut context = TxnContext::new();
        context.lin_read = Some(d.get_lin_read());
        Transaction { context, finished: false, mutated: false, dg: d }
    }

    pub fn is_finished(&self) -> (b: bool)
        ensures
            b == self.finished(),
    {
        self.finished
    }

    pub fn is_mutated(&self) -> (b: bool)
        ensures
            b == self.mutated(),
    {
        self.mutated
    }

    /// The snapshot timestamp the transaction is pinned to; 0 until the
    /// server assigns one.
    pub fn start_ts(&self) -> (t: u64)
        ensures
            t == self.ctx().start_ts,
    {
        self.context.start_ts
    }

    /// Merge a server-reported context into this transaction and into the
    /// pool's shared read vector. Fails exactly when the transaction is
    /// already pinned to a snapshot timestamp and the server reports a
    /// different one; that failure poisons the transaction and the caller
    /// must discard it.
    pub fn merge_context(&mut self, src: &TxnContext) -> (r: Result<(), Error>)
        requires
            old(self).wf(),
            src.wf(),
        ensures
            final(self).wf(),
            final(self).finished() == old(self).finished(),
            final(self).mutated() == old(self).mutated(),
            final(self).ctx() == ctx_after_merge(old(self).ctx(), src@),
            r matches Ok(_) <==> merge_ok(old(self).ctx(), src@),
            !merge_ok(old(self).ctx(), src@) ==> r == Err::<(), Error>(
                Error::TransactionTs(old(self).ctx().start_ts, src.start_ts),
            ),
    {
        let slr = match &src.lin_read {
            None => {
                return Ok(());
            },
            Some(s) => s,
        };
        let own = self.context.lin_read.take();
        let mut lr = match own {
            Some(l) => l,
            None => ReadVector::new(),
        };
        crate::read_vector::merge_lin_reads(&mut lr, slr);
        self.context.lin_read = Some(lr);
        self.dg.merge_lin_read(slr);

        if self.context.start_ts == 0 {
            self.context.start_ts = src.start_ts;
        }
        if self.context.start_ts != src.start_ts {
            proof {
                assert(self.context@ =~~= ctx_after_merge(old(self).context@, src@));
            }
            return Err(Error::TransactionTs(self.context.start_ts, src.start_ts));
        }
        append_keys(&mut self.context.keys, &src.keys);
        proof {
            assert(self.context@ =~~= ctx_after_merge(old(self).context@, src@));
        }
        Ok(())
    }

    /// Build a query request, as `query_with_vars_request` with no variable
    /// bindings.
    pub fn query_request(&self, q: &str) -> (r: Result<Request, Error>)
        requires
            self.wf(),
        ensures
            self.finished() ==> r == Err::<Request, Error>(Error::Finished),
            !self.finished() ==> (r matches Ok(req) && req.query@ == q@ && req.vars@.len() == 0
                && req.start_ts == self.ctx().start_ts && req.lin_read.wf() && req.lin_read@
                == lr_or_empty(self.ctx().lin_read)),
    {
        self.query_with_vars_request(q, Vec::new())
    }

    /// Build a query request carrying the text, the variable bindings, and
    /// the transaction's current consistency point. Fails with `Finished`
    /// on a finalized transaction; changes nothing either way.
    pub fn query_with_vars_request(&self, q: &str, vars: Vec<(String, String)>) -> (r: Result<
        Request,
        Error,
    >)
        requires
            self.wf(),
        ensures
            self.finished() ==> r == Err::<Request, Error>(Error::Finished),
            !self.finished() ==> (r matches Ok(req) && req.query@ == q@ && req.vars == vars
                && req.start_ts == self.ctx().start_ts && req.lin_read.wf() && req.lin_read@
                == lr_or_empty(self.ctx().lin_read)),
    {
        if self.finished {
            return Err(Error::Finished);
        }
        let lin_read = match &self.context.lin_read {
            Some(rv) => rv.duplicate(),
            None => ReadVector::new(),
        };
        Ok(Request { query: q.to_owned(), vars, start_ts: self.context.start_ts, lin_read })
    }

    /// Apply the transport's outcome for a query: a transport failure is
    /// returned wrapped, untouched state; a response merges the context it
    /// reports, and a timestamp mismatch is surfaced as the typed error,
    /// with the response withheld.
    pub fn query_response(&mut self, outcome: Result<Response, String>) -> (r: Result<
        Response,
        Error,
    >)
        requires
            old(self).wf(),
            !old(self).finished(),
            outcome matches Ok(resp) ==> response_wf(resp),
        ensures
            final(self).wf(),
            final(self).finished() == old(self).finished(),
            final(self).mutated() == old(self).mutated(),
            outcome matches Err(e) ==> (r == Err::<Response, Error>(Error::GrpcError(e)) && final(self).ctx() == old(self).ctx()),
            outcome matches Ok(resp) ==> {
                &&& final(self).ctx() == ctx_after_merge(old(self).ctx(), response_ctx(resp))
                &&& merge_ok(old(self).ctx(), response_ctx(resp)) ==> r == Ok::<Response, Error>(
                    resp,
                )
                &&& !merge_ok(old(self).ctx(), response_ctx(resp)) ==> r == Err::<Response, Error>(
                    Error::TransactionTs(old(self).ctx().start_ts, response_ctx(resp).start_ts),
                )
            },
    {
        match outcome {
            Err(e) => Err(Error::GrpcError(e)),
            Ok(resp) => {
                let merge_res = match &resp.txn {
                    None => Ok(()),
                    Some(c) => self.merge_context(c),
                };
                match merge_res {
                    Ok(_) => Ok(resp),
                    Err(e) => Err(e),
                }
            },
        }
    }

    /// Prepare a mutation: fails with `Finished` on a finalized
    /// transaction; otherwise marks the transaction mutated (before
    /// anything is sent) and stamps the mutation with the snapshot
    /// timestamp, leaving its payload untouched.
    pub fn mutate_request(&mut self, mu: &mut Mutation) -> (r: Result<(), Error>)
        requires
            old(self).wf(),
        ensures
            final(self).wf(),
            final(self).ctx() == old(self).ctx(),
            final(self).finished() == old(self).finished(),
            old(self).finished() ==> (r == Err::<(), Error>(Error::Finished) && final(self).mutated()
                == old(self).mutated() && *final(mu) == *old(mu)),
            !old(self).finished() ==> (r matches Ok(_) && final(self).mutated() && final(mu).start_ts
                == old(self).ctx().start_ts && final(mu).set == old(mu).set && final(mu).del == old(mu).del && final(mu).set_nquads == old(mu).set_nquads && final(mu).del_nquads == old(mu).del_nquads && final(mu).commit_now == old(mu).commit_now),
    {
        if self.finished {
            return Err(Error::Finished);
        }
        self.mutated = true;
        mu.start_ts = self.context.start_ts;
        Ok(())
    }

    /// Apply a mutation's transport failure, as the original failure to
    /// hand back after a best-effort discard: the transaction is finalized,
    /// and if it had mutated, the aborted context to send (whose own
    /// outcome the caller ignores, so the mutation failure stays the single
    /// signal) is returned beside the wrapped error.
    pub fn mutate_failure(&mut self, err: String) -> (r: (Option<TxnContext>, Error))
        requires
            old(self).wf(),
            !old(self).finished(),
        ensures
            final(self).wf(),
            final(self).finished(),
            final(self).mutated() == old(self).mutated(),
            r.1 == Error::Mutation(err),
            !old(self).mutated() ==> (r.0 is None && final(self).ctx() == old(self).ctx()),
            old(self).mutated() ==> (r.0 matches Some(c) && c.wf() && final(self).ctx().aborted
                && final(self).ctx().start_ts == old(self).ctx().start_ts && final(self).ctx().keys
                == old(self).ctx().keys && final(self).ctx().lin_read == old(self).ctx().lin_read
                && c@ == final(self).ctx()),
    {
        let send = self.discard_request();
        (send, Error::Mutation(err))
    }

    /// Apply a successful mutation: if it requested an immediate commit the
    /// transaction is finalized, then the returned context is merged; a
    /// timestamp mismatch is surfaced as is, with the assignment withheld.
    pub fn mutate_success(&mut self, commit_now: bool, ag: Assigned) -> (r: Result<Assigned, Error>)
        requires
            old(self).wf(),
            !old(self).finished(),
            assigned_wf(ag),
        ensures
            final(self).wf(),
            final(self).finished() == commit_now,
            final(self).mutated() == old(self).mutated(),
            final(self).ctx() == ctx_after_merge(old(self).ctx(), assigned_ctx(ag)),
            merge_ok(old(self).ctx(), assigned_ctx(ag)) ==> r == Ok::<Assigned, Error>(ag),
            !merge_ok(old(self).ctx(), assigned_ctx(ag)) ==> r == Err::<Assigned, Error>(
                Error::TransactionTs(old(self).ctx().start_ts, assigned_ctx(ag).start_ts),
            ),
    {
        if commit_now {
            self.finished = true;
        }
        let merge_res = match &ag.context {
            None => Ok(()),
            Some(c) => self.merge_context(c),
        };
        match merge_res {
            Ok(_) => Ok(ag),
            Err(e) => Err(e),
        }
    }

    /// Finalize with commit. Fails with `Finished` if already finalized;
    /// otherwise finalization is irrevocable before anything is sent. A
    /// read-only transaction commits with nothing to send; one that mutated
    /// yields its accumulated context for the commit request.
    pub fn commit_request(&mut self) -> (r: Result<Option<TxnContext>, Error>)
        requires
            old(self).wf(),
        ensures
            final(self).wf(),
            final(self).mutated() == old(self).mutated(),
            final(self).ctx() == old(self).ctx(),
            final(self).finished(),
            old(self).finished() ==> r == Err::<Option<TxnContext>, Error>(Error::Finished),
            !old(self).finished() && !old(self).mutated() ==> (r matches Ok(s) && s is None),
            !old(self).finished() && old(self).mutated() ==> (r matches Ok(s) && s matches Some(c)
                && c.wf() && c@ == old(self).ctx() && !c@.aborted),
    {
        if self.finished {
            return Err(Error::Finished);
        }
        self.finished = true;
        if !self.mutated {
            return Ok(None);
        }
        Ok(Some(self.context.duplicate()))
    }

    /// Finalize with discard. Idempotent: on an already-finalized
    /// transaction it succeeds with no side effect. A read-only transaction
    /// needs nothing sent; one that mutated marks its context aborted and
    /// yields it for the commit-or-abort request.
    pub fn discard_request(&mut self) -> (send: Option<TxnContext>)
        requires
            old(self).wf(),
        ensures
            final(self).wf(),
            final(self).finished(),
            final(self).mutated() == old(self).mutated(),
            old(self).finished() ==> (send is None && final(self).ctx() == old(self).ctx()),
            !old(self).finished() && !old(self).mutated() ==> (send is None && final(self).ctx()
                == old(self).ctx()),
            !old(self).finished() && old(self).mutated() ==> (send matches Some(c) && c.wf()
                && final(self).ctx().aborted && final(self).ctx().start_ts == old(self).ctx().start_ts && final(self).ctx().keys == old(self).ctx().keys && final(self).ctx().lin_read == old(self).ctx().lin_read && c@ == final(self).ctx()),
    {
        if self.finished {
            return None;
        }
        self.finished = true;
        if !self.mutated {
            return None;
        }
        self.context.aborted = true;
        Some(self.context.duplicate())
    }
}

/// The failure mapping of a commit send: a transport error surfaces as a
/// commit error, success passes through.
pub fn commit_response(outcome: Result<(), String>) -> (r: Result<(), Error>)
    ensures
        outcome matches Ok(_) ==> r matches Ok(_),
        outcome matches Err(e) ==> r == Err::<(), Error>(Error::Commit(e)),
{
    match outcome {
        Ok(_) => Ok(()),
        Err(e) => Err(Error::Commit(e)),
    }
}

/// The failure mapping of a discard send: a transport error surfaces as a
/// discard error, success passes through.
pub fn discard_response(outcome: Result<(), String>) -> (r: Result<(), Error>)
    ensures
        outcome matches Ok(_) ==> r matches Ok(_),
        outcome matches Err(e) ==> r == Err::<(), Error>(Error::Discard(e)),
{
    match outcome {
        Ok(_) => Ok(()),
        Err(e) => Err(Error::Discard(e)),
    }
}

} // verus!
