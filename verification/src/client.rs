//! The replica pool: the set of configured endpoints, the pool-wide
//! linearizable-read vector, the predicate-value lookup cache, and the
//! blank-node counter, shared by every transaction drawn from the pool.
use vstd::prelude::*;
use vstd::rwlock::{RwLock, RwLockPredicate};
use vstd::string::StringExecFns;
use crate::error::Error;
use crate::numerals::{dec_rep, lemma_dec_rep_injective, render_u64};
use crate::read_vector::{merge_lin_reads, ReadVector};

verus! {

/// A node identifier: either a server-assigned UID or a client-local
/// blank-node placeholder.
#[derive(Debug, PartialEq, Eq)]
pub enum NodeId {
    UID(String),
    Blank(String),
}

/// The decoded shape of a UID point-lookup payload: one list of
/// (field name, value) rows.
#[derive(Debug)]
pub struct Query {
    pub q: Vec<Vec<(String, String)>>,
}

/// Lock invariant of the pool's shared read vector: it stays well formed.
pub struct RvPred {}

impl RwLockPredicate<ReadVector> for RvPred {
    open spec fn inv(self, v: ReadVector) -> bool {
        v.wf()
    }
}

/// Lock invariant of the lookup cache, keyed by (predicate, value) pairs.
pub struct CachePred {}

impl RwLockPredicate<Vec<((String, String), NodeId)>> for CachePred {
    open spec fn inv(self, v: Vec<((String, String), NodeId)>) -> bool {
        true
    }
}

/// Lock invariant of the blank-node counter.
pub struct CounterPred {}

impl RwLockPredicate<u64> for CounterPred {
    open spec fn inv(self, v: u64) -> bool {
        true
    }
}

/// The identifier minted for the `n`-th blank node of a pool.
pub open spec fn blank_name(n: nat) -> Seq<char> {
    "_:blank-"@ + dec_rep(n)
}

/// `r` is a blank node whose identifier some counter value yields.
pub open spec fn is_blank_ident(r: NodeId) -> bool {
    &&& r matches NodeId::Blank(s)
    &&& exists|n: nat| s@ == blank_name(n)
}

/// Blank-node identifiers minted from distinct counter values never
/// collide, so a pool whose counter never repeats mints pairwise distinct
/// placeholders no matter how many callers draw from it.
pub proof fn lemma_blank_names_distinct(m: nat, n: nat)
    requires
        m != n,
    ensures
        blank_name(m) != blank_name(n),
{
    reveal_strlit("_:blank-");
    if blank_name(m) == blank_name(n) {
        assert(blank_name(m).skip(8) =~= dec_rep(m));
        assert(blank_name(n).skip(8) =~= dec_rep(n));
        lemma_dec_rep_injective(m, n);
    }
}

/// The blank node for counter value `n`.
pub fn blank_node(n: u64) -> (r: NodeId)
    ensures
        r matches NodeId::Blank(s) && s@ == blank_name(n as nat),
        is_blank_ident(r),
{
    let mut s = "_:blank-".to_owned();
    s.append(render_u64(n).as_str());
    let r = NodeId::Blank(s);
    proof {
        assert(r matches NodeId::Blank(t) && t@ == blank_name(n as nat));
    }
    r
}

/// Relies on rand::random_range: a draw from the non-empty range
/// `0..len` is uniform over it and therefore strictly below `len`.
#[verifier::external_body]
fn random_index(len: usize) -> (i: usize)
    requires
        len > 0,
    ensures
        i < len,
{
    rand::random_range(0..len)
}

/// The wildcard object value a deletion statement uses to drop every edge
/// of a predicate.
pub open spec fn star_all() -> Seq<char> {
    "_STAR_ALL_"@
}

/// The point-lookup text for the first entity whose `p` equals `o`.
pub open spec fn uid_query_text(p: Seq<char>, o: Seq<char>) -> Seq<char> {
    "{\n\tq(func: eq("@ + p + ", "@ + o + "), first: 1) {\n\t\tuid\n\t\t"@ + p + "\n\t}\n}"@
}

/// The triple pattern a failed UID lookup reports.
pub open spec fn triple_text(p: Seq<char>, o: Seq<char>) -> Seq<char> {
    "<?> <"@ + p + "> \""@ + o + "\""@
}

/// Build the point-lookup query for the first entity whose `p` equals `o`.
pub fn uid_query(p: &str, o: &str) -> (q: String)
    ensures
        q@ == uid_query_text(p@, o@),
{
    let mut q = "{\n\tq(func: eq(".to_owned();
    q.append(p);
    q.append(", ");
    q.append(o);
    q.append("), first: 1) {\n\t\tuid\n\t\t");
    q.append(p);
    q.append("\n\t}\n}");
    q
}

/// The failure mapping of a schema/administrative call: a transport error
/// is surfaced wrapped, success is passed through.
pub fn alter_response(outcome: Result<(), String>) -> (r: Result<(), Error>)
    ensures
        outcome matches Ok(_) ==> r matches Ok(_),
        outcome matches Err(e) ==> r == Err::<(), Error>(Error::GrpcError(e)),
{
    match outcome {
        Ok(_) => Ok(()),
        Err(e) => Err(Error::GrpcError(e)),
    }
}

/// A pool of replica endpoints plus the state every transaction drawn from
/// it shares: the pool-wide read vector, the lookup cache, and the
/// blank-node counter. Endpoint handles themselves live with the transport;
/// the pool tracks how many there are and picks one per call.
pub struct Dgraph {
    endpoints: usize,
    lin_read: RwLock<ReadVector, RvPred>,
    nodes: RwLock<Vec<((String, String), NodeId)>, CachePred>,
    counter: RwLock<u64, CounterPred>,
}

impl Dgraph {
    /// The locks guard what they are meant to: in particular, the shared
    /// read vector can only ever hold a well-formed vector.
    pub closed spec fn wf(&self) -> bool {
        &&& self.lin_read.pred() == (RvPred {  })
        &&& self.nodes.pred() == (CachePred {  })
        &&& self.counter.pred() == (CounterPred {  })
    }

    /// How many endpoints the pool was configured with.
    pub closed spec fn endpoint_count(&self) -> usize {
        self.endpoints
    }

    /// A pool over `endpoints` configured endpoint handles, with an empty
    /// shared read vector, an empty cache, and the counter at zero.
    pub fn new(endpoints: usize) -> (d: Dgraph)
        ensures
            d.wf(),
            d.endpoint_count() == endpoints,
    {
        Dgraph {
            endpoints,
            lin_read: RwLock::new(ReadVector::new(), Ghost(RvPred {  })),
            nodes: RwLock::new(Vec::new(), Ghost(CachePred {  })),
            counter: RwLock::new(0, Ghost(CounterPred {  })),
        }
    }

    /// How many endpoints the pool holds.
    pub fn num_endpoints(&self) -> (n: usize)
        ensures
            n == self.endpoint_count(),
    {
        self.endpoints
    }

    /// Pick one endpoint uniformly at random: no stickiness, no health
    /// tracking.
    pub fn any_client(&self) -> (i: usize)
        requires
            self.endpoint_count() > 0,
        ensures
            i < self.endpoint_count(),
    {
        random_index(self.endpoints)
    }

    /// Merge `src` into the pool's shared read vector under a short-lived
    /// exclusive lock, held only for the in-memory merge.
    pub fn merge_lin_read(&self, src: &ReadVector)
        requires
            self.wf(),
            src.wf(),
    {
        let (mut rv, handle) = self.lin_read.acquire_write();
        merge_lin_reads(&mut rv, src);
        handle.release_write(rv);
    }

    /// A copy of the pool's shared read vector, taken under a read lock;
    /// it seeds every new transaction.
    pub fn get_lin_read(&self) -> (r: ReadVector)
        requires
            self.wf(),
        ensures
            r.wf(),
    {
        let handle = self.lin_read.acquire_read();
        let r = handle.borrow().duplicate();
        handle.release_read();
        r
    }

    /// Mint a fresh blank node from the pool-wide counter. Counter values
    /// are handed out one at a time under the lock, so concurrent callers
    /// never share one; the counter wraps only after every 64-bit value has
    /// been spent.
    pub fn get_blank(&self) -> (r: NodeId)
        requires
            self.wf(),
        ensures
            is_blank_ident(r),
    {
        let (n, handle) = self.counter.acquire_write();
        let next = if n == u64::MAX {
            0
        } else {
            n + 1
        };
        handle.release_write(next);
        blank_node(n)
    }

    /// Record a resolved UID under its (predicate, value) pair, under the
    /// write lock.
    fn cache_node(&self, key: (String, String), node: NodeId)
        requires
            self.wf(),
    {
        let (mut cache, handle) = self.nodes.acquire_write();
        cache.push((key, node));
        handle.release_write(cache);
    }

    /// Decide what a UID point lookup yielded: a match resolves (and is
    /// cached) as the server UID, no match mints a blank node, and a failed
    /// query reports the triple pattern that could not be resolved.
    pub fn resolve_uid(&self, p: &str, o: &str, lookup: Result<Option<(String, String)>, String>)
        -> (r: Result<NodeId, Error>)
        requires
            self.wf(),
        ensures
            lookup matches Err(_) ==> (r matches Err(e) && e matches Error::UID(s) && s@
                == triple_text(p@, o@)),
            lookup matches Ok(Some(kv)) ==> (r matches Ok(nid) && nid matches NodeId::UID(u) && u@
                == kv.1@),
            lookup matches Ok(None) ==> (r matches Ok(nid) && is_blank_ident(nid)),
    {
        match lookup {
            Err(_) => {
                let mut s = "<?> <".to_owned();
                s.append(p);
                s.append("> \"");
                s.append(o);
                s.append("\"");
                Err(Error::UID(s))
            },
            Ok(Some((k, v))) => {
                self.cache_node((p.to_owned(), k), NodeId::UID(v.clone()));
                Ok(NodeId::UID(v))
            },
            Ok(None) => Ok(self.get_blank()),
        }
    }

    /// Append to `mu`'s deletion list one statement per predicate, deleting
    /// every edge of that predicate on `uid` via the wildcard object.
    pub fn delete_edges(&self, mu: &mut crate::api::Mutation, uid: &str, predicates: Vec<String>)
        ensures
            final(mu).del@.len() == old(mu).del@.len() + predicates@.len(),
            forall|k: int|
                0 <= k < old(mu).del@.len() ==> final(mu).del@[k] == old(mu).del@[k],
            forall|k: int|
                0 <= k < predicates@.len() ==> {
                    let q = #[trigger] final(mu).del@[old(mu).del@.len() + k];
                    &&& q.subject@ == uid@
                    &&& q.predicate@ == predicates@[k]@
                    &&& q.object_value@ == star_all()
                },
            final(mu).set == old(mu).set,
            final(mu).set_nquads == old(mu).set_nquads,
            final(mu).del_nquads == old(mu).del_nquads,
            final(mu).start_ts == old(mu).start_ts,
            final(mu).commit_now == old(mu).commit_now,
    {
        let ghost orig = mu.del@;
        let n = predicates.len();
        let mut i: usize = 0;
        while i < n
            invariant
                n == predicates@.len(),
                i <= n,
                mu.del@.len() == orig.len() + i,
                forall|k: int| 0 <= k < orig.len() ==> mu.del@[k] == orig[k],
                forall|k: int|
                    0 <= k < i ==> {
                        let q = #[trigger] mu.del@[orig.len() + k];
                        &&& q.subject@ == uid@
                        &&& q.predicate@ == predicates@[k]@
                        &&& q.object_value@ == star_all()
                    },
                mu.set == old(mu).set,
                mu.set_nquads == old(mu).set_nquads,
                mu.del_nquads == old(mu).del_nquads,
                mu.start_ts == old(mu).start_ts,
                mu.commit_now == old(mu).commit_now,
            decreases n - i,
        {
            let nquad = crate::api::NQuad {
                subject: uid.to_owned(),
                predicate: predicates[i].clone(),
                object_value: "_STAR_ALL_".to_owned(),
            };
            mu.del.push(nquad);
            i += 1;
        }
    }
}

} // verus!
