//! In-memory models of the wire messages the cluster exchanges with the
//! client. The transport encodes and carries them; the logic here only
//! builds and reads them.
use vstd::prelude::*;
use crate::read_vector::ReadVector;

verus! {

/// The views of a sequence of opaque conflict-key byte strings.
pub open spec fn bytes_views(s: Seq<Vec<u8>>) -> Seq<Seq<u8>> {
    Seq::new(s.len(), |i: int| s[i]@)
}

/// Per-transaction context as the server reports and the client accumulates
/// it: snapshot timestamp, conflict keys, abort flag, and (optionally) the
/// read vector observed so far.
#[derive(Debug)]
pub struct TxnContext {
    pub start_ts: u64,
    pub keys: Vec<Vec<u8>>,
    pub aborted: bool,
    pub lin_read: Option<ReadVector>,
}

/// The mathematical value of a `TxnContext`.
#[verifier::ext_equal]
pub struct TxnContextV {
    pub start_ts: u64,
    pub keys: Seq<Seq<u8>>,
    pub aborted: bool,
    pub lin_read: Option<Map<u64, u64>>,
}

impl View for TxnContext {
    type V = TxnContextV;

    open spec fn view(&self) -> TxnContextV {
        TxnContextV {
            start_ts: self.start_ts,
            keys: bytes_views(self.keys@),
            aborted: self.aborted,
            lin_read: match self.lin_read {
                Some(rv) => Some(rv@),
                None => None,
            },
        }
    }
}

impl TxnContext {
    /// Well-formed when the read vector it carries, if any, is.
    pub open spec fn wf(&self) -> bool {
        match self.lin_read {
            Some(rv) => rv.wf(),
            None => true,
        }
    }

    /// A fresh context: no snapshot yet, no keys, not aborted, no vector.
    pub fn new() -> (c: TxnContext)
        ensures
            c.wf(),
            c.start_ts == 0,
            c@.keys == Seq::<Seq<u8>>::empty(),
            !c.aborted,
            c.lin_read is None,
    {
        let c = TxnContext { start_ts: 0, keys: Vec::new(), aborted: false, lin_read: None };
        proof {
            assert(c@.keys =~= Seq::<Seq<u8>>::empty());
        }
        c
    }

    /// An independent copy with the same mathematical value.
    pub fn duplicate(&self) -> (c: TxnContext)
        requires
            self.wf(),
        ensures
            c.wf(),
            c@ == self@,
    {
        let lin_read = match &self.lin_read {
            Some(rv) => Some(rv.duplicate()),
            None => None,
        };
        let mut keys: Vec<Vec<u8>> = Vec::new();
        append_keys(&mut keys, &self.keys);
        let c = TxnContext { start_ts: self.start_ts, keys, aborted: self.aborted, lin_read };
        proof {
            assert(c@ =~~= self@);
        }
        c
    }
}

/// An independent copy of one opaque byte string.
pub fn clone_bytes(v: &Vec<u8>) -> (r: Vec<u8>)
    ensures
        r@ == v@,
{
    let n = v.len();
    let mut r: Vec<u8> = Vec::new();
    let mut i: usize = 0;
    while i < n
        invariant
            n == v@.len(),
            i <= n,
            r@ =~= v@.take(i as int),
        decreases n - i,
    {
        r.push(v[i]);
        i += 1;
    }
    proof {
        assert(r@ =~= v@);
    }
    r
}

/// Append copies of all of `src`'s byte strings to `dst`, preserving order.
pub fn append_keys(dst: &mut Vec<Vec<u8>>, src: &Vec<Vec<u8>>)
    ensures
        bytes_views(final(dst)@) == bytes_views(old(dst)@) + bytes_views(src@),
{
    let ghost orig = dst@;
    let n = src.len();
    let mut i: usize = 0;
    while i < n
        invariant
            n == src@.len(),
            i <= n,
            bytes_views(dst@) =~= bytes_views(orig) + bytes_views(src@).take(i as int),
        decreases n - i,
    {
        let ghost pre = dst@;
        dst.push(clone_bytes(&src[i]));
        proof {
            assert(dst@ == pre.push(dst@[pre.len() as int]));
            assert(dst@[pre.len() as int]@ == src@[i as int]@);
            let post = bytes_views(orig) + bytes_views(src@).take(i + 1);
            assert(bytes_views(pre).len() == pre.len());
            assert(pre.len() == orig.len() + i);
            assert(post.len() == dst@.len());
            assert forall|k: int| 0 <= k < dst@.len() implies bytes_views(dst@)[k] == post[k] by {
                if k < pre.len() {
                    assert(dst@[k] == pre[k]);
                    assert(bytes_views(pre)[k] == (bytes_views(orig) + bytes_views(src@).take(
                        i as int,
                    ))[k]);
                } else {
                    assert(dst@[k]@ == src@[i as int]@);
                }
            }
            assert(bytes_views(dst@) =~= post);
        }
        i += 1;
    }
    proof {
        assert(bytes_views(src@).take(n as int) =~= bytes_views(src@));
    }
}

/// A query request: the text, its variable bindings, and the consistency
/// point (snapshot timestamp and read vector) it must be answered at.
#[derive(Debug)]
pub struct Request {
    pub query: String,
    pub vars: Vec<(String, String)>,
    pub start_ts: u64,
    pub lin_read: ReadVector,
}

/// A query response: the raw payload (decoding is the caller's concern)
/// and the transaction context the server reports.
#[derive(Debug)]
pub struct Response {
    pub json: Vec<u8>,
    pub txn: Option<TxnContext>,
}

/// One graph edge statement.
#[derive(Debug)]
pub struct NQuad {
    pub subject: String,
    pub predicate: String,
    pub object_value: String,
}

/// A mutation: edges to set and delete, raw N-Quad payloads, the snapshot
/// it is stamped with, and whether it commits immediately.
#[derive(Debug)]
pub struct Mutation {
    pub set: Vec<NQuad>,
    pub del: Vec<NQuad>,
    pub set_nquads: Vec<u8>,
    pub del_nquads: Vec<u8>,
    pub start_ts: u64,
    pub commit_now: bool,
}

impl Mutation {
    /// An empty mutation.
    pub fn new() -> (m: Mutation)
        ensures
            m.set@.len() == 0,
            m.del@.len() == 0,
            m.set_nquads@.len() == 0,
            m.del_nquads@.len() == 0,
            m.start_ts == 0,
            !m.commit_now,
    {
        Mutation {
            set: Vec::new(),
            del: Vec::new(),
            set_nquads: Vec::new(),
            del_nquads: Vec::new(),
            start_ts: 0,
            commit_now: false,
        }
    }
}

/// What a successful mutation returns: the server-assigned identifiers and
/// the transaction context it reports.
#[derive(Debug)]
pub struct Assigned {
    pub uids: Vec<(String, String)>,
    pub context: Option<TxnContext>,
}

/// A schema or administrative change.
#[derive(Debug)]
pub struct Operation {
    pub schema: String,
    pub drop_attr: String,
    pub drop_all: bool,
}

} // verus!
