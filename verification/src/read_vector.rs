//! Linearizable-read vectors: a finite map from shard-group id to the
//! highest timestamp the client has observed that group reach, together
//! with the merge operation that never lets an observed timestamp regress.
use vstd::prelude::*;
use crate::merged;

verus! {

/// A key occurs somewhere in the entry sequence.
pub open spec fn key_in(s: Seq<(u64, u64)>, k: u64) -> bool {
    exists|i: int| 0 <= i < s.len() && s[i].0 == k
}

/// No two entries share a group id.
pub open spec fn distinct_keys(s: Seq<(u64, u64)>) -> bool {
    forall|i: int, j: int| 0 <= i < j < s.len() ==> s[i].0 != s[j].0
}

/// The finite map denoted by a sequence of (group id, timestamp) entries;
/// later entries win, though under `distinct_keys` no key repeats.
pub open spec fn map_of(s: Seq<(u64, u64)>) -> Map<u64, u64>
    decreases s.len(),
{
    if s.len() == 0 {
        Map::empty()
    } else {
        map_of(s.drop_last()).insert(s.last().0, s.last().1)
    }
}

pub proof fn lemma_map_of_dom(s: Seq<(u64, u64)>)
    ensures
        forall|k: u64| #[trigger] map_of(s).dom().contains(k) <==> key_in(s, k),
    decreases s.len(),
{
    if s.len() > 0 {
        lemma_map_of_dom(s.drop_last());
        assert forall|k: u64| key_in(s, k) implies #[trigger] map_of(s).dom().contains(k) by {
            let i = choose|i: int| 0 <= i < s.len() && s[i].0 == k;
            if i < s.len() - 1 {
                assert(s.drop_last()[i] == s[i]);
                assert(key_in(s.drop_last(), k));
                assert(map_of(s.drop_last()).dom().contains(k));
            } else {
                assert(s.last() == s[i]);
            }
        }
        assert forall|k: u64| #[trigger] map_of(s).dom().contains(k) implies key_in(s, k) by {
            if k != s.last().0 {
                assert(map_of(s.drop_last()).dom().contains(k));
                assert(key_in(s.drop_last(), k));
                let i = choose|i: int| 0 <= i < s.drop_last().len() && s.drop_last()[i].0 == k;
                assert(s.drop_last()[i] == s[i]);
                assert(s[i].0 == k);
            } else {
                assert(s[s.len() - 1].0 == k);
            }
        }
    }
}

pub proof fn lemma_map_of_index(s: Seq<(u64, u64)>, i: int)
    requires
        distinct_keys(s),
        0 <= i < s.len(),
    ensures
        map_of(s).dom().contains(s[i].0),
        map_of(s)[s[i].0] == s[i].1,
    decreases s.len(),
{
    if i == s.len() - 1 {
    } else {
        lemma_map_of_index(s.drop_last(), i);
        assert(s.drop_last()[i] == s[i]);
        assert(s[i].0 != s.last().0);
    }
}

pub proof fn lemma_map_of_update(s: Seq<(u64, u64)>, i: int, v: u64)
    requires
        distinct_keys(s),
        0 <= i < s.len(),
    ensures
        map_of(s.update(i, (s[i].0, v))) == map_of(s).insert(s[i].0, v),
    decreases s.len(),
{
    let s2 = s.update(i, (s[i].0, v));
    if i == s.len() - 1 {
        assert(s2.drop_last() =~= s.drop_last());
        assert(map_of(s2) =~= map_of(s).insert(s[i].0, v));
    } else {
        lemma_map_of_update(s.drop_last(), i, v);
        assert(s2.drop_last() =~= s.drop_last().update(i, (s[i].0, v)));
        assert(s[i].0 != s.last().0);
        assert(map_of(s2) =~= map_of(s).insert(s[i].0, v));
    }
}

/// A read vector: per-group minimum acceptable timestamps, with each group
/// id recorded at most once.
#[derive(Debug)]
pub struct ReadVector {
    entries: Vec<(u64, u64)>,
}

impl ReadVector {
    /// The vector is well formed when no group id repeats.
    pub closed spec fn wf(&self) -> bool {
        distinct_keys(self.entries@)
    }

    pub closed spec fn view(&self) -> Map<u64, u64> {
        map_of(self.entries@)
    }

    /// An empty read vector: no group has a required timestamp yet.
    pub fn new() -> (r: ReadVector)
        ensures
            r.wf(),
            r@ == Map::<u64, u64>::empty(),
    {
        ReadVector { entries: Vec::new() }
    }

    /// Number of groups with a recorded timestamp.
    pub fn len(&self) -> (n: usize)
        requires
            self.wf(),
        ensures
            n == self@.dom().len(),
    {
        proof {
            lemma_entries_dom_len(self.entries@);
        }
        self.entries.len()
    }

    /// Set the timestamp recorded for group `gid` to exactly `ts`.
    pub fn insert(&mut self, gid: u64, ts: u64)
        requires
            old(self).wf(),
        ensures
            final(self).wf(),
            final(self)@ == old(self)@.insert(gid, ts),
    {
        proof {
            lemma_map_of_dom(self.entries@);
        }
        match find_key(&self.entries, gid) {
            Some(j) => {
                proof {
                    lemma_map_of_update(self.entries@, j as int, ts);
                }
                self.entries[j] = (gid, ts);
            }
            None => {
                self.entries.push((gid, ts));
                proof {
                    assert(self.entries@.drop_last() =~= old(self).entries@);
                }
            }
        }
    }

    /// The timestamp recorded for group `gid`, if any.
    pub fn get(&self, gid: u64) -> (r: Option<u64>)
        requires
            self.wf(),
        ensures
            r == if self@.dom().contains(gid) {
                Some(self@[gid])
            } else {
                None::<u64>
            },
    {
        proof {
            lemma_map_of_dom(self.entries@);
        }
        match find_key(&self.entries, gid) {
            Some(j) => {
                proof {
                    lemma_map_of_index(self.entries@, j as int);
                }
                Some(self.entries[j].1)
            }
            None => None,
        }
    }

    /// An independent copy with the same contents.
    pub fn duplicate(&self) -> (r: ReadVector)
        requires
            self.wf(),
        ensures
            r.wf(),
            r@ == self@,
    {
        let n = self.entries.len();
        let mut out: Vec<(u64, u64)> = Vec::new();
        let mut i: usize = 0;
        while i < n
            invariant
                n == self.entries@.len(),
                i <= n,
                out@ =~= self.entries@.take(i as int),
            decreases n - i,
        {
            out.push(self.entries[i]);
            i += 1;
        }
        proof {
            assert(out@ =~= self.entries@);
        }
        ReadVector { entries: out }
    }
}

proof fn lemma_entries_dom_len(s: Seq<(u64, u64)>)
    requires
        distinct_keys(s),
    ensures
        map_of(s).dom().len() == s.len(),
        map_of(s).dom().finite(),
    decreases s.len(),
{
    if s.len() > 0 {
        lemma_entries_dom_len(s.drop_last());
        lemma_map_of_dom(s.drop_last());
        assert(!key_in(s.drop_last(), s.last().0));
    }
}

/// Index of the entry carrying group id `g`, if one exists.
fn find_key(entries: &Vec<(u64, u64)>, g: u64) -> (r: Option<usize>)
    ensures
        match r {
            Some(j) => j < entries@.len() && entries@[j as int].0 == g,
            None => !key_in(entries@, g),
        },
{
    let n = entries.len();
    let mut j: usize = 0;
    while j < n
        invariant
            n == entries@.len(),
            j <= n,
            forall|k: int| 0 <= k < j ==> entries@[k].0 != g,
        decreases n - j,
    {
        if entries[j].0 == g {
            return Some(j);
        }
        j += 1;
    }
    None
}

/// Merge `src` into `dst`: for every group id in `src`, raise `dst`'s
/// timestamp to `src`'s when `dst` has none or a strictly smaller one;
/// entries of `dst` that `src` does not mention are untouched.
pub fn merge_lin_reads(dst: &mut ReadVector, src: &ReadVector)
    requires
        old(dst).wf(),
        src.wf(),
    ensures
        final(dst).wf(),
        final(dst)@ == merged(old(dst)@, src@),
{
    if src.entries.len() == 0 {
        proof {
            assert(dst@ =~= merged(old(dst)@, src@));
        }
        return;
    }

    let n = src.entries.len();
    let mut i: usize = 0;
    while i < n
        invariant
            src.wf(),
            dst.wf(),
            n == src.entries@.len(),
            i <= n,
            dst@ == merged(old(dst)@, map_of(src.entries@.take(i as int))),
        decreases n - i,
    {
        let (g, t) = src.entries[i];
        let ghost pre = dst.entries@;
        let ghost m_pre = map_of(src.entries@.take(i as int));
        proof {
            // `g` has not occurred among the first `i` entries of `src`,
            // and one more entry of `src` extends the merged-in map by `g`.
            lemma_map_of_dom(src.entries@.take(i as int));
            assert(!key_in(src.entries@.take(i as int), g)) by {
                if key_in(src.entries@.take(i as int), g) {
                    let jj = choose|jj: int|
                        0 <= jj < i && src.entries@.take(i as int)[jj].0 == g;
                    assert(src.entries@[jj].0 == src.entries@[i as int].0);
                }
            }
            assert(src.entries@.take(i + 1).drop_last() =~= src.entries@.take(i as int));
            assert(src.entries@.take(i + 1).last() == (g, t));
            assert(map_of(src.entries@.take(i + 1)) == m_pre.insert(g, t));
            lemma_map_of_dom(pre);
        }
        match find_key(&dst.entries, g) {
            Some(j) => {
                proof {
                    lemma_map_of_index(pre, j as int);
                }
                if dst.entries[j].1 < t {
                    proof {
                        lemma_map_of_update(pre, j as int, t);
                        lemma_merge_step_low(old(dst)@, m_pre, g, t);
                    }
                    dst.entries[j] = (g, t);
                    proof {
                        assert(dst.entries@ =~= pre.update(j as int, (g, t)));
                        assert(distinct_keys(dst.entries@)) by {
                            assert(forall|k: int|
                                0 <= k < pre.len() ==> dst.entries@[k].0 == pre[k].0);
                        }
                    }
                } else {
                    proof {
                        lemma_merge_step_high(old(dst)@, m_pre, g, t);
                    }
                }
            }
            None => {
                proof {
                    lemma_merge_step_absent(old(dst)@, m_pre, g, t);
                }
                dst.entries.push((g, t));
                proof {
                    assert(dst.entries@.drop_last() =~= pre);
                    assert(distinct_keys(dst.entries@)) by {
                        assert(forall|k: int| 0 <= k < pre.len() ==> dst.entries@[k] == pre[k]);
                    }
                }
            }
        }
        proof {
            assert(dst@ == merged(old(dst)@, map_of(src.entries@.take(i + 1))));
        }
        i += 1;
    }
    proof {
        assert(src.entries@.take(n as int) =~= src.entries@);
    }
}

proof fn lemma_merge_step_high(o: Map<u64, u64>, m: Map<u64, u64>, g: u64, t: u64)
    requires
        !m.dom().contains(g),
        merged(o, m).dom().contains(g),
        merged(o, m)[g] >= t,
    ensures
        merged(o, m.insert(g, t)) == merged(o, m),
{
    assert(merged(o, m.insert(g, t)) =~= merged(o, m));
}

proof fn lemma_merge_step_low(o: Map<u64, u64>, m: Map<u64, u64>, g: u64, t: u64)
    requires
        !m.dom().contains(g),
        merged(o, m).dom().contains(g),
        merged(o, m)[g] < t,
    ensures
        merged(o, m.insert(g, t)) == merged(o, m).insert(g, t),
{
    assert(merged(o, m.insert(g, t)) =~= merged(o, m).insert(g, t));
}

proof fn lemma_merge_step_absent(o: Map<u64, u64>, m: Map<u64, u64>, g: u64, t: u64)
    requires
        !m.dom().contains(g),
        !merged(o, m).dom().contains(g),
    ensures
        merged(o, m.insert(g, t)) == merged(o, m).insert(g, t),
{
    assert(merged(o, m.insert(g, t)) =~= merged(o, m).insert(g, t));
}

/// Merging an empty vector changes nothing.
pub proof fn lemma_merge_empty(d: Map<u64, u64>)
    ensures
        merged(d, Map::empty()) == d,
{
    assert(merged(d, Map::empty()) =~= d);
}

/// Merging the same source twice gives the same result as merging it once.
pub proof fn lemma_merge_idempotent(a: Map<u64, u64>, b: Map<u64, u64>)
    ensures
        merged(merged(a, b), b) == merged(a, b),
{
    assert(merged(merged(a, b), b) =~= merged(a, b));
}

/// Merging never lowers a timestamp already recorded in the destination,
/// and never drops a group: observed consistency points cannot regress.
pub proof fn lemma_merge_monotonic(a: Map<u64, u64>, b: Map<u64, u64>)
    ensures
        forall|k: u64| a.dom().contains(k) ==> merged(a, b).dom().contains(k),
        forall|k: u64| a.dom().contains(k) ==> a[k] <= #[trigger] merged(a, b)[k],
{
}

/// Two merges with disjoint group ids commute and together contribute the
/// union of both sources: whichever lands first, neither update is lost to
/// the other, and every contributed group ends at least as high as its
/// contribution.
pub proof fn lemma_merge_disjoint(v: Map<u64, u64>, a: Map<u64, u64>, b: Map<u64, u64>)
    requires
        a.dom().disjoint(b.dom()),
    ensures
        merged(merged(v, a), b) == merged(v, merged(a, b)),
        merged(merged(v, a), b) == merged(merged(v, b), a),
        forall|k: u64| a.dom().contains(k) ==> #[trigger] merged(merged(v, a), b).dom().contains(k)
            && merged(merged(v, a), b)[k] >= a[k],
        forall|k: u64| b.dom().contains(k) ==> #[trigger] merged(merged(v, a), b).dom().contains(k)
            && merged(merged(v, a), b)[k] >= b[k],
{
    assert(merged(merged(v, a), b) =~= merged(v, merged(a, b)));
    assert(merged(merged(v, a), b) =~= merged(merged(v, b), a));
}

} // verus!
