//! An association table keyed by viewport id, with unique keys.
//!
//! Backs the viewport metadata store and the secondary-window table.  The
//! table is viewed as a mathematical map from id to value; iteration by
//! index is offered for callers that walk every live entry.

use vstd::prelude::*;

verus! {

/// A map from viewport id to `V`, stored as a vector of pairs whose keys are
/// pairwise distinct.
pub struct IdMap<V> {
    entries: Vec<(u32, V)>,
}

impl<V> View for IdMap<V> {
    type V = Map<u32, V>;

    closed spec fn view(&self) -> Map<u32, V> {
        Map::new(
            |k: u32| exists|i: int| 0 <= i < self.entries@.len() && (#[trigger] self.entries@[i]).0 == k,
            |k: u32| self.entries@[self.index_of(k)].1,
        )
    }
}

impl<V> IdMap<V> {
    /// The keys of the entries, in storage order.
    pub closed spec fn key_seq(self) -> Seq<u32> {
        self.entries@.map_values(|e: (u32, V)| e.0)
    }

    /// Keys are pairwise distinct: at most one entry per viewport id.
    pub closed spec fn wf(self) -> bool {
        forall|i: int, j: int|
            0 <= i < j < self.entries@.len() ==> (#[trigger] self.entries@[i]).0 != (
            #[trigger] self.entries@[j]).0
    }

    spec fn index_of(self, k: u32) -> int {
        choose|i: int| 0 <= i < self.entries@.len() && (#[trigger] self.entries@[i]).0 == k
    }
}

impl<V: Copy> IdMap<V> {
    pub fn new() -> (r: Self)
        ensures
            r@ == Map::<u32, V>::empty(),
            r.wf(),
            r.key_seq() == Seq::<u32>::empty(),
    {
        let r = IdMap { entries: Vec::new() };
        proof {
            assert(r@ =~= Map::<u32, V>::empty());
            assert(r.key_seq() =~= Seq::<u32>::empty());
        }
        r
    }

    /// How many entries are live.
    pub fn len(&self) -> (n: usize)
        ensures
            n == self.key_seq().len(),
    {
        self.entries.len()
    }

    /// The entry at storage index `i`; every live entry appears at exactly
    /// one index.
    pub fn at(&self, i: usize) -> (r: (u32, V))
        requires
            self.wf(),
            i < self.key_seq().len(),
        ensures
            r.0 == self.key_seq()[i as int],
            self@.contains_key(r.0),
            r.1 == self@[r.0],
    {
        let e = self.entries[i];
        proof {
            assert(self.entries@[i as int].0 == e.0);
            let j = self.index_of(e.0);
            assert(0 <= j < self.entries@.len() && self.entries@[j].0 == e.0);
            assert(j == i as int);
        }
        e
    }

    pub fn get(&self, k: u32) -> (r: Option<V>)
        requires
            self.wf(),
        ensures
            match r {
                Some(v) => self@.contains_key(k) && v == self@[k],
                None => !self@.contains_key(k),
            },
    {
        let mut i: usize = 0;
        while i < self.entries.len()
            invariant
                self.wf(),
                i <= self.entries@.len(),
                forall|j: int| 0 <= j < i ==> (#[trigger] self.entries@[j]).0 != k,
            decreases self.entries@.len() - i,
        {
            let e = self.entries[i];
            if e.0 == k {
                proof {
                    let j = self.index_of(k);
                    assert(0 <= j < self.entries@.len() && self.entries@[j].0 == k);
                    assert(j == i as int);
                }
                return Some(e.1);
            }
            i = i + 1;
        }
        None
    }

    pub fn contains_key(&self, k: u32) -> (r: bool)
        requires
            self.wf(),
        ensures
            r == self@.contains_key(k),
    {
        self.get(k).is_some()
    }

    /// Removes the entry for `k`, if any.
    #[verifier::loop_isolation(false)]
    pub fn remove(&mut self, k: u32)
        requires
            old(self).wf(),
        ensures
            final(self)@ == old(self)@.remove(k),
            final(self).wf(),
            !final(self)@.contains_key(k),
    {
        let ghost m0 = self@;
        let mut i: usize = 0;
        while i < self.entries.len()
            invariant
                self.entries@ == old(self).entries@,
                i <= self.entries@.len(),
                forall|j: int| 0 <= j < i ==> (#[trigger] self.entries@[j]).0 != k,
            decreases self.entries@.len() - i,
        {
            let e = self.entries[i];
            if e.0 == k {
                let ghost pre = self.entries@;
                let ghost ii = i as int;
                self.entries.remove(i);
                proof {
                    let s = self.entries@;
                    assert(forall|p: int| 0 <= p < ii ==> s[p] == pre[p]);
                    assert(forall|p: int| ii <= p < s.len() ==> s[p] == pre[p + 1]);
                    assert forall|p: int, q: int| 0 <= p < q < s.len() implies (#[trigger] s[p]).0
                        != (#[trigger] s[q]).0 by {
                        let p0 = if p < ii { p } else { p + 1 };
                        let q0 = if q < ii { q } else { q + 1 };
                        assert(s[p] == pre[p0] && s[q] == pre[q0]);
                    }
                    assert forall|k2: u32| #[trigger] self@.contains_key(k2) implies m0.remove(
                        k,
                    ).contains_key(k2) && self@[k2] == m0.remove(k)[k2] by {
                        let j = choose|j: int| 0 <= j < s.len() && (#[trigger] s[j]).0 == k2;
                        let j0 = if j < ii { j } else { j + 1 };
                        assert(pre[j0].0 == k2);
                        assert(k2 != k);
                        let j1 = old(self).index_of(k2);
                        assert(0 <= j1 < pre.len() && pre[j1].0 == k2);
                        assert(j1 == j0);
                        let j2 = self.index_of(k2);
                        assert(0 <= j2 < s.len() && s[j2].0 == k2);
                        assert(j2 == j);
                    }
                    assert forall|k2: u32| #[trigger] m0.remove(k).contains_key(k2) implies self@.contains_key(
                        k2,
                    ) by {
                        let j1 = choose|j1: int| 0 <= j1 < pre.len() && (#[trigger] pre[j1]).0 == k2;
                        let j = if j1 < ii { j1 } else { j1 - 1 };
                        assert(j1 != ii);
                        assert(s[j] == pre[j1]);
                        assert(0 <= j < s.len() && s[j].0 == k2);
                    }
                    assert(self@ =~= m0.remove(k));
                }
                return ;
            }
            i = i + 1;
        }
        proof {
            assert(!m0.contains_key(k));
            assert(self@ =~= m0.remove(k));
        }
    }

    /// Inserts `v` under `k`, replacing any previous entry.
    pub fn insert(&mut self, k: u32, v: V)
        requires
            old(self).wf(),
        ensures
            final(self)@ == old(self)@.insert(k, v),
            final(self).wf(),
    {
        self.remove(k);
        let ghost pre = self.entries@;
        let ghost m1 = self@;
        self.entries.push((k, v));
        proof {
            let s = self.entries@;
            assert(forall|p: int| 0 <= p < pre.len() ==> s[p] == pre[p]);
            assert(s[pre.len() as int] == (k, v));
            assert forall|p: int, q: int| 0 <= p < q < s.len() implies (#[trigger] s[p]).0 != (
            #[trigger] s[q]).0 by {
                if q == pre.len() as int {
                    assert(s[q].0 == k);
                    assert(!m1.contains_key(k));
                    assert(s[p] == pre[p]);
                    if s[p].0 == k {
                        assert(m1.contains_key(k));
                    }
                }
            }
            assert forall|k2: u32| #[trigger] self@.contains_key(k2) implies m1.insert(
                k,
                v,
            ).contains_key(k2) && self@[k2] == m1.insert(k, v)[k2] by {
                let j = choose|j: int| 0 <= j < s.len() && (#[trigger] s[j]).0 == k2;
                let j2 = self.index_of(k2);
                assert(0 <= j2 < s.len() && s[j2].0 == k2);
                assert(j2 == j);
                if j == pre.len() as int {
                    assert(k2 == k);
                    assert(self@[k2] == v);
                } else {
                    assert(s[j] == pre[j]);
                    assert(k2 != k);
                    let j1 = choose|j1: int| 0 <= j1 < pre.len() && (#[trigger] pre[j1]).0 == k2;
                    assert(j1 == j);
                }
            }
            assert forall|k2: u32| #[trigger] m1.insert(k, v).contains_key(k2) implies self@.contains_key(
                k2,
            ) by {
                if k2 == k {
                    assert(s[pre.len() as int].0 == k);
                } else {
                    let j1 = choose|j1: int| 0 <= j1 < pre.len() && (#[trigger] pre[j1]).0 == k2;
                    assert(s[j1] == pre[j1]);
                }
            }
            assert(self@ =~= m1.insert(k, v));
            assert(m1.insert(k, v) =~= old(self)@.insert(k, v));
        }
    }

    /// Two entries never share an id: any two indices holding the same key
    /// coincide.
    pub proof fn lemma_key_unique(self, p: int, q: int)
        requires
            self.wf(),
            0 <= p < self.key_seq().len(),
            0 <= q < self.key_seq().len(),
            self.key_seq()[p] == self.key_seq()[q],
        ensures
            p == q,
    {
        assert(self.key_seq()[p] == self.entries@[p].0);
        assert(self.key_seq()[q] == self.entries@[q].0);
    }

    /// A key is live exactly when it appears in the key sequence.
    pub proof fn lemma_key_seq_domain(self, k: u32)
        ensures
            self@.contains_key(k) <==> self.key_seq().contains(k),
    {
        if self@.contains_key(k) {
            let j = choose|j: int|
                0 <= j < self.entries@.len() && (#[trigger] self.entries@[j]).0 == k;
            assert(self.key_seq()[j] == k);
        }
        if self.key_seq().contains(k) {
            let j = choose|j: int|
                0 <= j < self.key_seq().len() && (#[trigger] self.key_seq()[j]) == k;
            assert(self.entries@[j].0 == k);
        }
    }
}

} // verus!
