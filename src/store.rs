//! A small key-value table with a map view, used for every key space of the host.

use vstd::prelude::*;

verus! {

/// Keys that can be compared in executable code, agreeing with equality in specifications.
pub trait TableKey: Sized + Copy {
    fn same(&self, other: &Self) -> (r: bool)
        ensures
            r == (*self == *other),
    ;
}

impl<const N: usize> TableKey for [u8; N] {
    fn same(&self, other: &Self) -> (r: bool) {
        let mut i: usize = 0;
        while i < N
            invariant
                i <= N,
                forall|j: int| 0 <= j < i ==> self[j] == other[j],
            decreases N - i,
        {
            if self[i] != other[i] {
                return false;
            }
            i = i + 1;
        }
        assert(*self =~= *other);
        true
    }
}

/// An association list with unique keys.
pub struct Table<K: TableKey, V> {
    entries: Vec<(K, V)>,
}

impl<K: TableKey, V> Table<K, V> {
    /// Each key occurs in at most one entry.
    pub closed spec fn wf(self) -> bool {
        forall|i: int, j: int|
            0 <= i < self.entries.len() && 0 <= j < self.entries.len()
                && #[trigger] self.entries@[i].0 == #[trigger] self.entries@[j].0 ==> i == j
    }

    spec fn has_at(self, k: K, i: int) -> bool {
        0 <= i < self.entries.len() && self.entries@[i].0 == k
    }

    pub closed spec fn view(self) -> Map<K, V> {
        Map::new(
            |k: K| exists|i: int| self.has_at(k, i),
            |k: K| self.entries@[choose|i: int| self.has_at(k, i)].1,
        )
    }

    proof fn lemma_at(self, k: K, i: int)
        requires
            self.wf(),
            self.has_at(k, i),
        ensures
            self.view().contains_key(k),
            self.view()[k] == self.entries@[i].1,
    {
        let j = choose|j: int| self.has_at(k, j);
        assert(self.has_at(k, j));
    }

    /// Index of the entry for `k`, if any.
    fn find(&self, k: &K) -> (r: Option<usize>)
        ensures
            match r {
                Some(i) => self.has_at(*k, i as int),
                None => forall|i: int| 0 <= i < self.entries.len() ==> self.entries@[i].0 != *k,
            },
    {
        let mut i: usize = 0;
        while i < self.entries.len()
            invariant
                i <= self.entries.len(),
                forall|j: int| 0 <= j < i ==> self.entries@[j].0 != *k,
            decreases self.entries.len() - i,
        {
            if self.entries[i].0.same(k) {
                return Some(i);
            }
            i = i + 1;
        }
        None
    }

    pub fn new() -> (r: Self)
        ensures
            r.wf(),
            r.view() == Map::<K, V>::empty(),
    {
        let r = Table { entries: Vec::new() };
        assert(r.view() =~= Map::<K, V>::empty());
        r
    }

    pub fn contains(&self, k: &K) -> (r: bool)
        requires
            self.wf(),
        ensures
            r == self.view().contains_key(*k),
    {
        match self.find(k) {
            Some(i) => {
                proof {
                    self.lemma_at(*k, i as int);
                }
                true
            },
            None => false,
        }
    }

    pub fn get(&self, k: &K) -> (r: Option<&V>)
        requires
            self.wf(),
        ensures
            r.is_some() == self.view().contains_key(*k),
            r matches Some(v) ==> *v == self.view()[*k],
    {
        match self.find(k) {
            Some(i) => {
                proof {
                    self.lemma_at(*k, i as int);
                }
                Some(&self.entries[i].1)
            },
            None => None,
        }
    }

    pub fn insert(&mut self, k: K, v: V)
        requires
            old(self).wf(),
        ensures
            final(self).wf(),
            final(self).view() == old(self).view().insert(k, v),
    {
        let ghost before = *self;
        let ghost at: int;
        match self.find(&k) {
            Some(i) => {
                self.entries.set(i, (k, v));
                proof {
                    at = i as int;
                }
            },
            None => {
                self.entries.push((k, v));
                proof {
                    at = self.entries.len() - 1;
                }
            },
        }
        proof {
            assert(self.has_at(k, at));
            assert forall|q: K| #[trigger] self.view().contains_key(q) == before.view().insert(
                k,
                v,
            ).contains_key(q) by {
                if q != k {
                    if before.view().contains_key(q) {
                        let j = choose|j: int| before.has_at(q, j);
                        assert(self.has_at(q, j));
                    }
                    if self.view().contains_key(q) {
                        let j = choose|j: int| self.has_at(q, j);
                        assert(before.has_at(q, j));
                    }
                }
            }
            assert forall|q: K| #[trigger] self.view().contains_key(q) implies self.view()[q]
                == before.view().insert(k, v)[q] by {
                let j = choose|j: int| self.has_at(q, j);
                self.lemma_at(q, j);
                if q != k {
                    before.lemma_at(q, j);
                }
            }
            assert(self.view() =~= before.view().insert(k, v));
        }
    }

    pub fn remove(&mut self, k: &K)
        requires
            old(self).wf(),
        ensures
            final(self).wf(),
            final(self).view() == old(self).view().remove(*k),
    {
        let ghost before = *self;
        match self.find(k) {
            Some(i) => {
                self.entries.remove(i);
                proof {
                    assert forall|a: int, b: int|
                        0 <= a < self.entries.len() && 0 <= b < self.entries.len()
                            && #[trigger] self.entries@[a].0 == #[trigger] self.entries@[b].0
                            implies a == b by {
                        let a0 = if a < i { a } else { a + 1 };
                        let b0 = if b < i { b } else { b + 1 };
                        assert(before.entries@[a0].0 == before.entries@[b0].0);
                    }
                    let removed = before.view().remove(*k);
                    assert forall|q: K| #[trigger]
                        self.view().contains_key(q) == removed.contains_key(q) by {
                        if before.view().contains_key(q) && q != *k {
                            let j = choose|j: int| before.has_at(q, j);
                            assert(j != i);
                            let j1 = if j < i { j } else { j - 1 };
                            assert(self.has_at(q, j1));
                        }
                        if self.view().contains_key(q) {
                            let j = choose|j: int| self.has_at(q, j);
                            let j0 = if j < i { j } else { j + 1 };
                            assert(before.has_at(q, j0));
                        }
                    }
                    assert forall|q: K| #[trigger]
                        self.view().contains_key(q) implies self.view()[q] == removed[q] by {
                        let j = choose|j: int| self.has_at(q, j);
                        self.lemma_at(q, j);
                        let j0 = if j < i { j } else { j + 1 };
                        before.lemma_at(q, j0);
                    }
                    assert(self.view() =~= before.view().remove(*k));
                }
            },
            None => {
                proof {
                    assert(!before.view().contains_key(*k));
                    assert(self.view() =~= before.view().remove(*k));
                }
            },
        }
    }
}

} // verus!
