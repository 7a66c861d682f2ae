use vstd::prelude::*;
use crate::key::VirtualKey;

verus! {

/// The value bound to `k` in a list of `(source, target)` pairs, where a
/// later pair overrides an earlier one.
pub open spec fn lookup(s: Seq<(VirtualKey, VirtualKey)>, k: VirtualKey) -> Option<VirtualKey>
    decreases s.len(),
{
    if s.len() == 0 {
        None
    } else if s.last().0 == k {
        Some(s.last().1)
    } else {
        lookup(s.drop_last(), k)
    }
}

/// No two pairs of `s` share a source key.
pub open spec fn distinct_sources(s: Seq<(VirtualKey, VirtualKey)>) -> bool {
    forall|i: int, j: int| 0 <= i < j < s.len() ==> #[trigger] s[i].0 != #[trigger] s[j].0
}

/// The finite map described by a list of pairs.
pub open spec fn map_of(s: Seq<(VirtualKey, VirtualKey)>) -> Map<VirtualKey, VirtualKey> {
    Map::new(|k: VirtualKey| lookup(s, k) is Some, |k: VirtualKey| lookup(s, k)->0)
}

/// In a list with distinct sources, `k` is bound exactly when some pair has
/// source `k`, and then to that pair's target.
pub proof fn lemma_lookup_distinct(s: Seq<(VirtualKey, VirtualKey)>, k: VirtualKey)
    requires
        distinct_sources(s),
    ensures
        (lookup(s, k) is Some) <==> (exists|i: int| 0 <= i < s.len() && s[i].0 == k),
        forall|i: int| 0 <= i < s.len() && #[trigger] s[i].0 == k ==> lookup(s, k) == Some(s[i].1),
    decreases s.len(),
{
    if s.len() > 0 {
        let t = s.drop_last();
        assert(distinct_sources(t));
        lemma_lookup_distinct(t, k);
        if s.last().0 == k {
            assert(s[s.len() - 1].0 == k);
        } else {
            assert forall|i: int| 0 <= i < s.len() && s[i].0 == k implies 0 <= i < t.len() && t[i] == s[i] by {}
            if exists|i: int| 0 <= i < s.len() && s[i].0 == k {
                let i = choose|i: int| 0 <= i < s.len() && s[i].0 == k;
                assert(t[i].0 == k);
            }
        }
    }
}

/// A map between keys, kept as a list of pairs whose source keys are
/// pairwise distinct.
pub struct KeyMap {
    entries: Vec<(VirtualKey, VirtualKey)>,
}

impl View for KeyMap {
    type V = Map<VirtualKey, VirtualKey>;

    closed spec fn view(&self) -> Map<VirtualKey, VirtualKey> {
        map_of(self.entries@)
    }
}

impl KeyMap {
    #[verifier::type_invariant]
    spec fn wf(self) -> bool {
        distinct_sources(self.entries@)
    }

    /// An empty map.
    pub fn new() -> (r: KeyMap)
        ensures
            r@ == Map::<VirtualKey, VirtualKey>::empty(),
    {
        let r = KeyMap { entries: Vec::new() };
        assert(r@ =~= Map::<VirtualKey, VirtualKey>::empty());
        r
    }

    /// Position of the pair with source `k`, if any.
    fn find(&self, k: &VirtualKey) -> (r: Option<usize>)
        ensures
            match r {
                Some(i) => i < self.entries@.len() && self.entries@[i as int].0 == *k,
                None => forall|i: int| 0 <= i < self.entries@.len() ==> self.entries@[i].0 != *k,
            },
    {
        let mut i: usize = 0;
        while i < self.entries.len()
            invariant
                i <= self.entries@.len(),
                forall|j: int| 0 <= j < i ==> self.entries@[j].0 != *k,
            decreases self.entries@.len() - i,
        {
            if self.entries[i].0 == *k {
                return Some(i);
            }
            i = i + 1;
        }
        None
    }

    /// The target bound to `k`, if any.
    pub fn get(&self, k: &VirtualKey) -> (r: Option<&VirtualKey>)
        ensures
            match r {
                Some(v) => self@.contains_key(*k) && *v == self@[*k],
                None => !self@.contains_key(*k),
            },
    {
        proof {
            use_type_invariant(self);
            lemma_lookup_distinct(self.entries@, *k);
        }
        match self.find(k) {
            Some(i) => Some(&self.entries[i].1),
            None => None,
        }
    }

    /// Whether `k` is bound.
    pub fn contains_key(&self, k: &VirtualKey) -> (r: bool)
        ensures
            r == self@.contains_key(*k),
    {
        proof {
            use_type_invariant(self);
            lemma_lookup_distinct(self.entries@, *k);
        }
        self.find(k).is_some()
    }

    /// Binds `k` to `v`, returning the target it was bound to before.
    pub fn insert(&mut self, k: VirtualKey, v: VirtualKey) -> (r: Option<VirtualKey>)
        ensures
            final(self)@ == old(self)@.insert(k, v),
            r == (if old(self)@.contains_key(k) { Some(old(self)@[k]) } else { None }),
    {
        proof {
            use_type_invariant(&*self);
            lemma_lookup_distinct(self.entries@, k);
        }
        let ghost s0 = self.entries@;
        match self.find(&k) {
            Some(i) => {
                let prev = self.entries[i].1;
                let mut e = Vec::new();
                std::mem::swap(&mut e, &mut self.entries);
                e.set(i, (k, v));
                let ghost s1 = e@;
                assert(distinct_sources(s1)) by {
                    assert forall|a: int, b: int| 0 <= a < b < s1.len() implies #[trigger] s1[a].0 != #[trigger] s1[b].0 by {
                        assert(s0[a].0 != s0[b].0);
                    }
                }
                self.entries = e;
                proof {
                    assert forall|q: VirtualKey| #[trigger] lookup(s1, q) == (if q == k { Some(v) } else { lookup(s0, q) }) by {
                        lemma_lookup_distinct(s0, q);
                        lemma_lookup_distinct(s1, q);
                        if q != k {
                            if exists|j: int| 0 <= j < s0.len() && s0[j].0 == q {
                                let j = choose|j: int| 0 <= j < s0.len() && s0[j].0 == q;
                                assert(s1[j].0 == q);
                            }
                            if exists|j: int| 0 <= j < s1.len() && s1[j].0 == q {
                                let j = choose|j: int| 0 <= j < s1.len() && s1[j].0 == q;
                                assert(s0[j].0 == q);
                            }
                        } else {
                            assert(s1[i as int].0 == q);
                        }
                    }
                    assert(map_of(s1) =~= map_of(s0).insert(k, v));
                }
                Some(prev)
            },
            None => {
                let mut e = Vec::new();
                std::mem::swap(&mut e, &mut self.entries);
                e.push((k, v));
                let ghost s1 = e@;
                assert(distinct_sources(s1)) by {
                    assert forall|a: int, b: int| 0 <= a < b < s1.len() implies #[trigger] s1[a].0 != #[trigger] s1[b].0 by {
                        if b < s0.len() {
                            assert(s0[a].0 != s0[b].0);
                        }
                    }
                }
                self.entries = e;
                proof {
                    assert(s1.drop_last() =~= s0);
                    assert(map_of(s1) =~= map_of(s0).insert(k, v));
                }
                None
            },
        }
    }

    /// Unbinds `k`, returning the target it was bound to.
    pub fn remove(&mut self, k: &VirtualKey) -> (r: Option<VirtualKey>)
        ensures
            final(self)@ == old(self)@.remove(*k),
            r == (if old(self)@.contains_key(*k) { Some(old(self)@[*k]) } else { None }),
    {
        proof {
            use_type_invariant(&*self);
            lemma_lookup_distinct(self.entries@, *k);
        }
        let ghost s0 = self.entries@;
        match self.find(k) {
            Some(i) => {
                let mut e = Vec::new();
                std::mem::swap(&mut e, &mut self.entries);
                let removed = e.remove(i);
                let ghost s1 = e@;
                assert(s1 =~= s0.subrange(0, i as int) + s0.subrange(i + 1, s0.len() as int));
                assert forall|j: int| 0 <= j < s1.len() implies #[trigger] s1[j] == s0[if j < i { j } else { j + 1 }] by {}
                assert(distinct_sources(s1)) by {
                    assert forall|a: int, b: int| 0 <= a < b < s1.len() implies #[trigger] s1[a].0 != #[trigger] s1[b].0 by {
                        let a0 = if a < i { a } else { a + 1 };
                        let b0 = if b < i { b } else { b + 1 };
                        assert(s1[a] == s0[a0]);
                        assert(s1[b] == s0[b0]);
                        assert(s0[a0].0 != s0[b0].0);
                    }
                }
                self.entries = e;
                proof {
                    assert forall|q: VirtualKey| #[trigger] lookup(s1, q) == (if q == *k { None } else { lookup(s0, q) }) by {
                        lemma_lookup_distinct(s0, q);
                        lemma_lookup_distinct(s1, q);
                        if exists|j: int| 0 <= j < s0.len() && s0[j].0 == q {
                            let j = choose|j: int| 0 <= j < s0.len() && s0[j].0 == q;
                            if j != i {
                                let j1 = if j < i { j } else { j - 1 };
                                assert(s1[j1] == s0[j]);
                            }
                        }
                        if exists|j: int| 0 <= j < s1.len() && s1[j].0 == q {
                            let j = choose|j: int| 0 <= j < s1.len() && s1[j].0 == q;
                            let j0 = if j < i { j } else { j + 1 };
                            assert(s1[j] == s0[j0]);
                            assert(j0 != i);
                            assert(s0[i as int].0 != s0[j0].0);
                        }
                    }
                    assert(map_of(s1) =~= map_of(s0).remove(*k));
                }
                Some(removed.1)
            },
            None => {
                proof {
                    assert(map_of(s0) =~= map_of(s0).remove(*k));
                }
                None
            },
        }
    }

    /// Unbinds every key.
    pub fn clear(&mut self)
        ensures
            final(self)@ == Map::<VirtualKey, VirtualKey>::empty(),
    {
        self.entries = Vec::new();
        assert(map_of(self.entries@) =~= Map::<VirtualKey, VirtualKey>::empty());
    }

    /// The bound pairs, each once, in an unspecified order.
    pub fn pairs(&self) -> (r: Vec<(VirtualKey, VirtualKey)>)
        ensures
            distinct_sources(r@),
            forall|i: int| 0 <= i < r@.len() ==> self@.contains_key(#[trigger] r@[i].0) && self@[r@[i].0] == r@[i].1,
            forall|k: VirtualKey| self@.contains_key(k) ==> exists|i: int| 0 <= i < r@.len() && #[trigger] r@[i].0 == k,
    {
        proof { use_type_invariant(self); }
        let mut r: Vec<(VirtualKey, VirtualKey)> = Vec::new();
        let mut i: usize = 0;
        while i < self.entries.len()
            invariant
                i <= self.entries@.len(),
                distinct_sources(self.entries@),
                r@ =~= self.entries@.subrange(0, i as int),
            decreases self.entries@.len() - i,
        {
            r.push(self.entries[i]);
            i = i + 1;
        }
        proof {
            assert(r@ =~= self.entries@);
            assert forall|i: int| 0 <= i < r@.len() implies self@.contains_key(#[trigger] r@[i].0) && self@[r@[i].0] == r@[i].1 by {
                lemma_lookup_distinct(self.entries@, r@[i].0);
            }
            assert forall|k: VirtualKey| self@.contains_key(k) implies exists|i: int| 0 <= i < r@.len() && #[trigger] r@[i].0 == k by {
                lemma_lookup_distinct(self.entries@, k);
            }
        }
        r
    }

    /// A copy of this map.
    pub fn duplicate(&self) -> (r: KeyMap)
        ensures
            r@ == self@,
    {
        proof { use_type_invariant(self); }
        let mut e: Vec<(VirtualKey, VirtualKey)> = Vec::new();
        let mut i: usize = 0;
        while i < self.entries.len()
            invariant
                i <= self.entries@.len(),
                e@ =~= self.entries@.subrange(0, i as int),
            decreases self.entries@.len() - i,
        {
            e.push(self.entries[i]);
            i = i + 1;
        }
        assert(e@ =~= self.entries@);
        KeyMap { entries: e }
    }
}

} // verus!
