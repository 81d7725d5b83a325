//! A map keyed by strings, kept as an insertion-ordered list of distinct keys.
use vstd::prelude::*;
use crate::text::str_eq;

verus! {

/// Entries keyed by string; no key occurs twice. New keys go to the end, and
/// replacing the value of a key keeps its place.
#[derive(Debug, PartialEq)]
pub struct StrMap<V> {
    entries: Vec<(String, V)>,
}

impl<V> StrMap<V> {
    #[verifier::type_invariant]
    closed spec fn keys_distinct(self) -> bool {
        forall|i: int, j: int|
            0 <= i < j < self.entries@.len() ==> #[trigger] self.entries@[i].0@ != #[trigger] self.entries@[j].0@
    }

    /// Number of entries.
    pub closed spec fn spec_len(self) -> nat {
        self.entries@.len()
    }

    /// The key of the `i`-th entry.
    pub closed spec fn key_at(self, i: int) -> Seq<char> {
        self.entries@[i].0@
    }

    /// The value of the `i`-th entry.
    pub closed spec fn value_at(self, i: int) -> V {
        self.entries@[i].1
    }

    closed spec fn has_key(self, k: Seq<char>) -> bool {
        exists|i: int| 0 <= i < self.entries@.len() && #[trigger] self.entries@[i].0@ == k
    }

    closed spec fn index_of(self, k: Seq<char>) -> int {
        choose|i: int| 0 <= i < self.entries@.len() && #[trigger] self.entries@[i].0@ == k
    }

    proof fn lemma_index_of(self, i: int)
        requires
            self.keys_distinct(),
            0 <= i < self.entries@.len(),
        ensures
            self.has_key(self.entries@[i].0@),
            self.index_of(self.entries@[i].0@) == i,
    {
        let k = self.entries@[i].0@;
        assert(self.entries@[i].0@ == k);
        let j = self.index_of(k);
        if j != i {
            if j < i {
                assert(self.entries@[j].0@ != self.entries@[i].0@);
            } else {
                assert(self.entries@[i].0@ != self.entries@[j].0@);
            }
        }
    }

    /// Every key of the map is the key of exactly one entry, which holds its value.
    proof fn lemma_entries(self)
        requires
            self.keys_distinct(),
        ensures
            forall|i: int| 0 <= i < self.spec_len() ==> #[trigger] self@.contains_key(self.key_at(i)) && self@[self.key_at(i)] == self.value_at(i),
            forall|k: Seq<char>| #[trigger] self@.contains_key(k) ==> exists|i: int| 0 <= i < self.spec_len() && self.key_at(i) == k,
            forall|i: int, j: int| 0 <= i < self.spec_len() && 0 <= j < self.spec_len() && i != j ==> self.key_at(i) != self.key_at(j),
    {
        assert forall|i: int| 0 <= i < self.spec_len() implies #[trigger] self@.contains_key(self.key_at(i)) && self@[self.key_at(i)] == self.value_at(i) by {
            self.lemma_index_of(i);
        }
        assert forall|k: Seq<char>| #[trigger] self@.contains_key(k) implies exists|i: int| 0 <= i < self.spec_len() && self.key_at(i) == k by {
            let i = choose|i: int| 0 <= i < self.entries@.len() && #[trigger] self.entries@[i].0@ == k;
            assert(self.key_at(i) == k);
        }
        assert forall|i: int, j: int| 0 <= i < self.spec_len() && 0 <= j < self.spec_len() && i != j implies self.key_at(i) != self.key_at(j) by {
            if i < j {
                assert(self.entries@[i].0@ != self.entries@[j].0@);
            } else {
                assert(self.entries@[j].0@ != self.entries@[i].0@);
            }
        }
    }

    /// An empty map.
    pub fn new() -> (r: Self)
        ensures
            r@ == Map::<Seq<char>, V>::empty(),
            r.spec_len() == 0,
    {
        let r = StrMap { entries: Vec::new() };
        assert(r@ =~= Map::<Seq<char>, V>::empty());
        r
    }

    /// Number of entries.
    pub fn len(&self) -> (r: usize)
        ensures
            r == self.spec_len(),
            r == self@.len(),
            self@.dom().finite(),
            forall|i: int| 0 <= i < self.spec_len() ==> #[trigger] self@.contains_key(self.key_at(i)) && self@[self.key_at(i)] == self.value_at(i),
            forall|k: Seq<char>| #[trigger] self@.contains_key(k) ==> exists|i: int| 0 <= i < self.spec_len() && self.key_at(i) == k,
            forall|i: int, j: int| 0 <= i < self.spec_len() && 0 <= j < self.spec_len() && i != j ==> self.key_at(i) != self.key_at(j),
    {
        proof {
            use_type_invariant(self);
            self.lemma_entries();
            self.lemma_len();
        }
        self.entries.len()
    }

    proof fn lemma_len(self)
        requires
            self.keys_distinct(),
        ensures
            self@.dom().finite(),
            self@.len() == self.spec_len(),
        decreases self.entries@.len(),
    {
        let keys = self.entries@.map_values(|e: (String, V)| e.0@);
        assert forall|i: int, j: int| 0 <= i < keys.len() && 0 <= j < keys.len() && i != j implies keys[i] != keys[j] by {
            if i < j {
                assert(self.entries@[i].0@ != self.entries@[j].0@);
            } else {
                assert(self.entries@[j].0@ != self.entries@[i].0@);
            }
        }
        assert(keys.no_duplicates());
        keys.unique_seq_to_set();
        assert(self@.dom() =~= keys.to_set()) by {
            assert forall|k: Seq<char>| self@.dom().contains(k) <==> keys.to_set().contains(k) by {
                if self@.dom().contains(k) {
                    let i = choose|i: int| 0 <= i < self.entries@.len() && #[trigger] self.entries@[i].0@ == k;
                    assert(keys[i] == k);
                }
                if keys.to_set().contains(k) {
                    let i = choose|i: int| 0 <= i < keys.len() && keys[i] == k;
                    assert(self.entries@[i].0@ == k);
                }
            }
        }
    }

    /// Position of the entry whose key is `k`.
    fn find(&self, k: &str) -> (r: Option<usize>)
        ensures
            r matches Some(i) ==> i < self.spec_len() && self.key_at(i as int) == k@,
            r is None ==> !self@.contains_key(k@),
    {
        let mut i: usize = 0;
        while i < self.entries.len()
            invariant
                i <= self.entries@.len(),
                forall|j: int| 0 <= j < i ==> self.entries@[j].0@ != k@,
            decreases self.entries@.len() - i,
        {
            if str_eq(self.entries[i].0.as_str(), k) {
                return Some(i);
            }
            i += 1;
        }
        None
    }

    /// Whether `k` is a key.
    pub fn contains_key(&self, k: &str) -> (r: bool)
        ensures
            r == self@.contains_key(k@),
    {
        proof {
            use_type_invariant(self);
            self.lemma_entries();
        }
        self.find(k).is_some()
    }

    /// The value of `k`, if `k` is a key.
    pub fn get(&self, k: &str) -> (r: Option<&V>)
        ensures
            r is Some <==> self@.contains_key(k@),
            r matches Some(v) ==> *v == self@[k@],
    {
        proof {
            use_type_invariant(self);
            self.lemma_entries();
        }
        match self.find(k) {
            Some(i) => Some(&self.entries[i].1),
            None => None,
        }
    }

    /// The key of the `i`-th entry.
    pub fn key(&self, i: usize) -> (r: &String)
        requires
            i < self.spec_len(),
        ensures
            r@ == self.key_at(i as int),
    {
        &self.entries[i].0
    }

    /// The value of the `i`-th entry.
    pub fn value(&self, i: usize) -> (r: &V)
        requires
            i < self.spec_len(),
        ensures
            *r == self.value_at(i as int),
            self@.contains_key(self.key_at(i as int)),
            *r == self@[self.key_at(i as int)],
    {
        proof {
            use_type_invariant(self);
            self.lemma_entries();
        }
        &self.entries[i].1
    }

    /// Sets `k` to `v`: an existing key keeps its place, a new one goes last.
    pub fn insert(&mut self, k: String, v: V)
        ensures
            final(self)@ == old(self)@.insert(k@, v),
            old(self)@.contains_key(k@) ==> final(self).spec_len() == old(self).spec_len(),
            !old(self)@.contains_key(k@) ==> final(self).spec_len() == old(self).spec_len() + 1,
            forall|j: int| 0 <= j < old(self).spec_len() ==> #[trigger] final(self).key_at(j) == old(self).key_at(j),
            !old(self)@.contains_key(k@) ==> final(self).key_at(old(self).spec_len() as int) == k@,
    {
        proof {
            use_type_invariant(&*self);
            self.lemma_entries();
        }
        let ghost old_map = self@;
        let ghost old_entries = self.entries@;
        let ghost kv = k@;
        match self.find(k.as_str()) {
            Some(i) => {
                let mut entries: Vec<(String, V)> = Vec::new();
                std::mem::swap(&mut entries, &mut self.entries);
                entries.set(i, (k, v));
                proof {
                    assert forall|a: int, b: int| 0 <= a < b < entries@.len() implies #[trigger] entries@[a].0@ != #[trigger] entries@[b].0@ by {
                        assert(old_entries[a].0@ != old_entries[b].0@);
                    }
                }
                self.entries = entries;
                proof {
                    use_type_invariant(&*self);
                    self.lemma_entries();
                    assert forall|q: Seq<char>| #[trigger] self@.contains_key(q) <==> old_map.insert(kv, v).contains_key(q) by {
                        if self@.contains_key(q) {
                            let j = choose|j: int| 0 <= j < self.spec_len() && self.key_at(j) == q;
                            if j != i {
                                assert(old_entries[j].0@ == q);
                                assert(old_map.contains_key(q));
                            }
                        }
                        if old_map.contains_key(q) && q != kv {
                            let j = choose|j: int| 0 <= j < old_entries.len() && old_entries[j].0@ == q;
                            assert(self.key_at(j) == q);
                        }
                        if q == kv {
                            assert(self.key_at(i as int) == q);
                        }
                    }
                    assert forall|q: Seq<char>| #[trigger] self@.contains_key(q) implies self@[q] == old_map.insert(kv, v)[q] by {
                        let j = choose|j: int| 0 <= j < self.spec_len() && self.key_at(j) == q;
                        if j != i {
                            assert(old_entries[j].0@ == q);
                        }
                    }
                    assert(self@ =~= old_map.insert(kv, v));
                }
            }
            None => {
                let mut entries: Vec<(String, V)> = Vec::new();
                std::mem::swap(&mut entries, &mut self.entries);
                entries.push((k, v));
                proof {
                    assert forall|a: int, b: int| 0 <= a < b < entries@.len() implies #[trigger] entries@[a].0@ != #[trigger] entries@[b].0@ by {
                        if b == old_entries.len() {
                            assert(old_entries[a].0@ != kv) by {
                                if old_entries[a].0@ == kv {
                                    assert(old_map.contains_key(kv));
                                }
                            }
                        } else {
                            assert(old_entries[a].0@ != old_entries[b].0@);
                        }
                    }
                }
                self.entries = entries;
                proof {
                    use_type_invariant(&*self);
                    self.lemma_entries();
                    assert forall|q: Seq<char>| #[trigger] self@.contains_key(q) <==> old_map.insert(kv, v).contains_key(q) by {
                        if self@.contains_key(q) {
                            let j = choose|j: int| 0 <= j < self.spec_len() && self.key_at(j) == q;
                            if j < old_entries.len() {
                                assert(old_entries[j].0@ == q);
                            }
                        }
                        if old_map.contains_key(q) && q != kv {
                            let j = choose|j: int| 0 <= j < old_entries.len() && old_entries[j].0@ == q;
                            assert(self.key_at(j) == q);
                        }
                        if q == kv {
                            assert(self.key_at(old_entries.len() as int) == q);
                        }
                    }
                    assert forall|q: Seq<char>| #[trigger] self@.contains_key(q) implies self@[q] == old_map.insert(kv, v)[q] by {
                        let j = choose|j: int| 0 <= j < self.spec_len() && self.key_at(j) == q;
                        if j < old_entries.len() {
                            assert(old_entries[j].0@ == q);
                        }
                    }
                    assert(self@ =~= old_map.insert(kv, v));
                }
            }
        }
    }
}

impl<V: Clone> Clone for StrMap<V> {
    /// A copy with the same keys in the same order; each value is copied with its own `clone`.
    fn clone(&self) -> (r: Self)
        ensures
            r.spec_len() == self.spec_len(),
            forall|i: int| 0 <= i < self.spec_len() ==> #[trigger] r.key_at(i) == self.key_at(i),
            r@.dom() == self@.dom(),
            forall|i: int| 0 <= i < self.spec_len() ==> cloned::<V>(self.value_at(i), #[trigger] r.value_at(i)),
    {
        proof {
            use_type_invariant(self);
            self.lemma_entries();
        }
        let mut entries: Vec<(String, V)> = Vec::new();
        let mut i: usize = 0;
        while i < self.entries.len()
            invariant
                i <= self.entries@.len(),
                entries@.len() == i,
                self.keys_distinct(),
                forall|j: int| 0 <= j < i ==> #[trigger] entries@[j].0@ == self.entries@[j].0@,
                forall|j: int| 0 <= j < i ==> cloned::<V>(self.entries@[j].1, #[trigger] entries@[j].1),
            decreases self.entries@.len() - i,
        {
            let k = self.entries[i].0.clone();
            let v = self.entries[i].1.clone();
            entries.push((k, v));
            i += 1;
        }
        proof {
            assert forall|a: int, b: int| 0 <= a < b < entries@.len() implies #[trigger] entries@[a].0@ != #[trigger] entries@[b].0@ by {
                assert(self.entries@[a].0@ != self.entries@[b].0@);
            }
        }
        let r = StrMap { entries };
        proof {
            r.lemma_entries();
            assert forall|k: Seq<char>| r@.dom().contains(k) <==> self@.dom().contains(k) by {
                if r@.contains_key(k) {
                    let j = choose|j: int| 0 <= j < r.spec_len() && r.key_at(j) == k;
                    assert(self.key_at(j) == k);
                }
                if self@.contains_key(k) {
                    let j = choose|j: int| 0 <= j < self.spec_len() && self.key_at(j) == k;
                    assert(r.key_at(j) == k);
                }
            }
            assert(r@.dom() =~= self@.dom());
        }
        r
    }
}

impl<V> View for StrMap<V> {
    type V = Map<Seq<char>, V>;

    closed spec fn view(&self) -> Map<Seq<char>, V> {
        Map::new(|k: Seq<char>| self.has_key(k), |k: Seq<char>| self.entries@[self.index_of(k)].1)
    }
}

} // verus!
