//! `NameMap`: a map keyed by names, kept as a vector of distinct keys in
//! insertion order.
use vstd::prelude::*;

verus! {

/// The contents of a list of strings.
pub open spec fn string_views(s: Seq<String>) -> Seq<Seq<char>> {
    s.map_values(|x: String| x@)
}

/// A map from names to values. Each name occurs at most once.
pub struct NameMap<V> {
    entries: Vec<(String, V)>,
}

impl<V> NameMap<V> {
    #[verifier::type_invariant]
    spec fn keys_unique(self) -> bool {
        forall|i: int, j: int|
            0 <= i < j < self.entries@.len() ==> self.entries@[i].0@ != self.entries@[j].0@
    }

    /// The names, in insertion order.
    pub closed spec fn key_seq(&self) -> Seq<Seq<char>> {
        self.entries@.map_values(|e: (String, V)| e.0@)
    }

    /// Whether `k` occurs among the names.
    pub closed spec fn has(&self, k: Seq<char>) -> bool {
        exists|i: int| 0 <= i < self.entries@.len() && self.entries@[i].0@ == k
    }

    /// The value stored under `k`.
    pub closed spec fn value_of(&self, k: Seq<char>) -> V {
        self.entries@[choose|i: int| 0 <= i < self.entries@.len() && self.entries@[i].0@ == k].1
    }

    /// The map of names to values.
    pub open spec fn view(&self) -> Map<Seq<char>, V> {
        Map::new(|k: Seq<char>| self.has(k), |k: Seq<char>| self.value_of(k))
    }

    proof fn lemma_at(&self, i: int)
        requires
            self.keys_unique(),
            0 <= i < self.entries@.len(),
        ensures
            self.has(self.entries@[i].0@),
            self.value_of(self.entries@[i].0@) == self.entries@[i].1,
    {
        let k = self.entries@[i].0@;
        assert(self.entries@[i].0@ == k);
        let j = choose|j: int| 0 <= j < self.entries@.len() && self.entries@[j].0@ == k;
        if j != i {
            if j < i {
                assert(self.entries@[j].0@ != self.entries@[i].0@);
            } else {
                assert(self.entries@[i].0@ != self.entries@[j].0@);
            }
        }
    }

    pub fn new() -> (m: Self)
        ensures
            m.view() == Map::<Seq<char>, V>::empty(),
            m.key_seq().len() == 0,
    {
        let m = NameMap { entries: Vec::new() };
        assert(m.view() =~= Map::<Seq<char>, V>::empty());
        assert(m.key_seq() =~= Seq::<Seq<char>>::empty());
        m
    }

    /// Number of names.
    pub fn len(&self) -> (r: usize)
        ensures
            r == self.key_seq().len(),
            r == self.view().dom().len(),
    {
        proof {
            use_type_invariant(self);
            self.lemma_dom_len();
        }
        self.entries.len()
    }

    proof fn lemma_dom_len(&self)
        requires
            self.keys_unique(),
        ensures
            self.view().dom() == self.key_seq().to_set(),
            self.key_seq().no_duplicates(),
            self.view().dom().len() == self.entries@.len(),
    {
        let ks = self.key_seq();
        assert forall|k: Seq<char>| self.view().dom().contains(k) <==> ks.to_set().contains(k) by {
            if self.has(k) {
                let i = choose|i: int| 0 <= i < self.entries@.len() && self.entries@[i].0@ == k;
                assert(ks[i] == k);
            }
            if ks.to_set().contains(k) {
                let i = choose|i: int| 0 <= i < ks.len() && ks[i] == k;
                assert(self.entries@[i].0@ == k);
            }
        }
        assert(self.view().dom() =~= ks.to_set());
        assert forall|i: int, j: int| 0 <= i < ks.len() && 0 <= j < ks.len() && i != j implies ks[i]
            != ks[j] by {
            if i < j {
                assert(self.entries@[i].0@ != self.entries@[j].0@);
            } else {
                assert(self.entries@[j].0@ != self.entries@[i].0@);
            }
        }
        ks.unique_seq_to_set();
    }

    /// Index of `key` among the entries.
    fn position(&self, key: &String) -> (r: Option<usize>)
        ensures
            r matches Some(i) ==> i < self.entries@.len() && self.entries@[i as int].0@ == key@,
            r is None ==> !self.has(key@),
    {
        let n = self.entries.len();
        let mut i: usize = 0;
        while i < n
            invariant
                i <= n == self.entries@.len(),
                forall|j: int| 0 <= j < i ==> self.entries@[j].0@ != key@,
            decreases n - i,
        {
            if self.entries[i].0 == *key {
                return Some(i);
            }
            i = i + 1;
        }
        None
    }

    /// Stores `value` under `key`, replacing an earlier value.
    pub fn insert(&mut self, key: &str, value: V)
        ensures
            final(self).view() == old(self).view().insert(key@, value),
            old(self).view().contains_key(key@) ==> final(self).key_seq() == old(self).key_seq(),
            !old(self).view().contains_key(key@) ==> final(self).key_seq() == old(
                self,
            ).key_seq().push(key@),
    {
        proof {
            use_type_invariant(&*self);
        }
        let k = key.to_owned();
        match self.position(&k) {
            Some(i) => {
                let ghost old_entries = self.entries@;
                let mut es: Vec<(String, V)> = Vec::new();
                core::mem::swap(&mut es, &mut self.entries);
                es.set(i, (k, value));
                self.entries = es;
                proof {
                    assert(old_entries[i as int].0@ == key@);
                    assert forall|a: int, b: int|
                        0 <= a < b < self.entries@.len() implies self.entries@[a].0@
                        != self.entries@[b].0@ by {
                        assert(old_entries[a].0@ != old_entries[b].0@);
                    }
                    assert(self.keys_unique());
                    self.lemma_at(i as int);
                    assert forall|k2: Seq<char>| #[trigger]
                        self.view().contains_key(k2) <==> old(self).view().insert(
                            key@,
                            value,
                        ).contains_key(k2) by {
                        if self.has(k2) {
                            let j = choose|j: int|
                                0 <= j < self.entries@.len() && self.entries@[j].0@ == k2;
                            if j != i {
                                assert(old_entries[j].0@ == k2);
                            }
                        }
                        if old(self).has(k2) {
                            let j = choose|j: int| 0 <= j < old_entries.len() && old_entries[j].0@ == k2;
                            assert(self.entries@[j].0@ == k2);
                        }
                    }
                    assert forall|k2: Seq<char>| #[trigger]
                        self.view().contains_key(k2) implies self.view()[k2] == old(
                            self,
                        ).view().insert(key@, value)[k2] by {
                        if k2 != key@ {
                            let j = choose|j: int|
                                0 <= j < self.entries@.len() && self.entries@[j].0@ == k2;
                            self.lemma_at(j);
                            assert(old_entries[j].0@ == k2);
                            old(self).lemma_at(j);
                        }
                    }
                    assert(self.view() =~= old(self).view().insert(key@, value));
                    assert(self.key_seq() =~= old(self).key_seq());
                }
            },
            None => {
                let ghost old_entries = self.entries@;
                let mut es: Vec<(String, V)> = Vec::new();
                core::mem::swap(&mut es, &mut self.entries);
                es.push((k, value));
                self.entries = es;
                proof {
                    let last = old_entries.len() as int;
                    assert forall|a: int, b: int|
                        0 <= a < b < self.entries@.len() implies self.entries@[a].0@
                        != self.entries@[b].0@ by {
                        if b == last {
                            assert(old_entries[a].0@ != key@);
                        } else {
                            assert(old_entries[a].0@ != old_entries[b].0@);
                        }
                    }
                    assert(self.keys_unique());
                    self.lemma_at(last);
                    assert forall|k2: Seq<char>| #[trigger]
                        self.view().contains_key(k2) <==> old(self).view().insert(
                            key@,
                            value,
                        ).contains_key(k2) by {
                        if self.has(k2) {
                            let j = choose|j: int|
                                0 <= j < self.entries@.len() && self.entries@[j].0@ == k2;
                            if j != last {
                                assert(old_entries[j].0@ == k2);
                            }
                        }
                        if old(self).has(k2) {
                            let j = choose|j: int| 0 <= j < old_entries.len() && old_entries[j].0@ == k2;
                            assert(self.entries@[j].0@ == k2);
                        }
                    }
                    assert forall|k2: Seq<char>| #[trigger]
                        self.view().contains_key(k2) implies self.view()[k2] == old(
                            self,
                        ).view().insert(key@, value)[k2] by {
                        if k2 != key@ {
                            let j = choose|j: int|
                                0 <= j < self.entries@.len() && self.entries@[j].0@ == k2;
                            self.lemma_at(j);
                            assert(old_entries[j].0@ == k2);
                            old(self).lemma_at(j);
                        }
                    }
                    assert(self.view() =~= old(self).view().insert(key@, value));
                    assert(self.key_seq() =~= old(self).key_seq().push(key@));
                }
            },
        }
    }

    /// The value stored under `key`.
    pub fn get(&self, key: &str) -> (r: Option<&V>)
        ensures
            r matches Some(v) ==> self.view().contains_key(key@) && *v == self.view()[key@],
            r is None ==> !self.view().contains_key(key@),
    {
        proof {
            use_type_invariant(self);
        }
        let k = key.to_owned();
        match self.position(&k) {
            Some(i) => {
                proof {
                    self.lemma_at(i as int);
                }
                Some(&self.entries[i].1)
            },
            None => None,
        }
    }

    /// Whether a value is stored under `key`.
    pub fn contains_key(&self, key: &str) -> (r: bool)
        ensures
            r == self.view().contains_key(key@),
    {
        self.get(key).is_some()
    }

    /// The names, in insertion order.
    pub fn keys(&self) -> (r: Vec<String>)
        ensures
            string_views(r@) == self.key_seq(),
            self.key_seq().to_set() == self.view().dom(),
            self.key_seq().no_duplicates(),
    {
        proof {
            use_type_invariant(self);
            self.lemma_dom_len();
        }
        let n = self.entries.len();
        let mut out: Vec<String> = Vec::new();
        let mut i: usize = 0;
        while i < n
            invariant
                i <= n == self.entries@.len(),
                string_views(out@) =~= self.key_seq().subrange(0, i as int),
            decreases n - i,
        {
            let c = self.entries[i].0.clone();
            let ghost before = out@;
            assert(c@ == self.key_seq()[i as int]);
            out.push(c);
            assert(out@ == before.push(c));
            assert(string_views(out@) =~= string_views(before).push(c@));
            i = i + 1;
        }
        assert(self.key_seq().subrange(0, n as int) =~= self.key_seq());
        out
    }
}

} // verus!
