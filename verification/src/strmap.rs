//! A small map from text to text that remembers the order of insertion.

use vstd::prelude::*;
use crate::text::str_eq;

verus! {

/// A map from strings to strings. No key occurs twice; keys keep the order in
/// which they were first inserted.
#[derive(Debug)]
pub struct StringMap {
    entries: Vec<(String, String)>,
}

/// The keys of a list of pairs, in order.
pub open spec fn keys_of(entries: Seq<(String, String)>) -> Seq<Seq<char>> {
    entries.map_values(|e: (String, String)| e.0@)
}

/// The values of a list of pairs, in order.
pub open spec fn values_of(entries: Seq<(String, String)>) -> Seq<Seq<char>> {
    entries.map_values(|e: (String, String)| e.1@)
}

impl View for StringMap {
    type V = Map<Seq<char>, Seq<char>>;

    closed spec fn view(&self) -> Map<Seq<char>, Seq<char>> {
        Map::new(
            |k: Seq<char>| keys_of(self.entries@).contains(k),
            |k: Seq<char>| values_of(self.entries@)[keys_of(self.entries@).index_of(k)],
        )
    }
}

impl StringMap {
    /// No key occurs twice. Every value of this type is well formed.
    #[verifier::type_invariant]
    pub closed spec fn well_formed(self) -> bool {
        keys_of(self.entries@).no_duplicates()
    }

    /// The keys in the order of their first insertion.
    pub closed spec fn keys(self) -> Seq<Seq<char>> {
        keys_of(self.entries@)
    }

    /// The keys are exactly the domain of the map, each once, and the map is finite.
    pub proof fn lemma_keys(self)
        requires
            self.well_formed(),
        ensures
            self.keys().no_duplicates(),
            self.keys().to_set() == self@.dom(),
            self@.dom().finite(),
    {
        assert(self.keys().to_set() =~= self@.dom());
        vstd::seq_lib::seq_to_set_is_finite(self.keys());
    }

    /// An empty map.
    pub fn new() -> (m: StringMap)
        ensures
            m@ == Map::<Seq<char>, Seq<char>>::empty(),
            m.keys() == Seq::<Seq<char>>::empty(),
    {
        let m = StringMap { entries: Vec::new() };
        assert(m@ =~= Map::<Seq<char>, Seq<char>>::empty());
        assert(m.keys() =~= Seq::<Seq<char>>::empty());
        m
    }

    /// Number of entries.
    pub fn len(&self) -> (n: usize)
        ensures
            n == self.keys().len(),
            n == self@.dom().len(),
    {
        proof {
            use_type_invariant(self);
            self.lemma_keys();
            self.keys().unique_seq_to_set();
        }
        self.entries.len()
    }

    /// Whether the map has no entry.
    pub fn is_empty(&self) -> (r: bool)
        ensures
            r == (self.keys().len() == 0),
            r == (self@ == Map::<Seq<char>, Seq<char>>::empty()),
    {
        proof {
            if self.entries@.len() == 0 {
                assert(self@ =~= Map::<Seq<char>, Seq<char>>::empty());
            } else {
                assert(keys_of(self.entries@)[0] == self.entries@[0].0@);
                assert(self@.dom().contains(self.entries@[0].0@));
            }
        }
        self.entries.len() == 0
    }

    fn position(&self, key: &str) -> (r: Option<usize>)
        ensures
            match r {
                Some(i) => i < self.entries@.len() && self.entries@[i as int].0@ == key@,
                None => !keys_of(self.entries@).contains(key@),
            },
    {
        let mut i: usize = 0;
        while i < self.entries.len()
            invariant
                i <= self.entries@.len(),
                forall|k: int| 0 <= k < i ==> keys_of(self.entries@)[k] != key@,
            decreases self.entries@.len() - i,
        {
            if str_eq(self.entries[i].0.as_str(), key) {
                return Some(i);
            }
            i = i + 1;
        }
        None
    }

    proof fn lemma_lookup(self, i: int)
        requires
            self.well_formed(),
            0 <= i < self.entries@.len(),
        ensures
            self@.contains_key(self.entries@[i].0@),
            self@[self.entries@[i].0@] == self.entries@[i].1@,
            self.keys()[i] == self.entries@[i].0@,
    {
        let ks = keys_of(self.entries@);
        let k = self.entries@[i].0@;
        assert(ks[i] == k);
        assert(ks.contains(k));
        let j = ks.index_of(k);
        assert(ks[j] == k);
        assert(j == i);
    }

    /// Whether `key` has an entry.
    pub fn contains_key(&self, key: &str) -> (r: bool)
        ensures
            r == self@.contains_key(key@),
    {
        let found = self.position(key);
        proof {
            if let Some(i) = found {
                assert(keys_of(self.entries@)[i as int] == key@);
            }
        }
        found.is_some()
    }

    /// The value stored under `key`.
    pub fn get(&self, key: &str) -> (r: Option<&String>)
        ensures
            match r {
                Some(v) => self@.contains_key(key@) && v@ == self@[key@],
                None => !self@.contains_key(key@),
            },
    {
        match self.position(key) {
            Some(i) => {
                proof {
                    use_type_invariant(self);
                    self.lemma_lookup(i as int);
                }
                Some(&self.entries[i].1)
            },
            None => None,
        }
    }

    /// The key at position `i` of the insertion order.
    pub fn key_at(&self, i: usize) -> (k: &String)
        requires
            i < self.keys().len(),
        ensures
            k@ == self.keys()[i as int],
    {
        &self.entries[i].0
    }

    /// The value that belongs to the key at position `i`.
    pub fn value_at(&self, i: usize) -> (v: &String)
        requires
            i < self.keys().len(),
        ensures
            self@.contains_key(self.keys()[i as int]),
            v@ == self@[self.keys()[i as int]],
    {
        proof {
            use_type_invariant(self);
            self.lemma_lookup(i as int);
        }
        &self.entries[i].1
    }

    /// Store `value` under `key`. Returns the value that `key` had before, if
    /// any; a new key goes to the end of the order.
    pub fn insert(&mut self, key: String, value: String) -> (previous: Option<String>)
        ensures
            final(self)@ == old(self)@.insert(key@, value@),
            match previous {
                Some(p) => old(self)@.contains_key(key@) && p@ == old(self)@[key@]
                    && final(self).keys() == old(self).keys(),
                None => !old(self)@.contains_key(key@) && final(self).keys()
                    == old(self).keys().push(key@),
            },
    {
        proof {
            use_type_invariant(&*self);
        }
        let ghost before = *self;
        match self.position(key.as_str()) {
            Some(i) => {
                let previous = self.entries[i].1.clone();
                let ghost k = key@;
                let ghost v = value@;
                let mut taken = StringMap { entries: Vec::new() };
                core::mem::swap(self, &mut taken);
                let mut entries = taken.entries;
                entries.set(i, (key, value));
                proof {
                    assert(keys_of(entries@) =~= keys_of(before.entries@));
                }
                *self = StringMap { entries };
                proof {
                    before.lemma_lookup(i as int);
                    assert(keys_of(self.entries@) =~= keys_of(before.entries@));
                    assert forall|q: Seq<char>| #[trigger]
                        self@.contains_key(q) implies self@[q] == before@.insert(k, v)[q] by {
                        let j = keys_of(self.entries@).index_of(q);
                        assert(keys_of(self.entries@)[j] == q);
                        if j != i {
                            assert(values_of(self.entries@)[j] == values_of(before.entries@)[j]);
                        }
                    }
                    assert(self@ =~= before@.insert(k, v));
                }
                Some(previous)
            },
            None => {
                let ghost k = key@;
                let ghost v = value@;
                let mut taken = StringMap { entries: Vec::new() };
                core::mem::swap(self, &mut taken);
                let mut entries = taken.entries;
                entries.push((key, value));
                proof {
                    assert(keys_of(entries@) =~= keys_of(before.entries@).push(k));
                    let ks = keys_of(entries@);
                    assert forall|a: int, b: int|
                        0 <= a < ks.len() && 0 <= b < ks.len() && a != b implies ks[a] != ks[b] by {
                        if a < before.entries@.len() {
                            assert(keys_of(before.entries@)[a] == ks[a]);
                            assert(keys_of(before.entries@).contains(ks[a]));
                        }
                        if b < before.entries@.len() {
                            assert(keys_of(before.entries@)[b] == ks[b]);
                            assert(keys_of(before.entries@).contains(ks[b]));
                        }
                    }
                }
                *self = StringMap { entries };
                proof {
                    assert(keys_of(self.entries@) =~= keys_of(before.entries@).push(k));
                    assert(values_of(self.entries@) =~= values_of(before.entries@).push(v));
                    let ks = keys_of(self.entries@);
                    assert forall|q: Seq<char>| #[trigger]
                        before@.insert(k, v).contains_key(q) implies self@.contains_key(q) by {
                        if q != k {
                            let j = keys_of(before.entries@).index_of(q);
                            assert(ks[j] == q);
                        } else {
                            assert(ks[ks.len() - 1] == k);
                        }
                    }
                    assert forall|q: Seq<char>| #[trigger]
                        self@.contains_key(q) implies before@.insert(k, v).contains_key(q)
                        && self@[q] == before@.insert(k, v)[q] by {
                        let j = ks.index_of(q);
                        assert(ks[j] == q);
                        if j < before.entries@.len() {
                            assert(keys_of(before.entries@)[j] == q);
                            let j2 = keys_of(before.entries@).index_of(q);
                            assert(keys_of(before.entries@)[j2] == q);
                            assert(ks[j2] == q);
                        }
                    }
                    assert(self@ =~= before@.insert(k, v));
                }
                None
            },
        }
    }
}

impl Clone for StringMap {
    /// A copy with the same entries in the same order.
    fn clone(&self) -> (r: StringMap)
        ensures
            r@ == self@,
            r.keys() == self.keys(),
    {
        proof {
            use_type_invariant(self);
        }
        let mut entries: Vec<(String, String)> = Vec::new();
        let mut i: usize = 0;
        while i < self.entries.len()
            invariant
                i <= self.entries@.len(),
                entries@.len() == i,
                forall|k: int|
                    0 <= k < i ==> entries@[k].0@ == self.entries@[k].0@ && entries@[k].1@
                        == self.entries@[k].1@,
            decreases self.entries@.len() - i,
        {
            entries.push((self.entries[i].0.clone(), self.entries[i].1.clone()));
            i = i + 1;
        }
        proof {
            assert(keys_of(entries@) =~= keys_of(self.entries@));
            assert(values_of(entries@) =~= values_of(self.entries@));
        }
        let r = StringMap { entries };
        assert(r@ =~= self@);
        r
    }
}

} // verus!
