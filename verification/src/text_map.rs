//! A map from texts to values, kept as a list of entries in which no key
//! occurs twice. Its view is a `Map` from the key's characters to the value.

use vstd::prelude::*;
use crate::text::text_eq;

verus! {

/// A map keyed by text.
#[derive(Debug)]
pub struct TextMap<V> {
    entries: Vec<(String, V)>,
}

impl<V> TextMap<V> {
    /// No key occurs twice.
    #[verifier::type_invariant]
    closed spec fn distinct_keys(&self) -> bool {
        forall|i: int, j: int|
            0 <= i < j < self.entries@.len() ==> self.entries@[i].0@ != self.entries@[j].0@
    }

    /// Where `key` is stored, if it is.
    closed spec fn slot(&self, key: Seq<char>) -> int {
        choose|i: int| 0 <= i < self.entries@.len() && self.entries@[i].0@ == key
    }

    /// What the map holds.
    pub closed spec fn view(&self) -> Map<Seq<char>, V> {
        Map::new(
            |k: Seq<char>| exists|i: int| 0 <= i < self.entries@.len() && self.entries@[i].0@ == k,
            |k: Seq<char>| self.entries@[self.slot(k)].1,
        )
    }

    proof fn lemma_slot(&self, i: int)
        requires
            self.distinct_keys(),
            0 <= i < self.entries@.len(),
        ensures
            self.slot(self.entries@[i].0@) == i,
            self@.contains_key(self.entries@[i].0@),
            self@[self.entries@[i].0@] == self.entries@[i].1,
    {
        let k = self.entries@[i].0@;
        let j = self.slot(k);
        assert(0 <= j < self.entries@.len() && self.entries@[j].0@ == k);
        if j < i {
            assert(self.entries@[j].0@ != self.entries@[i].0@);
        } else if i < j {
            assert(self.entries@[i].0@ != self.entries@[j].0@);
        }
    }

    /// An empty map.
    pub fn new() -> (m: TextMap<V>)
        ensures
            m@ == Map::<Seq<char>, V>::empty(),
    {
        let m = TextMap { entries: Vec::new() };
        assert(m@ =~= Map::<Seq<char>, V>::empty());
        m
    }

    fn position(&self, key: &str) -> (r: Option<usize>)
        ensures
            match r {
                Some(i) => i < self.entries@.len() && self.entries@[i as int].0@ == key@,
                None => forall|j: int| 0 <= j < self.entries@.len() ==> self.entries@[j].0@ != key@,
            },
    {
        let mut i: usize = 0;
        while i < self.entries.len()
            invariant
                i <= self.entries@.len(),
                forall|j: int| 0 <= j < i ==> self.entries@[j].0@ != key@,
            decreases self.entries@.len() - i,
        {
            if text_eq(self.entries[i].0.as_str(), key) {
                return Some(i);
            }
            i = i + 1;
        }
        None
    }

    /// The value stored under `key`, if there is one.
    pub fn get(&self, key: &str) -> (r: Option<&V>)
        ensures
            match r {
                Some(v) => self@.contains_key(key@) && *v == self@[key@],
                None => !self@.contains_key(key@),
            },
    {
        proof {
            use_type_invariant(self);
        }
        match self.position(key) {
            Some(i) => {
                proof {
                    self.lemma_slot(i as int);
                }
                Some(&self.entries[i].1)
            },
            None => None,
        }
    }

    /// Stores `value` under `key`, in place of what was there.
    pub fn insert(&mut self, key: String, value: V)
        ensures
            final(self)@ == old(self)@.insert(key@, value),
    {
        proof {
            use_type_invariant(&*self);
        }
        let ghost before = *self;
        let ghost k0 = key@;
        let found = self.position(key.as_str());
        let mut entries: Vec<(String, V)> = Vec::new();
        std::mem::swap(&mut self.entries, &mut entries);
        match found {
            Some(i) => {
                entries.set(i, (key, value));
                std::mem::swap(&mut self.entries, &mut entries);
                proof {
                    assert(self.distinct_keys());
                    assert forall|k: Seq<char>| #[trigger] self@.contains_key(k) implies self@[k]
                        == before@.insert(k0, value)[k] by {
                        let j = self.slot(k);
                        assert(0 <= j < self.entries@.len() && self.entries@[j].0@ == k);
                        self.lemma_slot(j);
                        before.lemma_slot(j);
                        before.lemma_slot(i as int);
                    }
                    before.lemma_slot(i as int);
                    self.lemma_slot(i as int);
                    assert forall|k: Seq<char>| #[trigger] before@.contains_key(k) implies self@.contains_key(k) by {
                        let j = before.slot(k);
                        assert(0 <= j < self.entries@.len() && before.entries@[j].0@ == k);
                        assert(self.entries@[j].0@ == k);
                    }
                    assert(self@ =~= before@.insert(k0, value));
                }
            },
            None => {
                entries.push((key, value));
                std::mem::swap(&mut self.entries, &mut entries);
                proof {
                    let n = before.entries@.len() as int;
                    assert(self.entries@[n].0@ == k0);
                    assert(self.distinct_keys());
                    assert forall|k: Seq<char>| #[trigger]
                        before@.insert(k0, value).contains_key(k) implies self@.contains_key(k)
                        && self@[k] == before@.insert(k0, value)[k] by {
                        if k == k0 {
                            self.lemma_slot(n);
                        } else {
                            let j = before.slot(k);
                            assert(0 <= j < n && before.entries@[j].0@ == k);
                            before.lemma_slot(j);
                            assert(self.entries@[j] == before.entries@[j]);
                            self.lemma_slot(j);
                        }
                    }
                    assert forall|k: Seq<char>| #[trigger] self@.contains_key(k) implies before@.insert(
                        k0,
                        value,
                    ).contains_key(k) by {
                        let j = self.slot(k);
                        assert(0 <= j <= n && self.entries@[j].0@ == k);
                        if j < n {
                            assert(before.entries@[j].0@ == k);
                        }
                    }
                    assert(self@ =~= before@.insert(k0, value));
                }
            },
        }
    }
}

} // verus!
