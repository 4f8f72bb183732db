//! Maps keyed by strings.
//!
//! A [`StringMap`] holds each key once. Its mathematical value is a `Map`
//! from the keys' characters to the values' views, and that is all its
//! contracts speak of: the order in which entries are kept carries no meaning.

use vstd::prelude::*;

verus! {

/// A finite map from strings to values.
#[derive(Debug)]
pub struct StringMap<V> {
    entries: Vec<(String, V)>,
}

impl<V: View> View for StringMap<V> {
    type V = Map<Seq<char>, V::V>;

    closed spec fn view(&self) -> Map<Seq<char>, V::V> {
        Map::new(
            |key: Seq<char>| self.keys().contains(key),
            |key: Seq<char>| self.entries@[self.keys().index_of(key)].1@,
        )
    }
}

impl<V> StringMap<V> {
    /// The keys, in the order in which the entries are kept.
    pub closed spec fn keys(self) -> Seq<Seq<char>> {
        Seq::new(self.entries@.len(), |i: int| self.entries@[i].0@)
    }

    #[verifier::type_invariant]
    spec fn keys_are_distinct(self) -> bool {
        self.keys().no_duplicates()
    }
}

impl<V: View> StringMap<V> {
    /// Where no key is kept twice, `keys` lists the map's domain, which is
    /// finite and as large as the list is long.
    proof fn lemma_keys(self)
        requires
            self.keys().no_duplicates(),
        ensures
            self@.dom() == self.keys().to_set(),
            self@.dom().finite(),
            self@.dom().len() == self.keys().len(),
    {
        assert(self@.dom() =~= self.keys().to_set());
        self.keys().unique_seq_to_set();
        vstd::seq_lib::seq_to_set_is_finite(self.keys());
    }

    /// The position of `key` among the entries, where it is a key.
    fn position(&self, key: &String) -> (found: Option<usize>)
        ensures
            match found {
                Some(i) => i < self.entries@.len() && self.keys()[i as int] == key@,
                None => !self.keys().contains(key@),
            },
    {
        let mut i: usize = 0;
        while i < self.entries.len()
            invariant
                i <= self.entries@.len(),
                forall|j: int| 0 <= j < i ==> self.keys()[j] != key@,
            decreases self.entries@.len() - i,
        {
            if self.entries[i].0 == *key {
                return Some(i);
            }
            i += 1;
        }
        None
    }

    /// The map without entries.
    pub fn new() -> (map: Self)
        ensures
            map@ == Map::<Seq<char>, V::V>::empty(),
    {
        let map = StringMap { entries: Vec::new() };
        assert(map@ =~= Map::<Seq<char>, V::V>::empty());
        map
    }

    /// The number of entries.
    pub fn len(&self) -> (n: usize)
        ensures
            self@.dom().finite(),
            n == self@.dom().len(),
    {
        proof {
            use_type_invariant(self);
            self.lemma_keys();
        }
        self.entries.len()
    }

    /// Whether the map has no entries.
    pub fn is_empty(&self) -> (empty: bool)
        ensures
            empty <==> self@ == Map::<Seq<char>, V::V>::empty(),
    {
        proof {
            use_type_invariant(self);
            self.lemma_keys();
            if self.entries@.len() == 0 {
                assert(self@ =~= Map::<Seq<char>, V::V>::empty());
            } else {
                assert(self.keys().contains(self.keys()[0]));
            }
        }
        self.entries.len() == 0
    }

    /// The value stored under `key`.
    pub fn get(&self, key: &str) -> (found: Option<&V>)
        ensures
            match found {
                Some(value) => self@.contains_key(key@) && self@[key@] == value@,
                None => !self@.contains_key(key@),
            },
    {
        let wanted = key.to_owned();
        match self.position(&wanted) {
            Some(i) => {
                proof {
                    use_type_invariant(self);
                    assert(self.keys().contains(key@));
                    assert(self.keys().index_of(key@) == i);
                }
                Some(&self.entries[i].1)
            },
            None => None,
        }
    }

    /// Whether `key` has a value.
    pub fn contains_key(&self, key: &str) -> (present: bool)
        ensures
            present == self@.contains_key(key@),
    {
        self.get(key).is_some()
    }

    /// Stores `value` under `key`, in place of the value that `key` had.
    pub fn insert(&mut self, key: String, value: V)
        ensures
            final(self)@ == old(self)@.insert(key@, value@),
    {
        proof {
            use_type_invariant(&*self);
        }
        let ghost before = *self;
        let ghost wanted = before@.insert(key@, value@);
        let found = self.position(&key);
        let mut entries: Vec<(String, V)> = Vec::new();
        std::mem::swap(&mut self.entries, &mut entries);
        match found {
            Some(i) => {
                entries.set(i, (key, value));
                let ghost after = StringMap { entries };
                proof {
                    assert(after.keys() =~= before.keys());
                    assert forall|k: Seq<char>| #[trigger]
                        after@.contains_key(k) implies after@[k] == wanted[k] by {
                        let at = after.keys().index_of(k);
                        if k == key@ {
                            assert(at == i);
                        } else {
                            assert(at != i);
                        }
                    }
                    assert(after@ =~= wanted);
                }
                self.entries = entries;
            },
            None => {
                entries.push((key, value));
                let ghost after = StringMap { entries };
                proof {
                    let last = before.entries@.len() as int;
                    assert(after.keys() =~= before.keys().push(key@));
                    assert forall|k: Seq<char>|
                        after.keys().contains(k) <==> (k == key@ || before.keys().contains(k)) by {
                        if before.keys().contains(k) {
                            let at = before.keys().index_of(k);
                            assert(after.keys()[at] == k);
                        }
                        if k == key@ {
                            assert(after.keys()[last] == k);
                        }
                    }
                    assert forall|k: Seq<char>| #[trigger]
                        after@.contains_key(k) implies after@[k] == wanted[k] by {
                        let at = after.keys().index_of(k);
                        if k == key@ {
                            assert(after.keys()[last] == k);
                            assert(at == last);
                        } else {
                            assert(before.keys().contains(k));
                            assert(at != last);
                            assert(before.keys()[at] == k);
                            assert(before.keys().index_of(k) == at);
                        }
                    }
                    assert(after@ =~= wanted);
                }
                self.entries = entries;
            },
        }
    }

    /// The entries, each key once, in no order that has a meaning.
    pub fn entries(&self) -> (pairs: &Vec<(String, V)>)
        ensures
            pairs@.len() == self@.dom().len(),
            forall|i: int|
                0 <= i < pairs@.len() ==> self@.contains_key(#[trigger] pairs@[i].0@) && self@[pairs@[i].0@]
                    == pairs@[i].1@,
            forall|i: int, j: int|
                0 <= i < j < pairs@.len() ==> pairs@[i].0@ != pairs@[j].0@,
    {
        proof {
            use_type_invariant(self);
            self.lemma_keys();
            assert forall|i: int| 0 <= i < self.entries@.len() implies self@.contains_key(
                #[trigger] self.entries@[i].0@,
            ) && self@[self.entries@[i].0@] == self.entries@[i].1@ by {
                assert(self.keys()[i] == self.entries@[i].0@);
                assert(self.keys().index_of(self.entries@[i].0@) == i);
            }
            assert forall|i: int, j: int| 0 <= i < j < self.entries@.len() implies self.entries@[i].0@
                != self.entries@[j].0@ by {
                assert(self.keys()[i] != self.keys()[j]);
            }
        }
        &self.entries
    }
}

} // verus!
