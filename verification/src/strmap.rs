//! A string-keyed map backed by an association vector with unique keys,
//! abstracted as a `Map` from character sequences to values.
//!
//! The loader registry and the status tracker are both built on this type.

use vstd::prelude::*;

verus! {

/// The map described by a sequence of key/value pairs; later pairs win.
pub open spec fn entries_map<V>(entries: Seq<(String, V)>) -> Map<Seq<char>, V>
    decreases entries.len(),
{
    if entries.len() == 0 {
        Map::empty()
    } else {
        entries_map(entries.drop_last()).insert(entries.last().0@, entries.last().1)
    }
}

/// No two pairs share a key.
pub open spec fn unique_keys<V>(entries: Seq<(String, V)>) -> bool {
    forall|i: int, j: int|
        0 <= i < j < entries.len() ==> entries[i].0@ != entries[j].0@
}

/// A map from strings to values, keyed by the string's character sequence.
pub struct StringMap<V> {
    entries: Vec<(String, V)>,
}

impl<V> View for StringMap<V> {
    type V = Map<Seq<char>, V>;

    closed spec fn view(&self) -> Map<Seq<char>, V> {
        entries_map(self.entries@)
    }
}

proof fn lemma_entries_map_index<V>(entries: Seq<(String, V)>, i: int)
    requires
        unique_keys(entries),
        0 <= i < entries.len(),
    ensures
        entries_map(entries).contains_key(entries[i].0@),
        entries_map(entries)[entries[i].0@] == entries[i].1,
    decreases entries.len(),
{
    if i < entries.len() - 1 {
        let t = entries.drop_last();
        assert(unique_keys(t)) by {
            assert(forall|a: int, b: int|
                0 <= a < b < t.len() ==> t[a].0@ == entries[a].0@ && t[b].0@ == entries[b].0@);
        }
        lemma_entries_map_index(t, i);
        assert(entries[i].0@ != entries.last().0@);
    }
}

proof fn lemma_entries_map_key_absent<V>(entries: Seq<(String, V)>, k: Seq<char>)
    requires
        forall|i: int| 0 <= i < entries.len() ==> entries[i].0@ != k,
    ensures
        !entries_map(entries).contains_key(k),
    decreases entries.len(),
{
    if entries.len() > 0 {
        let t = entries.drop_last();
        assert(forall|i: int| 0 <= i < t.len() ==> t[i].0@ == entries[i].0@);
        lemma_entries_map_key_absent(t, k);
        assert(entries.last().0@ != k);
    }
}

proof fn lemma_entries_map_dom<V>(entries: Seq<(String, V)>)
    ensures
        forall|k: Seq<char>|
            #[trigger] entries_map(entries).contains_key(k) ==> exists|i: int|
                0 <= i < entries.len() && entries[i].0@ == k,
    decreases entries.len(),
{
    if entries.len() > 0 {
        let t = entries.drop_last();
        lemma_entries_map_dom(t);
        assert forall|k: Seq<char>| #[trigger]
            entries_map(entries).contains_key(k) implies exists|i: int|
            0 <= i < entries.len() && entries[i].0@ == k by {
            if k == entries.last().0@ {
                assert(entries[entries.len() - 1].0@ == k);
            } else {
                assert(entries_map(t).contains_key(k));
                let i = choose|i: int| 0 <= i < t.len() && t[i].0@ == k;
                assert(entries[i].0@ == k);
            }
        }
    }
}

proof fn lemma_entries_map_update<V>(entries: Seq<(String, V)>, i: int, pair: (String, V))
    requires
        unique_keys(entries),
        0 <= i < entries.len(),
        pair.0@ == entries[i].0@,
    ensures
        entries_map(entries.update(i, pair)) =~= entries_map(entries).insert(pair.0@, pair.1),
    decreases entries.len(),
{
    let u = entries.update(i, pair);
    if i == entries.len() - 1 {
        assert(u.drop_last() =~= entries.drop_last());
        assert(u.last() == pair);
    } else {
        let t = entries.drop_last();
        assert(unique_keys(t));
        assert(u.drop_last() =~= t.update(i, pair));
        assert(u.last() == entries.last());
        lemma_entries_map_update(t, i, pair);
        assert(pair.0@ != entries.last().0@);
        assert(entries_map(u) =~= entries_map(entries).insert(pair.0@, pair.1));
    }
}

proof fn lemma_entries_map_remove<V>(entries: Seq<(String, V)>, i: int)
    requires
        unique_keys(entries),
        0 <= i < entries.len(),
    ensures
        entries_map(entries.remove(i)) =~= entries_map(entries).remove(entries[i].0@),
    decreases entries.len(),
{
    let u = entries.remove(i);
    if i == entries.len() - 1 {
        assert(u =~= entries.drop_last());
        assert(forall|j: int| 0 <= j < entries.len() - 1 ==> entries[j].0@ != entries[i].0@);
        lemma_entries_map_key_absent(entries.drop_last(), entries[i].0@);
    } else {
        let t = entries.drop_last();
        assert(unique_keys(t));
        assert(u.drop_last() =~= t.remove(i));
        assert(u.last() == entries.last());
        lemma_entries_map_remove(t, i);
        assert(entries[i].0@ != entries.last().0@);
        assert(entries_map(u) =~= entries_map(entries).remove(entries[i].0@));
    }
}

impl<V> StringMap<V> {
    /// Well-formedness: the entry keys are pairwise distinct.
    pub closed spec fn wf(&self) -> bool {
        unique_keys(self.entries@)
    }

    /// The number of entries held.
    pub closed spec fn spec_len(&self) -> nat {
        self.entries@.len()
    }

    /// The key stored at an entry position.
    pub closed spec fn spec_key_at(&self, i: int) -> Seq<char> {
        self.entries@[i].0@
    }

    /// The value stored at an entry position.
    pub closed spec fn spec_value_at(&self, i: int) -> V {
        self.entries@[i].1
    }

    /// An empty map.
    pub fn new() -> (r: StringMap<V>)
        ensures
            r.wf(),
            r@ == Map::<Seq<char>, V>::empty(),
            r.spec_len() == 0,
    {
        StringMap { entries: Vec::new() }
    }

    /// The position of a key in the entry vector.
    fn position(&self, key: &String) -> (r: Option<usize>)
        ensures
            match r {
                Some(i) => i < self.entries@.len() && self.entries@[i as int].0@ == key@,
                None => forall|i: int|
                    0 <= i < self.entries@.len() ==> self.entries@[i as int].0@ != key@,
            },
    {
        let n = self.entries.len();
        let mut i: usize = 0;
        while i < n
            invariant
                i <= n,
                n == self.entries@.len(),
                forall|j: int| 0 <= j < i ==> self.entries@[j].0@ != key@,
            decreases n - i,
        {
            let pair = &self.entries[i];
            if pair.0 == *key {
                return Some(i);
            }
            i = i + 1;
        }
        None
    }

    /// Whether the map holds the key.
    pub fn contains_key(&self, key: &String) -> (r: bool)
        requires
            self.wf(),
        ensures
            r == self@.contains_key(key@),
    {
        let pos = self.position(key);
        match pos {
            Some(i) => {
                proof {
                    lemma_entries_map_index(self.entries@, i as int);
                }
                true
            },
            None => {
                proof {
                    lemma_entries_map_key_absent(self.entries@, key@);
                }
                false
            },
        }
    }

    /// The value held under the key, if any.
    pub fn get(&self, key: &String) -> (r: Option<&V>)
        requires
            self.wf(),
        ensures
            match r {
                Some(v) => self@.contains_key(key@) && *v == self@[key@],
                None => !self@.contains_key(key@),
            },
    {
        let pos = self.position(key);
        match pos {
            Some(i) => {
                proof {
                    lemma_entries_map_index(self.entries@, i as int);
                }
                Some(&self.entries[i].1)
            },
            None => {
                proof {
                    lemma_entries_map_key_absent(self.entries@, key@);
                }
                None
            },
        }
    }

    /// Bind the key to the value, replacing any previous binding.
    pub fn insert(&mut self, key: String, value: V)
        requires
            old(self).wf(),
        ensures
            final(self).wf(),
            final(self)@ == old(self)@.insert(key@, value),
            final(self).spec_len() <= old(self).spec_len() + 1,
    {
        let ghost entries0 = self.entries@;
        let pos = self.position(&key);
        let pair = (key, value);
        match pos {
            Some(i) => {
                proof {
                    lemma_entries_map_update(entries0, i as int, pair);
                    assert(unique_keys(entries0.update(i as int, pair)));
                }
                self.entries[i] = pair;
                assert(self.entries@ =~= entries0.update(i as int, pair));
            },
            None => {
                proof {
                    assert(unique_keys(entries0.push(pair)));
                }
                self.entries.push(pair);
                proof {
                    assert(self.entries@.drop_last() =~= entries0);
                    assert(self@ =~= old(self)@.insert(pair.0@, pair.1));
                }
            },
        }
    }

    /// Drop the binding for the key, returning the value it held.
    pub fn remove(&mut self, key: &String) -> (r: Option<V>)
        requires
            old(self).wf(),
        ensures
            final(self).wf(),
            final(self)@ == old(self)@.remove(key@),
            match r {
                Some(v) => old(self)@.contains_key(key@) && v == old(self)@[key@],
                None => !old(self)@.contains_key(key@),
            },
    {
        let ghost entries0 = self.entries@;
        let pos = self.position(key);
        match pos {
            Some(i) => {
                proof {
                    lemma_entries_map_index(entries0, i as int);
                    lemma_entries_map_remove(entries0, i as int);
                    assert(unique_keys(entries0.remove(i as int)));
                }
                let pair = self.entries.remove(i);
                Some(pair.1)
            },
            None => {
                proof {
                    lemma_entries_map_key_absent(entries0, key@);
                    assert(self@ =~= old(self)@.remove(key@));
                }
                None
            },
        }
    }

    /// Drop every binding.
    pub fn clear(&mut self)
        ensures
            final(self).wf(),
            final(self)@ == Map::<Seq<char>, V>::empty(),
            final(self).spec_len() == 0,
    {
        self.entries.clear();
    }

    /// The number of entries, together with the facts needed to walk them:
    /// every held key appears at exactly one position below the length.
    pub fn len(&self) -> (r: usize)
        requires
            self.wf(),
        ensures
            r == self.spec_len(),
            forall|k: Seq<char>| #[trigger]
                self@.contains_key(k) ==> exists|i: int|
                    0 <= i < self.spec_len() && self.spec_key_at(i) == k,
            forall|i: int|
                0 <= i < self.spec_len() ==> self@.contains_key(#[trigger] self.spec_key_at(i))
                    && self@[self.spec_key_at(i)] == self.spec_value_at(i),
            forall|i: int, j: int|
                #![trigger self.spec_key_at(i), self.spec_key_at(j)]
                0 <= i < j < self.spec_len() ==> self.spec_key_at(i) != self.spec_key_at(j),
    {
        proof {
            lemma_entries_map_dom(self.entries@);
            assert forall|k: Seq<char>| #[trigger]
                self@.contains_key(k) implies exists|i: int|
                0 <= i < self.spec_len() && self.spec_key_at(i) == k by {
                let i = choose|i: int| 0 <= i < self.entries@.len() && self.entries@[i].0@ == k;
                assert(self.spec_key_at(i) == k);
            }
            assert forall|i: int|
                0 <= i < self.spec_len() implies self@.contains_key(
                #[trigger] self.spec_key_at(i),
            ) && self@[self.spec_key_at(i)] == self.spec_value_at(i) by {
                lemma_entries_map_index(self.entries@, i);
            }
        }
        self.entries.len()
    }

    /// The key and value stored at an entry position.
    pub fn pair_at(&self, i: usize) -> (r: (&String, &V))
        requires
            self.wf(),
            i < self.spec_len(),
        ensures
            r.0@ == self.spec_key_at(i as int),
            *r.1 == self.spec_value_at(i as int),
            self@.contains_key(r.0@),
            self@[r.0@] == *r.1,
    {
        proof {
            lemma_entries_map_index(self.entries@, i as int);
        }
        let pair = &self.entries[i];
        (&pair.0, &pair.1)
    }
}

impl StringMap<String> {
    /// The key of the unique entry holding the value, when values are known
    /// to be distinct; any one such key otherwise.
    pub fn key_of_value(&self, value: &String) -> (r: Option<String>)
        requires
            self.wf(),
        ensures
            match r {
                Some(k) => self@.contains_key(k@) && self@[k@]@ == value@,
                None => forall|k: Seq<char>| #[trigger]
                    self@.contains_key(k) ==> self@[k]@ != value@,
            },
    {
        proof {
            lemma_entries_map_dom(self.entries@);
        }
        let n = self.entries.len();
        let mut i: usize = 0;
        while i < n
            invariant
                i <= n,
                n == self.entries@.len(),
                unique_keys(self.entries@),
                forall|j: int| 0 <= j < i ==> self.entries@[j].1@ != value@,
            decreases n - i,
        {
            let pair = &self.entries[i];
            if pair.1 == *value {
                proof {
                    lemma_entries_map_index(self.entries@, i as int);
                }
                return Some(pair.0.clone());
            }
            i = i + 1;
        }
        proof {
            assert forall|k: Seq<char>| #[trigger]
                self@.contains_key(k) implies self@[k]@ != value@ by {
                let j = choose|j: int| 0 <= j < self.entries@.len() && self.entries@[j].0@ == k;
                lemma_entries_map_index(self.entries@, j);
            }
        }
        None
    }
}

} // verus!
