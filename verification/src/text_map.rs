//! A small map from text keys to values, kept as a list in order of arrival.
//!
//! Two keys are the same key when they hold the same characters.

use vstd::prelude::*;

verus! {

/// The characters of each key, in the order of the entries.
pub open spec fn entry_keys<V>(entries: Seq<(String, V)>) -> Seq<Seq<char>> {
    Seq::new(entries.len(), |i: int| entries[i].0@)
}

/// The map that a list of entries with distinct keys stands for.
pub open spec fn entries_map<V>(entries: Seq<(String, V)>) -> Map<Seq<char>, V> {
    Map::new(
        |k: Seq<char>| entry_keys(entries).contains(k),
        |k: Seq<char>| entries[entry_keys(entries).index_of(k)].1,
    )
}

/// In a list without repeated keys, each key is found at its own place.
pub proof fn lemma_key_index<V>(entries: Seq<(String, V)>, i: int)
    requires
        entry_keys(entries).no_duplicates(),
        0 <= i < entries.len(),
    ensures
        entry_keys(entries).contains(entries[i].0@),
        entry_keys(entries).index_of(entries[i].0@) == i,
        entries_map(entries)[entries[i].0@] == entries[i].1,
{
    assert(entry_keys(entries)[i] == entries[i].0@);
}

/// A list without repeated keys stands for a finite map of the same size.
pub proof fn lemma_map_len<V>(entries: Seq<(String, V)>)
    requires
        entry_keys(entries).no_duplicates(),
    ensures
        entries_map(entries).dom().finite(),
        entries_map(entries).len() == entries.len(),
{
    let keys = entry_keys(entries);
    vstd::seq_lib::seq_to_set_is_finite(keys);
    keys.unique_seq_to_set();
}

/// Adding an entry under a key that the list lacks extends the map by it.
pub proof fn lemma_push_entry<V>(entries: Seq<(String, V)>, key: String, value: V)
    requires
        entry_keys(entries).no_duplicates(),
        !entry_keys(entries).contains(key@),
    ensures
        entry_keys(entries.push((key, value))) == entry_keys(entries).push(key@),
        entry_keys(entries.push((key, value))).no_duplicates(),
        entries_map(entries.push((key, value))) == entries_map(entries).insert(key@, value),
{
    let after = entries.push((key, value));
    let keys = entry_keys(entries);
    let keys_after = entry_keys(after);
    assert(keys_after.no_duplicates()) by {
        assert forall|i: int, j: int|
            0 <= i < keys_after.len() && 0 <= j < keys_after.len() && i != j implies keys_after[i]
            != keys_after[j] by {
            if i < keys.len() {
                assert(keys[i] == keys_after[i]);
            }
            if j < keys.len() {
                assert(keys[j] == keys_after[j]);
            }
        }
    }
    assert forall|k: Seq<char>| keys_after.contains(k) <==> (keys.contains(k) || k == key@) by {
        if keys.contains(k) {
            let i = keys.index_of(k);
            assert(keys_after[i] == k);
        }
        if k == key@ {
            assert(keys_after[keys.len() as int] == k);
        }
        if keys_after.contains(k) {
            let i = keys_after.index_of(k);
            if i < keys.len() {
                assert(keys[i] == k);
            }
        }
    }
    assert forall|k: Seq<char>| keys_after.contains(k) implies #[trigger] entries_map(after)[k]
        == entries_map(entries).insert(key@, value)[k] by {
        if k == key@ {
            lemma_key_index(after, entries.len() as int);
        } else {
            let i = keys.index_of(k);
            lemma_key_index(after, i);
            lemma_key_index(entries, i);
        }
    }
}

/// Replacing the value of an entry changes the map at that key alone; the
/// key may be written anew as long as its characters stay.
pub proof fn lemma_update_entry<V>(entries: Seq<(String, V)>, i: int, key: String, value: V)
    requires
        entry_keys(entries).no_duplicates(),
        0 <= i < entries.len(),
        entries[i].0@ == key@,
    ensures
        entry_keys(entries.update(i, (key, value))) == entry_keys(entries),
        entries_map(entries.update(i, (key, value))) == entries_map(entries).insert(key@, value),
{
    let after = entries.update(i, (key, value));
    let keys = entry_keys(entries);
    assert(entry_keys(after) =~= keys);
    assert(keys[i] == key@);
    assert forall|k: Seq<char>| keys.contains(k) implies #[trigger] entries_map(after)[k]
        == entries_map(entries).insert(key@, value)[k] by {
        let j = keys.index_of(k);
        lemma_key_index(after, j);
        lemma_key_index(entries, j);
    }
}

/// The first entries of a list without repeated keys repeat no key, and
/// none of them has the key of the entry that follows them.
pub proof fn lemma_prefix_keys<V>(entries: Seq<(String, V)>, n: int)
    requires
        entry_keys(entries).no_duplicates(),
        0 <= n <= entries.len(),
    ensures
        entry_keys(entries.take(n)).no_duplicates(),
        n < entries.len() ==> !entry_keys(entries.take(n)).contains(entries[n].0@),
        n < entries.len() ==> entries.take(n + 1) == entries.take(n).push(entries[n]),
{
    let keys = entry_keys(entries);
    let first = entry_keys(entries.take(n));
    assert forall|i: int, j: int| 0 <= i < first.len() && 0 <= j < first.len() && i != j implies first[i]
        != first[j] by {
        assert(first[i] == keys[i]);
        assert(first[j] == keys[j]);
    }
    if n < entries.len() {
        if first.contains(entries[n].0@) {
            let i = first.index_of(entries[n].0@);
            assert(first[i] == keys[i]);
            assert(keys[n] == entries[n].0@);
        }
    }
}

/// A map from text to `V`. Its entries are public, so that a holder can read
/// them in order and store them elsewhere; `wf` says when they form a map.
#[derive(Clone, Debug, PartialEq, Eq)]
pub struct TextMap<V> {
    pub entries: Vec<(String, V)>,
}

impl<V> View for TextMap<V> {
    type V = Map<Seq<char>, V>;

    open spec fn view(&self) -> Map<Seq<char>, V> {
        entries_map(self.entries@)
    }
}

impl<V> TextMap<V> {
    /// No key occurs twice.
    pub open spec fn wf(&self) -> bool {
        entry_keys(self.entries@).no_duplicates()
    }

    pub fn new() -> (map: Self)
        ensures
            map.wf(),
            map@ == Map::<Seq<char>, V>::empty(),
            map.entries@.len() == 0,
    {
        let map = TextMap { entries: Vec::new() };
        map
    }

    /// Whether the entries form a map, that is, whether no key occurs twice.
    pub fn is_well_formed(&self) -> (ok: bool)
        ensures
            ok == self.wf(),
    {
        let ghost keys = entry_keys(self.entries@);
        let mut i: usize = 0;
        while i < self.entries.len()
            invariant
                i <= self.entries@.len(),
                keys == entry_keys(self.entries@),
                forall|a: int, b: int| 0 <= a < b < i ==> keys[a] != keys[b],
            decreases self.entries@.len() - i,
        {
            let mut j: usize = 0;
            while j < i
                invariant
                    j <= i < self.entries@.len(),
                    keys == entry_keys(self.entries@),
                    forall|a: int| 0 <= a < j ==> keys[a] != keys[i as int],
                decreases i - j,
            {
                if self.entries[j].0 == self.entries[i].0 {
                    assert(keys[j as int] == keys[i as int]);
                    return false;
                }
                j += 1;
            }
            i += 1;
        }
        true
    }

    /// The number of entries, which is the size of the map.
    pub fn len(&self) -> (n: usize)
        requires
            self.wf(),
        ensures
            n == self.entries@.len(),
            n == self@.len(),
    {
        proof {
            lemma_map_len(self.entries@);
        }
        self.entries.len()
    }

    /// Where the key stands among the entries, if it is there.
    pub fn position(&self, key: &String) -> (place: Option<usize>)
        ensures
            match place {
                Some(i) => i < self.entries@.len() && self.entries@[i as int].0@ == key@,
                None => !entry_keys(self.entries@).contains(key@),
            },
            place is Some <==> self@.contains_key(key@),
    {
        let ghost keys = entry_keys(self.entries@);
        let mut i: usize = 0;
        while i < self.entries.len()
            invariant
                i <= self.entries@.len(),
                keys == entry_keys(self.entries@),
                forall|j: int| 0 <= j < i ==> keys[j] != key@,
            decreases self.entries@.len() - i,
        {
            if self.entries[i].0 == *key {
                assert(keys[i as int] == key@);
                return Some(i);
            }
            i += 1;
        }
        None
    }

    pub fn contains_key(&self, key: &String) -> (found: bool)
        ensures
            found == self@.contains_key(key@),
    {
        self.position(key).is_some()
    }

    /// The value stored under the key.
    pub fn get(&self, key: &String) -> (value: Option<&V>)
        requires
            self.wf(),
        ensures
            match value {
                Some(v) => self@.contains_key(key@) && *v == self@[key@],
                None => !self@.contains_key(key@),
            },
    {
        match self.position(key) {
            Some(i) => {
                proof {
                    lemma_key_index(self.entries@, i as int);
                }
                Some(&self.entries[i].1)
            },
            None => None,
        }
    }

    /// Stores the value under the key, in place of an earlier value if the
    /// key was there. A new key goes to the end of the entries; a known one
    /// keeps its place.
    pub fn insert(&mut self, key: String, value: V)
        requires
            old(self).wf(),
        ensures
            final(self).wf(),
            final(self)@ == old(self)@.insert(key@, value),
            !old(self)@.contains_key(key@) ==> final(self).entries@ == old(self).entries@.push(
                (key, value),
            ),
            old(self)@.contains_key(key@) ==> final(self).entries@.len() == old(
                self,
            ).entries@.len(),
    {
        match self.position(&key) {
            Some(i) => {
                proof {
                    lemma_update_entry(self.entries@, i as int, key, value);
                }
                self.entries.set(i, (key, value));
            },
            None => {
                proof {
                    lemma_push_entry(self.entries@, key, value);
                }
                self.entries.push((key, value));
            },
        }
    }
}

/// A set of texts, kept as the keys of a map.
#[derive(Clone, Debug, PartialEq, Eq)]
pub struct TextSet {
    pub items: TextMap<()>,
}

impl View for TextSet {
    type V = Set<Seq<char>>;

    open spec fn view(&self) -> Set<Seq<char>> {
        self.items@.dom()
    }
}

impl TextSet {
    /// No text occurs twice.
    pub open spec fn wf(&self) -> bool {
        self.items.wf()
    }

    pub fn new() -> (set: Self)
        ensures
            set.wf(),
            set@ == Set::<Seq<char>>::empty(),
    {
        let set = TextSet { items: TextMap::new() };
        set
    }

    /// Whether no text occurs twice.
    pub fn is_well_formed(&self) -> (ok: bool)
        ensures
            ok == self.wf(),
    {
        self.items.is_well_formed()
    }

    /// The number of texts in the set.
    pub fn len(&self) -> (n: usize)
        requires
            self.wf(),
        ensures
            self@.finite(),
            n == self@.len(),
    {
        proof {
            lemma_map_len(self.items.entries@);
        }
        self.items.len()
    }

    pub fn contains(&self, text: &String) -> (found: bool)
        ensures
            found == self@.contains(text@),
    {
        self.items.contains_key(text)
    }

    /// Adds the text, unless it is there.
    pub fn insert(&mut self, text: String)
        requires
            old(self).wf(),
        ensures
            final(self).wf(),
            final(self)@ == old(self)@.insert(text@),
    {
        self.items.insert(text, ());
    }
}

} // verus!
