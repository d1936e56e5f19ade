//! A map keyed by strings, kept as a list of entries in the order in which
//! their keys first arrived.

use vstd::prelude::*;

verus! {

/// A finite map from strings to values of type `V`.
///
/// Its view is the mathematical map. No key occurs twice among the entries;
/// `keys()` lists them in the order in which they were first inserted.
#[derive(Debug)]
pub struct StringMap<V> {
    entries: Vec<(String, V)>,
}

/// What a map from strings to `V` holds.
pub type Content<V> = Map<Seq<char>, V>;

/// The keys of a list of entries, in order.
spec fn entry_keys<V>(entries: Seq<(String, V)>) -> Seq<Seq<char>> {
    Seq::new(entries.len(), |i: int| entries[i].0@)
}

/// The map that a list of entries stands for: each key with the value of an
/// entry that carries it.
spec fn entry_map<V>(entries: Seq<(String, V)>) -> Content<V> {
    let keys = entry_keys(entries);
    Map::new(|k: Seq<char>| keys.contains(k), |k: Seq<char>| entries[keys.index_of(k)].1)
}

/// With distinct keys, the entry at a position is what the map holds under
/// that position's key.
proof fn lemma_entry_in_map<V>(entries: Seq<(String, V)>, i: int)
    requires
        entry_keys(entries).no_duplicates(),
        0 <= i < entries.len(),
    ensures
        entry_map(entries).contains_key(entries[i].0@),
        entry_map(entries)[entries[i].0@] == entries[i].1,
{
    let keys = entry_keys(entries);
    assert(keys[i] == entries[i].0@);
    assert(keys.index_of(keys[i]) == i);
}

/// Appending an entry under a new key inserts it into the map.
proof fn lemma_push_entry<V>(entries: Seq<(String, V)>, key: String, value: V)
    requires
        entry_keys(entries).no_duplicates(),
        !entry_keys(entries).contains(key@),
    ensures
        entry_keys(entries.push((key, value))) == entry_keys(entries).push(key@),
        entry_keys(entries.push((key, value))).no_duplicates(),
        entry_map(entries.push((key, value))) == entry_map(entries).insert(key@, value),
{
    let after = entries.push((key, value));
    let keys = entry_keys(entries);
    assert(entry_keys(after) =~= keys.push(key@));
    assert forall|i: int, j: int|
        0 <= i < after.len() && 0 <= j < after.len() && i != j implies entry_keys(after)[i]
        != entry_keys(after)[j] by {
        if i < entries.len() {
            assert(keys[i] == entry_keys(after)[i]);
        }
        if j < entries.len() {
            assert(keys[j] == entry_keys(after)[j]);
        }
    }
    assert forall|k: Seq<char>| #[trigger]
        entry_map(after).contains_key(k) <==> entry_map(entries).insert(key@, value).contains_key(
            k,
        ) by {
        if entry_keys(after).contains(k) {
            let i = entry_keys(after).index_of(k);
            if i < entries.len() {
                assert(keys[i] == k);
            }
        }
        if keys.contains(k) {
            let i = keys.index_of(k);
            assert(entry_keys(after)[i] == k);
        }
        if k == key@ {
            assert(entry_keys(after)[entries.len() as int] == k);
        }
    }
    assert forall|k: Seq<char>| #[trigger] entry_map(after).contains_key(k) implies entry_map(
        after,
    )[k] == entry_map(entries).insert(key@, value)[k] by {
        let i = entry_keys(after).index_of(k);
        lemma_entry_in_map(after, i);
        if i < entries.len() {
            lemma_entry_in_map(entries, i);
        }
    }
    assert(entry_map(after) =~= entry_map(entries).insert(key@, value));
}

/// Replacing the entry that carries a key by another with the same key
/// inserts the new value into the map and leaves the keys as they were.
proof fn lemma_replace_entry<V>(entries: Seq<(String, V)>, i: int, key: String, value: V)
    requires
        entry_keys(entries).no_duplicates(),
        0 <= i < entries.len(),
        entries[i].0@ == key@,
    ensures
        entry_keys(entries.update(i, (key, value))) == entry_keys(entries),
        entry_map(entries.update(i, (key, value))) == entry_map(entries).insert(key@, value),
{
    let after = entries.update(i, (key, value));
    let keys = entry_keys(entries);
    assert(entry_keys(after) =~= keys);
    assert(keys[i] == key@);
    assert forall|k: Seq<char>| #[trigger] entry_map(after).contains_key(k) implies entry_map(
        after,
    )[k] == entry_map(entries).insert(key@, value)[k] by {
        let j = keys.index_of(k);
        lemma_entry_in_map(after, j);
        lemma_entry_in_map(entries, j);
    }
    assert(entry_map(after) =~= entry_map(entries).insert(key@, value));
}

impl<V> View for StringMap<V> {
    type V = Content<V>;

    closed spec fn view(&self) -> Content<V> {
        entry_map(self.entries@)
    }
}

impl<V> StringMap<V> {
    #[verifier::type_invariant]
    spec fn distinct_keys(self) -> bool {
        entry_keys(self.entries@).no_duplicates()
    }

    /// The keys in the order in which they were first inserted.
    pub closed spec fn keys(self) -> Seq<Seq<char>> {
        entry_keys(self.entries@)
    }

    /// The entry at a position is what the view holds under that
    /// position's key.
    proof fn lemma_entry_in_view(self, i: int)
        requires
            self.distinct_keys(),
            0 <= i < self.entries@.len(),
        ensures
            self@.contains_key(self.keys()[i]),
            self@[self.keys()[i]] == self.entries@[i].1,
    {
        lemma_entry_in_map(self.entries@, i);
    }

    /// An empty map.
    pub fn new() -> (created: Self)
        ensures
            created@ == Content::<V>::empty(),
            created.keys() == Seq::<Seq<char>>::empty(),
    {
        StringMap { entries: Vec::new() }
    }

    /// The number of entries. Each key of the view is listed once in `keys()`.
    pub fn len(&self) -> (count: usize)
        ensures
            count == self.keys().len(),
            count == self@.len(),
            self@.dom().finite(),
            self.keys().no_duplicates(),
            self@.dom() == self.keys().to_set(),
    {
        proof {
            use_type_invariant(self);
            self.keys().unique_seq_to_set();
        }
        self.entries.len()
    }

    /// Whether the map has no entry.
    pub fn is_empty(&self) -> (empty: bool)
        ensures
            empty == (self@ == Content::<V>::empty()),
            empty == (self.keys().len() == 0),
    {
        proof {
            use_type_invariant(self);
            if self.entries@.len() == 0 {
                assert(self@ =~= Content::<V>::empty());
            } else {
                self.lemma_entry_in_view(0);
            }
        }
        self.entries.len() == 0
    }

    /// The position of `key` among the entries, if it is there.
    fn position(&self, key: &String) -> (found: Option<usize>)
        ensures
            found matches Some(i) ==> i < self.entries@.len() && self.entries@[i as int].0@ == key@,
            found is None ==> !entry_keys(self.entries@).contains(key@),
    {
        let mut i: usize = 0;
        while i < self.entries.len()
            invariant
                i <= self.entries@.len(),
                forall|j: int| 0 <= j < i ==> self.entries@[j].0@ != key@,
            decreases self.entries@.len() - i,
        {
            if self.entries[i].0 == *key {
                return Some(i);
            }
            i += 1;
        }
        None
    }

    /// Stores `value` under `key` and hands back the value that was stored
    /// there before, if any. A key that is already present keeps its place
    /// in `keys()`; a new one goes to the end.
    pub fn insert(&mut self, key: String, value: V) -> (previous: Option<V>)
        ensures
            final(self)@ == old(self)@.insert(key@, value),
            old(self)@.contains_key(key@) ==> previous == Some(old(self)@[key@]),
            old(self)@.contains_key(key@) ==> final(self).keys() == old(self).keys(),
            !old(self)@.contains_key(key@) ==> previous is None,
            !old(self)@.contains_key(key@) ==> final(self).keys() == old(self).keys().push(key@),
    {
        proof {
            use_type_invariant(&*self);
        }
        let found = self.position(&key);
        let ghost before = self.entries@;
        let mut entries: Vec<(String, V)> = Vec::new();
        core::mem::swap(&mut self.entries, &mut entries);
        let previous = match found {
            Some(i) => {
                proof {
                    lemma_entry_in_map(before, i as int);
                    lemma_replace_entry(before, i as int, key, value);
                }
                entries.push((key, value));
                let replaced = entries.swap_remove(i);
                assert(entries@ =~= before.update(i as int, (key, value)));
                Some(replaced.1)
            },
            None => {
                proof {
                    lemma_push_entry(before, key, value);
                }
                entries.push((key, value));
                None
            },
        };
        self.entries = entries;
        previous
    }

    /// Whether `key` has an entry.
    pub fn contains_key(&self, key: &str) -> (present: bool)
        ensures
            present == self@.contains_key(key@),
    {
        let owned = key.to_owned();
        match self.position(&owned) {
            Some(i) => {
                assert(entry_keys(self.entries@)[i as int] == key@);
                true
            },
            None => false,
        }
    }

    /// The value stored under `key`, if there is one.
    pub fn get(&self, key: &str) -> (found: Option<&V>)
        ensures
            found is Some <==> self@.contains_key(key@),
            found matches Some(value) ==> *value == self@[key@],
    {
        let owned = key.to_owned();
        match self.position(&owned) {
            Some(i) => {
                proof {
                    use_type_invariant(self);
                    self.lemma_entry_in_view(i as int);
                }
                Some(&self.entries[i].1)
            },
            None => None,
        }
    }

    /// The entry at position `i` of `keys()`: the key and the value stored
    /// under it. `None` from the number of entries on.
    pub fn entry(&self, i: usize) -> (found: Option<(&String, &V)>)
        ensures
            found is Some <==> i < self.keys().len(),
            found matches Some((key, value)) ==> key@ == self.keys()[i as int],
            found matches Some((key, value)) ==> self@.contains_key(key@) && *value == self@[key@],
    {
        if i < self.entries.len() {
            proof {
                use_type_invariant(self);
                self.lemma_entry_in_view(i as int);
            }
            Some((&self.entries[i].0, &self.entries[i].1))
        } else {
            None
        }
    }
}

} // verus!
