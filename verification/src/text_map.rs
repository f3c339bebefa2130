use vstd::prelude::*;

verus! {

/// A finite map keyed by text, stored as a list of entries in which no key
/// occurs twice.
#[derive(Debug)]
pub struct TextMap<V> {
    pub(crate) entries: Vec<(String, V)>,
}

/// The keys of a list of entries, in order.
pub open spec fn keys_of<V>(entries: Seq<(String, V)>) -> Seq<Seq<char>> {
    Seq::new(entries.len(), |i: int| entries[i].0@)
}

/// The map that a list of entries stands for: each key with the value stored
/// beside it.
pub open spec fn map_of<V>(entries: Seq<(String, V)>) -> Map<Seq<char>, V> {
    Map::new(
        |k: Seq<char>| keys_of(entries).contains(k),
        |k: Seq<char>| entries[keys_of(entries).index_of(k)].1,
    )
}

/// In a list with distinct keys, a key is found at the place where it stands.
proof fn lemma_slot_of_key<V>(entries: Seq<(String, V)>, i: int)
    requires
        keys_of(entries).no_duplicates(),
        0 <= i < entries.len(),
    ensures
        keys_of(entries).contains(entries[i].0@),
        keys_of(entries).index_of(entries[i].0@) == i,
        map_of(entries).contains_key(entries[i].0@),
        map_of(entries)[entries[i].0@] == entries[i].1,
{
    let keys = keys_of(entries);
    assert(keys[i] == entries[i].0@);
    let j = keys.index_of(entries[i].0@);
    assert(0 <= j < keys.len() && keys[j] == entries[i].0@);
}

/// Appending an entry under a new key inserts it into the map.
proof fn lemma_map_of_push<V>(entries: Seq<(String, V)>, key: String, value: V)
    requires
        keys_of(entries).no_duplicates(),
        !keys_of(entries).contains(key@),
    ensures
        keys_of(entries.push((key, value))).no_duplicates(),
        map_of(entries.push((key, value))) == map_of(entries).insert(key@, value),
{
    let after = entries.push((key, value));
    assert(keys_of(after) =~= keys_of(entries).push(key@));
    assert forall|i: int, j: int|
        0 <= i < after.len() && 0 <= j < after.len() && i != j implies keys_of(after)[i]
        != keys_of(after)[j] by {
        if i < entries.len() {
            assert(keys_of(entries)[i] == keys_of(after)[i]);
        }
        if j < entries.len() {
            assert(keys_of(entries)[j] == keys_of(after)[j]);
        }
    }
    assert forall|k: Seq<char>| #[trigger]
        map_of(after).contains_key(k) == map_of(entries).insert(key@, value).contains_key(k) by {
        if keys_of(entries).contains(k) {
            let i = keys_of(entries).index_of(k);
            assert(keys_of(after)[i] == k);
        }
        if k == key@ {
            assert(keys_of(after)[entries.len() as int] == k);
        }
    }
    assert forall|k: Seq<char>| #[trigger] map_of(after).contains_key(k) implies map_of(after)[k]
        == map_of(entries).insert(key@, value)[k] by {
        let i = keys_of(after).index_of(k);
        lemma_slot_of_key(after, i);
        if i < entries.len() {
            assert(keys_of(entries)[i] == k);
            lemma_slot_of_key(entries, i);
        }
    }
    assert(map_of(after) =~= map_of(entries).insert(key@, value));
}

/// Overwriting the entry of a key replaces its value in the map.
proof fn lemma_map_of_update<V>(entries: Seq<(String, V)>, i: int, key: String, value: V)
    requires
        keys_of(entries).no_duplicates(),
        0 <= i < entries.len(),
        entries[i].0@ == key@,
    ensures
        keys_of(entries.update(i, (key, value))) == keys_of(entries),
        map_of(entries.update(i, (key, value))) == map_of(entries).insert(key@, value),
{
    let after = entries.update(i, (key, value));
    assert(keys_of(after) =~= keys_of(entries));
    lemma_slot_of_key(entries, i);
    assert forall|k: Seq<char>| #[trigger] map_of(after).contains_key(k) implies map_of(after)[k]
        == map_of(entries).insert(key@, value)[k] by {
        let j = keys_of(after).index_of(k);
        lemma_slot_of_key(after, j);
        lemma_slot_of_key(entries, j);
    }
    assert(map_of(after) =~= map_of(entries).insert(key@, value));
}

/// Taking an entry out removes its key from the map.
proof fn lemma_map_of_remove<V>(entries: Seq<(String, V)>, i: int)
    requires
        keys_of(entries).no_duplicates(),
        0 <= i < entries.len(),
    ensures
        keys_of(entries.remove(i)).no_duplicates(),
        map_of(entries.remove(i)) == map_of(entries).remove(entries[i].0@),
{
    let after = entries.remove(i);
    let shift = |j: int| if j < i { j } else { j + 1 };
    assert forall|j: int| 0 <= j < after.len() implies keys_of(after)[j] == keys_of(entries)[shift(
        j,
    )] by {}
    assert forall|a: int, b: int|
        0 <= a < after.len() && 0 <= b < after.len() && a != b implies keys_of(after)[a]
        != keys_of(after)[b] by {
        assert(keys_of(after)[a] == keys_of(entries)[shift(a)]);
        assert(keys_of(after)[b] == keys_of(entries)[shift(b)]);
    }
    lemma_slot_of_key(entries, i);
    assert forall|k: Seq<char>| #[trigger]
        map_of(after).contains_key(k) == map_of(entries).remove(entries[i].0@).contains_key(
            k,
        ) by {
        if keys_of(after).contains(k) {
            let j = keys_of(after).index_of(k);
            assert(keys_of(entries)[shift(j)] == k);
        }
        if keys_of(entries).contains(k) && k != entries[i].0@ {
            let j = keys_of(entries).index_of(k);
            let back = if j < i { j } else { j - 1 };
            assert(keys_of(after)[back] == keys_of(entries)[shift(back)]);
            assert(keys_of(after)[back] == k);
        }
    }
    assert forall|k: Seq<char>| #[trigger] map_of(after).contains_key(k) implies map_of(after)[k]
        == map_of(entries).remove(entries[i].0@)[k] by {
        let j = keys_of(after).index_of(k);
        lemma_slot_of_key(after, j);
        assert(keys_of(after)[j] == keys_of(entries)[shift(j)]);
        lemma_slot_of_key(entries, shift(j));
    }
    assert(map_of(after) =~= map_of(entries).remove(entries[i].0@));
}

impl<V> TextMap<V> {
    #[verifier::type_invariant]
    pub open(crate) spec fn distinct_keys(&self) -> bool {
        keys_of(self.entries@).no_duplicates()
    }

    /// The keys in storage order.
    pub open(crate) spec fn keys(&self) -> Seq<Seq<char>> {
        keys_of(self.entries@)
    }

    /// The position at which `key` is stored, where it is stored at all.
    pub open(crate) spec fn slot(&self, key: Seq<char>) -> int {
        self.keys().index_of(key)
    }

    /// The map this value stands for.
    pub open(crate) spec fn view(&self) -> Map<Seq<char>, V> {
        map_of(self.entries@)
    }

    /// Makes the empty map.
    pub fn new() -> (m: Self)
        ensures
            m@ == Map::<Seq<char>, V>::empty(),
            m.keys().len() == 0,
    {
        let m = TextMap { entries: Vec::new() };
        assert(m@ =~= Map::<Seq<char>, V>::empty());
        m
    }

    /// The number of entries.
    pub fn len(&self) -> (n: usize)
        ensures
            n == self.keys().len(),
    {
        self.entries.len()
    }

    /// Where `key` is stored, if it is.
    pub fn position(&self, key: &String) -> (r: Option<usize>)
        ensures
            match r {
                Some(i) => i < self.keys().len() && self.keys()[i as int] == key@
                    && self.slot(key@) == i,
                None => !self.keys().contains(key@),
            },
    {
        let mut i: usize = 0;
        while i < self.entries.len()
            invariant
                i <= self.entries.len(),
                forall|j: int| 0 <= j < i ==> self.keys()[j] != key@,
            decreases self.entries.len() - i,
        {
            if self.entries[i].0 == *key {
                assert(self.keys()[i as int] == key@);
                proof {
                    use_type_invariant(self);
                    let j = self.keys().index_of(key@);
                    assert(0 <= j < self.keys().len() && self.keys()[j] == key@);
                    assert(j == i);
                }
                return Some(i);
            }
            i += 1;
        }
        None
    }

    /// Whether `key` has a value.
    pub fn contains_key(&self, key: &String) -> (r: bool)
        ensures
            r == self@.contains_key(key@),
    {
        self.position(key).is_some()
    }

    /// The value under `key`, if there is one.
    pub fn get(&self, key: &String) -> (r: Option<&V>)
        ensures
            match r {
                Some(v) => self@.contains_key(key@) && *v == self@[key@],
                None => !self@.contains_key(key@),
            },
    {
        match self.position(key) {
            Some(i) => Some(&self.entries[i].1),
            None => None,
        }
    }

    /// The key stored at place `i`.
    pub fn key_at(&self, i: usize) -> (r: &String)
        requires
            i < self.keys().len(),
        ensures
            r@ == self.keys()[i as int],
    {
        &self.entries[i].0
    }

    /// The value stored at place `i`.
    pub fn value_at(&self, i: usize) -> (r: &V)
        requires
            i < self.keys().len(),
        ensures
            self@.contains_key(self.keys()[i as int]),
            *r == self@[self.keys()[i as int]],
    {
        proof {
            use_type_invariant(self);
            lemma_slot_of_key(self.entries@, i as int);
        }
        &self.entries[i].1
    }

    /// Puts `value` under `key`, in place of what was there.
    pub fn insert(&mut self, key: String, value: V)
        ensures
            final(self)@ == old(self)@.insert(key@, value),
    {
        let found = self.position(&key);
        proof {
            use_type_invariant(&*self);
        }
        let mut entries: Vec<(String, V)> = Vec::new();
        std::mem::swap(&mut entries, &mut self.entries);
        match found {
            Some(i) => {
                proof {
                    lemma_map_of_update(entries@, i as int, key, value);
                }
                entries.set(i, (key, value));
            },
            None => {
                proof {
                    lemma_map_of_push(entries@, key, value);
                }
                entries.push((key, value));
            },
        }
        self.entries = entries;
    }

    /// Takes out what is under `key` and returns it.
    pub fn remove(&mut self, key: &String) -> (r: Option<V>)
        ensures
            final(self)@ == old(self)@.remove(key@),
            match r {
                Some(v) => old(self)@.contains_key(key@) && v == old(self)@[key@],
                None => !old(self)@.contains_key(key@),
            },
    {
        let found = self.position(key);
        proof {
            use_type_invariant(&*self);
        }
        match found {
            Some(i) => {
                let mut entries: Vec<(String, V)> = Vec::new();
                std::mem::swap(&mut entries, &mut self.entries);
                proof {
                    lemma_map_of_remove(entries@, i as int);
                    lemma_slot_of_key(entries@, i as int);
                }
                let taken = entries.remove(i);
                self.entries = entries;
                Some(taken.1)
            },
            None => {
                assert(old(self)@.remove(key@) =~= old(self)@);
                None
            },
        }
    }
}

impl<V: Clone> Clone for TextMap<V> {
    /// Copies the map: the same keys, and under each a copy of its value.
    fn clone(&self) -> (r: Self)
        ensures
            r.keys() == self.keys(),
            r@.dom() == self@.dom(),
            forall|k: Seq<char>| #[trigger] r@.contains_key(k) ==> cloned::<V>(self@[k], r@[k]),
    {
        let mut entries: Vec<(String, V)> = Vec::new();
        let mut i: usize = 0;
        while i < self.entries.len()
            invariant
                i <= self.entries.len(),
                entries.len() == i,
                forall|j: int|
                    0 <= j < i ==> (#[trigger] entries[j]).0@ == self.entries[j].0@ && cloned::<V>(
                        self.entries[j].1,
                        entries[j].1,
                    ),
            decreases self.entries.len() - i,
        {
            let key = self.entries[i].0.clone();
            let value = self.entries[i].1.clone();
            entries.push((key, value));
            i += 1;
        }
        proof {
            use_type_invariant(self);
            assert(keys_of(entries@) =~= keys_of(self.entries@));
        }
        let r = TextMap { entries };
        proof {
            assert(r@.dom() =~= self@.dom());
            assert forall|k: Seq<char>| #[trigger] r@.contains_key(k) implies cloned::<V>(
                self@[k],
                r@[k],
            ) by {
                let j = r.keys().index_of(k);
                assert(0 <= j < r.keys().len());
                assert(r.entries[j].0@ == self.entries[j].0@);
            }
        }
        r
    }
}

} // verus!
