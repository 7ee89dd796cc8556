//! An association table from string keys to values that keeps insertion
//! order.  Lookups return the first entry with a matching key; an insert
//! replaces the value of an existing key in place.

use vstd::prelude::*;

verus! {

/// Lookup among the entries with index at least `i`, first match wins.
pub open spec fn lookup_from<V>(s: Seq<(Seq<char>, V)>, key: Seq<char>, i: int) -> Option<V>
    decreases s.len() - i,
{
    if i < 0 || i >= s.len() {
        None
    } else if s[i].0 == key {
        Some(s[i].1)
    } else {
        lookup_from(s, key, i + 1)
    }
}

/// Lookup over the whole entry sequence, first match wins.
pub open spec fn spec_lookup<V>(s: Seq<(Seq<char>, V)>, key: Seq<char>) -> Option<V> {
    lookup_from(s, key, 0)
}

/// Index of the first entry whose key matches, or `s.len()` if none does.
pub open spec fn key_index_from<V>(s: Seq<(Seq<char>, V)>, key: Seq<char>, i: int) -> int
    decreases s.len() - i,
{
    if i < 0 || i >= s.len() {
        s.len() as int
    } else if s[i].0 == key {
        i
    } else {
        key_index_from(s, key, i + 1)
    }
}

/// The entry sequence after inserting `key -> value`: the first entry with
/// that key has its value replaced in place; a fresh key is appended.
pub open spec fn spec_insert<V>(s: Seq<(Seq<char>, V)>, key: Seq<char>, value: V) -> Seq<
    (Seq<char>, V),
> {
    let i = key_index_from(s, key, 0);
    if i == s.len() {
        s.push((key, value))
    } else {
        s.update(i, (key, value))
    }
}

pub struct Table<V> {
    entries: Vec<(String, V)>,
}

impl<V> View for Table<V> {
    type V = Seq<(Seq<char>, V)>;

    closed spec fn view(&self) -> Seq<(Seq<char>, V)> {
        self.entries@.map_values(|e: (String, V)| (e.0@, e.1))
    }
}

impl<V> Table<V> {
    pub fn new() -> (t: Table<V>)
        ensures
            t@ == Seq::<(Seq<char>, V)>::empty(),
    {
        let t = Table { entries: Vec::new() };
        proof {
            assert(t@ =~= Seq::<(Seq<char>, V)>::empty());
        }
        t
    }

    pub fn len(&self) -> (n: usize)
        ensures
            n == self@.len(),
    {
        self.entries.len()
    }

    /// The entry at position `i`, in insertion order.
    pub fn entry_at(&self, i: usize) -> (e: &(String, V))
        requires
            i < self@.len(),
        ensures
            e.0@ == self@[i as int].0,
            e.1 == self@[i as int].1,
    {
        &self.entries[i]
    }

    pub fn get<'a>(&'a self, key: &str) -> (r: Option<&'a V>)
        ensures
            r matches Some(v) ==> spec_lookup(self@, key@) == Some(*v),
            r is None ==> spec_lookup(self@, key@) is None,
    {
        let n = self.entries.len();
        let mut i: usize = 0;
        while i < n
            invariant
                0 <= i <= n,
                n == self@.len(),
                spec_lookup(self@, key@) == lookup_from(self@, key@, i as int),
            decreases n - i,
        {
            if crate::text::str_eq(self.entries[i].0.as_str(), key) {
                return Some(&self.entries[i].1);
            }
            i += 1;
        }
        None
    }

    pub fn contains_key(&self, key: &str) -> (r: bool)
        ensures
            r == (spec_lookup(self@, key@) is Some),
    {
        self.get(key).is_some()
    }

    /// Appends an entry without looking for its key; callers that keep
    /// keys unique stay unique.
    pub fn push_entry(&mut self, key: String, value: V)
        ensures
            final(self)@ == old(self)@.push((key@, value)),
    {
        self.entries.push((key, value));
        proof {
            assert(self@ =~= old(self)@.push((key@, value)));
        }
    }

    pub fn insert(&mut self, key: String, value: V)
        ensures
            final(self)@ == spec_insert(old(self)@, key@, value),
    {
        let n = self.entries.len();
        let mut i: usize = 0;
        while i < n
            invariant
                0 <= i <= n,
                n == self@.len(),
                self@ == old(self)@,
                key_index_from(self@, key@, 0) == key_index_from(self@, key@, i as int),
            decreases n - i,
        {
            if crate::text::str_eq(self.entries[i].0.as_str(), key.as_str()) {
                let k = self.entries[i].0.clone();
                self.entries.set(i, (k, value));
                proof {
                    assert(self@ =~= spec_insert(old(self)@, key@, value));
                }
                return ;
            }
            i += 1;
        }
        self.entries.push((key, value));
        proof {
            assert(self@ =~= spec_insert(old(self)@, key@, value));
        }
    }
}

/// Lookup returns exactly the value at the first matching key's index.
pub proof fn lemma_lookup_at_key_index<V>(s: Seq<(Seq<char>, V)>, key: Seq<char>, i: int)
    requires
        0 <= i <= s.len(),
    ensures
        i <= key_index_from(s, key, i) <= s.len(),
        key_index_from(s, key, i) < s.len() ==> {
            &&& s[key_index_from(s, key, i)].0 == key
            &&& lookup_from(s, key, i) == Some(s[key_index_from(s, key, i)].1)
        },
        key_index_from(s, key, i) == s.len() ==> lookup_from(s, key, i) is None,
    decreases s.len() - i,
{
    if i < s.len() {
        lemma_lookup_at_key_index(s, key, i + 1);
    }
}

impl Table<String> {
    /// An entrywise copy.
    pub fn duplicate(&self) -> (t: Table<String>)
        ensures
            t@ == self@,
    {
        let n = self.entries.len();
        let mut entries: Vec<(String, String)> = Vec::new();
        let mut i: usize = 0;
        while i < n
            invariant
                0 <= i <= n,
                n == self.entries@.len(),
                entries@.len() == i,
                forall|k: int| 0 <= k < i ==> entries@[k] == self.entries@[k],
            decreases n - i,
        {
            let e = &self.entries[i];
            entries.push((e.0.clone(), e.1.clone()));
            i += 1;
        }
        let t = Table { entries };
        proof {
            assert(t@ =~= self@);
        }
        t
    }
}

} // verus!
