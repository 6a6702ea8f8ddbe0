//! A model of the browser's durable key-value storage.
//!
//! The client reads and writes a handful of entries in local storage. This
//! type holds those entries as plain values, so that the rules that depend on
//! them can be stated and proved; the program around the library copies the
//! entries from and to the real storage.

use vstd::prelude::*;
use crate::text::same_text;

verus! {

/// The key under which the bearer credential is persisted.
pub const ACCESS_TOKEN_KEY: &'static str = "access_token";

/// String keys mapped to string values, each key at most once.
#[derive(Debug)]
pub struct LocalStorage {
    entries: Vec<(String, String)>,
}

/// Whether the entry at `i` is the one stored under `key`.
spec fn entry_has_key(entries: Seq<(String, String)>, i: int, key: Seq<char>) -> bool {
    0 <= i < entries.len() && entries[i].0@ == key
}

/// The map that a list of entries with distinct keys stands for.
spec fn entries_map(entries: Seq<(String, String)>) -> Map<Seq<char>, Seq<char>> {
    Map::new(
        |key: Seq<char>| exists|i: int| entry_has_key(entries, i, key),
        |key: Seq<char>| entries[choose|i: int| entry_has_key(entries, i, key)].1@,
    )
}

/// Whether no key occurs twice among the entries.
spec fn keys_distinct(entries: Seq<(String, String)>) -> bool {
    forall|i: int, j: int| 0 <= i < j < entries.len() ==> entries[i].0@ != entries[j].0@
}

proof fn lemma_entry_value(entries: Seq<(String, String)>, i: int, key: Seq<char>)
    requires
        keys_distinct(entries),
        entry_has_key(entries, i, key),
    ensures
        entries_map(entries).contains_key(key),
        entries_map(entries)[key] == entries[i].1@,
{
}

proof fn lemma_replaced(entries: Seq<(String, String)>, i: int, entry: (String, String))
    requires
        keys_distinct(entries),
        entry_has_key(entries, i, entry.0@),
    ensures
        keys_distinct(entries.update(i, entry)),
        entries_map(entries.update(i, entry)) == entries_map(entries).insert(entry.0@, entry.1@),
{
    let after = entries.update(i, entry);
    assert forall|key: Seq<char>|
        entries_map(after).contains_key(key) <==> #[trigger] entries_map(entries).insert(
            entry.0@,
            entry.1@,
        ).contains_key(key) by {
        if entries_map(after).contains_key(key) {
            let j = choose|j: int| entry_has_key(after, j, key);
            assert(entry_has_key(entries, j, key) || key == entry.0@);
        }
        if entries_map(entries).contains_key(key) {
            let j = choose|j: int| entry_has_key(entries, j, key);
            assert(entry_has_key(after, j, key));
        }
    }
    assert forall|key: Seq<char>| entries_map(after).contains_key(key) implies entries_map(
        after,
    )[key] == entries_map(entries).insert(entry.0@, entry.1@)[key] by {
        let j = choose|j: int| entry_has_key(after, j, key);
        lemma_entry_value(after, j, key);
        if key != entry.0@ {
            lemma_entry_value(entries, j, key);
        }
    }
}

proof fn lemma_appended(entries: Seq<(String, String)>, entry: (String, String))
    requires
        keys_distinct(entries),
        forall|i: int| !entry_has_key(entries, i, entry.0@),
    ensures
        keys_distinct(entries.push(entry)),
        entries_map(entries.push(entry)) == entries_map(entries).insert(entry.0@, entry.1@),
{
    let after = entries.push(entry);
    assert(keys_distinct(after)) by {
        assert forall|i: int, j: int| 0 <= i < j < after.len() implies after[i].0@ != after[j].0@ by {
            if j == entries.len() {
                assert(!entry_has_key(entries, i, entry.0@));
            }
        }
    }
    let last = entries.len() as int;
    assert forall|key: Seq<char>|
        entries_map(after).contains_key(key) <==> #[trigger] entries_map(entries).insert(
            entry.0@,
            entry.1@,
        ).contains_key(key) by {
        if entries_map(after).contains_key(key) {
            let j = choose|j: int| entry_has_key(after, j, key);
            assert(j == last || entry_has_key(entries, j, key));
        }
        if entries_map(entries).contains_key(key) {
            let j = choose|j: int| entry_has_key(entries, j, key);
            assert(entry_has_key(after, j, key));
        }
        if key == entry.0@ {
            assert(entry_has_key(after, last, key));
        }
    }
    assert forall|key: Seq<char>| entries_map(after).contains_key(key) implies entries_map(
        after,
    )[key] == entries_map(entries).insert(entry.0@, entry.1@)[key] by {
        let j = choose|j: int| entry_has_key(after, j, key);
        lemma_entry_value(after, j, key);
        if key != entry.0@ {
            lemma_entry_value(entries, j, key);
        } else {
            assert(entry_has_key(after, last, key));
        }
    }
}

proof fn lemma_removed(entries: Seq<(String, String)>, i: int, key: Seq<char>)
    requires
        keys_distinct(entries),
        entry_has_key(entries, i, key),
    ensures
        keys_distinct(entries.remove(i)),
        entries_map(entries.remove(i)) == entries_map(entries).remove(key),
{
    let after = entries.remove(i);
    assert forall|k: Seq<char>|
        entries_map(after).contains_key(k) <==> #[trigger] entries_map(entries).remove(
            key,
        ).contains_key(k) by {
        if entries_map(after).contains_key(k) {
            let j = choose|j: int| entry_has_key(after, j, k);
            let j0 = if j < i { j } else { j + 1 };
            assert(entry_has_key(entries, j0, k));
        }
        if entries_map(entries).contains_key(k) && k != key {
            let j = choose|j: int| entry_has_key(entries, j, k);
            let j1 = if j < i { j } else { j - 1 };
            assert(entry_has_key(after, j1, k));
        }
    }
    assert forall|k: Seq<char>| entries_map(after).contains_key(k) implies entries_map(after)[k]
        == entries_map(entries).remove(key)[k] by {
        let j = choose|j: int| entry_has_key(after, j, k);
        let j0 = if j < i { j } else { j + 1 };
        lemma_entry_value(after, j, k);
        lemma_entry_value(entries, j0, k);
    }
}

impl View for LocalStorage {
    type V = Map<Seq<char>, Seq<char>>;

    closed spec fn view(&self) -> Map<Seq<char>, Seq<char>> {
        entries_map(self.entries@)
    }
}

impl Clone for LocalStorage {
    /// A storage with the same entries.
    fn clone(&self) -> (copy: Self)
        ensures
            copy@ == self@,
    {
        proof {
            use_type_invariant(self);
        }
        let mut entries: Vec<(String, String)> = Vec::new();
        let mut i: usize = 0;
        while i < self.entries.len()
            invariant
                i <= self.entries.len(),
                entries@ == self.entries@.take(i as int),
            decreases self.entries.len() - i,
        {
            let entry = (self.entries[i].0.clone(), self.entries[i].1.clone());
            entries.push(entry);
            i += 1;
        }
        assert(entries@ =~= self.entries@);
        LocalStorage { entries }
    }
}

impl LocalStorage {
    #[verifier::type_invariant]
    spec fn well_formed(self) -> bool {
        keys_distinct(self.entries@)
    }

    /// An empty storage.
    pub fn new() -> (storage: Self)
        ensures
            storage@ == Map::<Seq<char>, Seq<char>>::empty(),
    {
        let storage = LocalStorage { entries: Vec::new() };
        assert(storage@ =~= Map::<Seq<char>, Seq<char>>::empty()) by {
            assert forall|key: Seq<char>| !storage@.contains_key(key) by {
                assert forall|i: int| !entry_has_key(storage.entries@, i, key) by {}
            }
        }
        storage
    }

    /// Where the entry for `key` stands, if there is one.
    fn position(&self, key: &str) -> (found: Option<usize>)
        ensures
            match found {
                Some(i) => entry_has_key(self.entries@, i as int, key@),
                None => forall|i: int| !entry_has_key(self.entries@, i, key@),
            },
    {
        let mut i: usize = 0;
        while i < self.entries.len()
            invariant
                i <= self.entries.len(),
                forall|j: int| 0 <= j < i ==> self.entries[j].0@ != key@,
            decreases self.entries.len() - i,
        {
            if same_text(self.entries[i].0.as_str(), key) {
                return Some(i);
            }
            i += 1;
        }
        None
    }

    /// The value stored under `key`, or `None` where there is none.
    pub fn get_item(&self, key: &str) -> (value: Option<String>)
        ensures
            match value {
                Some(v) => self@.contains_key(key@) && self@[key@] == v@,
                None => !self@.contains_key(key@),
            },
    {
        proof {
            use_type_invariant(self);
        }
        match self.position(key) {
            Some(i) => {
                proof {
                    lemma_entry_value(self.entries@, i as int, key@);
                }
                Some(self.entries[i].1.clone())
            },
            None => None,
        }
    }

    /// Stores `value` under `key`, replacing what was stored there before.
    pub fn set_item(&mut self, key: &str, value: &str)
        ensures
            final(self)@ == old(self)@.insert(key@, value@),
    {
        proof {
            use_type_invariant(&*self);
        }
        let entry = (key.to_owned(), value.to_owned());
        let found = self.position(key);
        let mut entries: Vec<(String, String)> = Vec::new();
        core::mem::swap(&mut self.entries, &mut entries);
        match found {
            Some(i) => {
                proof {
                    lemma_replaced(entries@, i as int, entry);
                }
                entries.set(i, entry);
            },
            None => {
                proof {
                    lemma_appended(entries@, entry);
                }
                entries.push(entry);
            },
        }
        self.entries = entries;
    }

    /// Removes the entry stored under `key`, if there is one.
    pub fn remove_item(&mut self, key: &str)
        ensures
            final(self)@ == old(self)@.remove(key@),
    {
        proof {
            use_type_invariant(&*self);
        }
        let found = self.position(key);
        let mut entries: Vec<(String, String)> = Vec::new();
        core::mem::swap(&mut self.entries, &mut entries);
        match found {
            Some(i) => {
                proof {
                    lemma_removed(entries@, i as int, key@);
                }
                entries.remove(i);
            },
            None => {
            },
        }
        self.entries = entries;
    }
}

} // verus!
