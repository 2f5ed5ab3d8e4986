//! A small map from text keys to values, kept as a list in which no key
//! occurs twice.

use crate::text::same_text;
use vstd::prelude::*;

verus! {

/// A finite map keyed by text.
#[derive(Debug)]
pub struct TextMap<V> {
    entries: Vec<(String, V)>,
}

/// Whether entry `i` of `entries` is the one for `key`.
pub open spec fn holds_at<V>(entries: Seq<(String, V)>, key: Seq<char>, i: int) -> bool {
    0 <= i < entries.len() && entries[i].0@ == key
}

/// No key occurs twice in `entries`.
pub open spec fn distinct_keys<V>(entries: Seq<(String, V)>) -> bool {
    forall|i: int, j: int|
        0 <= i < entries.len() && 0 <= j < entries.len() && i != j ==> #[trigger] entries[i].0@
            != #[trigger] entries[j].0@
}

/// The map that a list of entries with distinct keys stands for.
pub open spec fn as_map<V>(entries: Seq<(String, V)>) -> Map<Seq<char>, V> {
    Map::new(
        |key: Seq<char>| exists|i: int| holds_at(entries, key, i),
        |key: Seq<char>| entries[choose|i: int| holds_at(entries, key, i)].1,
    )
}

/// In a list with distinct keys, the entry at `i` is what the map holds for
/// that entry's key.
pub proof fn lemma_entry_is_mapped<V>(entries: Seq<(String, V)>, i: int)
    requires
        distinct_keys(entries),
        0 <= i < entries.len(),
    ensures
        as_map(entries).contains_key(entries[i].0@),
        as_map(entries)[entries[i].0@] == entries[i].1,
{
    let key = entries[i].0@;
    assert(holds_at(entries, key, i));
    let chosen = choose|j: int| holds_at(entries, key, j);
    assert(holds_at(entries, key, chosen));
    assert(chosen == i);
}

/// A key that no entry has is not in the map.
pub proof fn lemma_absent_key<V>(entries: Seq<(String, V)>, key: Seq<char>)
    requires
        forall|i: int| 0 <= i < entries.len() ==> entries[i].0@ != key,
    ensures
        !as_map(entries).contains_key(key),
{
    assert forall|i: int| !holds_at(entries, key, i) by {}
}

/// Adding an entry with a new key adds it to the map.
pub proof fn lemma_push_inserts<V>(entries: Seq<(String, V)>, key: String, value: V)
    requires
        distinct_keys(entries),
        !as_map(entries).contains_key(key@),
    ensures
        distinct_keys(entries.push((key, value))),
        as_map(entries.push((key, value))) == as_map(entries).insert(key@, value),
{
    let grown = entries.push((key, value));
    assert forall|i: int| 0 <= i < entries.len() implies entries[i].0@ != key@ by {
        if entries[i].0@ == key@ {
            assert(holds_at(entries, key@, i));
        }
    }
    assert(distinct_keys(grown));
    assert forall|k: Seq<char>| #[trigger]
        as_map(grown).contains_key(k) == as_map(entries).insert(key@, value).contains_key(k) by {
        if as_map(grown).contains_key(k) {
            let i = choose|i: int| holds_at(grown, k, i);
            assert(holds_at(grown, k, i));
            if i < entries.len() {
                assert(holds_at(entries, k, i));
            }
        }
        if as_map(entries).contains_key(k) {
            let i = choose|i: int| holds_at(entries, k, i);
            assert(holds_at(grown, k, i));
        }
        if k == key@ {
            assert(holds_at(grown, k, entries.len() as int));
        }
    }
    assert forall|k: Seq<char>| as_map(grown).contains_key(k) implies #[trigger] as_map(grown)[k]
        == as_map(entries).insert(key@, value)[k] by {
        let i = choose|i: int| holds_at(grown, k, i);
        assert(holds_at(grown, k, i));
        lemma_entry_is_mapped(grown, i);
        if i < entries.len() {
            assert(holds_at(entries, k, i));
            lemma_entry_is_mapped(entries, i);
        }
    }
    assert(as_map(grown) =~= as_map(entries).insert(key@, value));
}

/// Replacing the value of entry `i` replaces it in the map.
pub proof fn lemma_update_inserts<V>(entries: Seq<(String, V)>, i: int, key: String, value: V)
    requires
        distinct_keys(entries),
        0 <= i < entries.len(),
        entries[i].0@ == key@,
    ensures
        distinct_keys(entries.update(i, (key, value))),
        as_map(entries.update(i, (key, value))) == as_map(entries).insert(key@, value),
{
    let changed = entries.update(i, (key, value));
    assert forall|a: int, b: int|
        0 <= a < changed.len() && 0 <= b < changed.len() && a != b implies #[trigger] changed[a].0@
        != #[trigger] changed[b].0@ by {
        assert(changed[a].0@ == entries[a].0@);
        assert(changed[b].0@ == entries[b].0@);
    }
    assert forall|k: Seq<char>| #[trigger]
        as_map(changed).contains_key(k) == as_map(entries).insert(key@, value).contains_key(k) by {
        if as_map(changed).contains_key(k) {
            let j = choose|j: int| holds_at(changed, k, j);
            assert(holds_at(changed, k, j));
            assert(changed[j].0@ == entries[j].0@);
            assert(holds_at(entries, k, j));
        }
        if as_map(entries).contains_key(k) {
            let j = choose|j: int| holds_at(entries, k, j);
            assert(changed[j].0@ == entries[j].0@);
            assert(holds_at(changed, k, j));
        }
        if k == key@ {
            assert(holds_at(changed, k, i));
        }
    }
    assert forall|k: Seq<char>| as_map(changed).contains_key(k) implies #[trigger] as_map(
        changed,
    )[k] == as_map(entries).insert(key@, value)[k] by {
        let j = choose|j: int| holds_at(changed, k, j);
        assert(holds_at(changed, k, j));
        lemma_entry_is_mapped(changed, j);
        assert(changed[j].0@ == entries[j].0@);
        if j != i {
            assert(holds_at(entries, k, j));
            lemma_entry_is_mapped(entries, j);
        }
    }
    assert(as_map(changed) =~= as_map(entries).insert(key@, value));
}

/// Taking entry `i` out takes its key out of the map.
pub proof fn lemma_remove_removes<V>(entries: Seq<(String, V)>, i: int)
    requires
        distinct_keys(entries),
        0 <= i < entries.len(),
    ensures
        distinct_keys(entries.remove(i)),
        as_map(entries.remove(i)) == as_map(entries).remove(entries[i].0@),
{
    let key = entries[i].0@;
    let rest = entries.remove(i);
    assert forall|a: int| 0 <= a < rest.len() implies #[trigger] rest[a] == entries[if a < i {
        a
    } else {
        a + 1
    }] by {}
    assert forall|a: int, b: int|
        0 <= a < rest.len() && 0 <= b < rest.len() && a != b implies #[trigger] rest[a].0@
        != #[trigger] rest[b].0@ by {
        let a0 = if a < i { a } else { a + 1 };
        let b0 = if b < i { b } else { b + 1 };
        assert(rest[a] == entries[a0]);
        assert(rest[b] == entries[b0]);
    }
    assert forall|k: Seq<char>| #[trigger]
        as_map(rest).contains_key(k) == as_map(entries).remove(key).contains_key(k) by {
        if as_map(rest).contains_key(k) {
            let a = choose|a: int| holds_at(rest, k, a);
            assert(holds_at(rest, k, a));
            let a0 = if a < i { a } else { a + 1 };
            assert(rest[a] == entries[a0]);
            assert(holds_at(entries, k, a0));
            assert(entries[a0].0@ != entries[i].0@);
        }
        if as_map(entries).remove(key).contains_key(k) {
            let a0 = choose|a0: int| holds_at(entries, k, a0);
            assert(holds_at(entries, k, a0));
            assert(a0 != i);
            let a = if a0 < i { a0 } else { a0 - 1 };
            assert(rest[a] == entries[a0]);
            assert(holds_at(rest, k, a));
        }
    }
    assert forall|k: Seq<char>| as_map(rest).contains_key(k) implies #[trigger] as_map(rest)[k]
        == as_map(entries).remove(key)[k] by {
        let a = choose|a: int| holds_at(rest, k, a);
        assert(holds_at(rest, k, a));
        lemma_entry_is_mapped(rest, a);
        let a0 = if a < i { a } else { a + 1 };
        assert(rest[a] == entries[a0]);
        lemma_entry_is_mapped(entries, a0);
    }
    assert(as_map(rest) =~= as_map(entries).remove(key));
}

impl<V> View for TextMap<V> {
    type V = Map<Seq<char>, V>;

    closed spec fn view(&self) -> Map<Seq<char>, V> {
        as_map(self.entries@)
    }
}

impl<V> TextMap<V> {
    #[verifier::type_invariant]
    spec fn well_formed(self) -> bool {
        distinct_keys(self.entries@)
    }

    /// The entries, each key once, in the order in which the keys came in.
    pub closed spec fn listing(self) -> Seq<(String, V)> {
        self.entries@
    }

    /// The empty map.
    pub fn new() -> (map: Self)
        ensures
            map@ == Map::<Seq<char>, V>::empty(),
            map.listing() == Seq::<(String, V)>::empty(),
    {
        let map = TextMap { entries: Vec::new() };
        proof {
            assert forall|key: Seq<char>| !as_map(map.entries@).contains_key(key) by {
                lemma_absent_key(map.entries@, key);
            }
            assert(map@ =~= Map::<Seq<char>, V>::empty());
        }
        map
    }

    /// The number of keys.
    pub fn len(&self) -> (n: usize)
        ensures
            n == self.listing().len(),
            distinct_keys(self.listing()),
            as_map(self.listing()) == self@,
    {
        proof {
            use_type_invariant(self);
        }
        self.entries.len()
    }

    /// Where the entry for `key` stands, if there is one.
    fn position(&self, key: &str) -> (at: Option<usize>)
        ensures
            match at {
                Some(i) => holds_at(self.entries@, key@, i as int),
                None => !self@.contains_key(key@),
            },
    {
        let mut i: usize = 0;
        while i < self.entries.len()
            invariant
                i <= self.entries.len(),
                forall|j: int| 0 <= j < i ==> self.entries@[j].0@ != key@,
            decreases self.entries.len() - i,
        {
            if same_text(self.entries[i].0.as_str(), key) {
                return Some(i);
            }
            i += 1;
        }
        proof {
            lemma_absent_key(self.entries@, key@);
        }
        None
    }

    /// Whether the map holds `key`.
    pub fn contains_key(&self, key: &str) -> (held: bool)
        ensures
            held == self@.contains_key(key@),
    {
        proof {
            use_type_invariant(self);
        }
        match self.position(key) {
            Some(i) => {
                proof {
                    lemma_entry_is_mapped(self.entries@, i as int);
                }
                true
            },
            None => false,
        }
    }

    /// The value for `key`, if the map holds one.
    pub fn get(&self, key: &str) -> (found: Option<&V>)
        ensures
            match found {
                Some(value) => self@.contains_key(key@) && *value == self@[key@],
                None => !self@.contains_key(key@),
            },
    {
        proof {
            use_type_invariant(self);
        }
        match self.position(key) {
            Some(i) => {
                proof {
                    lemma_entry_is_mapped(self.entries@, i as int);
                }
                Some(&self.entries[i].1)
            },
            None => None,
        }
    }

    /// Sets the value for `key`, and hands back the value that it replaces.
    pub fn insert(&mut self, key: String, value: V) -> (replaced: Option<V>)
        ensures
            final(self)@ == old(self)@.insert(key@, value),
            match replaced {
                Some(previous) => old(self)@.contains_key(key@) && previous == old(self)@[key@],
                None => !old(self)@.contains_key(key@),
            },
    {
        proof {
            use_type_invariant(&*self);
        }
        match self.position(key.as_str()) {
            Some(i) => {
                let mut entries = Vec::new();
                std::mem::swap(&mut entries, &mut self.entries);
                proof {
                    lemma_entry_is_mapped(entries@, i as int);
                    lemma_update_inserts(entries@, i as int, key, value);
                }
                let mut entry = (key, value);
                std::mem::swap(&mut entry, &mut entries[i]);
                self.entries = entries;
                Some(entry.1)
            },
            None => {
                let mut entries = Vec::new();
                std::mem::swap(&mut entries, &mut self.entries);
                proof {
                    lemma_push_inserts(entries@, key, value);
                }
                entries.push((key, value));
                self.entries = entries;
                None
            },
        }
    }

    /// Takes `key` out, and hands back the value that it had.
    pub fn remove(&mut self, key: &str) -> (removed: Option<V>)
        ensures
            final(self)@ == old(self)@.remove(key@),
            match removed {
                Some(previous) => old(self)@.contains_key(key@) && previous == old(self)@[key@],
                None => !old(self)@.contains_key(key@),
            },
    {
        proof {
            use_type_invariant(&*self);
        }
        match self.position(key) {
            Some(i) => {
                let mut entries = Vec::new();
                std::mem::swap(&mut entries, &mut self.entries);
                proof {
                    lemma_entry_is_mapped(entries@, i as int);
                    lemma_remove_removes(entries@, i as int);
                }
                let entry = entries.remove(i);
                self.entries = entries;
                Some(entry.1)
            },
            None => {
                assert(self@ =~= old(self)@.remove(key@));
                None
            },
        }
    }

    /// The entries as a list, each key once.
    pub fn entries(&self) -> (list: &Vec<(String, V)>)
        ensures
            list@ == self.listing(),
            distinct_keys(list@),
            as_map(list@) == self@,
    {
        proof {
            use_type_invariant(self);
        }
        &self.entries
    }
}

impl Clone for TextMap<String> {
    fn clone(&self) -> (copy: Self)
        ensures
            copy@ == self@,
            copy.listing() == self.listing(),
    {
        proof {
            use_type_invariant(self);
        }
        let mut entries: Vec<(String, String)> = Vec::new();
        let mut i: usize = 0;
        while i < self.entries.len()
            invariant
                i <= self.entries.len(),
                entries@ == self.entries@.subrange(0, i as int),
            decreases self.entries.len() - i,
        {
            let entry = (self.entries[i].0.clone(), self.entries[i].1.clone());
            assert(entry == self.entries@[i as int]);
            entries.push(entry);
            assert(entries@ =~= self.entries@.subrange(0, i + 1));
            i += 1;
        }
        assert(entries@ =~= self.entries@);
        TextMap { entries }
    }
}

} // verus!
