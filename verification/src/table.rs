//! A keyed store: at most one value under each key.
//!
//! The books of the marketplace are small keyed stores whose keys are
//! account identifiers, asset identifiers or offer numbers. `Table` holds
//! its entries in a vector and finds a key by comparing; its view is the
//! mathematical map from the keys' views to the values' views.
use vstd::prelude::*;

verus! {

/// A type that can serve as the key of a [`Table`]: two keys are the same
/// key exactly when their views are equal.
pub trait Key: View + Sized {
    /// Tells whether `self` and `other` are the same key.
    fn same(&self, other: &Self) -> (same: bool)
        ensures
            same == (self@ == other@),
    ;
}

/// The place of the key whose view is `key` among `entries`, if it has one.
pub open spec fn position<K: Key, V: View>(entries: Seq<(K, V)>, key: K::V) -> int {
    choose|i: int| 0 <= i < entries.len() && entries[i].0@ == key
}

/// No key stands twice among `entries`.
pub open spec fn distinct_keys<K: Key, V: View>(entries: Seq<(K, V)>) -> bool {
    forall|i: int, j: int|
        0 <= i < entries.len() && 0 <= j < entries.len() && #[trigger] entries[i].0@
            == #[trigger] entries[j].0@ ==> i == j
}

/// The map that `entries` stands for.
pub open spec fn as_map<K: Key, V: View>(entries: Seq<(K, V)>) -> Map<K::V, V::V> {
    Map::new(
        |key: K::V| exists|i: int| 0 <= i < entries.len() && #[trigger] entries[i].0@ == key,
        |key: K::V| entries[position(entries, key)].1@,
    )
}

/// Each entry is found in the map under its key.
pub proof fn lemma_entry_in_map<K: Key, V: View>(entries: Seq<(K, V)>, i: int)
    requires
        distinct_keys(entries),
        0 <= i < entries.len(),
    ensures
        as_map(entries).contains_key(entries[i].0@),
        as_map(entries)[entries[i].0@] == entries[i].1@,
{
    let key = entries[i].0@;
    let p = position(entries, key);
    assert(0 <= p < entries.len() && entries[p].0@ == key);
}

/// A key of the map is the key of some entry.
pub proof fn lemma_key_has_entry<K: Key, V: View>(entries: Seq<(K, V)>, key: K::V) -> (i: int)
    requires
        as_map(entries).contains_key(key),
    ensures
        0 <= i < entries.len(),
        entries[i].0@ == key,
{
    choose|i: int| 0 <= i < entries.len() && #[trigger] entries[i].0@ == key
}

/// Appending an entry under a new key inserts it into the map.
proof fn lemma_push<K: Key, V: View>(entries: Seq<(K, V)>, key: K, value: V)
    requires
        distinct_keys(entries),
        !as_map(entries).contains_key(key@),
    ensures
        distinct_keys(entries.push((key, value))),
        as_map(entries.push((key, value))) == as_map(entries).insert(key@, value@),
{
    let after = entries.push((key, value));
    let n = entries.len() as int;
    assert forall|i: int, j: int|
        0 <= i < after.len() && 0 <= j < after.len() && #[trigger] after[i].0@
            == #[trigger] after[j].0@ implies i == j by {
        if i < n && j < n {
            assert(entries[i].0@ == entries[j].0@);
        } else if i < n {
            lemma_entry_in_map(entries, i);
        } else if j < n {
            lemma_entry_in_map(entries, j);
        }
    }
    assert forall|a: K::V| #[trigger]
        as_map(after).contains_key(a) == as_map(entries).insert(key@, value@).contains_key(
            a,
        ) by {
        if as_map(after).contains_key(a) {
            let i = lemma_key_has_entry(after, a);
            if i < n {
                lemma_entry_in_map(entries, i);
            }
        }
        if as_map(entries).contains_key(a) {
            let i = lemma_key_has_entry(entries, a);
            lemma_entry_in_map(after, i);
        }
        if a == key@ {
            lemma_entry_in_map(after, n);
        }
    }
    assert forall|a: K::V| #[trigger] as_map(after).contains_key(a) implies as_map(after)[a]
        == as_map(entries).insert(key@, value@)[a] by {
        let i = lemma_key_has_entry(after, a);
        lemma_entry_in_map(after, i);
        if i < n {
            lemma_entry_in_map(entries, i);
        }
    }
    assert(as_map(after) =~= as_map(entries).insert(key@, value@));
}

/// Replacing an entry by one under the same key overwrites its value in
/// the map.
proof fn lemma_update<K: Key, V: View>(entries: Seq<(K, V)>, at: int, key: K, value: V)
    requires
        distinct_keys(entries),
        0 <= at < entries.len(),
        entries[at].0@ == key@,
    ensures
        distinct_keys(entries.update(at, (key, value))),
        as_map(entries.update(at, (key, value))) == as_map(entries).insert(key@, value@),
{
    let after = entries.update(at, (key, value));
    assert forall|i: int| 0 <= i < after.len() implies #[trigger] after[i].0@
        == entries[i].0@ by {}
    assert forall|i: int, j: int|
        0 <= i < after.len() && 0 <= j < after.len() && #[trigger] after[i].0@
            == #[trigger] after[j].0@ implies i == j by {
        assert(entries[i].0@ == entries[j].0@);
    }
    assert forall|a: K::V| #[trigger]
        as_map(after).contains_key(a) == as_map(entries).insert(key@, value@).contains_key(
            a,
        ) by {
        if as_map(after).contains_key(a) {
            let i = lemma_key_has_entry(after, a);
            lemma_entry_in_map(entries, i);
        }
        if as_map(entries).contains_key(a) {
            let i = lemma_key_has_entry(entries, a);
            lemma_entry_in_map(after, i);
        }
        if a == key@ {
            lemma_entry_in_map(after, at);
        }
    }
    assert forall|a: K::V| #[trigger] as_map(after).contains_key(a) implies as_map(after)[a]
        == as_map(entries).insert(key@, value@)[a] by {
        let i = lemma_key_has_entry(after, a);
        lemma_entry_in_map(after, i);
        lemma_entry_in_map(entries, i);
    }
    assert(as_map(after) =~= as_map(entries).insert(key@, value@));
}

/// Taking an entry out removes its key from the map.
proof fn lemma_remove<K: Key, V: View>(entries: Seq<(K, V)>, at: int)
    requires
        distinct_keys(entries),
        0 <= at < entries.len(),
    ensures
        distinct_keys(entries.remove(at)),
        as_map(entries.remove(at)) == as_map(entries).remove(entries[at].0@),
{
    let after = entries.remove(at);
    let key = entries[at].0@;
    assert forall|i: int| 0 <= i < after.len() implies #[trigger] after[i] == entries[if i
        < at {
        i
    } else {
        i + 1
    }] by {}
    assert forall|i: int, j: int|
        0 <= i < after.len() && 0 <= j < after.len() && #[trigger] after[i].0@
            == #[trigger] after[j].0@ implies i == j by {
        let ii = if i < at { i } else { i + 1 };
        let jj = if j < at { j } else { j + 1 };
        assert(entries[ii].0@ == entries[jj].0@);
    }
    assert forall|a: K::V| #[trigger]
        as_map(after).contains_key(a) == as_map(entries).remove(key).contains_key(a) by {
        if as_map(after).contains_key(a) {
            let i = lemma_key_has_entry(after, a);
            let ii = if i < at { i } else { i + 1 };
            lemma_entry_in_map(entries, ii);
            assert(entries[ii].0@ == a);
            if a == key {
                assert(entries[ii].0@ == entries[at].0@);
            }
        }
        if as_map(entries).remove(key).contains_key(a) {
            let i = lemma_key_has_entry(entries, a);
            assert(i != at);
            let ii = if i < at { i } else { i - 1 };
            assert(after[ii] == entries[i]);
            lemma_entry_in_map(after, ii);
        }
    }
    assert forall|a: K::V| #[trigger] as_map(after).contains_key(a) implies as_map(after)[a]
        == as_map(entries).remove(key)[a] by {
        let i = lemma_key_has_entry(after, a);
        let ii = if i < at { i } else { i + 1 };
        lemma_entry_in_map(after, i);
        lemma_entry_in_map(entries, ii);
    }
    assert(as_map(after) =~= as_map(entries).remove(key));
}

/// The map that `entries` stands for where a key may stand twice: the
/// first entry under a key is the one that counts.
pub open spec fn merged<K: Key, V: View>(entries: Seq<(K, V)>) -> Map<K::V, V::V>
    decreases entries.len(),
{
    if entries.len() == 0 {
        Map::empty()
    } else {
        merged(entries.drop_first()).insert(entries[0].0@, entries[0].1@)
    }
}

/// Where no key stands twice, merging the entries gives the map that they
/// stand for.
pub proof fn lemma_merged_distinct<K: Key, V: View>(entries: Seq<(K, V)>)
    requires
        distinct_keys(entries),
    ensures
        merged(entries) == as_map(entries),
    decreases entries.len(),
{
    if entries.len() == 0 {
        assert(as_map(entries) =~= Map::<K::V, V::V>::empty());
    } else {
        let rest = entries.drop_first();
        assert forall|i: int, j: int|
            0 <= i < rest.len() && 0 <= j < rest.len() && #[trigger] rest[i].0@
                == #[trigger] rest[j].0@ implies i == j by {
            assert(entries[i + 1].0@ == entries[j + 1].0@);
        }
        lemma_merged_distinct(rest);
        let target = as_map(rest).insert(entries[0].0@, entries[0].1@);
        assert forall|a: K::V| #[trigger]
            as_map(entries).contains_key(a) == target.contains_key(a) by {
            if as_map(entries).contains_key(a) {
                let i = lemma_key_has_entry(entries, a);
                if i > 0 {
                    assert(rest[i - 1] == entries[i]);
                    lemma_entry_in_map(rest, i - 1);
                }
            }
            if as_map(rest).contains_key(a) {
                let i = lemma_key_has_entry(rest, a);
                assert(entries[i + 1] == rest[i]);
                lemma_entry_in_map(entries, i + 1);
            }
            if a == entries[0].0@ {
                lemma_entry_in_map(entries, 0);
            }
        }
        assert forall|a: K::V| #[trigger] as_map(entries).contains_key(a) implies as_map(
            entries,
        )[a] == target[a] by {
            let i = lemma_key_has_entry(entries, a);
            lemma_entry_in_map(entries, i);
            if i > 0 {
                assert(rest[i - 1] == entries[i]);
                lemma_entry_in_map(rest, i - 1);
                assert(entries[i].0@ != entries[0].0@);
            }
        }
        assert(as_map(entries) =~= target);
    }
}

/// The place of `key` among `entries`.
fn find<K: Key, V: View>(entries: &Vec<(K, V)>, key: &K) -> (found: Option<usize>)
    requires
        distinct_keys(entries@),
    ensures
        match found {
            Some(i) => {
                &&& i < entries@.len()
                &&& entries@[i as int].0@ == key@
                &&& as_map(entries@).contains_key(key@)
                &&& as_map(entries@)[key@] == entries@[i as int].1@
            },
            None => !as_map(entries@).contains_key(key@),
        },
{
    let mut i: usize = 0;
    while i < entries.len()
        invariant
            i <= entries@.len(),
            distinct_keys(entries@),
            forall|j: int| 0 <= j < i ==> entries@[j].0@ != key@,
        decreases entries@.len() - i,
    {
        if entries[i].0.same(key) {
            proof {
                lemma_entry_in_map(entries@, i as int);
            }
            return Some(i);
        }
        i += 1;
    }
    proof {
        if as_map(entries@).contains_key(key@) {
            let j = lemma_key_has_entry(entries@, key@);
        }
    }
    None
}

/// A finite map from keys to values.
pub struct Table<K: Key, V: View> {
    entries: Vec<(K, V)>,
}

impl<K: Key, V: View> View for Table<K, V> {
    type V = Map<K::V, V::V>;

    closed spec fn view(&self) -> Map<K::V, V::V> {
        as_map(self.entries@)
    }
}

impl<K: Key, V: View> Table<K, V> {
    #[verifier::type_invariant]
    spec fn keys_are_distinct(self) -> bool {
        distinct_keys(self.entries@)
    }

    /// A table without entries.
    pub fn new() -> (table: Self)
        ensures
            table@ == Map::<K::V, V::V>::empty(),
    {
        let table = Table { entries: Vec::new() };
        assert(table@ =~= Map::<K::V, V::V>::empty());
        table
    }

    /// Tells whether the table holds a value under `key`.
    pub fn contains(&self, key: &K) -> (held: bool)
        ensures
            held == self@.contains_key(key@),
    {
        proof {
            use_type_invariant(self);
        }
        find(&self.entries, key).is_some()
    }

    /// The value under `key`, if the table holds one.
    pub fn get(&self, key: &K) -> (value: Option<&V>)
        ensures
            match value {
                Some(v) => self@.contains_key(key@) && self@[key@] == v@,
                None => !self@.contains_key(key@),
            },
    {
        proof {
            use_type_invariant(self);
        }
        match find(&self.entries, key) {
            Some(i) => Some(&self.entries[i].1),
            None => None,
        }
    }

    /// Puts `value` under `key`, in place of the value that was there, if
    /// there was one.
    pub fn insert(&mut self, key: K, value: V)
        ensures
            final(self)@ == old(self)@.insert(key@, value@),
    {
        proof {
            use_type_invariant(&*self);
        }
        let mut entries: Vec<(K, V)> = Vec::new();
        core::mem::swap(&mut self.entries, &mut entries);
        match find(&entries, &key) {
            Some(i) => {
                proof {
                    lemma_update(entries@, i as int, key, value);
                }
                entries[i] = (key, value);
            },
            None => {
                proof {
                    lemma_push(entries@, key, value);
                }
                entries.push((key, value));
            },
        }
        core::mem::swap(&mut self.entries, &mut entries);
    }

    /// The table that `entries` stands for. Where a key stands twice, the
    /// first entry under it is the one that counts.
    pub fn from_entries(entries: Vec<(K, V)>) -> (table: Self)
        ensures
            table@ == merged(entries@),
    {
        let ghost all = entries@;
        let mut entries = entries;
        let mut table = Table::new();
        while entries.len() > 0
            invariant
                entries@.len() <= all.len(),
                entries@ == all.subrange(0, entries@.len() as int),
                table@ == merged(all.subrange(entries@.len() as int, all.len() as int)),
            decreases entries@.len(),
        {
            let ghost n = entries@.len() as int;
            let ghost tail = all.subrange(n - 1, all.len() as int);
            let entry = entries.pop();
            match entry {
                Some((key, value)) => {
                    assert(all[n - 1] == (key, value));
                    assert(tail.drop_first() =~= all.subrange(n, all.len() as int));
                    assert(tail[0] == all[n - 1]);
                    table.insert(key, value);
                    assert(entries@ =~= all.subrange(0, n - 1));
                },
                None => {},
            }
        }
        assert(all.subrange(0, all.len() as int) =~= all);
        table
    }

    /// The entries of the table as they stand, each key once.
    pub fn entries(&self) -> (entries: &Vec<(K, V)>)
        ensures
            distinct_keys(entries@),
            as_map(entries@) == self@,
    {
        proof {
            use_type_invariant(self);
        }
        &self.entries
    }

    /// The entries of the table, each key once.
    pub fn into_entries(self) -> (entries: Vec<(K, V)>)
        ensures
            distinct_keys(entries@),
            as_map(entries@) == self@,
            merged(entries@) == self@,
    {
        proof {
            use_type_invariant(&self);
            lemma_merged_distinct(self.entries@);
        }
        self.entries
    }

    /// Takes the value under `key` out of the table, if there is one.
    pub fn remove(&mut self, key: &K) -> (value: Option<V>)
        ensures
            final(self)@ == old(self)@.remove(key@),
            match value {
                Some(v) => old(self)@.contains_key(key@) && old(self)@[key@] == v@,
                None => !old(self)@.contains_key(key@),
            },
    {
        proof {
            use_type_invariant(&*self);
        }
        let mut entries: Vec<(K, V)> = Vec::new();
        core::mem::swap(&mut self.entries, &mut entries);
        let value = match find(&entries, key) {
            Some(i) => {
                proof {
                    lemma_remove(entries@, i as int);
                }
                let entry = entries.remove(i);
                Some(entry.1)
            },
            None => {
                assert(as_map(entries@).remove(key@) =~= as_map(entries@));
                None
            },
        };
        core::mem::swap(&mut self.entries, &mut entries);
        value
    }
}

} // verus!
