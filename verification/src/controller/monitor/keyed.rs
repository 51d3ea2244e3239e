//! Small keyed tables: a sequence of entries, each under a string key.
use vstd::prelude::*;

verus! {

/// The first position of `key` in a keyed sequence.
pub open spec fn key_index<V>(entries: Seq<(Seq<char>, V)>, key: Seq<char>) -> Option<int>
    decreases entries.len(),
{
    if entries.len() == 0 {
        None
    } else {
        let prefix = key_index(entries.drop_last(), key);
        if prefix is Some {
            prefix
        } else if entries.last().0 == key {
            Some(entries.len() - 1)
        } else {
            None
        }
    }
}

/// The value stored under `key`.
pub open spec fn lookup<V>(entries: Seq<(Seq<char>, V)>, key: Seq<char>) -> Option<V> {
    match key_index(entries, key) {
        Some(i) => Some(entries[i].1),
        None => None,
    }
}

/// The table without the entry under `key`.
pub open spec fn remove_key<V>(entries: Seq<(Seq<char>, V)>, key: Seq<char>) -> Seq<(Seq<char>, V)> {
    match key_index(entries, key) {
        Some(i) => entries.remove(i),
        None => entries,
    }
}

/// The table with `value` under `key`: replaced in place, or added at the end.
pub open spec fn set_key<V>(entries: Seq<(Seq<char>, V)>, key: Seq<char>, value: V) -> Seq<
    (Seq<char>, V),
> {
    match key_index(entries, key) {
        Some(i) => entries.update(i, (key, value)),
        None => entries.push((key, value)),
    }
}

/// Whether every key occurs at most once.
pub open spec fn keys_unique<V>(entries: Seq<(Seq<char>, V)>) -> bool {
    forall|i: int, j: int| 0 <= i < j < entries.len() ==> entries[i].0 != entries[j].0
}

pub proof fn lemma_key_index<V>(entries: Seq<(Seq<char>, V)>, key: Seq<char>)
    ensures
        match key_index(entries, key) {
            Some(i) => 0 <= i < entries.len() && entries[i].0 == key && forall|j: int|
                0 <= j < i ==> entries[j].0 != key,
            None => forall|j: int| 0 <= j < entries.len() ==> entries[j].0 != key,
        },
    decreases entries.len(),
{
    if entries.len() > 0 {
        lemma_key_index(entries.drop_last(), key);
        assert(forall|j: int| 0 <= j < entries.len() - 1 ==> entries.drop_last()[j] == entries[j]);
    }
}

pub proof fn lemma_key_index_prefix<V>(entries: Seq<(Seq<char>, V)>, k: int, key: Seq<char>)
    requires
        0 <= k <= entries.len(),
        key_index(entries.take(k), key) is Some,
    ensures
        key_index(entries, key) == key_index(entries.take(k), key),
    decreases entries.len(),
{
    if k == entries.len() {
        assert(entries.take(k) =~= entries);
    } else {
        assert(entries.drop_last().take(k) =~= entries.take(k));
        lemma_key_index_prefix(entries.drop_last(), k, key);
    }
}

/// Storing under a key keeps keys unique, makes the key present with that value, and
/// leaves every other key's value as it was.
pub proof fn lemma_set_key<V>(entries: Seq<(Seq<char>, V)>, key: Seq<char>, value: V)
    requires
        keys_unique(entries),
    ensures
        keys_unique(set_key(entries, key, value)),
        lookup(set_key(entries, key, value), key) == Some(value),
        forall|other: Seq<char>|
            other != key ==> #[trigger] lookup(set_key(entries, key, value), other) == lookup(entries, other),
{
    lemma_key_index(entries, key);
    let result = set_key(entries, key, value);
    lemma_key_index(result, key);
    match key_index(entries, key) {
        Some(i) => {
            assert(result[i].0 == key);
        },
        None => {
            assert(result[entries.len() as int].0 == key);
        },
    }
    assert forall|other: Seq<char>| other != key implies #[trigger] lookup(result, other) == lookup(entries, other) by {
        lemma_key_index(entries, other);
        lemma_key_index(result, other);
        match key_index(entries, other) {
            Some(i) => {
                assert(result[i].0 == other);
            },
            None => {},
        }
        match key_index(result, other) {
            Some(i) => {
                assert(entries[i].0 == other);
            },
            None => {},
        }
    }
}

/// Removing a key keeps keys unique, leaves the key absent, and leaves every other
/// key's value as it was.
pub proof fn lemma_remove_key<V>(entries: Seq<(Seq<char>, V)>, key: Seq<char>)
    requires
        keys_unique(entries),
    ensures
        keys_unique(remove_key(entries, key)),
        key_index(remove_key(entries, key), key) is None,
        lookup(remove_key(entries, key), key) is None,
        forall|other: Seq<char>|
            other != key ==> #[trigger] lookup(remove_key(entries, key), other) == lookup(entries, other),
{
    lemma_key_index(entries, key);
    let result = remove_key(entries, key);
    lemma_key_index(result, key);
    assert forall|other: Seq<char>| other != key implies #[trigger] lookup(result, other) == lookup(entries, other) by {
        lemma_key_index(entries, other);
        lemma_key_index(result, other);
        match key_index(entries, key) {
            Some(r) => {
                match key_index(entries, other) {
                    Some(i) => {
                        if i < r {
                            assert(result[i].0 == other);
                        } else {
                            assert(result[i - 1].0 == other);
                        }
                    },
                    None => {},
                }
                match key_index(result, other) {
                    Some(i) => {
                        if i < r {
                            assert(entries[i].0 == other);
                        } else {
                            assert(entries[i + 1].0 == other);
                        }
                    },
                    None => {},
                }
            },
            None => {},
        }
    }
}

/// An entry of a keyed table.
#[derive(Clone, Debug)]
pub struct Keyed<V> {
    pub key: String,
    pub value: V,
}

pub open spec fn keyed_view<V: View>(entries: Seq<Keyed<V>>) -> Seq<(Seq<char>, V::V)> {
    entries.map_values(|e: Keyed<V>| (e.key@, e.value@))
}

/// The position of `key` in a keyed table.
pub fn find_key<V: View>(entries: &Vec<Keyed<V>>, key: &String) -> (found: Option<usize>)
    ensures
        match found {
            Some(i) => key_index(keyed_view(entries@), key@) == Some(i as int) && i < entries@.len(),
            None => key_index(keyed_view(entries@), key@) is None,
        },
{
    let ghost view = keyed_view(entries@);
    let mut i: usize = 0;
    while i < entries.len()
        invariant
            i <= entries.len(),
            view == keyed_view(entries@),
            view.len() == entries.len(),
            key_index(view.take(i as int), key@) is None,
        decreases entries.len() - i,
    {
        assert(view.take(i + 1).drop_last() =~= view.take(i as int));
        if entries[i].key == *key {
            proof {
                lemma_key_index_prefix(view, i + 1, key@);
            }
            return Some(i);
        }
        i = i + 1;
    }
    assert(view.take(view.len() as int) =~= view);
    None
}

/// The value stored under `key`.
pub fn get_value<'a, V: View>(entries: &'a Vec<Keyed<V>>, key: &String) -> (value: Option<&'a V>)
    ensures
        match value {
            Some(v) => lookup(keyed_view(entries@), key@) == Some(v@),
            None => lookup(keyed_view(entries@), key@) is None,
        },
{
    match find_key(entries, key) {
        Some(i) => Some(&entries[i].value),
        None => None,
    }
}

/// Removes the entry under `key`, returning its value.
pub fn remove_entry<V: View>(entries: &mut Vec<Keyed<V>>, key: &String) -> (removed: Option<V>)
    ensures
        keyed_view(final(entries)@) == remove_key(keyed_view(old(entries)@), key@),
        match removed {
            Some(v) => lookup(keyed_view(old(entries)@), key@) == Some(v@),
            None => lookup(keyed_view(old(entries)@), key@) is None,
        },
{
    match find_key(entries, key) {
        Some(i) => {
            let ghost before = entries@;
            let entry = entries.remove(i);
            assert(keyed_view(entries@) =~= keyed_view(before).remove(i as int));
            Some(entry.value)
        },
        None => None,
    }
}

/// Stores `value` under `key`, replacing an existing entry in place.
pub fn set_entry<V: View>(entries: &mut Vec<Keyed<V>>, key: String, value: V)
    ensures
        keyed_view(final(entries)@) == set_key(keyed_view(old(entries)@), key@, value@),
{
    match find_key(entries, &key) {
        Some(i) => {
            let ghost before = entries@;
            let ghost k = key@;
            let ghost v = value@;
            entries.set(i, Keyed { key, value });
            assert(keyed_view(entries@) =~= keyed_view(before).update(i as int, (k, v)));
        },
        None => {
            let ghost before = entries@;
            let ghost k = key@;
            let ghost v = value@;
            entries.push(Keyed { key, value });
            assert(keyed_view(entries@) =~= keyed_view(before).push((k, v)));
        },
    }
}

} // verus!
