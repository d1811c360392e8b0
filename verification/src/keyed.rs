//! Lists of entries that are found by an address.
//!
//! The engine keeps its banks, balances and oracle feeds in short lists of
//! `(address, value)` pairs. A key is looked up from the front, so where a
//! key stands twice the first entry counts.
use crate::address::Address;
use vstd::prelude::*;

verus! {

/// Whether some entry has the key.
pub open spec fn has_key<T>(entries: Seq<(Address, T)>, key: Seq<u8>) -> bool {
    exists|i: int| 0 <= i < entries.len() && (#[trigger] entries[i]).0@ == key
}

/// Whether entry `i` is the first that has the key.
pub open spec fn is_first<T>(entries: Seq<(Address, T)>, key: Seq<u8>, i: int) -> bool {
    &&& 0 <= i < entries.len()
    &&& entries[i].0@ == key
    &&& forall|j: int| 0 <= j < i ==> (#[trigger] entries[j]).0@ != key
}

/// The index of the first entry that has the key.
pub open spec fn first_index<T>(entries: Seq<(Address, T)>, key: Seq<u8>) -> int {
    choose|i: int| is_first(entries, key, i)
}

/// The value of the first entry that has the key.
pub open spec fn first_value<T>(entries: Seq<(Address, T)>, key: Seq<u8>) -> Option<T> {
    if has_key(entries, key) {
        Some(entries[first_index(entries, key)].1)
    } else {
        None
    }
}

/// The entries as a map from the bytes of a key to the value found for it.
pub open spec fn as_map<T>(entries: Seq<(Address, T)>) -> Map<Seq<u8>, T> {
    Map::new(
        |key: Seq<u8>| has_key(entries, key),
        |key: Seq<u8>| entries[first_index(entries, key)].1,
    )
}

/// Whether no key stands twice.
pub open spec fn distinct_keys<T>(entries: Seq<(Address, T)>) -> bool {
    forall|i: int, j: int|
        0 <= i < j < entries.len() ==> (#[trigger] entries[i]).0@ != (#[trigger] entries[j]).0@
}

/// The entries after `value` is stored under `key`: the first entry with the
/// key gets the value, and where there is none a new entry is added at the
/// end.
pub open spec fn upserted<T>(entries: Seq<(Address, T)>, key: Address, value: T) -> Seq<
    (Address, T),
> {
    if has_key(entries, key@) {
        let i = first_index(entries, key@);
        entries.update(i, (entries[i].0, value))
    } else {
        entries.push((key, value))
    }
}

/// A key has one first entry only, and it is the one that `first_index`
/// names.
pub proof fn lemma_first_index<T>(entries: Seq<(Address, T)>, key: Seq<u8>, i: int)
    requires
        is_first(entries, key, i),
    ensures
        has_key(entries, key),
        first_index(entries, key) == i,
        first_value(entries, key) == Some(entries[i].1),
{
    let j = first_index(entries, key);
    assert(is_first(entries, key, j));
    if j < i {
        assert(entries[j].0@ != key);
    }
    if i < j {
        assert(entries[i].0@ != key);
    }
}

/// A key that stands in the list has a first entry.
pub proof fn lemma_has_first<T>(entries: Seq<(Address, T)>, key: Seq<u8>)
    requires
        has_key(entries, key),
    ensures
        is_first(entries, key, first_index(entries, key)),
{
    let k = choose|i: int| 0 <= i < entries.len() && (#[trigger] entries[i]).0@ == key;
    lemma_first_below(entries, key, k);
}

proof fn lemma_first_below<T>(entries: Seq<(Address, T)>, key: Seq<u8>, k: int)
    requires
        0 <= k < entries.len(),
        entries[k].0@ == key,
    ensures
        exists|i: int| is_first(entries, key, i),
        is_first(entries, key, first_index(entries, key)),
    decreases k,
{
    if forall|j: int| 0 <= j < k ==> (#[trigger] entries[j]).0@ != key {
        assert(is_first(entries, key, k));
    } else {
        let j = choose|j: int| 0 <= j < k && (#[trigger] entries[j]).0@ == key;
        lemma_first_below(entries, key, j);
    }
}

/// What a lookup finds after a value was stored: the value under its own
/// key, and under every other key what was there before.
pub proof fn lemma_upserted_lookup<T>(
    entries: Seq<(Address, T)>,
    key: Address,
    value: T,
    other: Seq<u8>,
)
    ensures
        first_value(upserted(entries, key, value), key@) == Some(value),
        other != key@ ==> first_value(upserted(entries, key, value), other) == first_value(
            entries,
            other,
        ),
        upserted(entries, key, value).len() == if has_key(entries, key@) {
            entries.len()
        } else {
            entries.len() + 1
        },
        distinct_keys(entries) ==> distinct_keys(upserted(entries, key, value)),
{
    let after = upserted(entries, key, value);
    if has_key(entries, key@) {
        lemma_has_first(entries, key@);
        let i = first_index(entries, key@);
        assert forall|j: int| 0 <= j < after.len() implies (#[trigger] after[j]).0@
            == entries[j].0@ by {}
        assert(is_first(after, key@, i)) by {
            assert forall|j: int| 0 <= j < i implies (#[trigger] after[j]).0@ != key@ by {
                assert(entries[j].0@ != key@);
            }
        }
        lemma_first_index(after, key@, i);
        if other != key@ {
            if has_key(entries, other) {
                lemma_has_first(entries, other);
                let o = first_index(entries, other);
                assert(is_first(after, other, o)) by {
                    assert forall|j: int| 0 <= j < o implies (#[trigger] after[j]).0@
                        != other by {
                        assert(entries[j].0@ != other);
                    }
                }
                lemma_first_index(after, other, o);
            } else {
                if has_key(after, other) {
                    let o = choose|o: int|
                        0 <= o < after.len() && (#[trigger] after[o]).0@ == other;
                    assert(entries[o].0@ == other);
                }
            }
        }
        if distinct_keys(entries) {
            assert forall|a: int, b: int| 0 <= a < b < after.len() implies (#[trigger] after[a]).0@
                != (#[trigger] after[b]).0@ by {
                assert(entries[a].0@ != entries[b].0@);
            }
        }
    } else {
        let n = entries.len() as int;
        assert(after[n].0@ == key@);
        assert forall|j: int| 0 <= j < n implies (#[trigger] after[j]).0@ != key@ by {
            assert(after[j] == entries[j]);
            if entries[j].0@ == key@ {
                assert(has_key(entries, key@));
            }
        }
        assert(is_first(after, key@, n));
        lemma_first_index(after, key@, n);
        if other != key@ {
            if has_key(entries, other) {
                lemma_has_first(entries, other);
                let o = first_index(entries, other);
                assert(is_first(after, other, o)) by {
                    assert forall|j: int| 0 <= j < o implies (#[trigger] after[j]).0@
                        != other by {
                        assert(after[j] == entries[j]);
                        assert(entries[j].0@ != other);
                    }
                    assert(after[o] == entries[o]);
                }
                lemma_first_index(after, other, o);
                assert(after[o] == entries[o]);
            } else {
                if has_key(after, other) {
                    let o = choose|o: int|
                        0 <= o < after.len() && (#[trigger] after[o]).0@ == other;
                    if o < n {
                        assert(after[o] == entries[o]);
                        assert(entries[o].0@ == other);
                    }
                }
            }
        }
        if distinct_keys(entries) {
            assert forall|a: int, b: int| 0 <= a < b < after.len() implies (#[trigger] after[a]).0@
                != (#[trigger] after[b]).0@ by {
                assert(after[a] == entries[a]);
                if b < n {
                    assert(after[b] == entries[b]);
                    assert(entries[a].0@ != entries[b].0@);
                } else {
                    if entries[a].0@ == key@ {
                        assert(has_key(entries, key@));
                    }
                }
            }
        }
    }
}

/// Storing a value makes the map hold it under its key, and changes nothing
/// else in the map.
pub proof fn lemma_upserted_map<T>(entries: Seq<(Address, T)>, key: Address, value: T)
    ensures
        as_map(upserted(entries, key, value)) == as_map(entries).insert(key@, value),
{
    let after = upserted(entries, key, value);
    let left = as_map(after);
    let right = as_map(entries).insert(key@, value);
    assert forall|k: Seq<u8>| #[trigger] left.dom().contains(k) == right.dom().contains(k) by {
        lemma_upserted_lookup(entries, key, value, k);
        assert(left.dom().contains(k) == has_key(after, k));
        assert(right.dom().contains(k) == (k == key@ || has_key(entries, k)));
    }
    assert forall|k: Seq<u8>| #[trigger] left.dom().contains(k) implies left[k] == right[k] by {
        lemma_upserted_lookup(entries, key, value, k);
        assert(has_key(after, k));
        assert(left[k] == first_value(after, k).unwrap());
        if k != key@ {
            assert(has_key(entries, k));
            assert(right[k] == first_value(entries, k).unwrap());
        }
    }
    assert(left.dom() =~= right.dom());
    assert(left =~= right);
}

/// Storing the same value under the same key a second time changes nothing.
pub proof fn lemma_upsert_idempotent<T>(entries: Seq<(Address, T)>, key: Address, value: T)
    ensures
        upserted(upserted(entries, key, value), key, value) == upserted(entries, key, value),
{
    let once = upserted(entries, key, value);
    lemma_upserted_lookup(entries, key, value, key@);
    assert(has_key(once, key@));
    lemma_has_first(once, key@);
    let i = first_index(once, key@);
    assert(once[i].1 == value);
    assert(once.update(i, (once[i].0, value)) =~= once);
}

/// The index of the first entry that has the key.
pub fn position<T>(entries: &Vec<(Address, T)>, key: &Address) -> (r: Option<usize>)
    ensures
        match r {
            Some(i) => is_first(entries@, key@, i as int) && first_index(entries@, key@) == i,
            None => !has_key(entries@, key@),
        },
{
    let mut i: usize = 0;
    while i < entries.len()
        invariant
            i <= entries.len(),
            forall|j: int| 0 <= j < i ==> (#[trigger] entries@[j]).0@ != key@,
        decreases entries.len() - i,
    {
        if entries[i].0 == *key {
            proof {
                lemma_first_index(entries@, key@, i as int);
            }
            return Some(i);
        }
        i = i + 1;
    }
    None
}

/// The value of the first entry that has the key.
pub fn find<'a, T>(entries: &'a Vec<(Address, T)>, key: &Address) -> (r: Option<&'a T>)
    ensures
        match r {
            Some(v) => first_value(entries@, key@) == Some(*v),
            None => first_value(entries@, key@) is None,
        },
{
    match position(entries, key) {
        Some(i) => {
            proof {
                lemma_first_index(entries@, key@, i as int);
            }
            Some(&entries[i].1)
        },
        None => None,
    }
}

/// Stores `value` under `key`: in the first entry that has the key, or in a
/// new entry at the end.
pub fn upsert<T>(entries: &mut Vec<(Address, T)>, key: Address, value: T)
    ensures
        final(entries)@ == upserted(old(entries)@, key, value),
        as_map(final(entries)@) == as_map(old(entries)@).insert(key@, value),
        distinct_keys(old(entries)@) ==> distinct_keys(final(entries)@),
{
    proof {
        lemma_upserted_map(old(entries)@, key, value);
        lemma_upserted_lookup(old(entries)@, key, value, key@);
    }
    match position(entries, &key) {
        Some(i) => {
            let saved: Address = entries[i].0;
            entries.set(i, (saved, value));
        },
        None => {
            entries.push((key, value));
        },
    }
}

} // verus!
