//! Lists of named entries in which no name occurs twice, read as maps from
//! the names to the values.

use crate::text::str_eq;
use vstd::prelude::*;

verus! {

/// The name of entry `i`.
pub open spec fn key_at<V>(entries: Seq<(String, V)>, i: int) -> Seq<char> {
    entries[i].0@
}

/// Whether no name occurs twice.
pub open spec fn distinct_keys<V>(entries: Seq<(String, V)>) -> bool {
    forall|i: int, j: int|
        0 <= i < j < entries.len() ==> #[trigger] key_at(entries, i) != #[trigger] key_at(
            entries,
            j,
        )
}

/// Whether some entry has the name `key`.
pub open spec fn has_key<V>(entries: Seq<(String, V)>, key: Seq<char>) -> bool {
    exists|i: int| 0 <= i < entries.len() && #[trigger] key_at(entries, i) == key
}

/// The place of an entry named `key`.
pub open spec fn index_of<V>(entries: Seq<(String, V)>, key: Seq<char>) -> int {
    choose|i: int| 0 <= i < entries.len() && #[trigger] key_at(entries, i) == key
}

/// The map from each name to the value of an entry of that name.
pub open spec fn as_map<V>(entries: Seq<(String, V)>) -> Map<Seq<char>, V> {
    Map::new(|key: Seq<char>| has_key(entries, key), |key: Seq<char>| entries[index_of(entries, key)].1)
}

/// In a list without repeated names, the entry at place `i` is the one that
/// the map gives for its name.
pub proof fn lemma_entry_in_map<V>(entries: Seq<(String, V)>, i: int)
    requires
        distinct_keys(entries),
        0 <= i < entries.len(),
    ensures
        has_key(entries, key_at(entries, i)),
        index_of(entries, key_at(entries, i)) == i,
        as_map(entries).dom().contains(key_at(entries, i)),
        as_map(entries)[key_at(entries, i)] == entries[i].1,
{
    let key = key_at(entries, i);
    let found = index_of(entries, key);
    if found < i {
        assert(key_at(entries, found) != key_at(entries, i));
    } else if i < found {
        assert(key_at(entries, i) != key_at(entries, found));
    }
}

/// The place of the entry named `key`, if there is one.
pub fn position<V>(entries: &Vec<(String, V)>, key: &str) -> (found: Option<usize>)
    ensures
        match found {
            Some(i) => i < entries.len() && key_at(entries@, i as int) == key@,
            None => !has_key(entries@, key@),
        },
{
    let mut i: usize = 0;
    while i < entries.len()
        invariant
            i <= entries.len(),
            forall|j: int| 0 <= j < i ==> #[trigger] key_at(entries@, j) != key@,
        decreases entries.len() - i,
    {
        if str_eq(entries[i].0.as_str(), key) {
            return Some(i);
        }
        i += 1;
    }
    None
}

/// Gives the name `key` the value `value`: the entry of that name is
/// replaced if there is one, and else a new entry is added at the end.
pub fn put<V>(entries: &mut Vec<(String, V)>, key: String, value: V)
    requires
        distinct_keys(old(entries)@),
    ensures
        distinct_keys(final(entries)@),
        as_map(final(entries)@) == as_map(old(entries)@).insert(key@, value),
{
    let ghost before = entries@;
    let found = position(entries, key.as_str());
    match found {
        Some(i) => {
            entries.set(i, (key, value));
        },
        None => {
            entries.push((key, value));
        },
    }
    proof {
        let after = entries@;
        let place: int = match found {
            Some(i) => i as int,
            None => before.len() as int,
        };
        assert(key_at(after, place) == key@);
        assert forall|j: int| 0 <= j < before.len() && j != place implies key_at(after, j)
            == key_at(before, j) && after[j] == before[j] by {}
        assert forall|i: int, j: int| 0 <= i < j < after.len() implies #[trigger] key_at(after, i)
            != #[trigger] key_at(after, j) by {
            if i == place {
                if j < before.len() {
                    assert(key_at(before, j) == key_at(after, j));
                    if found is Some {
                        assert(key_at(before, i) != key_at(before, j));
                    }
                }
            } else if j == place {
                assert(key_at(before, i) == key_at(after, i));
                if found is Some {
                    assert(key_at(before, i) != key_at(before, j));
                }
            } else {
                assert(key_at(before, i) != key_at(before, j));
            }
        }
        assert forall|k: Seq<char>| #[trigger]
            as_map(after).dom().contains(k) == as_map(before).insert(key@, value).dom().contains(
                k,
            ) by {
            if k == key@ {
                assert(key_at(after, place) == k);
            } else if has_key(before, k) {
                let j = index_of(before, k);
                assert(key_at(after, j) == k);
            } else if has_key(after, k) {
                let j = index_of(after, k);
                assert(key_at(before, j) == k);
            }
        }
        assert forall|k: Seq<char>| #[trigger] as_map(after).dom().contains(k) implies as_map(
            after,
        )[k] == as_map(before).insert(key@, value)[k] by {
            let j = index_of(after, k);
            lemma_entry_in_map(after, j);
            if k != key@ {
                assert(key_at(before, j) == k);
                lemma_entry_in_map(before, j);
            }
        }
        assert(as_map(after) =~= as_map(before).insert(key@, value));
    }
}

/// Takes the entry named `key` out, if there is one.
pub fn delete<V>(entries: &mut Vec<(String, V)>, key: &str)
    requires
        distinct_keys(old(entries)@),
    ensures
        distinct_keys(final(entries)@),
        as_map(final(entries)@) == as_map(old(entries)@).remove(key@),
{
    let ghost before = entries@;
    let found = position(entries, key);
    match found {
        Some(i) => {
            let _ = entries.remove(i);
            proof {
                let after = entries@;
                let place = i as int;
                assert forall|j: int| 0 <= j < after.len() implies key_at(after, j) == key_at(
                    before,
                    if j < place {
                        j
                    } else {
                        j + 1
                    },
                ) by {}
                assert forall|a: int, b: int| 0 <= a < b < after.len() implies #[trigger] key_at(
                    after,
                    a,
                ) != #[trigger] key_at(after, b) by {
                    let a0 = if a < place {
                        a
                    } else {
                        a + 1
                    };
                    let b0 = if b < place {
                        b
                    } else {
                        b + 1
                    };
                    assert(key_at(before, a0) != key_at(before, b0));
                }
                assert forall|k: Seq<char>| #[trigger]
                    as_map(after).dom().contains(k) == as_map(before).remove(key@).dom().contains(
                        k,
                    ) by {
                    if has_key(after, k) {
                        let j = index_of(after, k);
                        let j0 = if j < place {
                            j
                        } else {
                            j + 1
                        };
                        assert(key_at(before, j0) == k);
                        if k == key@ {
                            lemma_entry_in_map(before, j0);
                            lemma_entry_in_map(before, place);
                        }
                    }
                    if has_key(before, k) && k != key@ {
                        let j0 = index_of(before, k);
                        let j = if j0 < place {
                            j0
                        } else {
                            j0 - 1
                        };
                        assert(key_at(after, j) == k);
                    }
                }
                assert forall|k: Seq<char>| #[trigger]
                    as_map(after).dom().contains(k) implies as_map(after)[k] == as_map(
                    before,
                ).remove(key@)[k] by {
                    let j = index_of(after, k);
                    let j0 = if j < place {
                        j
                    } else {
                        j + 1
                    };
                    lemma_entry_in_map(after, j);
                    assert(key_at(before, j0) == k);
                    lemma_entry_in_map(before, j0);
                }
                assert(as_map(after) =~= as_map(before).remove(key@));
            }
        },
        None => {
            proof {
                assert(as_map(before) =~= as_map(before).remove(key@));
            }
        },
    }
}

} // verus!
