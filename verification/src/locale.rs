//! Association lists keyed by locale tag, read as maps in which the last
//! entry for a tag wins.

use vstd::prelude::*;

verus! {

/// The value that `entries` gives for `key`: that of the last entry with that key.
pub open spec fn assoc_get<T>(entries: Seq<(Seq<char>, T)>, key: Seq<char>) -> Option<T>
    decreases entries.len(),
{
    if entries.len() == 0 {
        None
    } else if entries.last().0 == key {
        Some(entries.last().1)
    } else {
        assoc_get(entries.drop_last(), key)
    }
}

/// The map that an association list stands for.
pub open spec fn assoc_map<T>(entries: Seq<(Seq<char>, T)>) -> Map<Seq<char>, T> {
    Map::new(
        |k: Seq<char>| assoc_get(entries, k) is Some,
        |k: Seq<char>| assoc_get(entries, k).unwrap(),
    )
}

/// No key occurs twice.
pub open spec fn keys_unique<T>(entries: Seq<(Seq<char>, T)>) -> bool {
    forall|i: int, j: int|
        0 <= i < j < entries.len() ==> (#[trigger] entries[i]).0 != (#[trigger] entries[j]).0
}

/// No entry at or after `from` has the key `key`.
pub open spec fn absent_from<T>(entries: Seq<(Seq<char>, T)>, key: Seq<char>, from: int) -> bool {
    forall|j: int| from <= j < entries.len() ==> (#[trigger] entries[j]).0 != key
}

/// A key that no entry has is given no value.
pub proof fn lemma_absent_key<T>(entries: Seq<(Seq<char>, T)>, key: Seq<char>)
    requires
        absent_from(entries, key, 0),
    ensures
        assoc_get(entries, key) is None,
    decreases entries.len(),
{
    if entries.len() > 0 {
        assert(entries[entries.len() - 1].0 != key);
        assert forall|j: int| 0 <= j < entries.drop_last().len() implies (
        #[trigger] entries.drop_last()[j]).0 != key by {
            assert(entries[j].0 != key);
        }
        lemma_absent_key(entries.drop_last(), key);
    }
}

/// The last entry with a key decides the value of that key.
pub proof fn lemma_last_occurrence<T>(entries: Seq<(Seq<char>, T)>, key: Seq<char>, at: int)
    requires
        0 <= at < entries.len(),
        entries[at].0 == key,
        absent_from(entries, key, at + 1),
    ensures
        assoc_get(entries, key) == Some(entries[at].1),
    decreases entries.len(),
{
    if at < entries.len() - 1 {
        assert(entries[entries.len() - 1].0 != key);
        assert forall|j: int| at + 1 <= j < entries.drop_last().len() implies (
        #[trigger] entries.drop_last()[j]).0 != key by {
            assert(entries[j].0 != key);
        }
        lemma_last_occurrence(entries.drop_last(), key, at);
    }
}

/// A key with a value is the key of some entry.
pub proof fn lemma_present_key<T>(entries: Seq<(Seq<char>, T)>, key: Seq<char>) -> (at: int)
    requires
        assoc_get(entries, key) is Some,
    ensures
        0 <= at < entries.len(),
        entries[at].0 == key,
    decreases entries.len(),
{
    if entries.last().0 == key {
        entries.len() - 1
    } else {
        lemma_present_key(entries.drop_last(), key)
    }
}

/// Appending an entry inserts its value under its key.
pub proof fn lemma_push_inserts<T>(entries: Seq<(Seq<char>, T)>, key: Seq<char>, value: T)
    ensures
        assoc_map(entries.push((key, value))) == assoc_map(entries).insert(key, value),
{
    let after = entries.push((key, value));
    assert(after.drop_last() == entries);
    assert(after.last() == (key, value));
    assert forall|k: Seq<char>| assoc_get(after, k) == (if k == key {
        Some(value)
    } else {
        assoc_get(entries, k)
    }) by {}
    assert(assoc_map(after) =~= assoc_map(entries).insert(key, value));
}

/// Replacing the value of the last entry that has `key` inserts the new value under `key`.
pub proof fn lemma_update_inserts<T>(
    entries: Seq<(Seq<char>, T)>,
    at: int,
    key: Seq<char>,
    value: T,
)
    requires
        0 <= at < entries.len(),
        entries[at].0 == key,
        absent_from(entries, key, at + 1),
    ensures
        assoc_map(entries.update(at, (key, value))) == assoc_map(entries).insert(key, value),
{
    let after = entries.update(at, (key, value));
    assert forall|k: Seq<char>| assoc_get(after, k) == (if k == key {
        Some(value)
    } else {
        assoc_get(entries, k)
    }) by {
        lemma_update_get(entries, at, key, value, k);
    }
    assert(assoc_map(after) =~= assoc_map(entries).insert(key, value));
}

/// What an association list gives for any key after the last entry
/// that has `key` was replaced.
proof fn lemma_update_get<T>(
    entries: Seq<(Seq<char>, T)>,
    at: int,
    key: Seq<char>,
    value: T,
    k: Seq<char>,
)
    requires
        0 <= at < entries.len(),
        entries[at].0 == key,
        absent_from(entries, key, at + 1),
    ensures
        assoc_get(entries.update(at, (key, value)), k) == (if k == key {
            Some(value)
        } else {
            assoc_get(entries, k)
        }),
    decreases entries.len(),
{
    let after = entries.update(at, (key, value));
    if at == entries.len() - 1 {
        assert(after.drop_last() == entries.drop_last());
    } else {
        assert(entries[entries.len() - 1].0 != key);
        assert(after.last() == entries.last());
        assert(after.drop_last() == entries.drop_last().update(at, (key, value)));
        assert forall|j: int| at + 1 <= j < entries.drop_last().len() implies (
        #[trigger] entries.drop_last()[j]).0 != key by {
            assert(entries[j].0 != key);
        }
        lemma_update_get(entries.drop_last(), at, key, value, k);
    }
}

/// Every key of `a` has the same value in `b` as in `a`.
pub open spec fn agrees_on_keys<T>(a: Seq<(Seq<char>, T)>, b: Seq<(Seq<char>, T)>) -> bool {
    forall|i: int|
        0 <= i < a.len() ==> assoc_get(b, (#[trigger] a[i]).0) == assoc_get(a, a[i].0)
}

/// Two association lists stand for the same map exactly when each agrees
/// with the other on its own keys.
pub proof fn lemma_same_map<T>(a: Seq<(Seq<char>, T)>, b: Seq<(Seq<char>, T)>)
    ensures
        (agrees_on_keys(a, b) && agrees_on_keys(b, a)) <==> assoc_map(a) == assoc_map(b),
{
    if agrees_on_keys(a, b) && agrees_on_keys(b, a) {
        assert forall|k: Seq<char>| assoc_get(a, k) == assoc_get(b, k) by {
            if assoc_get(a, k) is Some {
                let at = lemma_present_key(a, k);
                assert(assoc_get(b, a[at].0) == assoc_get(a, a[at].0));
            } else if assoc_get(b, k) is Some {
                let at = lemma_present_key(b, k);
                assert(assoc_get(a, b[at].0) == assoc_get(b, b[at].0));
            }
        }
        assert(assoc_map(a) =~= assoc_map(b));
    }
    if assoc_map(a) == assoc_map(b) {
        assert forall|k: Seq<char>| assoc_get(a, k) == assoc_get(b, k) by {
            assert(assoc_map(a).dom().contains(k) == assoc_map(b).dom().contains(k));
            if assoc_get(a, k) is Some {
                assert(assoc_map(a)[k] == assoc_map(b)[k]);
            }
        }
    }
}

/// Appending an entry under a key that no entry has keeps the keys distinct.
pub proof fn lemma_push_keeps_unique<T>(entries: Seq<(Seq<char>, T)>, key: Seq<char>, value: T)
    requires
        keys_unique(entries),
        absent_from(entries, key, 0),
    ensures
        keys_unique(entries.push((key, value))),
{
    let after = entries.push((key, value));
    assert forall|i: int, j: int| 0 <= i < j < after.len() implies (#[trigger] after[i]).0 != (
    #[trigger] after[j]).0 by {
        assert(after[i] == entries[i]);
        if j < entries.len() {
            assert(after[j] == entries[j]);
        }
    }
}

/// Replacing an entry by one with the same key keeps the keys distinct.
pub proof fn lemma_update_keeps_unique<T>(
    entries: Seq<(Seq<char>, T)>,
    at: int,
    key: Seq<char>,
    value: T,
)
    requires
        keys_unique(entries),
        0 <= at < entries.len(),
        entries[at].0 == key,
    ensures
        keys_unique(entries.update(at, (key, value))),
{
    let after = entries.update(at, (key, value));
    assert forall|i: int, j: int| 0 <= i < j < after.len() implies (#[trigger] after[i]).0 != (
    #[trigger] after[j]).0 by {
        assert(after[i].0 == entries[i].0);
        assert(after[j].0 == entries[j].0);
    }
}

/// The index of the last entry of `entries` whose key is `key`, if there is one.
pub fn position<V: DeepView>(entries: &Vec<(String, V)>, key: &str) -> (r: Option<usize>)
    ensures
        match r {
            Some(at) => at < entries.len() && entries@[at as int].0@ == key@ && absent_from(
                entries.deep_view(),
                key@,
                at + 1,
            ),
            None => absent_from(entries.deep_view(), key@, 0),
        },
{
    let wanted = crate::text::owned(key);
    let mut i: usize = entries.len();
    while i > 0
        invariant
            i <= entries.len(),
            wanted@ == key@,
            absent_from(entries.deep_view(), key@, i as int),
        decreases i,
    {
        i = i - 1;
        if entries[i].0 == wanted {
            return Some(i);
        }
    }
    None
}

} // verus!
