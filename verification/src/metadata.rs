//! Free-form keys of a component, each with an optional value.

use vstd::prelude::*;
use vstd::std_specs::cmp::PartialEqSpecImpl;
use crate::locale::{
    agrees_on_keys, assoc_get, assoc_map, keys_unique, lemma_absent_key, lemma_last_occurrence,
    lemma_push_inserts, lemma_push_keeps_unique, lemma_same_map, lemma_update_inserts,
    lemma_update_keeps_unique, position,
};
use crate::text::owned_option;

verus! {

/// A map from free-form keys to optional values. A second write for
/// a key replaces the first; two maps are equal when they hold the
/// same keys with the same values, in whatever order they were written.
#[derive(Debug)]
pub struct Metadata {
    entries: Vec<(String, Option<String>)>,
}

impl DeepView for Metadata {
    type V = Map<Seq<char>, Option<Seq<char>>>;

    closed spec fn deep_view(&self) -> Map<Seq<char>, Option<Seq<char>>> {
        assoc_map(self.entries.deep_view())
    }
}

/// Whether two optional texts are the same.
pub fn same_option(a: &Option<String>, b: &Option<String>) -> (r: bool)
    ensures
        r == (a.deep_view() == b.deep_view()),
{
    match (a, b) {
        (Some(x), Some(y)) => *x == *y,
        (None, None) => true,
        _ => false,
    }
}

/// Whether every key of `a` has the same value in `b` as in `a`.
fn same_values_by_key(a: &Vec<(String, Option<String>)>, b: &Vec<(String, Option<String>)>) -> (r:
    bool)
    ensures
        r == agrees_on_keys(a.deep_view(), b.deep_view()),
{
    let mut i: usize = 0;
    while i < a.len()
        invariant
            i <= a.len(),
            forall|k: int|
                0 <= k < i ==> assoc_get(b.deep_view(), (#[trigger] a.deep_view()[k]).0)
                    == assoc_get(a.deep_view(), a.deep_view()[k].0),
        decreases a.len() - i,
    {
        let key = a[i].0.as_str();
        let in_a = position(a, key);
        let in_b = position(b, key);
        proof {
            match in_a {
                Some(at) => lemma_last_occurrence(a.deep_view(), key@, at as int),
                None => {
                    assert(a.deep_view()[i as int].0 == key@);
                },
            }
            match in_b {
                Some(at) => lemma_last_occurrence(b.deep_view(), key@, at as int),
                None => lemma_absent_key(b.deep_view(), key@),
            }
        }
        let same = match (in_a, in_b) {
            (Some(x), Some(y)) => same_option(&a[x].1, &b[y].1),
            _ => false,
        };
        if !same {
            assert(assoc_get(b.deep_view(), a.deep_view()[i as int].0) != assoc_get(
                a.deep_view(),
                a.deep_view()[i as int].0,
            ));
            return false;
        }
        i = i + 1;
    }
    true
}

impl Clone for Metadata {
    fn clone(&self) -> (r: Self)
        ensures
            r.deep_view() == self.deep_view(),
    {
        proof {
            use_type_invariant(self);
        }
        let mut entries: Vec<(String, Option<String>)> = Vec::new();
        let mut i: usize = 0;
        while i < self.entries.len()
            invariant
                i <= self.entries.len(),
                entries.deep_view() == self.entries.deep_view().take(i as int),
            decreases self.entries.len() - i,
        {
            let ghost before = entries.deep_view();
            let ghost all = self.entries.deep_view();
            let key = self.entries[i].0.clone();
            let value = owned_option(&self.entries[i].1);
            entries.push((key, value));
            assert(entries.deep_view() =~= before.push((key@, value.deep_view())));
            assert(all.take(i + 1) =~= all.take(i as int).push(all[i as int]));
            i = i + 1;
        }
        assert(entries.deep_view() =~= self.entries.deep_view());
        Metadata { entries }
    }
}

impl PartialEq for Metadata {
    fn eq(&self, other: &Self) -> (r: bool) {
        proof {
            lemma_same_map(self.entries.deep_view(), other.entries.deep_view());
        }
        same_values_by_key(&self.entries, &other.entries) && same_values_by_key(
            &other.entries,
            &self.entries,
        )
    }
}

impl PartialEqSpecImpl for Metadata {
    open spec fn obeys_eq_spec() -> bool {
        true
    }

    open spec fn eq_spec(&self, other: &Self) -> bool {
        self.deep_view() == other.deep_view()
    }
}

impl Default for Metadata {
    fn default() -> (r: Self)
        ensures
            r.deep_view() == Map::<Seq<char>, Option<Seq<char>>>::empty(),
    {
        let entries: Vec<(String, Option<String>)> = Vec::new();
        assert(entries.deep_view() =~= Seq::empty());
        let r = Metadata { entries };
        assert(r.deep_view() =~= Map::empty());
        r
    }
}

impl Metadata {
    /// No key is stored twice.
    #[verifier::type_invariant]
    spec fn tidy(self) -> bool {
        keys_unique(self.entries.deep_view())
    }

    /// Writes `value` under `key`, in place of what the key had.
    pub fn put(&mut self, key: String, value: Option<String>)
        ensures
            final(self).deep_view() == old(self).deep_view().insert(key@, value.deep_view()),
    {
        proof {
            use_type_invariant(&*self);
        }
        let mut entries: Vec<(String, Option<String>)> = Vec::new();
        std::mem::swap(&mut entries, &mut self.entries);
        let ghost before = entries.deep_view();
        let ghost k = key@;
        let ghost v = value.deep_view();
        match position(&entries, key.as_str()) {
            Some(at) => {
                entries.set(at, (key, value));
                proof {
                    assert(entries.deep_view() =~= before.update(at as int, (k, v)));
                    lemma_update_inserts(before, at as int, k, v);
                    lemma_update_keeps_unique(before, at as int, k, v);
                }
            },
            None => {
                entries.push((key, value));
                proof {
                    assert(entries.deep_view() =~= before.push((k, v)));
                    lemma_push_inserts(before, k, v);
                    lemma_push_keeps_unique(before, k, v);
                }
            },
        }
        self.entries = entries;
    }

    /// What is written under `key`: nothing where the key is absent,
    /// else its optional value.
    pub fn get(&self, key: &str) -> (r: Option<&Option<String>>)
        ensures
            r.deep_view() == (if self.deep_view().contains_key(key@) {
                Some(self.deep_view()[key@])
            } else {
                None
            }),
    {
        match position(&self.entries, key) {
            Some(at) => {
                proof {
                    lemma_last_occurrence(self.entries.deep_view(), key@, at as int);
                }
                Some(&self.entries[at].1)
            },
            None => {
                proof {
                    lemma_absent_key(self.entries.deep_view(), key@);
                }
                None
            },
        }
    }

    /// The stored entries: one for each key, none twice, in the order
    /// in which the keys were first written.
    pub fn entries(&self) -> (r: &Vec<(String, Option<String>)>)
        ensures
            assoc_map(r.deep_view()) == self.deep_view(),
            keys_unique(r.deep_view()),
    {
        proof {
            use_type_invariant(self);
        }
        &self.entries
    }
}

} // verus!
