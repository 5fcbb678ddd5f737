//! The tree that a key-mapping document decodes to.

use vstd::prelude::*;
use crate::text::same_text;

verus! {

/// The mathematical value of a [`YamlNode`].
pub enum YamlValue {
    Real(Seq<char>),
    Integer(i64),
    Text(Seq<char>),
    Boolean(bool),
    List(Seq<YamlValue>),
    Mapping(Seq<(YamlValue, YamlValue)>),
    Alias(usize),
    Null,
    Bad,
}

/// One node of a decoded key-mapping document.
#[derive(Debug, PartialEq, Eq)]
pub enum YamlNode {
    /// A number with a fraction, as it was written.
    Real(String),
    Integer(i64),
    Text(String),
    Boolean(bool),
    List(Vec<YamlNode>),
    /// The entries of a mapping, in document order; no key occurs twice.
    Mapping(Vec<(YamlNode, YamlNode)>),
    Alias(usize),
    Null,
    /// A node that could not be resolved.
    Bad,
}

/// The mathematical value of a node: that of each of its parts, in place.
pub open spec fn yaml_value(node: YamlNode) -> YamlValue
    decreases node,
{
    match node {
        YamlNode::Real(s) => YamlValue::Real(s@),
        YamlNode::Integer(n) => YamlValue::Integer(n),
        YamlNode::Text(s) => YamlValue::Text(s@),
        YamlNode::Boolean(b) => YamlValue::Boolean(b),
        YamlNode::List(items) => YamlValue::List(
            Seq::new(
                items@.len(),
                |i: int|
                    if 0 <= i < items@.len() {
                        yaml_value(items@[i])
                    } else {
                        YamlValue::Bad
                    },
            ),
        ),
        YamlNode::Mapping(entries) => YamlValue::Mapping(
            Seq::new(
                entries@.len(),
                |i: int|
                    if 0 <= i < entries@.len() {
                        (yaml_value(entries@[i].0), yaml_value(entries@[i].1))
                    } else {
                        (YamlValue::Bad, YamlValue::Bad)
                    },
            ),
        ),
        YamlNode::Alias(n) => YamlValue::Alias(n),
        YamlNode::Null => YamlValue::Null,
        YamlNode::Bad => YamlValue::Bad,
    }
}

impl DeepView for YamlNode {
    type V = YamlValue;

    open spec fn deep_view(&self) -> YamlValue {
        yaml_value(*self)
    }
}

impl YamlValue {
    /// The characters of a text node.
    pub open spec fn as_text(self) -> Option<Seq<char>> {
        match self {
            YamlValue::Text(s) => Some(s),
            _ => None,
        }
    }

    /// The number of an integer node.
    pub open spec fn as_integer(self) -> Option<i64> {
        match self {
            YamlValue::Integer(n) => Some(n),
            _ => None,
        }
    }

    /// The truth value of a boolean node.
    pub open spec fn as_boolean(self) -> Option<bool> {
        match self {
            YamlValue::Boolean(b) => Some(b),
            _ => None,
        }
    }

    /// The items of a list node.
    pub open spec fn as_list(self) -> Option<Seq<YamlValue>> {
        match self {
            YamlValue::List(items) => Some(items),
            _ => None,
        }
    }

    /// The entries of a mapping node.
    pub open spec fn as_mapping(self) -> Option<Seq<(YamlValue, YamlValue)>> {
        match self {
            YamlValue::Mapping(entries) => Some(entries),
            _ => None,
        }
    }

    /// What a mapping node holds under the text key `key`; `Bad` where
    /// the node is no mapping or has no such key.
    pub open spec fn get(self, key: Seq<char>) -> YamlValue {
        match self {
            YamlValue::Mapping(entries) => entry(entries, key),
            _ => YamlValue::Bad,
        }
    }
}

/// Whether the entry at `at` is the first one whose key is the text `key`.
pub open spec fn is_first_entry(
    entries: Seq<(YamlValue, YamlValue)>,
    key: Seq<char>,
    at: int,
) -> bool {
    &&& 0 <= at < entries.len()
    &&& entries[at].0 == YamlValue::Text(key)
    &&& forall|j: int| 0 <= j < at ==> (#[trigger] entries[j]).0 != YamlValue::Text(key)
}

/// Whether some entry has the text `key` as its key.
pub open spec fn has_entry(entries: Seq<(YamlValue, YamlValue)>, key: Seq<char>) -> bool {
    exists|at: int| is_first_entry(entries, key, at)
}

/// The value of the first entry whose key is the text `key`; `Bad` where there is none.
pub open spec fn entry(entries: Seq<(YamlValue, YamlValue)>, key: Seq<char>) -> YamlValue {
    if has_entry(entries, key) {
        entries[choose|at: int| is_first_entry(entries, key, at)].1
    } else {
        YamlValue::Bad
    }
}

/// The first entry with a key is the only index that [`is_first_entry`] accepts.
pub proof fn lemma_first_entry(entries: Seq<(YamlValue, YamlValue)>, key: Seq<char>, at: int)
    requires
        is_first_entry(entries, key, at),
    ensures
        has_entry(entries, key),
        entry(entries, key) == entries[at].1,
{
    let chosen = choose|c: int| is_first_entry(entries, key, c);
    assert(is_first_entry(entries, key, chosen));
    if chosen < at {
        assert(entries[chosen].0 != YamlValue::Text(key));
    }
    if at < chosen {
        assert(entries[at].0 != YamlValue::Text(key));
    }
}

impl YamlNode {
    /// The characters of a text node.
    pub fn as_str(&self) -> (r: Option<&str>)
        ensures
            r.deep_view() == self.deep_view().as_text(),
    {
        match self {
            YamlNode::Text(s) => Some(s.as_str()),
            _ => None,
        }
    }

    /// The number of an integer node.
    pub fn as_i64(&self) -> (r: Option<i64>)
        ensures
            r == self.deep_view().as_integer(),
    {
        match self {
            YamlNode::Integer(n) => Some(*n),
            _ => None,
        }
    }

    /// The truth value of a boolean node.
    pub fn as_bool(&self) -> (r: Option<bool>)
        ensures
            r == self.deep_view().as_boolean(),
    {
        match self {
            YamlNode::Boolean(b) => Some(*b),
            _ => None,
        }
    }

    /// The items of a list node.
    pub fn as_vec(&self) -> (r: Option<&Vec<YamlNode>>)
        ensures
            r.deep_view() == self.deep_view().as_list(),
    {
        match self {
            YamlNode::List(items) => {
                proof {
                    let shown = self.deep_view().as_list().unwrap();
                    assert(shown.len() == items@.len());
                    assert forall|i: int| 0 <= i < shown.len() implies shown[i]
                        == items.deep_view()[i] by {}
                    assert(shown =~= items.deep_view());
                }
                Some(items)
            },
            _ => None,
        }
    }

    /// The entries of a mapping node.
    pub fn as_hash(&self) -> (r: Option<&Vec<(YamlNode, YamlNode)>>)
        ensures
            r.deep_view() == self.deep_view().as_mapping(),
    {
        match self {
            YamlNode::Mapping(entries) => {
                proof {
                    let shown = self.deep_view().as_mapping().unwrap();
                    assert(shown.len() == entries@.len());
                    assert forall|i: int| 0 <= i < shown.len() implies shown[i]
                        == entries.deep_view()[i] by {}
                    assert(shown =~= entries.deep_view());
                }
                Some(entries)
            },
            _ => None,
        }
    }

    /// What a mapping node holds under the text key `key`, if it is a
    /// mapping and has that key.
    pub fn get(&self, key: &str) -> (r: Option<&YamlNode>)
        ensures
            match r {
                Some(node) => node.deep_view() == self.deep_view().get(key@)
                    && self.deep_view().as_mapping() is Some && has_entry(
                    self.deep_view().as_mapping().unwrap(),
                    key@,
                ),
                None => self.deep_view().get(key@) == YamlValue::Bad && (
                self.deep_view().as_mapping() is Some ==> !has_entry(
                    self.deep_view().as_mapping().unwrap(),
                    key@,
                )),
            },
    {
        match self.as_hash() {
            Some(entries) => lookup(entries, key),
            None => None,
        }
    }
}

/// The value of the first entry of `entries` whose key is the text `key`.
pub fn lookup<'a>(entries: &'a Vec<(YamlNode, YamlNode)>, key: &str) -> (r: Option<&'a YamlNode>)
    ensures
        match r {
            Some(node) => has_entry(entries.deep_view(), key@) && node.deep_view() == entry(
                entries.deep_view(),
                key@,
            ),
            None => !has_entry(entries.deep_view(), key@),
        },
{
    let mut i: usize = 0;
    while i < entries.len()
        invariant
            i <= entries.len(),
            forall|j: int|
                0 <= j < i ==> (#[trigger] entries.deep_view()[j]).0 != YamlValue::Text(key@),
        decreases entries.len() - i,
    {
        let found = match &entries[i].0 {
            YamlNode::Text(s) => same_text(s.as_str(), key),
            _ => false,
        };
        if found {
            proof {
                assert(entries.deep_view()[i as int].0 == YamlValue::Text(key@));
                lemma_first_entry(entries.deep_view(), key@, i as int);
            }
            return Some(&entries[i].1);
        }
        assert(entries.deep_view()[i as int].0 != YamlValue::Text(key@));
        i = i + 1;
    }
    assert forall|at: int| !is_first_entry(entries.deep_view(), key@, at) by {
        if 0 <= at < entries.len() {
            assert(entries.deep_view()[at].0 != YamlValue::Text(key@));
        }
    }
    None
}

} // verus!
