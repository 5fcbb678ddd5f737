//! From the trees of the decoders to the trees of this library.

use vstd::prelude::*;
use crate::outside::{
    element_content, element_depth, element_markup, element_parts, load_yaml, markup_nodes,
    node_content, node_contents, node_depth, node_shape, parse_markup, yaml_content,
    yaml_contents, yaml_depth, yaml_documents, yaml_shape, XmlShape, YamlShape,
};
use crate::text::owned;
use crate::xml_tree::{XmlElement, XmlNode};
use crate::yaml_tree::YamlNode;

verus! {

/// A node of `yaml_rust` as a node of this library: the same variant,
/// with the same content, all the way down.
pub fn node_from_yaml(node: &yaml_rust::Yaml) -> (r: YamlNode)
    ensures
        r.deep_view() == yaml_content(*node),
    decreases yaml_depth(*node),
{
    match yaml_shape(node) {
        YamlShape::Real(s) => YamlNode::Real(owned(s)),
        YamlShape::Integer(n) => YamlNode::Integer(n),
        YamlShape::Text(s) => YamlNode::Text(owned(s)),
        YamlShape::Boolean(b) => YamlNode::Boolean(b),
        YamlShape::List(items) => {
            let mut out: Vec<YamlNode> = Vec::new();
            let mut i: usize = 0;
            while i < items.len()
                invariant
                    i <= items.len(),
                    out.len() == i,
                    forall|k: int|
                        0 <= k < items@.len() ==> yaml_depth(#[trigger] items@[k]) < yaml_depth(
                            *node,
                        ),
                    forall|k: int| 0 <= k < i ==> (#[trigger] out@[k]).deep_view() == yaml_content(items@[k]),
                decreases items.len() - i,
            {
                let made = node_from_yaml(&items[i]);
                out.push(made);
                i = i + 1;
            }
            let r = YamlNode::List(out);
            assert(r.deep_view().as_list().unwrap() =~= yaml_contents(items@));
            r
        },
        YamlShape::Mapping(entries) => {
            let mut out: Vec<(YamlNode, YamlNode)> = Vec::new();
            let mut i: usize = 0;
            while i < entries.len()
                invariant
                    i <= entries.len(),
                    out.len() == i,
                    forall|k: int|
                        0 <= k < entries@.len() ==> yaml_depth(*(#[trigger] entries@[k]).0)
                            < yaml_depth(*node) && yaml_depth(*entries@[k].1) < yaml_depth(*node),
                    forall|k: int|
                        0 <= k < i ==> (#[trigger] out@[k]).0.deep_view() == yaml_content(
                            *entries@[k].0,
                        ) && out@[k].1.deep_view() == yaml_content(*entries@[k].1),
                decreases entries.len() - i,
            {
                let key = node_from_yaml(entries[i].0);
                let value = node_from_yaml(entries[i].1);
                out.push((key, value));
                i = i + 1;
            }
            let r = YamlNode::Mapping(out);
            assert(r.deep_view().as_mapping().unwrap() =~= Seq::new(
                entries@.len(),
                |k: int| (yaml_content(*entries@[k].0), yaml_content(*entries@[k].1)),
            ));
            r
        },
        YamlShape::Alias(n) => YamlNode::Alias(n),
        YamlShape::Null => YamlNode::Null,
        YamlShape::Bad => YamlNode::Bad,
    }
}

/// The documents that key-mapping text decodes to, as trees of this
/// library; nothing where the text is malformed.
pub fn decode_documents(text: &str) -> (r: Option<Vec<YamlNode>>)
    ensures
        r.deep_view() == yaml_documents(text@),
{
    let documents = match load_yaml(text) {
        Some(documents) => documents,
        None => {
            return None;
        },
    };
    let mut out: Vec<YamlNode> = Vec::new();
    let mut i: usize = 0;
    while i < documents.len()
        invariant
            i <= documents.len(),
            out.len() == i,
            forall|k: int| 0 <= k < i ==> (#[trigger] out@[k]).deep_view() == yaml_content(documents@[k]),
        decreases documents.len() - i,
    {
        let made = node_from_yaml(&documents[i]);
        out.push(made);
        i = i + 1;
    }
    assert(out.deep_view() =~= yaml_contents(documents@));
    Some(out)
}

/// An element of `xmltree` as an element of this library: the same
/// name, attributes and children, all the way down, with its markup.
pub fn element_from_markup(element: &xmltree::Element) -> (r: XmlElement)
    ensures
        r.deep_view() == element_content(*element),
    decreases element_depth(*element),
{
    let parts = element_parts(element);
    let mut attributes: Vec<(String, String)> = Vec::new();
    let mut a: usize = 0;
    while a < parts.attributes.len()
        invariant
            a <= parts.attributes.len(),
            attributes.len() == a,
            forall|k: int|
                0 <= k < a ==> (#[trigger] attributes@[k]).0@ == parts.attributes@[k].0@
                    && attributes@[k].1@ == parts.attributes@[k].1@,
        decreases parts.attributes.len() - a,
    {
        attributes.push((owned(parts.attributes[a].0), owned(parts.attributes[a].1)));
        a = a + 1;
    }
    assert(attributes.deep_view() =~= parts.attributes.deep_view());
    let mut children: Vec<XmlNode> = Vec::new();
    let mut i: usize = 0;
    while i < parts.children.len()
        invariant
            i <= parts.children.len(),
            children.len() == i,
            parts.nested_below(element_depth(*element)),
            forall|k: int|
                0 <= k < i ==> (#[trigger] children@[k]).deep_view() == node_content(
                    parts.children@[k],
                ),
        decreases parts.children.len() - i,
    {
        let made = node_from_markup(&parts.children[i]);
        children.push(made);
        i = i + 1;
    }
    let r = XmlElement { name: owned(parts.name), attributes, children, markup: element_markup(element) };
    assert(r.deep_view().children =~= node_contents(parts.children@));
    r
}

/// A node of `xmltree` as a node of this library.
pub fn node_from_markup(node: &xmltree::XMLNode) -> (r: XmlNode)
    ensures
        r.deep_view() == node_content(*node),
    decreases node_depth(*node),
{
    match node_shape(node) {
        XmlShape::Element(e) => XmlNode::Element(element_from_markup(e)),
        XmlShape::Comment(s) => XmlNode::Comment(owned(s)),
        XmlShape::CData(s) => XmlNode::CData(owned(s)),
        XmlShape::Text(s) => XmlNode::Text(owned(s)),
        XmlShape::Instruction(target, data) => XmlNode::Instruction(
            owned(target),
            match data {
                Some(d) => Some(owned(d)),
                None => None,
            },
        ),
    }
}

/// The top-level nodes that markup decodes to, as trees of this
/// library; nothing where the markup is malformed.
pub fn decode_markup(bytes: &[u8]) -> (r: Option<Vec<XmlNode>>)
    ensures
        r.deep_view() == markup_nodes(bytes@),
{
    let nodes = match parse_markup(bytes) {
        Some(nodes) => nodes,
        None => {
            return None;
        },
    };
    let mut out: Vec<XmlNode> = Vec::new();
    let mut i: usize = 0;
    while i < nodes.len()
        invariant
            i <= nodes.len(),
            out.len() == i,
            forall|k: int| 0 <= k < i ==> (#[trigger] out@[k]).deep_view() == node_content(nodes@[k]),
        decreases nodes.len() - i,
    {
        let made = node_from_markup(&nodes[i]);
        out.push(made);
        i = i + 1;
    }
    assert(out.deep_view() =~= node_contents(nodes@));
    Some(out)
}

} // verus!
