//! The calls that this library makes into other crates, each behind a
//! contract that is taken on trust.

use vstd::prelude::*;
use vstd::utf8::{decode_utf8, valid_utf8};
use std::io::Read;
use chrono::{Datelike, TimeZone};
use crate::xml_tree::{ElementView, NodeView};
use crate::yaml_tree::YamlValue;

verus! {

#[verifier::external_type_specification]
#[verifier::external_body]
pub struct ExUtf8Error(core::str::Utf8Error);

#[verifier::external_type_specification]
#[verifier::external_body]
pub struct ExYaml(yaml_rust::Yaml);

#[verifier::external_type_specification]
#[verifier::external_body]
pub struct ExMarkupElement(xmltree::Element);

#[verifier::external_type_specification]
#[verifier::external_body]
pub struct ExMarkupNode(xmltree::XMLNode);

/// What a gzip stream decompresses to; nothing where the stream is corrupt or cut short.
pub uninterp spec fn gzip_content(bytes: Seq<u8>) -> Option<Seq<u8>>;

/// The documents that key-mapping text decodes to; nothing where the text is malformed.
pub uninterp spec fn yaml_documents(text: Seq<char>) -> Option<Seq<YamlValue>>;

/// What a node of `yaml_rust` holds.
pub uninterp spec fn yaml_content(node: yaml_rust::Yaml) -> YamlValue;

/// How many levels a node of `yaml_rust` nests: more than any node inside it.
pub uninterp spec fn yaml_depth(node: yaml_rust::Yaml) -> nat;

/// What each node of a run of `yaml_rust` nodes holds, in order.
pub open spec fn yaml_contents(nodes: Seq<yaml_rust::Yaml>) -> Seq<YamlValue> {
    Seq::new(nodes.len(), |i: int| yaml_content(nodes[i]))
}

/// One level of a `yaml_rust` node: its variant, with what the variant
/// carries; the nodes inside it are borrowed as they are.
pub enum YamlShape<'a> {
    Real(&'a str),
    Integer(i64),
    Text(&'a str),
    Boolean(bool),
    List(&'a Vec<yaml_rust::Yaml>),
    Mapping(Vec<(&'a yaml_rust::Yaml, &'a yaml_rust::Yaml)>),
    Alias(usize),
    Null,
    Bad,
}

impl<'a> YamlShape<'a> {
    /// What the node of this shape holds.
    pub open spec fn content(self) -> YamlValue {
        match self {
            YamlShape::Real(s) => YamlValue::Real(s@),
            YamlShape::Integer(n) => YamlValue::Integer(n),
            YamlShape::Text(s) => YamlValue::Text(s@),
            YamlShape::Boolean(b) => YamlValue::Boolean(b),
            YamlShape::List(items) => YamlValue::List(yaml_contents(items@)),
            YamlShape::Mapping(entries) => YamlValue::Mapping(
                Seq::new(
                    entries@.len(),
                    |i: int| (yaml_content(*entries@[i].0), yaml_content(*entries@[i].1)),
                ),
            ),
            YamlShape::Alias(n) => YamlValue::Alias(n),
            YamlShape::Null => YamlValue::Null,
            YamlShape::Bad => YamlValue::Bad,
        }
    }

    /// Every node inside this shape nests less than `depth` levels.
    pub open spec fn nested_below(self, depth: nat) -> bool {
        match self {
            YamlShape::List(items) => forall|i: int|
                0 <= i < items@.len() ==> yaml_depth(#[trigger] items@[i]) < depth,
            YamlShape::Mapping(entries) => forall|i: int|
                0 <= i < entries@.len() ==> yaml_depth(*(#[trigger] entries@[i]).0) < depth
                    && yaml_depth(*entries@[i].1) < depth,
            _ => true,
        }
    }
}

/// The top-level nodes that markup decodes to; nothing where the markup is malformed.
pub uninterp spec fn markup_nodes(bytes: Seq<u8>) -> Option<Seq<NodeView>>;

/// What a node of `xmltree` holds.
pub uninterp spec fn node_content(node: xmltree::XMLNode) -> NodeView;

/// What an element of `xmltree` holds, with its own markup.
pub uninterp spec fn element_content(element: xmltree::Element) -> ElementView;

/// How many levels a node of `xmltree` nests: more than the element that it is.
pub uninterp spec fn node_depth(node: xmltree::XMLNode) -> nat;

/// How many levels an element of `xmltree` nests: more than any of its children.
pub uninterp spec fn element_depth(element: xmltree::Element) -> nat;

/// What each node of a run of `xmltree` nodes holds, in order.
pub open spec fn node_contents(nodes: Seq<xmltree::XMLNode>) -> Seq<NodeView> {
    Seq::new(nodes.len(), |i: int| node_content(nodes[i]))
}

/// One level of an `xmltree` node: its variant, with what the variant
/// carries; an element is borrowed as it is.
pub enum XmlShape<'a> {
    Element(&'a xmltree::Element),
    Comment(&'a str),
    CData(&'a str),
    Text(&'a str),
    Instruction(&'a str, Option<&'a str>),
}

impl<'a> XmlShape<'a> {
    /// What the node of this shape holds.
    pub open spec fn content(self) -> NodeView {
        match self {
            XmlShape::Element(e) => NodeView::Element(element_content(*e)),
            XmlShape::Comment(s) => NodeView::Comment(s@),
            XmlShape::CData(s) => NodeView::CData(s@),
            XmlShape::Text(s) => NodeView::Text(s@),
            XmlShape::Instruction(target, data) => NodeView::Instruction(
                target@,
                data.deep_view(),
            ),
        }
    }

    /// The element of this shape, where it is one, nests less than `depth` levels.
    pub open spec fn nested_below(self, depth: nat) -> bool {
        match self {
            XmlShape::Element(e) => element_depth(*e) < depth,
            _ => true,
        }
    }
}

/// The fields of an `xmltree` element, borrowed as they are.
pub struct ElementParts<'a> {
    pub name: &'a str,
    pub attributes: Vec<(&'a str, &'a str)>,
    pub children: &'a Vec<xmltree::XMLNode>,
}

impl<'a> ElementParts<'a> {
    /// Every child nests less than `depth` levels.
    pub open spec fn nested_below(self, depth: nat) -> bool {
        forall|i: int|
            0 <= i < self.children@.len() ==> node_depth(#[trigger] self.children@[i]) < depth
    }
}

/// The seconds since 1970-01-01T00:00:00Z that `text` gives when read in
/// `format` as a moment in UTC; nothing where it does not fit the format.
pub uninterp spec fn timestamp_in_format(text: Seq<char>, format: Seq<char>) -> Option<i64>;

/// The day that `text` gives when read in `format` as a calendar date,
/// counted from day 1 on 0001-01-01; nothing where it does not fit the format.
pub uninterp spec fn day_in_format(text: Seq<char>, format: Seq<char>) -> Option<i32>;

/// The normal form of `text` as an absolute URL; nothing where it is not one.
pub uninterp spec fn normalized_url(text: Seq<char>) -> Option<Seq<char>>;

/// `core::str::from_utf8`: succeeds exactly on well-formed UTF-8, and
/// then gives the text that the bytes encode.
pub assume_specification[ core::str::from_utf8 ](bytes: &[u8]) -> (r: Result<
    &str,
    core::str::Utf8Error,
>)
    ensures
        r is Ok <==> valid_utf8(bytes@),
        r matches Ok(text) ==> text@ == decode_utf8(bytes@),
;

/// `flate2::read::GzDecoder` read to its end: the whole decompressed
/// content of `bytes` where the stream is sound.
#[verifier::external_body]
pub(crate) fn gunzip(bytes: &[u8]) -> (r: Option<Vec<u8>>)
    ensures
        match r {
            Some(content) => gzip_content(bytes@) == Some(content@),
            None => gzip_content(bytes@) is None,
        },
{
    let mut content: Vec<u8> = Vec::new();
    match flate2::read::GzDecoder::new(bytes).read_to_end(&mut content) {
        Ok(_) => Some(content),
        Err(_) => None,
    }
}

/// One level of a `yaml_rust` node: which variant it is, and what that variant carries.
#[verifier::external_body]
pub(crate) fn yaml_shape<'a>(node: &'a yaml_rust::Yaml) -> (r: YamlShape<'a>)
    ensures
        r.content() == yaml_content(*node),
        r.nested_below(yaml_depth(*node)),
{
    match node {
        yaml_rust::Yaml::Real(s) => YamlShape::Real(s),
        yaml_rust::Yaml::Integer(n) => YamlShape::Integer(*n),
        yaml_rust::Yaml::String(s) => YamlShape::Text(s),
        yaml_rust::Yaml::Boolean(b) => YamlShape::Boolean(*b),
        yaml_rust::Yaml::Array(v) => YamlShape::List(v),
        yaml_rust::Yaml::Hash(h) => YamlShape::Mapping(h.iter().collect()),
        yaml_rust::Yaml::Alias(n) => YamlShape::Alias(*n),
        yaml_rust::Yaml::Null => YamlShape::Null,
        yaml_rust::Yaml::BadValue => YamlShape::Bad,
    }
}

/// `yaml_rust::YamlLoader::load_from_str`: the documents of `text`
/// where the text is well-formed.
#[verifier::external_body]
pub(crate) fn load_yaml(text: &str) -> (r: Option<Vec<yaml_rust::Yaml>>)
    ensures
        match r {
            Some(documents) => yaml_documents(text@) == Some(yaml_contents(documents@)),
            None => yaml_documents(text@) is None,
        },
{
    match yaml_rust::YamlLoader::load_from_str(text) {
        Ok(documents) => Some(documents),
        Err(_) => None,
    }
}

/// `xmltree::Element::write_with_config` without a document declaration:
/// the element written out again as markup.
#[verifier::external_body]
pub(crate) fn element_markup(element: &xmltree::Element) -> (r: String)
    ensures
        r@ == element_content(*element).markup,
{
    let mut out: Vec<u8> = Vec::new();
    let config = xmltree::EmitterConfig::new().write_document_declaration(false);
    let _ = element.write_with_config(&mut out, config);
    String::from_utf8_lossy(&out).into_owned()
}

/// The fields of an `xmltree::Element`: its name, its attributes in
/// document order, and its children.
#[verifier::external_body]
pub(crate) fn element_parts<'a>(element: &'a xmltree::Element) -> (r: ElementParts<'a>)
    ensures
        r.name@ == element_content(*element).name,
        r.attributes.deep_view() == element_content(*element).attributes,
        node_contents(r.children@) == element_content(*element).children,
        r.nested_below(element_depth(*element)),
{
    ElementParts {
        name: &element.name,
        attributes: element.attributes.iter().map(|(k, v)| (k.as_str(), v.as_str())).collect(),
        children: &element.children,
    }
}

/// One level of an `xmltree::XMLNode`: which variant it is, and what that variant carries.
#[verifier::external_body]
pub(crate) fn node_shape<'a>(node: &'a xmltree::XMLNode) -> (r: XmlShape<'a>)
    ensures
        r.content() == node_content(*node),
        r.nested_below(node_depth(*node)),
{
    match node {
        xmltree::XMLNode::Element(e) => XmlShape::Element(e),
        xmltree::XMLNode::Comment(s) => XmlShape::Comment(s),
        xmltree::XMLNode::CData(s) => XmlShape::CData(s),
        xmltree::XMLNode::Text(s) => XmlShape::Text(s),
        xmltree::XMLNode::ProcessingInstruction(t, d) => XmlShape::Instruction(t, d.as_deref()),
    }
}

/// `xmltree::Element::parse_all`: the top-level nodes of the markup in
/// `bytes` where it is well-formed.
#[verifier::external_body]
pub(crate) fn parse_markup(bytes: &[u8]) -> (r: Option<Vec<xmltree::XMLNode>>)
    ensures
        match r {
            Some(nodes) => markup_nodes(bytes@) == Some(node_contents(nodes@)),
            None => markup_nodes(bytes@) is None,
        },
{
    match xmltree::Element::parse_all(bytes) {
        Ok(nodes) => Some(nodes),
        Err(_) => None,
    }
}

/// `chrono::TimeZone::datetime_from_str` on `Utc`: the moment that
/// `text` gives in `format`, in seconds since the epoch where there is one.
#[verifier::external_body]
#[allow(deprecated)]
pub(crate) fn timestamp_from(text: &str, format: &str) -> (r: Option<i64>)
    ensures
        r == timestamp_in_format(text@, format@),
{
    match chrono::Utc.datetime_from_str(text, format) {
        Ok(moment) => Some(moment.timestamp()),
        Err(_) => None,
    }
}

/// `chrono::NaiveDate::parse_from_str`: the calendar date that `text`
/// gives in `format`, as its day number in the common era where there is one.
#[verifier::external_body]
pub(crate) fn day_from(text: &str, format: &str) -> (r: Option<i32>)
    ensures
        r == day_in_format(text@, format@),
{
    match chrono::NaiveDate::parse_from_str(text, format) {
        Ok(date) => Some(date.num_days_from_ce()),
        Err(_) => None,
    }
}

/// `url::Url::parse`: the normal form of `text` as an absolute URL where there is one.
#[verifier::external_body]
pub(crate) fn parse_url(text: &str) -> (r: Option<String>)
    ensures
        r.deep_view() == normalized_url(text@),
{
    match url::Url::parse(text) {
        Ok(address) => Some(String::from(address)),
        Err(_) => None,
    }
}

} // verus!
