//! The entry points: from bytes or text, through decompression and
//! decoding, to a collection.

use vstd::prelude::*;
use vstd::utf8::{decode_utf8, valid_utf8};
use crate::collection::Collection;
use crate::error::{ParseError, ParseFault};
use crate::fold::seen;
use crate::model::CollectionView;
use crate::decode::{decode_documents, decode_markup};
use crate::outside::{gunzip, gzip_content, markup_nodes, yaml_documents};
use crate::xml_tree::{ElementView, NodeView, XmlElement, XmlNode};
use crate::yaml_tree::{YamlNode, YamlValue};

verus! {

/// The first element among the top-level nodes of a document: its root.
pub open spec fn first_element(nodes: Seq<NodeView>) -> Option<ElementView>
    decreases nodes.len(),
{
    if nodes.len() == 0 {
        None
    } else {
        match first_element(nodes.drop_last()) {
            Some(e) => Some(e),
            None => match nodes.last() {
                NodeView::Element(e) => Some(e),
                _ => None,
            },
        }
    }
}

/// An element found among the first nodes is the first element of all of them.
pub proof fn lemma_first_element_found(nodes: Seq<NodeView>, i: int)
    requires
        0 <= i <= nodes.len(),
        first_element(nodes.take(i)) is Some,
    ensures
        first_element(nodes) == first_element(nodes.take(i)),
    decreases nodes.len() - i,
{
    if i == nodes.len() {
        assert(nodes.take(i) =~= nodes);
    } else {
        assert(nodes.take(i + 1).drop_last() =~= nodes.take(i));
        lemma_first_element_found(nodes, i + 1);
    }
}

/// The collection that decoded markup describes: malformed markup, or
/// markup without a root element, is refused as a malformed tree.
pub open spec fn markup_collection(decoded: Option<Seq<NodeView>>) -> Result<
    CollectionView,
    ParseFault,
> {
    match decoded {
        Some(nodes) => match first_element(nodes) {
            Some(root) => crate::xml::collection_of(root),
            None => Err(ParseFault::MalformedTree),
        },
        None => Err(ParseFault::MalformedTree),
    }
}

/// The collection that decoded key-mapping text describes.
pub open spec fn documents_collection(decoded: Option<Seq<YamlValue>>) -> Result<
    CollectionView,
    ParseFault,
> {
    match decoded {
        Some(documents) => crate::yaml::collection_of(documents),
        None => Err(ParseFault::MalformedTree),
    }
}

/// The collection that markup bytes describe.
pub open spec fn xml_collection(bytes: Seq<u8>) -> Result<CollectionView, ParseFault> {
    markup_collection(markup_nodes(bytes))
}

/// The collection that key-mapping text describes.
pub open spec fn yaml_collection(text: Seq<char>) -> Result<CollectionView, ParseFault> {
    documents_collection(yaml_documents(text))
}

/// The collection that key-mapping bytes describe: bytes that are no
/// UTF-8 text are refused as a malformed tree.
pub open spec fn yaml_bytes_collection(bytes: Seq<u8>) -> Result<CollectionView, ParseFault> {
    if valid_utf8(bytes) {
        yaml_collection(decode_utf8(bytes))
    } else {
        Err(ParseFault::MalformedTree)
    }
}

/// The collection that gzip-compressed markup describes. The stream is
/// decompressed whole before any of it is decoded, so a corrupt or
/// truncated stream is a decompression failure and nothing else.
pub open spec fn gzipped_xml_collection(bytes: Seq<u8>) -> Result<CollectionView, ParseFault> {
    match gzip_content(bytes) {
        Some(content) => xml_collection(content),
        None => Err(ParseFault::DecompressionFailure),
    }
}

/// The collection that gzip-compressed key-mapping text describes.
pub open spec fn gzipped_yaml_collection(bytes: Seq<u8>) -> Result<CollectionView, ParseFault> {
    match gzip_content(bytes) {
        Some(content) => yaml_bytes_collection(content),
        None => Err(ParseFault::DecompressionFailure),
    }
}

/// The first element among the top-level nodes of a document.
pub fn find_root(nodes: &Vec<XmlNode>) -> (r: Option<&XmlElement>)
    ensures
        r.deep_view() == first_element(nodes.deep_view()),
{
    let ghost all = nodes.deep_view();
    let mut i: usize = 0;
    assert(all.take(0) =~= Seq::<NodeView>::empty());
    while i < nodes.len()
        invariant
            i <= nodes.len(),
            all == nodes.deep_view(),
            first_element(all.take(i as int)) is None,
        decreases nodes.len() - i,
    {
        proof {
            assert(all.take(i + 1).drop_last() =~= all.take(i as int));
            assert(all.take(i + 1).last() == all[i as int]);
        }
        match nodes[i].as_element() {
            Some(e) => {
                proof {
                    lemma_first_element_found(all, i + 1);
                }
                return Some(e);
            },
            None => {},
        }
        i = i + 1;
    }
    assert(all.take(i as int) =~= all);
    None
}

impl Collection {
    /// The collection that a root element describes.
    pub fn from_element(root: &XmlElement) -> (r: Result<Collection, ParseError>)
        ensures
            seen(r) == crate::xml::collection_of(root.deep_view()),
            r matches Ok(collection) ==> collection.deep_view().well_formed(),
    {
        crate::xml::read_collection(root)
    }

    /// The collection that a stream of key-mapping documents describes.
    pub fn from_documents(documents: &Vec<YamlNode>) -> (r: Result<Collection, ParseError>)
        ensures
            seen(r) == crate::yaml::collection_of(documents.deep_view()),
            r matches Ok(collection) ==> collection.deep_view().well_formed(),
    {
        crate::yaml::read_collection(documents)
    }

    /// The collection that decoded markup describes; `None` stands for
    /// markup that could not be decoded.
    pub fn from_decoded_markup(decoded: &Option<Vec<XmlNode>>) -> (r: Result<
        Collection,
        ParseError,
    >)
        ensures
            seen(r) == markup_collection(decoded.deep_view()),
            r matches Ok(collection) ==> collection.deep_view().well_formed(),
    {
        match decoded {
            Some(nodes) => match find_root(nodes) {
                Some(root) => Collection::from_element(root),
                None => Err(ParseError::MalformedTree),
            },
            None => Err(ParseError::MalformedTree),
        }
    }

    /// The collection that decoded key-mapping text describes; `None`
    /// stands for text that could not be decoded.
    pub fn from_decoded_documents(decoded: &Option<Vec<YamlNode>>) -> (r: Result<
        Collection,
        ParseError,
    >)
        ensures
            seen(r) == documents_collection(decoded.deep_view()),
            r matches Ok(collection) ==> collection.deep_view().well_formed(),
    {
        match decoded {
            Some(documents) => Collection::from_documents(documents),
            None => Err(ParseError::MalformedTree),
        }
    }

    /// The collection that markup bytes describe.
    pub fn from_xml_bytes(bytes: &[u8]) -> (r: Result<Collection, ParseError>)
        ensures
            seen(r) == xml_collection(bytes@),
            r matches Ok(collection) ==> collection.deep_view().well_formed(),
    {
        let decoded = decode_markup(bytes);
        Collection::from_decoded_markup(&decoded)
    }

    /// The collection that key-mapping text describes.
    pub fn from_yaml_str(text: &str) -> (r: Result<Collection, ParseError>)
        ensures
            seen(r) == yaml_collection(text@),
            r matches Ok(collection) ==> collection.deep_view().well_formed(),
    {
        let decoded = decode_documents(text);
        Collection::from_decoded_documents(&decoded)
    }

    /// The collection that key-mapping bytes describe.
    pub fn from_yaml_bytes(bytes: &[u8]) -> (r: Result<Collection, ParseError>)
        ensures
            seen(r) == yaml_bytes_collection(bytes@),
            r matches Ok(collection) ==> collection.deep_view().well_formed(),
    {
        match core::str::from_utf8(bytes) {
            Ok(text) => Collection::from_yaml_str(text),
            Err(_) => Err(ParseError::MalformedTree),
        }
    }

    /// The collection that gzip-compressed markup describes.
    pub fn from_gzipped_bytes(bytes: &[u8]) -> (r: Result<Collection, ParseError>)
        ensures
            seen(r) == gzipped_xml_collection(bytes@),
            r matches Ok(collection) ==> collection.deep_view().well_formed(),
    {
        match gunzip(bytes) {
            Some(content) => Collection::from_xml_bytes(content.as_slice()),
            None => Err(ParseError::DecompressionFailure),
        }
    }

    /// The collection that gzip-compressed key-mapping text describes.
    pub fn from_yaml_gzipped_bytes(bytes: &[u8]) -> (r: Result<Collection, ParseError>)
        ensures
            seen(r) == gzipped_yaml_collection(bytes@),
            r matches Ok(collection) ==> collection.deep_view().well_formed(),
    {
        match gunzip(bytes) {
            Some(content) => Collection::from_yaml_bytes(content.as_slice()),
            None => Err(ParseError::DecompressionFailure),
        }
    }
}

} // verus!
