//! The tree that a markup document decodes to.

use vstd::prelude::*;
use vstd::string::StringExecFns;
use crate::locale::{assoc_get, lemma_absent_key, lemma_last_occurrence, position};

verus! {

/// The mathematical value of an [`XmlElement`].
pub struct ElementView {
    pub name: Seq<char>,
    pub attributes: Seq<(Seq<char>, Seq<char>)>,
    pub children: Seq<NodeView>,
    pub markup: Seq<char>,
}

/// The mathematical value of an [`XmlNode`].
pub enum NodeView {
    Element(ElementView),
    Comment(Seq<char>),
    CData(Seq<char>),
    Text(Seq<char>),
    Instruction(Seq<char>, Option<Seq<char>>),
}

/// One element of a decoded markup document.
#[derive(Debug, PartialEq, Eq)]
pub struct XmlElement {
    /// The name of the element, without a namespace prefix.
    pub name: String,
    /// The attributes by local name, in document order; no name occurs twice.
    pub attributes: Vec<(String, String)>,
    /// What the element holds, in document order.
    pub children: Vec<XmlNode>,
    /// The element written out again as markup, with all that it holds.
    pub markup: String,
}

/// What an element can hold.
#[derive(Debug, PartialEq, Eq)]
pub enum XmlNode {
    Element(XmlElement),
    Comment(String),
    CData(String),
    Text(String),
    /// A processing instruction: its target and its data.
    Instruction(String, Option<String>),
}

/// The mathematical value of an element: that of each of its parts, in place.
pub open spec fn element_value(element: XmlElement) -> ElementView
    decreases element,
{
    ElementView {
        name: element.name@,
        attributes: element.attributes.deep_view(),
        children: Seq::new(
            element.children@.len(),
            |i: int|
                if 0 <= i < element.children@.len() {
                    node_value(element.children@[i])
                } else {
                    NodeView::Text(Seq::empty())
                },
        ),
        markup: element.markup@,
    }
}

/// The mathematical value of a node.
pub open spec fn node_value(node: XmlNode) -> NodeView
    decreases node,
{
    match node {
        XmlNode::Element(e) => NodeView::Element(element_value(e)),
        XmlNode::Comment(s) => NodeView::Comment(s@),
        XmlNode::CData(s) => NodeView::CData(s@),
        XmlNode::Text(s) => NodeView::Text(s@),
        XmlNode::Instruction(target, data) => NodeView::Instruction(target@, data.deep_view()),
    }
}

impl DeepView for XmlElement {
    type V = ElementView;

    open spec fn deep_view(&self) -> ElementView {
        element_value(*self)
    }
}

impl DeepView for XmlNode {
    type V = NodeView;

    open spec fn deep_view(&self) -> NodeView {
        node_value(*self)
    }
}

/// The text that a run of nodes holds: its text and character-data nodes
/// joined in order, or nothing where it has none.
pub open spec fn joined_text(nodes: Seq<NodeView>) -> Option<Seq<char>>
    decreases nodes.len(),
{
    if nodes.len() == 0 {
        None
    } else {
        let before = joined_text(nodes.drop_last());
        match nodes.last() {
            NodeView::Text(s) | NodeView::CData(s) => Some(
                match before {
                    Some(t) => t + s,
                    None => s,
                },
            ),
            _ => before,
        }
    }
}

impl ElementView {
    /// The value of the attribute `name`, if the element has it.
    pub open spec fn attribute(self, name: Seq<char>) -> Option<Seq<char>> {
        assoc_get(self.attributes, name)
    }

    /// The value of the attribute `name`, where the element has it and it is not empty.
    pub open spec fn filled_attribute(self, name: Seq<char>) -> Option<Seq<char>> {
        match self.attribute(name) {
            Some(v) => if v.len() > 0 {
                Some(v)
            } else {
                None
            },
            None => None,
        }
    }

    /// The text directly inside the element.
    pub open spec fn text(self) -> Option<Seq<char>> {
        joined_text(self.children)
    }
}

impl XmlElement {
    /// The children of the element.
    pub fn nodes(&self) -> (r: &Vec<XmlNode>)
        ensures
            r.deep_view() == self.deep_view().children,
    {
        assert(self.children.deep_view() =~= self.deep_view().children);
        &self.children
    }

    /// The value of the attribute `name`, if the element has it.
    pub fn attribute(&self, name: &str) -> (r: Option<&str>)
        ensures
            r.deep_view() == self.deep_view().attribute(name@),
    {
        match position(&self.attributes, name) {
            Some(at) => {
                proof {
                    lemma_last_occurrence(self.attributes.deep_view(), name@, at as int);
                }
                Some(self.attributes[at].1.as_str())
            },
            None => {
                proof {
                    lemma_absent_key(self.attributes.deep_view(), name@);
                }
                None
            },
        }
    }

    /// The value of the attribute `name`, where the element has it and it is not empty.
    pub fn filled_attribute(&self, name: &str) -> (r: Option<&str>)
        ensures
            r.deep_view() == self.deep_view().filled_attribute(name@),
    {
        match self.attribute(name) {
            Some(v) => {
                if v.unicode_len() > 0 {
                    Some(v)
                } else {
                    None
                }
            },
            None => None,
        }
    }

    /// The text directly inside the element: its text and character-data
    /// children joined in order, or nothing where it has none.
    pub fn text(&self) -> (r: Option<String>)
        ensures
            r.deep_view() == self.deep_view().text(),
    {
        let nodes = self.nodes();
        let mut out: Option<String> = None;
        let mut i: usize = 0;
        assert(nodes.deep_view().take(0) =~= Seq::<NodeView>::empty());
        while i < nodes.len()
            invariant
                i <= nodes.len(),
                out.deep_view() == joined_text(nodes.deep_view().take(i as int)),
            decreases nodes.len() - i,
        {
            proof {
                let upto = nodes.deep_view().take(i + 1);
                assert(upto.drop_last() =~= nodes.deep_view().take(i as int));
                assert(upto.last() == nodes@[i as int].deep_view());
            }
            match &nodes[i] {
                XmlNode::Text(s) | XmlNode::CData(s) => {
                    out = match out {
                        Some(t) => Some(t.concat(s.as_str())),
                        None => Some(s.clone()),
                    };
                },
                _ => {},
            }
            i = i + 1;
        }
        assert(nodes.deep_view().take(i as int) =~= nodes.deep_view());
        out
    }
}

impl XmlNode {
    /// The element that this node is, if it is one.
    pub fn as_element(&self) -> (r: Option<&XmlElement>)
        ensures
            match r {
                Some(e) => self.deep_view() == NodeView::Element(e.deep_view()),
                None => !(self.deep_view() is Element),
            },
    {
        match self {
            XmlNode::Element(e) => Some(e),
            _ => None,
        }
    }
}

} // verus!
