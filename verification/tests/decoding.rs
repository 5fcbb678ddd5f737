use appstream::decode::{
    decode_documents, decode_markup, element_from_markup, node_from_markup, node_from_yaml,
};
use appstream::xml_tree::{XmlElement, XmlNode};
use appstream::yaml_tree::YamlNode;

fn text(s: &str) -> YamlNode {
    YamlNode::Text(s.to_string())
}

#[test]
fn key_mapping_documents_are_copied_whole() {
    let decoded = decode_documents(
        "a: [1, 2.5, true, ~, x, 0x10, '7']\nb: &anchor\n  c: d\ne: *anchor\n---\nplain\n",
    );
    assert_eq!(
        decoded,
        Some(vec![
            YamlNode::Mapping(vec![
                (
                    text("a"),
                    YamlNode::List(vec![
                        YamlNode::Integer(1),
                        YamlNode::Real("2.5".to_string()),
                        YamlNode::Boolean(true),
                        YamlNode::Null,
                        text("x"),
                        YamlNode::Integer(16),
                        text("7"),
                    ])
                ),
                (text("b"), YamlNode::Mapping(vec![(text("c"), text("d"))])),
                (text("e"), YamlNode::Mapping(vec![(text("c"), text("d"))])),
            ]),
            text("plain"),
        ])
    );
    assert_eq!(decode_documents(""), Some(vec![]));
    assert_eq!(decode_documents("a: ["), None);
}

#[test]
fn key_mapping_nodes_are_copied_by_variant() {
    let documents = yaml_rust::YamlLoader::load_from_str("k: [v, 2]\n").unwrap();
    assert_eq!(
        node_from_yaml(&documents[0]),
        YamlNode::Mapping(vec![(text("k"), YamlNode::List(vec![text("v"), YamlNode::Integer(2)]))])
    );
    assert_eq!(node_from_yaml(&yaml_rust::Yaml::BadValue), YamlNode::Bad);
    assert_eq!(node_from_yaml(&yaml_rust::Yaml::Alias(3)), YamlNode::Alias(3));
    assert_eq!(node_from_yaml(&yaml_rust::Yaml::Null), YamlNode::Null);
    assert_eq!(
        node_from_yaml(&yaml_rust::Yaml::Real("1e3".to_string())),
        YamlNode::Real("1e3".to_string())
    );
}

#[test]
fn markup_is_copied_whole() {
    let decoded = decode_markup(
        b"<!-- c --><a y=\"2\" x=\"1\"><b>t &lt; u</b><![CDATA[raw]]><?pi data?><!-- in --><c/></a><!-- after -->",
    );
    let b = XmlElement {
        name: "b".into(),
        attributes: vec![],
        children: vec![XmlNode::Text("t < u".into())],
        markup: "<b>t &lt; u</b>".into(),
    };
    let c = XmlElement {
        name: "c".into(),
        attributes: vec![],
        children: vec![],
        markup: "<c />".into(),
    };
    let a = XmlElement {
        name: "a".into(),
        attributes: vec![("y".into(), "2".into()), ("x".into(), "1".into())],
        children: vec![
            XmlNode::Element(b),
            XmlNode::Text("raw".into()),
            XmlNode::Instruction("pi".into(), Some("data".into())),
            XmlNode::Comment(" in ".into()),
            XmlNode::Element(c),
        ],
        markup: "<a y=\"2\" x=\"1\"><b>t &lt; u</b>raw<?pi data?><!-- in --><c /></a>".into(),
    };
    assert_eq!(
        decoded,
        Some(vec![
            XmlNode::Comment(" c ".into()),
            XmlNode::Element(a),
            XmlNode::Comment(" after ".into()),
        ])
    );
    assert_eq!(decode_markup(b"<a><b></a>"), None);
    assert_eq!(decode_markup(b""), None);
}

#[test]
fn markup_nodes_are_copied_by_variant() {
    let mut element = xmltree::Element::new("e");
    element.attributes.insert("k".to_string(), "v".to_string());
    element.children.push(xmltree::XMLNode::CData("data".to_string()));
    element.children.push(xmltree::XMLNode::Text("text".to_string()));
    let copied = element_from_markup(&element);
    assert_eq!(copied.name, "e");
    assert_eq!(copied.attributes, vec![("k".to_string(), "v".to_string())]);
    assert_eq!(
        copied.children,
        vec![XmlNode::CData("data".to_string()), XmlNode::Text("text".to_string())]
    );
    assert_eq!(copied.markup, "<e k=\"v\"><![CDATA[data]]>text</e>");
    assert_eq!(copied.text(), Some("datatext".to_string()));
    assert_eq!(
        node_from_markup(&xmltree::XMLNode::Element(element)),
        XmlNode::Element(copied)
    );
    assert_eq!(
        node_from_markup(&xmltree::XMLNode::ProcessingInstruction("t".to_string(), None)),
        XmlNode::Instruction("t".to_string(), None)
    );
    assert_eq!(
        node_from_markup(&xmltree::XMLNode::Comment("c".to_string())),
        XmlNode::Comment("c".to_string())
    );
}
