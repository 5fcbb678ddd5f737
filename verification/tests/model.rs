use appstream::builders::{
    CollectionBuilder, ComponentBuilder, ImageBuilder, ReleaseBuilder, ScreenshotBuilder,
};
use appstream::enums::{
    Bundle, Category, ComponentKind, Icon, ImageKind, Launchable, ProjectUrl, Provide,
    ReleaseKind, ReleaseUrgency,
};
use appstream::error::ParseError;
use appstream::metadata::{same_option, Metadata};
use appstream::model::{AppId, Component, License, UtcInstant};
use appstream::number::parse_unsigned;
use appstream::resolve::{
    absolute_url, address_from, append_to_base, deserialize_date, instant_from, midnight_of,
    resolve_media,
};
use appstream::translatable::{
    is_default_locale, MarkupTranslatableString, TranslatableList, TranslatableString,
};
use appstream::xml_tree::{XmlElement, XmlNode};
use appstream::yaml_tree::{lookup, YamlNode};
use chrono::{TimeZone, Utc};

#[test]
fn translatable_text_equality_ignores_the_order_of_writes() {
    let a = TranslatableString::with_default("x").and_locale("de", "eins").and_locale("fr", "un");
    let b = TranslatableString::with_default("x").and_locale("fr", "un").and_locale("de", "eins");
    assert_eq!(a, b);
    assert_ne!(a, TranslatableString::with_default("x").and_locale("de", "eins"));
    assert_ne!(a, TranslatableString::with_default("y").and_locale("de", "eins").and_locale("fr", "un"));
    assert_ne!(a, TranslatableString::with_default("x").and_locale("de", "zwei").and_locale("fr", "un"));
    assert_ne!(
        TranslatableString::with_default("x").and_locale("de", "eins"),
        a
    );
}

#[test]
fn translatable_text_last_write_wins() {
    let mut t = TranslatableString::default();
    assert_eq!(t.default_text(), "");
    t.add_for_locale(None, "first");
    t.add_for_locale(Some("de"), "eins");
    t.add_for_locale(Some("C"), "second");
    t.add_for_locale(Some("de"), "zwei");
    assert_eq!(t.default_text(), "second");
    assert_eq!(t.for_locale("de"), Some(&"zwei".to_string()));
    assert_eq!(t.for_locale("C"), None);
    assert_eq!(t.entries(), &vec![("de".to_string(), "zwei".to_string())]);
    assert_eq!(t, TranslatableString::with_default("second").and_locale("de", "zwei"));
    assert!(is_default_locale(None));
    assert!(is_default_locale(Some("C")));
    assert!(!is_default_locale(Some("c")));
}

#[test]
fn markup_text_behaves_like_text() {
    let mut m = MarkupTranslatableString::default();
    m.add_for_locale(None, "<p>a</p>");
    m.add_for_locale(Some("de"), "<p>b</p>");
    assert_eq!(m, MarkupTranslatableString::with_default("<p>a</p>").and_locale("de", "<p>b</p>"));
    assert_eq!(m.as_text().default_text(), "<p>a</p>");
    assert_ne!(m, MarkupTranslatableString::with_default("<p>a</p>"));
}

#[test]
fn translatable_list_appends_and_replaces() {
    let mut l = TranslatableList::default();
    l.add_for_locale(None, "one");
    l.add_for_locale(Some("de"), "eins");
    l.add_for_locale(Some("C"), "two");
    l.add_for_locale(Some("de"), "zwei");
    assert_eq!(
        l,
        TranslatableList::with_default(vec!["one", "two"]).and_locale("de", vec!["eins", "zwei"])
    );
    assert_eq!(l.default_words(), &vec!["one".to_string(), "two".to_string()]);
    l.set_for_locale(Some("de"), vec!["drei".to_string()]);
    assert_eq!(
        l.entries(),
        &vec![("de".to_string(), vec!["drei".to_string()])]
    );
    let a = TranslatableList::default().and_locale("a", vec!["1"]).and_locale("b", vec!["2"]);
    let b = TranslatableList::default().and_locale("b", vec!["2"]).and_locale("a", vec!["1"]);
    assert_eq!(a, b);
    assert_ne!(a, TranslatableList::default().and_locale("a", vec!["1"]).and_locale("b", vec!["2", "3"]));
    assert_ne!(a, TranslatableList::with_default(vec!["x"]).and_locale("a", vec!["1"]).and_locale("b", vec!["2"]));
}

#[test]
fn component_kinds_by_token() {
    assert_eq!(ComponentKind::from_token("desktop-application"), ComponentKind::DesktopApplication);
    assert_eq!(ComponentKind::from_token("desktop"), ComponentKind::DesktopApplication);
    assert_eq!(ComponentKind::from_token("desktop-app"), ComponentKind::DesktopApplication);
    assert_eq!(ComponentKind::from_token("web-application"), ComponentKind::WebApplication);
    assert_eq!(ComponentKind::from_token("console-application"), ComponentKind::ConsoleApplication);
    assert_eq!(ComponentKind::from_token("font"), ComponentKind::Font);
    assert_eq!(ComponentKind::from_token("addon"), ComponentKind::Addon);
    assert_eq!(ComponentKind::from_token("generic"), ComponentKind::Generic);
    assert_eq!(ComponentKind::from_token("Font"), ComponentKind::Unknown("Font".into()));
    assert_eq!(ComponentKind::default(), ComponentKind::Generic);
    assert!(ComponentKind::Font.is_known());
    assert!(!ComponentKind::Unknown("font".into()).is_known());
    assert_eq!(ComponentKind::DesktopApplication.token(), "desktop-application");
    assert_eq!(ComponentKind::Unknown("x".into()).token(), "x");
}

#[test]
fn categories_by_token() {
    assert_eq!(Category::from_token("AudioVideo"), Category::AudioVideo);
    assert_eq!(Category::from_token("Utility"), Category::Utility);
    assert_eq!(Category::Literature.token(), "Literature");
    assert!(Category::Education.is_known());
    assert!(!Category::Unknown("Education".into()).is_known());
    assert!(Category::Game.same(&Category::Game));
    assert!(!Category::Game.same(&Category::Unknown("Game".into())));
    assert!(Category::Unknown("a".into()).same(&Category::Unknown("a".into())));
    assert!(!Category::Unknown("a".into()).same(&Category::Unknown("b".into())));
    assert_eq!(Category::Unknown("a".into()).copied(), Category::Unknown("a".into()));
    assert_eq!(Category::Unknown("Game".into()).copied(), Category::Unknown("Game".into()));
    assert_eq!(Category::Science.copied(), Category::Science);
}

#[test]
fn small_vocabularies_by_token() {
    assert_eq!(ImageKind::from_token("source"), Some(ImageKind::Source));
    assert_eq!(ImageKind::from_token("thumbnail"), Some(ImageKind::Thumbnail));
    assert_eq!(ImageKind::from_token("poster"), None);
    assert_eq!(ReleaseKind::from_token("stable"), Some(ReleaseKind::Stable));
    assert_eq!(ReleaseKind::from_token("development"), Some(ReleaseKind::Development));
    assert_eq!(ReleaseKind::from_token(""), None);
    assert_eq!(ReleaseUrgency::from_token("low"), Some(ReleaseUrgency::Low));
    assert_eq!(ReleaseUrgency::from_token("medium"), Some(ReleaseUrgency::Medium));
    assert_eq!(ReleaseUrgency::from_token("high"), Some(ReleaseUrgency::High));
    assert_eq!(ReleaseUrgency::from_token("critical"), Some(ReleaseUrgency::Critical));
    assert_eq!(ReleaseUrgency::from_token("Low"), None);
}

#[test]
fn tagged_vocabularies_by_type() {
    assert_eq!(ProjectUrl::of_type("homepage", "h".into()), ProjectUrl::Homepage("h".into()));
    assert_eq!(ProjectUrl::of_type("donation", "d".into()), ProjectUrl::Donation("d".into()));
    assert_eq!(ProjectUrl::of_type("elsewhere", "e".into()), ProjectUrl::Unknown("e".into()));
    assert_eq!(Launchable::of_type("service", "s".into()), Launchable::Service("s".into()));
    assert_eq!(Launchable::of_type("", "s".into()), Launchable::Unknown("s".into()));
    assert_eq!(Provide::of_type("library", "l".into()), Some(Provide::Library("l".into())));
    assert_eq!(Provide::of_type("dbus", "l".into()), Some(Provide::DBus("l".into())));
    assert_eq!(Provide::of_type("planet", "l".into()), None);
    assert_eq!(
        Bundle::of_type("flatpak", "r".into(), Some("rt".into()), None),
        Some(Bundle::Flatpak { runtime: Some("rt".into()), sdk: None, reference: "r".into() })
    );
    assert_eq!(Bundle::of_type("limba", "r".into(), Some("rt".into()), None), Some(Bundle::Limba("r".into())));
    assert_eq!(Bundle::of_type("appimage", "r".into(), None, None), Some(Bundle::AppImage("r".into())));
    assert_eq!(Bundle::of_type("tarball", "r".into(), None, None), Some(Bundle::Tarball("r".into())));
    assert_eq!(Bundle::of_type("box", "r".into(), None, None), None);
}

#[test]
fn unsigned_numbers_are_read_leniently() {
    assert_eq!(parse_unsigned("0"), Some(0));
    assert_eq!(parse_unsigned("64"), Some(64));
    assert_eq!(parse_unsigned("+64"), Some(64));
    assert_eq!(parse_unsigned("007"), Some(7));
    assert_eq!(parse_unsigned("4294967295"), Some(4294967295));
    assert_eq!(parse_unsigned("4294967296"), None);
    assert_eq!(parse_unsigned("99999999999999999999999999"), None);
    assert_eq!(parse_unsigned(""), None);
    assert_eq!(parse_unsigned("+"), None);
    assert_eq!(parse_unsigned("-1"), None);
    assert_eq!(parse_unsigned("12px"), None);
    assert_eq!(parse_unsigned(" 12"), None);
    assert_eq!(parse_unsigned("1.5"), None);
    assert_eq!(parse_unsigned("١٢"), None);
    for text in ["0", "64", "+64", "007", "4294967295", "4294967296", "", "+", "-1", "12px", "++1"] {
        assert_eq!(parse_unsigned(text), text.parse::<u32>().ok(), "{:?}", text);
    }
}

#[test]
fn dates_are_read_as_epoch_seconds_or_calendar_days() {
    assert_eq!(deserialize_date("1560988800"), Some(UtcInstant { seconds: 1_560_988_800 }));
    assert_eq!(deserialize_date("2019-06-20"), Some(UtcInstant { seconds: 1_560_988_800 }));
    assert_eq!(deserialize_date("0"), Some(UtcInstant { seconds: 0 }));
    assert_eq!(deserialize_date("1970-01-01"), Some(UtcInstant { seconds: 0 }));
    assert_eq!(deserialize_date("1969-12-31"), Some(UtcInstant { seconds: -86_400 }));
    assert_eq!(deserialize_date("2019-02-30"), None);
    assert_eq!(deserialize_date("20 June 2019"), None);
    assert_eq!(deserialize_date(""), None);
    assert_eq!(
        deserialize_date("2020-02-29").map(|i| i.seconds),
        Some(Utc.with_ymd_and_hms(2020, 2, 29, 0, 0, 0).unwrap().timestamp())
    );
}

#[test]
fn readings_of_a_date_are_ranked() {
    assert_eq!(instant_from(Some(5), Some(737_230)), Some(UtcInstant { seconds: 5 }));
    assert_eq!(instant_from(None, Some(737_230)), Some(UtcInstant { seconds: 1_560_988_800 }));
    assert_eq!(instant_from(None, None), None);
    assert_eq!(midnight_of(719_163), UtcInstant { seconds: 0 });
    assert_eq!(midnight_of(719_164), UtcInstant { seconds: 86_400 });
    assert_eq!(midnight_of(i32::MAX).seconds, (i32::MAX as i64 - 719_163) * 86_400);
    assert_eq!(midnight_of(i32::MIN).seconds, (i32::MIN as i64 - 719_163) * 86_400);
}

#[test]
fn addresses_are_joined_as_text_and_checked() {
    assert_eq!(append_to_base(&Some("https://a.example/m".into()), "/x.png"), "https://a.example/m/x.png");
    assert_eq!(append_to_base(&Some("https://a.example/m/".into()), "/x.png"), "https://a.example/m//x.png");
    assert_eq!(append_to_base(&None, "x.png"), "x.png");
    assert_eq!(resolve_media(&Some("https://a.example/m/".into()), "x.png"), Ok("https://a.example/m/x.png".to_string()));
    assert_eq!(resolve_media(&None, "x.png"), Err(ParseError::UrlParseFailure));
    assert_eq!(absolute_url("https://www.mozilla.com"), Ok("https://www.mozilla.com/".to_string()));
    assert_eq!(absolute_url("HTTPS://Example.ORG/a b"), Ok("https://example.org/a%20b".to_string()));
    assert_eq!(absolute_url("/relative"), Err(ParseError::UrlParseFailure));
    assert_eq!(address_from(Some("x".into())), Ok("x".to_string()));
    assert_eq!(address_from(None), Err(ParseError::UrlParseFailure));
}

#[test]
fn failures_in_words() {
    assert_eq!(ParseError::missing_tag("id").message(), "missing tag id");
    assert_eq!(ParseError::missing_value("icon").message(), "missing value for icon");
    assert_eq!(
        ParseError::missing_attribute("version", "collection").message(),
        "missing attribute version in collection"
    );
    assert_eq!(
        ParseError::invalid_value("x", "type", "component").message(),
        "invalid value x for type in component"
    );
    assert_eq!(ParseError::missing_tag("id"), ParseError::MissingTag("id".into()));
    assert_eq!(ParseError::missing_value("f"), ParseError::MissingValue("f".into()));
    assert_eq!(
        ParseError::missing_attribute("a", "c"),
        ParseError::MissingAttribute("a".into(), "c".into())
    );
    assert_eq!(
        ParseError::invalid_value("v", "f", "c"),
        ParseError::InvalidValue("v".into(), "f".into(), "c".into())
    );
    for e in [
        ParseError::IoFailure,
        ParseError::DecompressionFailure,
        ParseError::MalformedTree,
        ParseError::UrlParseFailure,
    ] {
        assert!(!e.message().is_empty());
    }
}

#[test]
fn identifiers_and_licences() {
    let id: AppId = "org.example.A".into();
    assert_eq!(id, AppId::new("org.example.A"));
    assert_eq!(id.as_str(), "org.example.A");
    let license: License = "MIT".into();
    assert_eq!(license, License::new("MIT"));
    assert_eq!(license.as_str(), "MIT");
}

#[test]
fn builders_set_fields_in_any_order() {
    let a = ComponentBuilder::default()
        .id("a".into())
        .kind(ComponentKind::Addon)
        .pkgname("pkg")
        .origin("o")
        .category(Category::Game)
        .category(Category::Office)
        .category(Category::Game)
        .compulsory_for_desktop("GNOME")
        .compulsory_for_desktop("KDE")
        .compulsory_for_desktop("GNOME")
        .metadata("k".into(), Some("1".into()))
        .metadata("j".into(), None)
        .metadata("k".into(), Some("2".into()))
        .mimetype("text/plain")
        .build();
    let b = ComponentBuilder::default()
        .origin("o")
        .pkgname("pkg")
        .kind(ComponentKind::Addon)
        .id("a".into())
        .category(Category::Game)
        .category(Category::Office)
        .compulsory_for_desktop("GNOME")
        .compulsory_for_desktop("KDE")
        .metadata("k".into(), Some("2".into()))
        .metadata("j".into(), None)
        .mimetype("text/plain")
        .build();
    assert_eq!(a, b);
    assert_eq!(a.categories, vec![Category::Game, Category::Office]);
    assert_eq!(a.compulsory_for_desktop, vec!["GNOME".to_string(), "KDE".to_string()]);
    assert_eq!(
        a.metadata.entries(),
        &vec![("k".to_string(), Some("2".to_string())), ("j".to_string(), None)]
    );
    assert_eq!(ComponentBuilder::default().id("x".into()).build(), Component::blank("x".into()));
}

#[test]
fn builders_of_the_smaller_entities() {
    let image = ImageBuilder::new("https://a.example/i.png").height(3).width(4).build();
    assert_eq!(image.kind, ImageKind::Source);
    assert_eq!((image.width, image.height), (Some(4), Some(3)));
    assert_eq!(image.url, "https://a.example/i.png");
    let shot = ScreenshotBuilder::default().image(image.clone()).build();
    assert!(shot.is_default);
    assert_eq!(shot.caption, TranslatableString::default());
    assert_eq!(shot.images, vec![image]);
    assert!(!ScreenshotBuilder::default().set_default(false).build().is_default);
    let release = ReleaseBuilder::new("1.0")
        .urgency(ReleaseUrgency::Low)
        .date(UtcInstant { seconds: 7 })
        .kind(ReleaseKind::Development)
        .build();
    assert_eq!(release.version, "1.0");
    assert_eq!(release.kind, Some(ReleaseKind::Development));
    assert_eq!(release.date, Some(UtcInstant { seconds: 7 }));
    assert_eq!(release.urgency, Some(ReleaseUrgency::Low));
    let collection = CollectionBuilder::new("0.12")
        .architecture("arm64")
        .media_base_url("https://m.example/")
        .origin("repo")
        .build();
    assert_eq!(collection.version, "0.12");
    assert_eq!(collection.architecture, Some("arm64".into()));
    assert_eq!(collection.media_base_url, Some("https://m.example/".into()));
    assert_eq!(collection.origin, Some("repo".into()));
    assert!(collection.components.is_empty());
}

#[test]
fn key_mapping_nodes_are_read_by_kind() {
    let node = YamlNode::Mapping(vec![
        (YamlNode::Integer(1), YamlNode::Text("number key".into())),
        (YamlNode::Text("a".into()), YamlNode::Integer(7)),
        (YamlNode::Text("b".into()), YamlNode::List(vec![YamlNode::Boolean(true), YamlNode::Null])),
        (YamlNode::Text("a".into()), YamlNode::Integer(8)),
    ]);
    assert_eq!(node.get("a"), Some(&YamlNode::Integer(7)));
    assert_eq!(node.get("a").unwrap().as_i64(), Some(7));
    assert_eq!(node.get("c"), None);
    assert_eq!(node.get("1"), None);
    assert_eq!(node.get("b").unwrap().as_vec().unwrap().len(), 2);
    assert_eq!(node.get("b").unwrap().as_vec().unwrap()[0].as_bool(), Some(true));
    assert_eq!(node.as_hash().unwrap().len(), 4);
    assert_eq!(lookup(node.as_hash().unwrap(), "b").unwrap().as_str(), None);
    assert_eq!(YamlNode::Text("t".into()).as_str(), Some("t"));
    assert_eq!(YamlNode::Real("1.5".into()).as_str(), None);
    assert_eq!(YamlNode::Text("t".into()).get("a"), None);
    assert_eq!(YamlNode::Text("t".into()).as_vec(), None);
    assert_eq!(YamlNode::Bad.as_hash(), None);
    assert_eq!(YamlNode::Alias(2).as_i64(), None);
}

#[test]
fn markup_elements_are_read_by_part() {
    let child = XmlElement {
        name: "p".into(),
        attributes: vec![],
        children: vec![XmlNode::Text("inner".into())],
        markup: "<p>inner</p>".into(),
    };
    let element = XmlElement {
        name: "e".into(),
        attributes: vec![("a".into(), "1".into()), ("b".into(), "".into())],
        children: vec![
            XmlNode::Text("one ".into()),
            XmlNode::Comment("not text".into()),
            XmlNode::Element(child),
            XmlNode::CData("two".into()),
            XmlNode::Instruction("target".into(), None),
        ],
        markup: "".into(),
    };
    assert_eq!(element.attribute("a"), Some("1"));
    assert_eq!(element.attribute("b"), Some(""));
    assert_eq!(element.attribute("c"), None);
    assert_eq!(element.filled_attribute("a"), Some("1"));
    assert_eq!(element.filled_attribute("b"), None);
    assert_eq!(element.text(), Some("one two".to_string()));
    assert_eq!(element.nodes().len(), 5);
    assert_eq!(element.nodes()[2].as_element().unwrap().text(), Some("inner".to_string()));
    assert!(element.nodes()[0].as_element().is_none());
    let empty = XmlElement { name: "e".into(), attributes: vec![], children: vec![], markup: "<e />".into() };
    assert_eq!(empty.text(), None);
}

#[test]
fn metadata_is_a_map() {
    let mut a = Metadata::default();
    a.put("x".into(), None);
    a.put("y".into(), Some("1".into()));
    a.put("x".into(), Some("2".into()));
    let mut b = Metadata::default();
    b.put("y".into(), Some("1".into()));
    b.put("x".into(), Some("2".into()));
    assert_eq!(a, b);
    assert_eq!(a.clone(), a);
    assert_eq!(a.get("x"), Some(&Some("2".to_string())));
    assert_eq!(a.get("z"), None);
    assert_eq!(a.entries().len(), 2);
    b.put("z".into(), None);
    assert_ne!(a, b);
    assert_ne!(b, a);
    assert_eq!(b.get("z"), Some(&None));
    let mut c = Metadata::default();
    c.put("y".into(), Some("1".into()));
    c.put("x".into(), None);
    assert_ne!(a, c);
    assert!(same_option(&None, &None));
    assert!(same_option(&Some("a".into()), &Some("a".into())));
    assert!(!same_option(&Some("a".into()), &None));
    assert!(!same_option(&Some("a".into()), &Some("b".into())));
}

#[test]
fn translatable_values_are_cloned_whole() {
    let text = TranslatableString::with_default("x").and_locale("de", "eins").and_locale("fr", "un");
    assert_eq!(text.clone(), text);
    assert_eq!(text.clone().entries(), text.entries());
    let list = TranslatableList::with_default(vec!["a", "b"]).and_locale("de", vec!["c"]);
    assert_eq!(list.clone(), list);
    assert_eq!(list.clone().default_words(), list.default_words());
    assert_eq!(list.clone().entries(), list.entries());
}

#[test]
fn icons_compare_by_variant_and_fields() {
    assert_eq!(Icon::Stock("a".into()), Icon::Stock("a".into()));
    assert_ne!(
        Icon::Cached { path: "a".into(), width: None, height: None },
        Icon::Local { path: "a".into(), width: None, height: None }
    );
}
