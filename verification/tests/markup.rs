use appstream::builders::{
    CollectionBuilder, ComponentBuilder, ImageBuilder, ReleaseBuilder, ScreenshotBuilder,
};
use appstream::collection::Collection;
use appstream::enums::{
    Bundle, Category, ComponentKind, Icon, ImageKind, Launchable, ProjectUrl, Provide,
    ReleaseKind, ReleaseUrgency,
};
use appstream::error::ParseError;
use appstream::model::{ContentRating, UtcInstant};
use appstream::translatable::{MarkupTranslatableString, TranslatableList, TranslatableString};
use std::error::Error;
use url::Url;

const SPEC_EXAMPLE: &str = r#"<?xml version="1.0" encoding="UTF-8"?>
<components version="0.10">
  <component type="desktop-application">
    <id>org.mozilla.Firefox</id>
    <pkgname>firefox-bin</pkgname>
    <name>Firefox</name>
    <name xml:lang="en_GB">Firefoux</name>
    <summary>Web browser</summary>
    <summary xml:lang="fr_FR">Navigateur web</summary>
    <project_license>MPL-2.0</project_license>
    <keywords>
      <keyword>internet</keyword>
      <keyword>web</keyword>
      <keyword>browser</keyword>
      <keyword xml:lang="fr_FR">navigateur</keyword>
    </keywords>
    <icon type="stock">web-browser</icon>
    <icon type="cached">firefox.png</icon>
    <categories>
      <category>network</category>
      <category>webbrowser</category>
    </categories>
    <url type="homepage">https://www.mozilla.com</url>
    <screenshots>
      <screenshot type="default">
        <image type="source" width="800" height="600">https://www.awesomedistro.example.org/en_US/firefox.desktop/main.png</image>
        <image type="thumbnail" width="200" height="150">https://www.awesomedistro.example.org/en_US/firefox.desktop/main-small.png</image>
      </screenshot>
    </screenshots>
    <provides>
      <binary>firefox</binary>
    </provides>
    <mimetypes>
      <mimetype>text/html</mimetype>
      <mimetype>text/xml</mimetype>
      <mimetype>application/xhtml+xml</mimetype>
      <mimetype>application/vnd.mozilla.xul+xml</mimetype>
      <mimetype>text/mml</mimetype>
      <mimetype>application/x-xpinstall</mimetype>
      <mimetype>x-scheme-handler/http</mimetype>
      <mimetype>x-scheme-handler/https</mimetype>
    </mimetypes>
  </component>
  <component>
    <id>org.freedesktop.PulseAudio</id>
    <name>PulseAudio</name>
    <summary>The PulseAudio sound server</summary>
    <url type="homepage">https://www.freedesktop.org/wiki/Software/PulseAudio/</url>
    <project_license>GPL-2.0+</project_license>
    <provides>
      <library>libpulse-simple.so.0</library>
      <library>libpulse.so.0</library>
      <binary>start-pulseaudio-kde</binary>
      <binary>start-pulseaudio-x11</binary>
    </provides>
    <release version="2.0"/>
  </component>
  <component type="font">
    <id>org.linuxlibertine.LinuxLibertine</id>
    <name>Linux Libertine</name>
    <summary>Linux Libertine Open fonts</summary>
    <provides>
      <font>LinLibertine_M.otf</font>
    </provides>
  </component>
</components>
"#;

const OTHER_REPOS: &str = r#"<?xml version="1.0" encoding="UTF-8"?>
<components version="0.8">
  <component type="generic">
    <id>adobe-release-x86_64</id>
    <pkgname>adobe-release-x86_64</pkgname>
    <name>Adobe</name>
    <summary>Adobe Repository Configuration</summary>
    <metadata_license>CC0-1.0</metadata_license>
  </component>
  <component type="generic">
    <id>livna-release</id>
    <pkgname>livna-release</pkgname>
    <name>Livna</name>
    <summary>Livna Repository Configuration</summary>
    <metadata_license>CC0-1.0</metadata_license>
  </component>
  <component type="generic">
    <id>rpmfusion-free-release</id>
    <pkgname>rpmfusion-free-release</pkgname>
    <name>RPM Fusion Free</name>
    <summary>RPM Fusion Repository Configuration</summary>
    <metadata_license>CC0-1.0</metadata_license>
  </component>
  <component type="generic">
    <id>rpmfusion-nonfree-release</id>
    <pkgname>rpmfusion-nonfree-release</pkgname>
    <name>RPM Fusion Non-Free</name>
    <summary>RPM Fusion Repository Configuration</summary>
    <metadata_license>CC0-1.0</metadata_license>
  </component>
</components>
"#;

const WEB_APPS: &str = r#"<?xml version="1.0" encoding="UTF-8"?>
<components version="0.8">
  <component type="web-application">
    <id>epiphany-kindlecloud.desktop</id>
    <metadata_license>CC0-1.0</metadata_license>
    <project_license>proprietary</project_license>
    <name>Kindle Cloud Reader</name>
    <summary>Read instantly in your browser</summary>
    <description>
            <p>
        Buy Once, Read Everywhere: You don't need to own a Kindle device to
        enjoy Kindle books.
        Automatically save and synchronize your furthest page read, bookmarks,
        notes, and highlights across all your devices.
        That means you can start reading a book on one device, and pick up where
        you left off on another device.
            </p>
            <p>
        Read the first chapter of a book before you decide whether to buy it.
        Read thousands of free books with a Kindle app, including popular
        classics like The Adventures of Sherlock Holmes, Pride and Prejudice,
        and Treasure Island.
            </p>
            <p>
        To use the Kindle Cloud reader you must have Amazon.com account.
            </p>
    </description>
    <icon type="remote">http://g-ecx.images-amazon.com/images/G/01/kindle/www/ariel/kindle-icon-kcp120._SL90_.png</icon>
    <categories>
      <category>Education</category>
      <category>Literature</category>
    </categories>
    <keywords>
      <keyword>book</keyword>
      <keyword>ebook</keyword>
      <keyword>reader</keyword>
    </keywords>
    <url type="homepage">https://read.amazon.com</url>
    <metadata>
      <value key="X-Needs-Dark-Theme"/>
      <value key="X-Kudo-Popular"/>
    </metadata>
  </component>
</components>
"#;

fn parse(text: &str) -> Result<Collection, ParseError> {
    Collection::from_xml_bytes(text.as_bytes())
}

fn wrap(component: &str) -> String {
    format!("<components version=\"0.10\"><component>{}</component></components>", component)
}

#[test]
fn spec_example_collection() -> Result<(), Box<dyn Error>> {
    let c1 = parse(SPEC_EXAMPLE).map_err(|e| e.message())?;

    let c2 = CollectionBuilder::new("0.10")
    .component(
        ComponentBuilder::default()
        .id("org.mozilla.Firefox".into())
        .name(
            TranslatableString::with_default("Firefox").and_locale("en_GB", "Firefoux")
        )
        .kind(ComponentKind::DesktopApplication)
        .pkgname("firefox-bin")
        .project_license("MPL-2.0".into())
        .keywords(TranslatableList::with_default(vec!["internet","web", "browser"]).and_locale("fr_FR", vec!["navigateur"]))
        .summary(TranslatableString::with_default("Web browser").and_locale("fr_FR", "Navigateur web"))
        .url(ProjectUrl::Homepage(Url::parse("https://www.mozilla.com")?.into()))
        .screenshot(
            ScreenshotBuilder::default()
            .image(
                ImageBuilder::new(Url::parse("https://www.awesomedistro.example.org/en_US/firefox.desktop/main.png")?.as_str())
                    .width(800)
                    .height(600)
                    .build(),
            )
            .image(
                ImageBuilder::new(Url::parse("https://www.awesomedistro.example.org/en_US/firefox.desktop/main-small.png")?.as_str())
                    .kind(ImageKind::Thumbnail)
                    .width(200)
                    .height(150)
                    .build(),
            )
            .build()
        )
        .provide(Provide::Binary("firefox".into()))
        .mimetype("text/html")
        .mimetype("text/xml")
        .mimetype("application/xhtml+xml")
        .mimetype("application/vnd.mozilla.xul+xml")
        .mimetype("text/mml")
        .mimetype("application/x-xpinstall")
        .mimetype("x-scheme-handler/http")
        .mimetype("x-scheme-handler/https")
        .category(Category::Unknown("network".into()))
        .category(Category::Unknown("webbrowser".into()))
        .icon(Icon::Stock("web-browser".into()))
        .icon(Icon::Cached {
            path: "firefox.png".into(),
            width: None,
            height: None
        })
        .build()
    )
    .component(
        ComponentBuilder::default()
        .id("org.freedesktop.PulseAudio".into())
        .name(
            TranslatableString::with_default("PulseAudio")
        )
        .summary(TranslatableString::with_default("The PulseAudio sound server"))
        .project_license("GPL-2.0+".into())
        .url(ProjectUrl::Homepage(Url::parse("https://www.freedesktop.org/wiki/Software/PulseAudio/")?.into()))
        .provide(Provide::Library("libpulse-simple.so.0".into()))
        .provide(Provide::Library("libpulse.so.0".into()))
        .provide(Provide::Binary("start-pulseaudio-kde".into()))
        .provide(Provide::Binary("start-pulseaudio-x11".into()))
        .release(ReleaseBuilder::new("2.0").build())
        .build()
    )
    .component(
        ComponentBuilder::default()
        .id(
            "org.linuxlibertine.LinuxLibertine".into()
        )
        .name(
            TranslatableString::with_default("Linux Libertine")
        )
        .kind(ComponentKind::Font)
        .summary(TranslatableString::with_default("Linux Libertine Open fonts"))
        .provide(Provide::Font("LinLibertine_M.otf".into()))
        .build()
    )
    .build();

    assert_eq!(c1, c2);

    Ok(())
}

#[test]
fn spec_example_has_three_components_in_order() {
    let c = parse(SPEC_EXAMPLE).unwrap();
    assert_eq!(c.version, "0.10");
    assert_eq!(c.origin, None);
    assert_eq!(c.components.len(), 3);
    assert_eq!(c.components[0].id.0, "org.mozilla.Firefox");
    assert_eq!(c.components[1].id.0, "org.freedesktop.PulseAudio");
    assert_eq!(c.components[2].id.0, "org.linuxlibertine.LinuxLibertine");
    let firefox = &c.components[0];
    assert_eq!(firefox.name.default_text(), "Firefox");
    assert_eq!(firefox.project_license.as_ref().unwrap().0, "MPL-2.0");
    assert_eq!(firefox.mimetypes.len(), 8);
    let images = &firefox.screenshots[0].images;
    assert_eq!((images[0].width, images[0].height), (Some(800), Some(600)));
    assert_eq!((images[1].width, images[1].height), (Some(200), Some(150)));
    assert_eq!(c.components[1].kind, ComponentKind::Generic);
    assert_eq!(c.components[1].releases.len(), 1);
    assert_eq!(c.components[1].releases[0].version, "2.0");
    assert_eq!(c.components[2].kind, ComponentKind::Font);
    assert_eq!(c.find_by_id("org.mozilla.Firefox".into()).len(), 1);
}

#[test]
fn generic_collection() -> Result<(), Box<dyn Error>> {
    let c1 = parse(OTHER_REPOS).map_err(|e| e.message())?;

    let c2 = CollectionBuilder::new("0.8")
        .component(
            ComponentBuilder::default()
                .id("adobe-release-x86_64".into())
                .name(TranslatableString::with_default("Adobe"))
                .pkgname("adobe-release-x86_64")
                .metadata_license("CC0-1.0".into())
                .summary(TranslatableString::with_default(
                    "Adobe Repository Configuration",
                ))
                .build(),
        )
        .component(
            ComponentBuilder::default()
                .id("livna-release".into())
                .name(TranslatableString::with_default("Livna"))
                .pkgname("livna-release")
                .metadata_license("CC0-1.0".into())
                .summary(TranslatableString::with_default(
                    "Livna Repository Configuration",
                ))
                .build(),
        )
        .component(
            ComponentBuilder::default()
                .id("rpmfusion-free-release".into())
                .name(TranslatableString::with_default("RPM Fusion Free"))
                .pkgname("rpmfusion-free-release")
                .metadata_license("CC0-1.0".into())
                .summary(TranslatableString::with_default(
                    "RPM Fusion Repository Configuration",
                ))
                .build(),
        )
        .component(
            ComponentBuilder::default()
                .id("rpmfusion-nonfree-release".into())
                .name(TranslatableString::with_default("RPM Fusion Non-Free"))
                .pkgname("rpmfusion-nonfree-release")
                .metadata_license("CC0-1.0".into())
                .summary(TranslatableString::with_default(
                    "RPM Fusion Repository Configuration",
                ))
                .build(),
        )
        .build();

    assert_eq!(c1, c2);
    Ok(())
}

#[test]
fn web_collection() -> Result<(), Box<dyn Error>> {
    let c1 = parse(WEB_APPS).map_err(|e| e.message())?;

    let c2 = CollectionBuilder::new("0.8")
        .component(
            ComponentBuilder::default()
            .id("epiphany-kindlecloud.desktop".into())
            .name(TranslatableString::with_default("Kindle Cloud Reader"))
            .kind(ComponentKind::WebApplication)
            .metadata_license("CC0-1.0".into())
            .project_license("proprietary".into())
            .summary(TranslatableString::with_default("Read instantly in your browser"))
            .description(
                MarkupTranslatableString::with_default(
                    "<p>\n        Buy Once, Read Everywhere: You don\'t need to own a Kindle device to\n        enjoy Kindle books.\n        Automatically save and synchronize your furthest page read, bookmarks,\n        notes, and highlights across all your devices.\n        That means you can start reading a book on one device, and pick up where\n        you left off on another device.\n            </p><p>\n        Read the first chapter of a book before you decide whether to buy it.\n        Read thousands of free books with a Kindle app, including popular\n        classics like The Adventures of Sherlock Holmes, Pride and Prejudice,\n        and Treasure Island.\n            </p><p>\n        To use the Kindle Cloud reader you must have Amazon.com account.\n            </p>"
                )
            )
            .icon(Icon::Remote{
                width: None,
                height: None,
                url: Url::parse("http://g-ecx.images-amazon.com/images/G/01/kindle/www/ariel/kindle-icon-kcp120._SL90_.png")?.into()
            })
            .metadata("X-Needs-Dark-Theme".to_string(), None)
            .metadata("X-Kudo-Popular".to_string(), None)
            .category(Category::Education)
            .category(Category::Literature)
            .keywords(TranslatableList::with_default(vec!["book", "ebook", "reader"]))
            .url(ProjectUrl::Homepage(Url::parse("https://read.amazon.com")?.into()))
            .build()
        )
        .build();

    assert_eq!(c1, c2);
    Ok(())
}

#[test]
fn root_attributes_are_read() {
    let c = parse("<components version=\"0.8\" origin=\"flatpak\" media_baseurl=\"https://m.example.org\" architecture=\"x86_64\"/>").unwrap();
    assert_eq!("0.8", c.version);
    assert_eq!(Some("flatpak".into()), c.origin);
    assert_eq!(Some("https://m.example.org".into()), c.media_base_url);
    assert_eq!(Some("x86_64".into()), c.architecture);
    assert_eq!(0, c.components.len());
}

#[test]
fn empty_root_attributes_count_as_absent() {
    let c = parse("<components version=\"0.8\" origin=\"\" media_baseurl=\"\" architecture=\"\"/>").unwrap();
    assert_eq!(c.origin, None);
    assert_eq!(c.media_base_url, None);
    assert_eq!(c.architecture, None);
}

#[test]
fn version_attribute_is_mandatory() {
    let expected = Err(ParseError::MissingAttribute("version".into(), "collection".into()));
    assert_eq!(parse("<components origin=\"x\"/>"), expected);
    assert_eq!(parse("<components version=\"\"/>"), expected);
}

#[test]
fn root_must_be_the_expected_one() {
    assert_eq!(
        parse("<component version=\"0.8\"><id>a</id></component>"),
        Err(ParseError::MissingTag("components".into()))
    );
}

#[test]
fn id_child_is_mandatory() {
    assert_eq!(parse(&wrap("<name>x</name>")), Err(ParseError::MissingTag("id".into())));
    assert_eq!(parse(&wrap("<id/>")), Err(ParseError::MissingValue("id".into())));
}

#[test]
fn unknown_elements_are_skipped() {
    let text = "<components version=\"1\"><future/><!-- note --><component><id>a</id><hologram depth=\"3\">x</hologram></component>text</components>";
    let c = parse(text).unwrap();
    assert_eq!(c, CollectionBuilder::new("1").component(ComponentBuilder::default().id("a".into()).build()).build());
}

#[test]
fn later_locale_overwrites_earlier() {
    let c = parse(&wrap("<id>a</id><name>One</name><name xml:lang=\"de\">Eins</name><name>Two</name><name xml:lang=\"de\">Zwei</name><name xml:lang=\"C\">Three</name>")).unwrap();
    assert_eq!(
        c.components[0].name,
        TranslatableString::with_default("Three").and_locale("de", "Zwei")
    );
    assert_eq!(c.components[0].name.for_locale("de"), Some(&"Zwei".to_string()));
    assert_eq!(c.components[0].name.for_locale("fr"), None);
    assert_eq!(c.components[0].name.entries().len(), 1);
}

#[test]
fn icon_variants_and_lenient_dimensions() {
    let c = parse(&wrap("<id>a</id><icon type=\"stock\">s</icon><icon type=\"cached\" width=\"64\" height=\"+64\">c.png</icon><icon width=\"wide\" height=\"-3\">l.png</icon><icon type=\"local\" width=\"4294967295\" height=\"4294967296\">m.png</icon><icon type=\"remote\" width=\"\">https://example.org/r.png</icon><icon type=\"odd\">o.png</icon>")).unwrap();
    assert_eq!(
        c.components[0].icons,
        vec![
            Icon::Stock("s".into()),
            Icon::Cached { path: "c.png".into(), width: Some(64), height: Some(64) },
            Icon::Local { path: "l.png".into(), width: None, height: None },
            Icon::Local { path: "m.png".into(), width: Some(4294967295), height: None },
            Icon::Remote { url: "https://example.org/r.png".into(), width: None, height: None },
            Icon::Local { path: "o.png".into(), width: None, height: None },
        ]
    );
}

#[test]
fn icon_element_errors() {
    assert_eq!(parse(&wrap("<id>a</id><icon type=\"stock\"/>")), Err(ParseError::MissingValue("icon".into())));
    assert_eq!(parse(&wrap("<id>a</id><icon type=\"remote\">not a url</icon>")), Err(ParseError::UrlParseFailure));
}

#[test]
fn unknown_category_token_is_kept() {
    let c = parse(&wrap("<id>a</id><categories><category>mycustomcat</category><category>Game</category><category>Game</category></categories>")).unwrap();
    assert_eq!(
        c.components[0].categories,
        vec![Category::Unknown("mycustomcat".into()), Category::Game]
    );
    assert_eq!(Category::from_token("mycustomcat"), Category::Unknown("mycustomcat".into()));
    assert_eq!(Category::from_token("System"), Category::System);
    assert_eq!(Category::from_token("system"), Category::Unknown("system".into()));
}

#[test]
fn unknown_kind_is_kept_in_markup() {
    let c = parse("<components version=\"1\"><component type=\"gadget\"><id>a</id></component></components>").unwrap();
    assert_eq!(c.components[0].kind, ComponentKind::Unknown("gadget".into()));
}

#[test]
fn releases_with_dates() {
    let c = parse(&wrap("<id>a</id><releases><release version=\"1.2\" type=\"stable\" timestamp=\"1560988800\" urgency=\"high\"/><release version=\"1.1\" type=\"development\" date=\"2019-06-20\"/><release version=\"1.0\"/></releases>")).unwrap();
    let instant = UtcInstant { seconds: 1_560_988_800 };
    assert_eq!(
        c.components[0].releases,
        vec![
            ReleaseBuilder::new("1.2").kind(ReleaseKind::Stable).date(instant).urgency(ReleaseUrgency::High).build(),
            ReleaseBuilder::new("1.1").kind(ReleaseKind::Development).date(instant).build(),
            ReleaseBuilder::new("1.0").build(),
        ]
    );
}

#[test]
fn release_errors() {
    assert_eq!(
        parse(&wrap("<id>a</id><releases><release/></releases>")),
        Err(ParseError::MissingAttribute("version".into(), "release".into()))
    );
    assert_eq!(
        parse(&wrap("<id>a</id><releases><release version=\"1\" date=\"June\"/></releases>")),
        Err(ParseError::InvalidValue("June".into(), "date".into(), "release".into()))
    );
    assert_eq!(
        parse(&wrap("<id>a</id><releases><release version=\"1\" type=\"final\"/></releases>")),
        Err(ParseError::InvalidValue("final".into(), "type".into(), "release".into()))
    );
    assert_eq!(
        parse(&wrap("<id>a</id><releases><release version=\"1\" urgency=\"now\"/></releases>")),
        Err(ParseError::InvalidValue("now".into(), "urgency".into(), "release".into()))
    );
}

#[test]
fn screenshots_with_captions() {
    let c = parse(&wrap("<id>a</id><screenshots><screenshot><caption>Main</caption><caption xml:lang=\"de\">Haupt</caption><image>https://example.org/a.png</image></screenshot><screenshot type=\"extra\"><image type=\"thumbnail\" width=\"10\" height=\"5\">https://example.org/b.png</image></screenshot></screenshots>")).unwrap();
    assert_eq!(
        c.components[0].screenshots,
        vec![
            ScreenshotBuilder::default()
                .caption(TranslatableString::with_default("Main").and_locale("de", "Haupt"))
                .image(ImageBuilder::new("https://example.org/a.png").build())
                .build(),
            ScreenshotBuilder::default()
                .set_default(false)
                .image(ImageBuilder::new("https://example.org/b.png").kind(ImageKind::Thumbnail).width(10).height(5).build())
                .build(),
        ]
    );
    assert_eq!(
        parse(&wrap("<id>a</id><screenshots><screenshot><image type=\"poster\">https://example.org/a.png</image></screenshot></screenshots>")),
        Err(ParseError::InvalidValue("poster".into(), "type".into(), "image".into()))
    );
}

#[test]
fn auxiliary_facets() {
    let c = parse(&wrap("<id>a</id><extends>b</extends><bundle type=\"flatpak\" runtime=\"org.gnome.Platform/x86_64/3.30\" sdk=\"org.gnome.Sdk/x86_64/3.30\">app/a/x86_64/stable</bundle><bundle type=\"snap\" runtime=\"r\">a-snap</bundle><launchable type=\"desktop-id\">a.desktop</launchable><launchable type=\"rocket\">x</launchable><url type=\"bugtracker\">https://example.org/bugs</url><url type=\"blog\">https://example.org/blog</url><content_rating type=\"oars-1.1\"><content_attribute id=\"violence-cartoon\">mild</content_attribute><content_attribute id=\"drugs-alcohol\"/></content_rating><project_group>GNOME</project_group><source_pkgname>a-src</source_pkgname><developer_name>Dev</developer_name><compulsory_for_desktop>GNOME</compulsory_for_desktop><compulsory_for_desktop>GNOME</compulsory_for_desktop><metadata><value key=\"k\">one</value><value key=\"k\">two</value></metadata>")).unwrap();
    let a = &c.components[0];
    assert_eq!(a.extends, vec!["b".into()]);
    assert_eq!(
        a.bundles,
        vec![
            Bundle::Flatpak {
                runtime: Some("org.gnome.Platform/x86_64/3.30".into()),
                sdk: Some("org.gnome.Sdk/x86_64/3.30".into()),
                reference: "app/a/x86_64/stable".into()
            },
            Bundle::Snap("a-snap".into()),
        ]
    );
    assert_eq!(
        a.launchables,
        vec![Launchable::DesktopId("a.desktop".into()), Launchable::Unknown("x".into())]
    );
    assert_eq!(
        a.urls,
        vec![
            ProjectUrl::BugTracker("https://example.org/bugs".into()),
            ProjectUrl::Unknown("https://example.org/blog".into())
        ]
    );
    assert_eq!(
        a.content_rating,
        Some(ContentRating {
            version: "oars-1.1".into(),
            attributes: vec![
                ("violence-cartoon".into(), "mild".into()),
                ("drugs-alcohol".into(), "".into())
            ]
        })
    );
    assert_eq!(a.project_group, Some("GNOME".into()));
    assert_eq!(a.source_pkgname, Some("a-src".into()));
    assert_eq!(a.developer_name, TranslatableString::with_default("Dev"));
    assert_eq!(a.compulsory_for_desktop, vec!["GNOME".to_string()]);
    assert_eq!(a.metadata.entries(), &vec![("k".to_string(), Some("two".to_string()))]);
    assert_eq!(a.metadata.get("k"), Some(&Some("two".to_string())));
    assert_eq!(a.metadata.get("j"), None);
}

#[test]
fn auxiliary_errors() {
    assert_eq!(
        parse(&wrap("<id>a</id><bundle type=\"crate\">x</bundle>")),
        Err(ParseError::InvalidValue("crate".into(), "type".into(), "bundle".into()))
    );
    assert_eq!(
        parse(&wrap("<id>a</id><bundle>x</bundle>")),
        Err(ParseError::MissingAttribute("type".into(), "bundle".into()))
    );
    assert_eq!(
        parse(&wrap("<id>a</id><url>https://example.org</url>")),
        Err(ParseError::MissingAttribute("type".into(), "url".into()))
    );
    assert_eq!(
        parse(&wrap("<id>a</id><metadata><value>x</value></metadata>")),
        Err(ParseError::MissingAttribute("key".into(), "value".into()))
    );
    assert_eq!(
        parse(&wrap("<id>a</id><project_license/>")),
        Err(ParseError::MissingValue("license".into()))
    );
}

#[test]
fn a_failing_component_aborts_the_whole_document() {
    let text = "<components version=\"1\"><component><id>a</id></component><component><name>b</name></component><component><id>c</id></component></components>";
    assert_eq!(parse(text), Err(ParseError::MissingTag("id".into())));
}

#[test]
fn malformed_markup_is_a_malformed_tree() {
    assert_eq!(parse("<components version=\"1\"><component>"), Err(ParseError::MalformedTree));
    assert_eq!(parse(""), Err(ParseError::MalformedTree));
    assert_eq!(parse("just text"), Err(ParseError::MalformedTree));
}

#[test]
fn keywords_take_the_locale_of_their_list() {
    let c = parse(&wrap("<id>a</id><keywords xml:lang=\"fr\"><keyword>un</keyword><keyword xml:lang=\"de\">eins</keyword><keyword>deux</keyword></keywords>")).unwrap();
    assert_eq!(
        c.components[0].keywords,
        TranslatableList::default().and_locale("de", vec!["eins"]).and_locale("fr", vec!["un", "deux"])
    );
}
