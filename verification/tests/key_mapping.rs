use appstream::builders::{
    CollectionBuilder, ComponentBuilder, ImageBuilder, ReleaseBuilder, ScreenshotBuilder,
};
use appstream::collection::Collection;
use appstream::enums::{Category, ComponentKind, Icon, ImageKind, ReleaseKind, ReleaseUrgency};
use appstream::error::ParseError;
use appstream::model::UtcInstant;
use appstream::translatable::{MarkupTranslatableString, TranslatableList, TranslatableString};
use appstream::yaml_tree::YamlNode;
use chrono::{TimeZone, Utc};
use std::error::Error;
use url::Url;

const SPEC_EXAMPLE: &str = r#"---
File: DEP-11
Version: '0.8'
Origin: chromodoris-main
MediaBaseUrl: https://metadata.tanglu.org/appstream/media/
---
Type: desktop-app
ID: gconf-editor.desktop
Name:
  C: Configuration Editor
  be@latin: Redaktar naładaŭ
  bg: Настройки на програмите
  pl: Edytor konfiguracji
Package: gconf-editor
Extends:
  - libreoffice-base.desktop
  - libreoffice-calc.desktop
  - libreoffice-draw.desktop
SourcePackage: gconf-editor-src
Summary:
  C: Directly edit your entire configuration database
  ar: حرّر مباشرة كامل قاعدة بيانات الإعدادات.
  de: Direkten Zugriff auf Ihre gesamte Konfigurationsdatenbank erlangen
Description:
  C: "<p>StretchPlayer will play back an audio file and allow you to time stretch (without affecting pitch) and/or pitch shift (without affecting the time) the audio, even while you are listening to it.</p>\n<p>Warning: this package contains the development version (potentially unstable) released for testing purpose only.</p>"
  de: "<p>StretchPlayer spielt eine Audiodatei ab und ermöglicht es Ihnen, die Zeit zu dehnen (ohne die Tonhöhe zu beeinflussen) und/oder die Tonhöhe zu verschieben (ohne die Zeit zu beeinflussen), auch während Sie die Datei abhören.</p>\n<p>Warnung: Dieses Paket enthält die (potenziell instabile) Entwicklungsversion, die nur zu Testzwecken freigegeben wurde.</p>"
  ja: "<p>StretchPlayer はオーディオファイルをプレイバックし、オーディオの (ピッチ に影響を与えない) 時間伸長および (時間に影響を与えない) ピッチシフトが、 聴いている途中でもできます。</p>\n<p>警告: 本パッケージには、テストのためだけにリリースされた (潜在的に不安定 な) 開発バージョンが含まれます。</p>"
DeveloperName:
  C: MetaBrainz Foundation
  de: MetaBrainz Foundation
  zh_CN: MetaBrainz 基金会
ProjectGroup: GNOME
ProjectLicense: GPL-3.0
Categories:
  - GNOME
  - GTK
  - System
Keywords:
  C:
    - Image
    - Viewer
  hr:
    - Slika
    - Preglednik
  sv:
    - Bild
    - Visare
CompulsoryForDesktop: GNOME
Icon:
  cached:
    - name: qutebrowser_qutebrowser.png
      width: 48
      height: 48
    - name: qutebrowser_qutebrowser.png
      width: 64
      height: 64
  stock: qutebrowser
  remote:
    - url: org/qutebrowser/qutebrowser/6741f0783aa49238b898392c9cbdab11/icons/128x128/qutebrowser_qutebrowser.png
      width: 128
      height: 128
  local:
    - name: qutebrowser_qutebrowser.png
      width: 48
      height: 48
Releases:
  - version: 2.20.0
    type: stable
    unix-timestamp: 1560988800
  - version: 2.19.0
    type: stable
    date: "2019-04-20"
  - version: 2.18.0
    type: stable
    unix-timestamp: 1549843200
  - version: 2.17.0
    type: stable
    date: 2018-12-16
Screenshots:
  - default: true
    caption:
      C: Timer window
      id: Jendela pengatur waktu
      sv: Tidtagarfönster
    thumbnails:
      - url: org/gnome/Pomodoro/fe7095e76937928da880475ee610db6d/screenshots/image-1_752x613.png
        width: 752
        height: 613
      - url: org/gnome/Pomodoro/fe7095e76937928da880475ee610db6d/screenshots/image-1_624x509.png
        width: 624
        height: 509
      - url: org/gnome/Pomodoro/fe7095e76937928da880475ee610db6d/screenshots/image-1_224x182.png
        width: 224
        height: 182
    source-image:
      url: org/gnome/Pomodoro/fe7095e76937928da880475ee610db6d/screenshots/image-1_orig.png
      width: 800
      height: 653
  - default: false
    caption:
      C: Preferences
      id: Preferensi
      el: Επιλογές
    thumbnails:
      - url: org/gnome/Pomodoro/fe7095e76937928da880475ee610db6d/screenshots/image-2_752x423.png
        width: 752
        height: 423
      - url: org/gnome/Pomodoro/fe7095e76937928da880475ee610db6d/screenshots/image-2_624x351.png
        width: 624
        height: 351
      - url: org/gnome/Pomodoro/fe7095e76937928da880475ee610db6d/screenshots/image-2_224x126.png
        width: 224
        height: 126
    source-image:
      url: org/gnome/Pomodoro/fe7095e76937928da880475ee610db6d/screenshots/image-2_orig.png
      width: 1024
      height: 576
"#;

fn instant(year: i32, month: u32, day: u32) -> UtcInstant {
    UtcInstant { seconds: Utc.with_ymd_and_hms(year, month, day, 0, 0, 0).unwrap().timestamp() }
}

fn media(relative: &str) -> String {
    Url::parse(&format!("https://metadata.tanglu.org/appstream/media/{}", relative))
        .unwrap()
        .into()
}

#[test]
fn spec_example_collection_yaml() -> Result<(), Box<dyn Error>> {
    let c1 = Collection::from_yaml_str(SPEC_EXAMPLE).map_err(|e| e.message())?;

    let c2 = CollectionBuilder::new("0.8")
        .origin("chromodoris-main")
        .media_base_url("https://metadata.tanglu.org/appstream/media/")
        .component(
            ComponentBuilder::default()
            .id("gconf-editor.desktop".into())
            .origin("chromodoris-main")
            .name(
                TranslatableString::with_default("Configuration Editor")
                .and_locale("be@latin", "Redaktar naładaŭ")
                .and_locale("bg", "Настройки на програмите")
                .and_locale("pl", "Edytor konfiguracji")
            )
            .pkgname("gconf-editor")
            .extend("libreoffice-base.desktop".into())
            .extend("libreoffice-calc.desktop".into())
            .extend("libreoffice-draw.desktop".into())
            .source_pkgname("gconf-editor-src")
            .kind(ComponentKind::DesktopApplication)
            .summary(TranslatableString::with_default("Directly edit your entire configuration database")
            .and_locale("ar", "حرّر مباشرة كامل قاعدة بيانات الإعدادات.")
            .and_locale("de", "Direkten Zugriff auf Ihre gesamte Konfigurationsdatenbank erlangen"))
            .description(
                MarkupTranslatableString::with_default(
                    "<p>StretchPlayer will play back an audio file and allow you to time stretch (without affecting pitch) and/or pitch shift (without affecting the time) the audio, even while you are listening to it.</p>\n<p>Warning: this package contains the development version (potentially unstable) released for testing purpose only.</p>"
                )
                .and_locale("de",
                    "<p>StretchPlayer spielt eine Audiodatei ab und ermöglicht es Ihnen, die Zeit zu dehnen (ohne die Tonhöhe zu beeinflussen) und/oder die Tonhöhe zu verschieben (ohne die Zeit zu beeinflussen), auch während Sie die Datei abhören.</p>\n<p>Warnung: Dieses Paket enthält die (potenziell instabile) Entwicklungsversion, die nur zu Testzwecken freigegeben wurde.</p>"
                )
                .and_locale("ja",
                    "<p>StretchPlayer はオーディオファイルをプレイバックし、オーディオの (ピッチ に影響を与えない) 時間伸長および (時間に影響を与えない) ピッチシフトが、 聴いている途中でもできます。</p>\n<p>警告: 本パッケージには、テストのためだけにリリースされた (潜在的に不安定 な) 開発バージョンが含まれます。</p>"
                )
            )
            .developer_name(TranslatableString::with_default("MetaBrainz Foundation")
            .and_locale("de", "MetaBrainz Foundation")
            .and_locale("zh_CN", "MetaBrainz 基金会"))
            .project_group("GNOME".into())
            .project_license("GPL-3.0".into())
            .category(Category::Unknown("GNOME".into()))
            .category(Category::Unknown("GTK".into()))
            .category(Category::System)
            .keywords(TranslatableList::with_default(vec!["Image","Viewer"])
            .and_locale("hr", vec!["Slika", "Preglednik"])
            .and_locale("sv", vec!["Bild", "Visare"]))
            .compulsory_for_desktop("GNOME".into())
            .icon(Icon::Cached {
                path: "qutebrowser_qutebrowser.png".into(),
                width: Some(48),
                height: Some(48)
            })
            .icon(Icon::Cached {
                path: "qutebrowser_qutebrowser.png".into(),
                width: Some(64),
                height: Some(64)
            })
            .icon(Icon::Stock("qutebrowser".into()))
            .icon(Icon::Remote{
                width: Some(128),
                height: Some(128),
                url: Url::parse("https://metadata.tanglu.org/appstream/media/org/qutebrowser/qutebrowser/6741f0783aa49238b898392c9cbdab11/icons/128x128/qutebrowser_qutebrowser.png")?.into()
            })
            .icon(Icon::Local {
                path: "qutebrowser_qutebrowser.png".into(),
                width: Some(48),
                height: Some(48)
            })
            .release(ReleaseBuilder::new("2.20.0")
                .kind(ReleaseKind::Stable)
                .date(instant(2019, 6, 20))
                .build()
            )
            .release(ReleaseBuilder::new("2.19.0")
                .kind(ReleaseKind::Stable)
                .date(instant(2019, 4, 20))
                .build()
            )
            .release(ReleaseBuilder::new("2.18.0")
                .kind(ReleaseKind::Stable)
                .date(instant(2019, 2, 11))
                .build()
            )
            .release(ReleaseBuilder::new("2.17.0")
                .kind(ReleaseKind::Stable)
                .date(instant(2018, 12, 16))
                .build()
            )
            .screenshot(
                ScreenshotBuilder::default()
                .caption(
                    TranslatableString::with_default("Timer window")
                    .and_locale("id", "Jendela pengatur waktu")
                    .and_locale("sv", "Tidtagarfönster")
                )
                .image(
                    ImageBuilder::new(Url::parse("https://metadata.tanglu.org/appstream/media/org/gnome/Pomodoro/fe7095e76937928da880475ee610db6d/screenshots/image-1_752x613.png")?.as_str())
                        .kind(ImageKind::Thumbnail)
                        .width(752)
                        .height(613)
                        .build(),
                )
                .image(
                    ImageBuilder::new(Url::parse("https://metadata.tanglu.org/appstream/media/org/gnome/Pomodoro/fe7095e76937928da880475ee610db6d/screenshots/image-1_624x509.png")?.as_str())
                        .kind(ImageKind::Thumbnail)
                        .width(624)
                        .height(509)
                        .build(),
                )
                .image(
                    ImageBuilder::new(Url::parse("https://metadata.tanglu.org/appstream/media/org/gnome/Pomodoro/fe7095e76937928da880475ee610db6d/screenshots/image-1_224x182.png")?.as_str())
                        .kind(ImageKind::Thumbnail)
                        .width(224)
                        .height(182)
                        .build(),
                )
                .image(
                    ImageBuilder::new(Url::parse("https://metadata.tanglu.org/appstream/media/org/gnome/Pomodoro/fe7095e76937928da880475ee610db6d/screenshots/image-1_orig.png")?.as_str())
                        .kind(ImageKind::Source)
                        .width(800)
                        .height(653)
                        .build(),
                )
                .build()
            )
            .screenshot(
                ScreenshotBuilder::default()
                .set_default(false)
                .caption(
                    TranslatableString::with_default("Preferences")
                    .and_locale("id", "Preferensi")
                    .and_locale("el", "Επιλογές")
                )
                .image(
                    ImageBuilder::new(Url::parse("https://metadata.tanglu.org/appstream/media/org/gnome/Pomodoro/fe7095e76937928da880475ee610db6d/screenshots/image-2_752x423.png")?.as_str())
                        .kind(ImageKind::Thumbnail)
                        .width(752)
                        .height(423)
                        .build(),
                )
                .image(
                    ImageBuilder::new(Url::parse("https://metadata.tanglu.org/appstream/media/org/gnome/Pomodoro/fe7095e76937928da880475ee610db6d/screenshots/image-2_624x351.png")?.as_str())
                        .kind(ImageKind::Thumbnail)
                        .width(624)
                        .height(351)
                        .build(),
                )
                .image(
                    ImageBuilder::new(Url::parse("https://metadata.tanglu.org/appstream/media/org/gnome/Pomodoro/fe7095e76937928da880475ee610db6d/screenshots/image-2_224x126.png")?.as_str())
                        .kind(ImageKind::Thumbnail)
                        .width(224)
                        .height(126)
                        .build(),
                )
                .image(
                    ImageBuilder::new(Url::parse("https://metadata.tanglu.org/appstream/media/org/gnome/Pomodoro/fe7095e76937928da880475ee610db6d/screenshots/image-2_orig.png")?.as_str())
                        .kind(ImageKind::Source)
                        .width(1024)
                        .height(576)
                        .build(),
                )
                .build()
            )
            .build()
        )
        .build();

    assert_eq!(c1, c2);

    Ok(())
}

#[test]
fn header_without_origin_and_media_base_gives_none() {
    let c = Collection::from_yaml_str("---\nFile: DEP-11\nVersion: '0.12'\n---\nType: generic\nID: org.example.Thing\n").unwrap();
    assert_eq!(c.version, "0.12");
    assert_eq!(c.origin, None);
    assert_eq!(c.media_base_url, None);
    assert_eq!(c.architecture, None);
    assert_eq!(c.components.len(), 1);
    assert_eq!(c.components[0].origin, None);
    assert_eq!(c.components[0].kind, ComponentKind::Generic);
}

#[test]
fn empty_header_fields_count_as_absent() {
    let c = Collection::from_yaml_str("Version: '0.12'\nOrigin: ''\nMediaBaseUrl: ''\nArchitecture: amd64\n").unwrap();
    assert_eq!(c.origin, None);
    assert_eq!(c.media_base_url, None);
    assert_eq!(c.architecture, Some("amd64".to_string()));
    assert!(c.components.is_empty());
}

#[test]
fn timestamp_and_calendar_date_are_the_same_instant() {
    let text = "Version: '0.12'\n---\nID: a\nReleases:\n  - version: '1'\n    unix-timestamp: 1560988800\n  - version: '2'\n    date: \"2019-06-20\"\n  - version: '3'\n    date: \"1560988800\"\n  - version: '4'\n    unix-timestamp: \"2019-06-20\"\n";
    let c = Collection::from_yaml_str(text).unwrap();
    let releases = &c.components[0].releases;
    assert_eq!(releases.len(), 4);
    for release in releases {
        assert_eq!(release.date, Some(UtcInstant { seconds: 1_560_988_800 }));
    }
    assert_eq!(
        Utc.timestamp_opt(1_560_988_800, 0).unwrap(),
        Utc.with_ymd_and_hms(2019, 6, 20, 0, 0, 0).unwrap()
    );
}

#[test]
fn release_fields_are_read() {
    let text = "Version: '0.12'\n---\nID: a\nReleases:\n  - version: 1.5\n    type: development\n    urgency: critical\n";
    let c = Collection::from_yaml_str(text).unwrap();
    let release = &c.components[0].releases[0];
    assert_eq!(release.version, "1.5");
    assert_eq!(release.kind, Some(ReleaseKind::Development));
    assert_eq!(release.urgency, Some(ReleaseUrgency::Critical));
    assert_eq!(release.date, None);
}

#[test]
fn unparsable_date_names_the_field() {
    let text = "Version: '0.12'\n---\nID: a\nReleases:\n  - version: '1'\n    date: yesterday\n";
    assert_eq!(
        Collection::from_yaml_str(text),
        Err(ParseError::InvalidValue("yesterday".into(), "date".into(), "release".into()))
    );
    let text = "Version: '0.12'\n---\nID: a\nReleases:\n  - version: '1'\n    unix-timestamp: soon\n";
    assert_eq!(
        Collection::from_yaml_str(text),
        Err(ParseError::InvalidValue("soon".into(), "unix-timestamp".into(), "release".into()))
    );
}

#[test]
fn missing_version_is_a_missing_attribute() {
    let expected = Err(ParseError::MissingAttribute("version".into(), "collection".into()));
    assert_eq!(Collection::from_yaml_str("Origin: somewhere\n"), expected);
    assert_eq!(Collection::from_yaml_str(""), expected);
    assert_eq!(Collection::from_documents(&vec![]), expected);
}

#[test]
fn missing_id_is_a_missing_tag() {
    assert_eq!(
        Collection::from_yaml_str("Version: '0.12'\n---\nType: generic\nName:\n  C: x\n"),
        Err(ParseError::MissingTag("id".into()))
    );
    assert_eq!(
        Collection::from_yaml_str("Version: '0.12'\n---\nID:\n  - a\n"),
        Err(ParseError::MissingValue("id".into()))
    );
}

#[test]
fn unknown_type_is_an_invalid_value() {
    assert_eq!(
        Collection::from_yaml_str("Version: '0.12'\n---\nType: gadget\nID: a\n"),
        Err(ParseError::InvalidValue("gadget".into(), "type".into(), "component".into()))
    );
}

#[test]
fn unknown_category_is_kept() {
    let c = Collection::from_yaml_str("Version: '0.12'\n---\nID: a\nCategories:\n  - mycustomcat\n  - Game\n  - mycustomcat\n").unwrap();
    assert_eq!(
        c.components[0].categories,
        vec![Category::Unknown("mycustomcat".into()), Category::Game]
    );
}

#[test]
fn unknown_keys_are_ignored() {
    let c = Collection::from_yaml_str("Version: '0.12'\nFuture: 1\n---\nID: a\nFutureKey:\n  - 1\n42: x\n").unwrap();
    assert_eq!(c.components[0], ComponentBuilder::default().id("a".into()).build());
}

#[test]
fn a_failure_anywhere_aborts_the_whole_parse() {
    let text = "Version: '0.12'\n---\nID: a\n---\nID: b\nProjectLicense:\n  - x\n---\nID: c\n";
    assert_eq!(Collection::from_yaml_str(text), Err(ParseError::MissingValue("license".into())));
}

#[test]
fn remote_media_are_joined_to_the_base_as_text() {
    let text = "Version: '0.12'\nMediaBaseUrl: https://example.org/media\n---\nID: a\nIcon:\n  remote:\n    - url: /icons/a.png\n      width: big\n";
    let c = Collection::from_yaml_str(text).unwrap();
    assert_eq!(
        c.components[0].icons,
        vec![Icon::Remote {
            url: "https://example.org/media/icons/a.png".into(),
            width: None,
            height: None
        }]
    );
    let text = "Version: '0.12'\nMediaBaseUrl: https://example.org/media/\n---\nID: a\nIcon:\n  remote:\n    - url: /icons/a.png\n";
    let c = Collection::from_yaml_str(text).unwrap();
    assert_eq!(
        c.components[0].icons,
        vec![Icon::Remote {
            url: "https://example.org/media//icons/a.png".into(),
            width: None,
            height: None
        }]
    );
    assert_eq!(media("x.png"), "https://metadata.tanglu.org/appstream/media/x.png");
}

#[test]
fn relative_media_without_a_base_fail() {
    let text = "Version: '0.12'\n---\nID: a\nIcon:\n  remote:\n    - url: icons/a.png\n";
    assert_eq!(Collection::from_yaml_str(text), Err(ParseError::UrlParseFailure));
}

#[test]
fn icon_errors() {
    let text = "Version: '0.12'\n---\nID: a\nIcon:\n  stock:\n    - x\n";
    assert_eq!(Collection::from_yaml_str(text), Err(ParseError::MissingValue("stock_icon".into())));
    let text = "Version: '0.12'\n---\nID: a\nIcon:\n  cached:\n    - width: 3\n";
    assert_eq!(Collection::from_yaml_str(text), Err(ParseError::MissingValue("icon_name".into())));
    let text = "Version: '0.12'\n---\nID: a\nIcon: x\n";
    assert_eq!(Collection::from_yaml_str(text), Err(ParseError::MissingValue("icon".into())));
}

#[test]
fn malformed_text_is_a_malformed_tree() {
    assert_eq!(Collection::from_yaml_str("a: [1, 2\nb: }"), Err(ParseError::MalformedTree));
    assert_eq!(Collection::from_yaml_bytes(&[0x56, 0xff, 0xfe]), Err(ParseError::MalformedTree));
}

#[test]
fn documents_can_be_given_as_a_tree() {
    let header = YamlNode::Mapping(vec![(
        YamlNode::Text("Version".into()),
        YamlNode::Text("1.0".into()),
    )]);
    let component = YamlNode::Mapping(vec![
        (YamlNode::Text("ID".into()), YamlNode::Text("a".into())),
        (YamlNode::Text("Package".into()), YamlNode::Text("pkg-a".into())),
    ]);
    let c = Collection::from_documents(&vec![header, component]).unwrap();
    assert_eq!(
        c,
        CollectionBuilder::new("1.0")
            .component(ComponentBuilder::default().id("a".into()).pkgname("pkg-a").build())
            .build()
    );
}
