use appstream::collection::Collection;
use flate2::write::GzEncoder;
use flate2::Compression;
use std::error::Error;
use std::io::Write;

fn gzip(content: &[u8]) -> Vec<u8> {
    let mut encoder = GzEncoder::new(Vec::new(), Compression::default());
    encoder.write_all(content).unwrap();
    encoder.finish().unwrap()
}

/// A markup collection of `count` desktop applications of a flatpak repository.
fn markup_repository(count: usize, origin: Option<&str>) -> String {
    let mut text = String::from("<?xml version=\"1.0\" encoding=\"UTF-8\"?>\n");
    match origin {
        Some(origin) => text.push_str(&format!("<components version=\"0.8\" origin=\"{}\">\n", origin)),
        None => text.push_str("<components version=\"0.8\">\n"),
    }
    for n in 0..count {
        text.push_str(&format!(
            "  <component type=\"desktop\">\n    <id>org.example.App{n}.desktop</id>\n    <name>App {n}</name>\n    <name xml:lang=\"de\">Anwendung {n}</name>\n    <summary>The application number {n}</summary>\n    <description><p>First paragraph of {n}.</p><ul><li>One</li><li>Two</li></ul></description>\n    <project_license>GPL-3.0+</project_license>\n    <icon type=\"cached\" height=\"64\" width=\"64\">org.example.App{n}.png</icon>\n    <categories><category>Utility</category><category>X-Shelf-{n}</category></categories>\n    <url type=\"homepage\">https://example.org/apps/{n}</url>\n    <screenshots><screenshot type=\"default\"><image type=\"source\" width=\"1024\" height=\"768\">https://example.org/apps/{n}/shot.png</image></screenshot></screenshots>\n    <releases><release version=\"1.{n}\" timestamp=\"1560988800\"/></releases>\n    <bundle type=\"flatpak\" runtime=\"org.gnome.Platform/x86_64/3.32\" sdk=\"org.gnome.Sdk/x86_64/3.32\">app/org.example.App{n}/x86_64/stable</bundle>\n    <launchable type=\"desktop-id\">org.example.App{n}.desktop</launchable>\n    <metadata><value key=\"X-Position\">{n}</value></metadata>\n  </component>\n",
            n = n
        ));
    }
    text.push_str("</components>\n");
    text
}

/// A key-mapping collection of `count` components.
fn key_mapping_repository(count: usize) -> String {
    let mut text = String::from("---\nFile: DEP-11\nVersion: '0.12'\nOrigin: ubuntu-main\nMediaBaseUrl: https://appstream.example.org/media/\n");
    for n in 0..count {
        text.push_str(&format!(
            "---\nType: desktop-application\nID: org.example.App{n}\nPackage: app{n}\nName:\n  C: App {n}\n  de: Anwendung {n}\nSummary:\n  C: The application number {n}\nCategories:\n  - Utility\nIcon:\n  cached:\n    - name: app{n}.png\n      width: 64\n      height: 64\n  remote:\n    - url: a/app{n}/icons/64x64/app{n}.png\n      width: 64\n      height: 64\nReleases:\n  - version: '1.{n}'\n    unix-timestamp: 1560988800\n",
            n = n
        ));
    }
    text
}

#[test]
fn flathub_latest_collection() -> Result<(), Box<dyn Error>> {
    let c1 = Collection::from_gzipped_bytes(&gzip(markup_repository(1420, Some("flatpak")).as_bytes()))
        .map_err(|e| e.message())?;
    assert_eq!(c1.components.len(), 1420);
    assert_eq!(c1.clone(), c1);
    Ok(())
}

#[test]
fn ubuntu_latest_yaml_collection() -> Result<(), Box<dyn Error>> {
    let c1 = Collection::from_yaml_gzipped_bytes(&gzip(key_mapping_repository(94).as_bytes()))
        .map_err(|e| e.message())?;
    assert_eq!(c1.components.len(), 94);
    Ok(())
}

#[test]
fn flathub_beta_collection() -> Result<(), Box<dyn Error>> {
    let c1 = Collection::from_gzipped_bytes(&gzip(markup_repository(149, Some("flatpak")).as_bytes()))
        .map_err(|e| e.message())?;
    assert_eq!(c1.components.len(), 149);
    assert_eq!(c1.clone(), c1);
    Ok(())
}

#[test]
fn endless_os_collection() -> Result<(), Box<dyn Error>> {
    let collection = Collection::from_xml_bytes(markup_repository(631, Some("flatpak")).as_bytes())
        .map_err(|e| e.message())?;

    assert_eq!(631, collection.components.len());
    assert_eq!(Some("flatpak".into()), collection.origin);
    assert_eq!("0.8", collection.version);
    assert_eq!(collection.clone(), collection);
    Ok(())
}

#[test]
fn gnome_collection() -> Result<(), Box<dyn Error>> {
    let collection = Collection::from_xml_bytes(markup_repository(24, Some("flatpak")).as_bytes())
        .map_err(|e| e.message())?;

    assert_eq!(24, collection.components.len());
    assert_eq!(Some("flatpak".into()), collection.origin);
    assert_eq!("0.8", collection.version);
    assert_eq!(collection.clone(), collection);
    Ok(())
}

#[test]
fn kde_collection() -> Result<(), Box<dyn Error>> {
    let collection = Collection::from_xml_bytes(markup_repository(69, Some("flatpak")).as_bytes())
        .map_err(|e| e.message())?;
    assert_eq!(69, collection.components.len());
    assert_eq!(Some("flatpak".into()), collection.origin);
    assert_eq!("0.8", collection.version);
    assert_eq!(collection.clone(), collection);
    Ok(())
}

#[test]
fn flathub_collection() -> Result<(), Box<dyn Error>> {
    let collection = Collection::from_xml_bytes(markup_repository(376, Some("flatpak")).as_bytes())
        .map_err(|e| e.message())?;
    assert_eq!(376, collection.components.len());
    assert_eq!(Some("flatpak".into()), collection.origin);
    assert_eq!("0.8", collection.version);
    assert_eq!(collection.clone(), collection);
    Ok(())
}

#[test]
fn gnome_nightly_collection() -> Result<(), Box<dyn Error>> {
    let collection = Collection::from_xml_bytes(markup_repository(58, Some("flatpak")).as_bytes())
        .map_err(|e| e.message())?;
    assert_eq!(58, collection.components.len());
    assert_eq!(Some("flatpak".into()), collection.origin);
    assert_eq!("0.8", collection.version);
    assert_eq!(collection.clone(), collection);
    Ok(())
}

#[test]
fn components_of_a_repository_are_read_whole() {
    let collection = Collection::from_xml_bytes(markup_repository(3, None).as_bytes()).unwrap();
    assert_eq!(collection.origin, None);
    let second = &collection.components[1];
    assert_eq!(second.id.0, "org.example.App1.desktop");
    assert_eq!(
        second.description.as_text().default_text(),
        "<p>First paragraph of 1.</p><ul><li>One</li><li>Two</li></ul>"
    );
    assert_eq!(second.metadata.get("X-Position"), Some(&Some("1".to_string())));
    assert_eq!(collection.find_by_id("org.example.App1".into()), vec![second]);
    assert_eq!(collection.find_by_id("org.example.App1.desktop".into()), vec![second]);
    assert!(collection.find_by_id("org.example.App3".into()).is_empty());

    let mapped = Collection::from_yaml_str(&key_mapping_repository(2)).unwrap();
    assert_eq!(mapped.components[1].origin, Some("ubuntu-main".to_string()));
    assert_eq!(mapped.components[1].pkgname, Some("app1".to_string()));
    assert_eq!(mapped.components[1].icons.len(), 2);
}
