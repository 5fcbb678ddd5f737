use appstream::collection::Collection;
use appstream::model::{AppId, Component};

fn collection_of(ids: &[&str]) -> Collection {
    Collection {
        version: "0.10".to_string(),
        origin: None,
        media_base_url: None,
        components: ids.iter().map(|id| Component::blank(AppId::from(*id))).collect(),
        architecture: None,
    }
}

#[test]
fn find_by_id_returns_the_only_match() {
    let c = collection_of(&["org.mozilla.Firefox"]);
    let found = c.find_by_id("org.mozilla.Firefox".into());
    assert_eq!(found.len(), 1);
    assert_eq!(found[0].id, AppId::from("org.mozilla.Firefox"));
}

#[test]
fn find_by_id_follows_the_desktop_alias() {
    let c = collection_of(&["org.mozilla.Firefox", "org.gnome.Maps", "org.mozilla.Firefox.desktop"]);
    let found = c.find_by_id("org.mozilla.Firefox".into());
    assert_eq!(found.len(), 2);
    assert_eq!(found[0].id, AppId::from("org.mozilla.Firefox"));
    assert_eq!(found[1].id, AppId::from("org.mozilla.Firefox.desktop"));
    assert!(std::ptr::eq(found[0], &c.components[0]));
    assert!(std::ptr::eq(found[1], &c.components[2]));
}

#[test]
fn find_by_id_does_not_strip_the_suffix() {
    let c = collection_of(&["org.mozilla.Firefox"]);
    assert!(c.find_by_id("org.mozilla.Firefox.desktop".into()).is_empty());
    assert!(c.find_by_id("org.mozilla".into()).is_empty());
}
