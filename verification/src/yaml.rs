//! The key-mapping mapper: from decoded documents to a collection.

use vstd::prelude::*;
use vstd::string::StrSliceExecFns;
use crate::collection::Collection;
use crate::enums::{Category, ComponentKind, Icon, IconView, ImageKind, Label, ReleaseKind, ReleaseUrgency};
use crate::error::{ParseError, ParseFault};
use crate::fold::{
    collecting, lemma_fold_all, lemma_fold_failed, lemma_fold_next, lemma_fold_none, seen,
    seen_plain, try_fold, try_map,
};
use crate::model::{
    all_versioned, AppId, CollectionView, Component, ComponentView, Image, ImageView, License, Release,
    ReleaseView, Screenshot, ScreenshotView, UtcInstant,
};
use crate::sets::{add_categories, has_word, insert_once, once_step};
use crate::resolve::{date_of, deserialize_date, media_url, resolve_media};
use crate::text::{owned, owned_option, same_text};
use crate::translatable::{
    MarkupTranslatableString, TranslatableList, TranslatableString, TranslatedList,
    TranslatedText,
};
use crate::yaml_tree::{entry, has_entry, YamlNode, YamlValue};

verus! {

/// A pixel dimension under `key`: an integer that fits, else nothing.
pub open spec fn dimension(item: YamlValue, key: Seq<char>) -> Option<u32> {
    match item.get(key).as_integer() {
        Some(n) => if 0 <= n <= u32::MAX {
            Some(n as u32)
        } else {
            None
        },
        None => None,
    }
}

/// The step that writes one entry of a locale mapping into a text:
/// the key is the locale tag, the value the text; other entries change nothing.
pub open spec fn text_step() -> spec_fn(TranslatedText, (YamlValue, YamlValue)) -> TranslatedText {
    |sofar: TranslatedText, e: (YamlValue, YamlValue)|
        match (e.0.as_text(), e.1.as_text()) {
            (Some(tag), Some(text)) => sofar.with(Some(tag), text),
            _ => sofar,
        }
}

/// `sofar` after each entry of the locale mapping `value` was written
/// into it, in order; a value that is no mapping changes nothing.
pub open spec fn merged_text(sofar: TranslatedText, value: YamlValue) -> TranslatedText {
    match value.as_mapping() {
        Some(entries) => entries.fold_left(sofar, text_step()),
        None => sofar,
    }
}

/// The text items of a list node, in order.
pub open spec fn words_of(value: YamlValue) -> Option<Seq<Seq<char>>> {
    match value.as_list() {
        Some(items) => Some(items.filter_map(|v: YamlValue| v.as_text())),
        None => None,
    }
}

/// The step that writes one entry of a locale mapping into a list of
/// words: the key is the locale tag, the value the words that replace
/// what the locale had; other entries change nothing.
pub open spec fn list_step() -> spec_fn(TranslatedList, (YamlValue, YamlValue)) -> TranslatedList {
    |sofar: TranslatedList, e: (YamlValue, YamlValue)|
        match (e.0.as_text(), words_of(e.1)) {
            (Some(tag), Some(words)) => sofar.with_words(Some(tag), words),
            _ => sofar,
        }
}

/// `sofar` after each entry of the locale mapping `value` was written into it, in order.
pub open spec fn merged_list(sofar: TranslatedList, value: YamlValue) -> TranslatedList {
    match value.as_mapping() {
        Some(entries) => entries.fold_left(sofar, list_step()),
        None => sofar,
    }
}

/// A pixel dimension under `key`; a value that is no integer, or does
/// not fit, counts as absent.
pub fn read_dimension(item: &YamlNode, key: &str) -> (r: Option<u32>)
    ensures
        r == dimension(item.deep_view(), key@),
{
    match item.get(key) {
        Some(node) => match node.as_i64() {
            Some(n) => {
                if 0 <= n && n <= 4_294_967_295 {
                    Some(n as u32)
                } else {
                    None
                }
            },
            None => None,
        },
        None => None,
    }
}

/// Writes each entry of the locale mapping `value` into `target`.
pub fn merge_text(target: &mut TranslatableString, value: &YamlNode)
    ensures
        final(target).deep_view() == merged_text(old(target).deep_view(), value.deep_view()),
{
    let entries = match value.as_hash() {
        Some(entries) => entries,
        None => {
            return ;
        },
    };
    let ghost start = target.deep_view();
    let ghost all = entries.deep_view();
    let mut i: usize = 0;
    assert(all.take(0) =~= Seq::empty());
    while i < entries.len()
        invariant
            i <= entries.len(),
            all == entries.deep_view(),
            target.deep_view() == all.take(i as int).fold_left(start, text_step()),
        decreases entries.len() - i,
    {
        proof {
            assert(all.take(i + 1).drop_last() =~= all.take(i as int));
            assert(all.take(i + 1).last() == all[i as int]);
        }
        match (entries[i].0.as_str(), entries[i].1.as_str()) {
            (Some(tag), Some(text)) => {
                target.add_for_locale(Some(tag), text);
            },
            _ => {},
        }
        i = i + 1;
    }
    assert(all.take(i as int) =~= all);
}

/// Writes each entry of the locale mapping `value` into `target`.
pub fn merge_markup(target: &mut MarkupTranslatableString, value: &YamlNode)
    ensures
        final(target).deep_view() == merged_text(old(target).deep_view(), value.deep_view()),
{
    let entries = match value.as_hash() {
        Some(entries) => entries,
        None => {
            return ;
        },
    };
    let ghost start = target.deep_view();
    let ghost all = entries.deep_view();
    let mut i: usize = 0;
    assert(all.take(0) =~= Seq::empty());
    while i < entries.len()
        invariant
            i <= entries.len(),
            all == entries.deep_view(),
            target.deep_view() == all.take(i as int).fold_left(start, text_step()),
        decreases entries.len() - i,
    {
        proof {
            assert(all.take(i + 1).drop_last() =~= all.take(i as int));
            assert(all.take(i + 1).last() == all[i as int]);
        }
        match (entries[i].0.as_str(), entries[i].1.as_str()) {
            (Some(tag), Some(text)) => {
                target.add_for_locale(Some(tag), text);
            },
            _ => {},
        }
        i = i + 1;
    }
    assert(all.take(i as int) =~= all);
}

/// The text items of a list node, in order; nothing where the node is no list.
pub fn read_words(value: &YamlNode) -> (r: Option<Vec<String>>)
    ensures
        r.deep_view() == words_of(value.deep_view()),
{
    let items = match value.as_vec() {
        Some(items) => items,
        None => {
            return None;
        },
    };
    let ghost all = items.deep_view();
    let ghost pick = |v: YamlValue| v.as_text();
    let mut words: Vec<String> = Vec::new();
    let mut i: usize = 0;
    assert(all.take(0) =~= Seq::empty());
    assert(words.deep_view() =~= all.take(0).filter_map(pick));
    while i < items.len()
        invariant
            i <= items.len(),
            all == items.deep_view(),
            pick == (|v: YamlValue| v.as_text()),
            words.deep_view() == all.take(i as int).filter_map(pick),
        decreases items.len() - i,
    {
        proof {
            assert(all.take(i + 1).drop_last() =~= all.take(i as int));
            assert(all.take(i + 1).last() == all[i as int]);
        }
        let ghost before = words.deep_view();
        match items[i].as_str() {
            Some(word) => {
                words.push(owned(word));
                assert(words.deep_view() =~= before + seq![word@]);
            },
            None => {},
        }
        i = i + 1;
    }
    assert(all.take(i as int) =~= all);
    Some(words)
}

/// Writes each entry of the locale mapping `value` into `target`.
pub fn merge_list(target: &mut TranslatableList, value: &YamlNode)
    ensures
        final(target).deep_view() == merged_list(old(target).deep_view(), value.deep_view()),
{
    let entries = match value.as_hash() {
        Some(entries) => entries,
        None => {
            return ;
        },
    };
    let ghost start = target.deep_view();
    let ghost all = entries.deep_view();
    let mut i: usize = 0;
    assert(all.take(0) =~= Seq::empty());
    while i < entries.len()
        invariant
            i <= entries.len(),
            all == entries.deep_view(),
            target.deep_view() == all.take(i as int).fold_left(start, list_step()),
        decreases entries.len() - i,
    {
        proof {
            assert(all.take(i + 1).drop_last() =~= all.take(i as int));
            assert(all.take(i + 1).last() == all[i as int]);
        }
        match entries[i].0.as_str() {
            Some(tag) => match read_words(&entries[i].1) {
                Some(words) => {
                    target.set_for_locale(Some(tag), words);
                },
                None => {},
            },
            None => {},
        }
        i = i + 1;
    }
    assert(all.take(i as int) =~= all);
}

/// The text under `key`, or the failure that names `field` where
/// there is no text under it.
pub open spec fn required_text(item: YamlValue, key: Seq<char>, field: Seq<char>) -> Result<
    Seq<char>,
    ParseFault,
> {
    match item.get(key).as_text() {
        Some(text) => Ok(text),
        None => Err(ParseFault::MissingValue(field)),
    }
}

/// The icon that one entry of an icon list describes. A remote icon
/// gives an address relative to `base`; the others give a file name.
pub open spec fn icon_of(kind: Seq<char>, item: YamlValue, base: Option<Seq<char>>) -> Result<
    IconView,
    ParseFault,
> {
    let width = dimension(item, "width"@);
    let height = dimension(item, "height"@);
    if kind == "remote"@ {
        match required_text(item, "url"@, "icon_name"@) {
            Ok(relative) => match media_url(base, relative) {
                Ok(url) => Ok(IconView::Remote { url, width, height }),
                Err(e) => Err(e),
            },
            Err(e) => Err(e),
        }
    } else {
        match required_text(item, "name"@, "icon_name"@) {
            Ok(path) => Ok(
                if kind == "cached"@ {
                    IconView::Cached { path, width, height }
                } else {
                    IconView::Local { path, width, height }
                },
            ),
            Err(e) => Err(e),
        }
    }
}

/// [`icon_of`] for a fixed kind and base.
pub open spec fn icon_maker(kind: Seq<char>, base: Option<Seq<char>>) -> spec_fn(
    YamlValue,
) -> Result<IconView, ParseFault> {
    |item: YamlValue| icon_of(kind, item, base)
}

/// The icons under one kind key: a stock icon is a name, every other
/// kind a list of entries.
pub open spec fn icons_of_kind(kind: Seq<char>, value: YamlValue, base: Option<Seq<char>>) -> Result<
    Seq<IconView>,
    ParseFault,
> {
    if kind == "stock"@ {
        match value.as_text() {
            Some(name) => Ok(seq![IconView::Stock(name)]),
            None => Err(ParseFault::MissingValue("stock_icon"@)),
        }
    } else {
        match value.as_list() {
            Some(items) => try_map(items, icon_maker(kind, base)),
            None => Err(ParseFault::MissingValue("icon"@)),
        }
    }
}

/// The step that appends the icons of one kind key; a key that is no text is passed over.
pub open spec fn icon_step(base: Option<Seq<char>>) -> spec_fn(
    Seq<IconView>,
    (YamlValue, YamlValue),
) -> Result<Seq<IconView>, ParseFault> {
    |sofar: Seq<IconView>, e: (YamlValue, YamlValue)|
        match e.0.as_text() {
            Some(kind) => match icons_of_kind(kind, e.1, base) {
                Ok(more) => Ok(sofar + more),
                Err(e) => Err(e),
            },
            None => Ok(sofar),
        }
}

/// The icons that an `Icon` value describes, kind by kind in document order.
pub open spec fn icons_of(value: YamlValue, base: Option<Seq<char>>) -> Result<
    Seq<IconView>,
    ParseFault,
> {
    match value.as_mapping() {
        Some(kinds) => try_fold(kinds, Seq::<IconView>::empty(), icon_step(base)),
        None => Err(ParseFault::MissingValue("icon"@)),
    }
}

/// The text under `key`, or the failure that names `field`.
pub fn read_required_text<'a>(item: &'a YamlNode, key: &str, field: &str) -> (r: Result<
    &'a str,
    ParseError,
>)
    ensures
        match r {
            Ok(text) => required_text(item.deep_view(), key@, field@) == Ok::<
                Seq<char>,
                ParseFault,
            >(text@),
            Err(e) => required_text(item.deep_view(), key@, field@) == Err::<
                Seq<char>,
                ParseFault,
            >(e.deep_view()),
        },
{
    match item.get(key) {
        Some(node) => match node.as_str() {
            Some(text) => Ok(text),
            None => Err(ParseError::missing_value(field)),
        },
        None => Err(ParseError::missing_value(field)),
    }
}

/// The icon that one entry of an icon list of the kind `kind` describes.
pub fn read_icon(kind: &str, item: &YamlNode, base: &Option<String>) -> (r: Result<
    Icon,
    ParseError,
>)
    ensures
        seen(r) == icon_of(kind@, item.deep_view(), base.deep_view()),
{
    let width = read_dimension(item, "width");
    let height = read_dimension(item, "height");
    if crate::text::same_text(kind, "remote") {
        let relative = read_required_text(item, "url", "icon_name")?;
        let url = resolve_media(base, relative)?;
        Ok(Icon::Remote { url, width, height })
    } else {
        let name = read_required_text(item, "name", "icon_name")?;
        if crate::text::same_text(kind, "cached") {
            Ok(Icon::Cached { path: owned(name), width, height })
        } else {
            Ok(Icon::Local { path: owned(name), width, height })
        }
    }
}

/// The icons under the kind key `kind`.
pub fn read_icons_of_kind(kind: &str, value: &YamlNode, base: &Option<String>) -> (r: Result<
    Vec<Icon>,
    ParseError,
>)
    ensures
        seen(r) == icons_of_kind(kind@, value.deep_view(), base.deep_view()),
{
    if crate::text::same_text(kind, "stock") {
        return match value.as_str() {
            Some(name) => {
                let mut one: Vec<Icon> = Vec::new();
                one.push(Icon::Stock(owned(name)));
                assert(one.deep_view() =~= seq![IconView::Stock(name@)]);
                Ok(one)
            },
            None => Err(ParseError::missing_value("stock_icon")),
        };
    }
    let items = match value.as_vec() {
        Some(items) => items,
        None => {
            return Err(ParseError::missing_value("icon"));
        },
    };
    let ghost all = items.deep_view();
    let ghost step = collecting(icon_maker(kind@, base.deep_view()));
    let mut out: Vec<Icon> = Vec::new();
    let mut i: usize = 0;
    proof {
        lemma_fold_none(all, Seq::<IconView>::empty(), step);
        assert(out.deep_view() =~= Seq::<IconView>::empty());
    }
    while i < items.len()
        invariant
            i <= items.len(),
            all == items.deep_view(),
            kind@ != "stock"@,
            value.deep_view().as_list() == Some(all),
            step == collecting(icon_maker(kind@, base.deep_view())),
            try_fold(all.take(i as int), Seq::<IconView>::empty(), step) == Ok::<
                Seq<IconView>,
                ParseFault,
            >(out.deep_view()),
        decreases items.len() - i,
    {
        proof {
            lemma_fold_next(all, i as int, Seq::<IconView>::empty(), step);
        }
        let ghost before = out.deep_view();
        match read_icon(kind, &items[i], base) {
            Ok(icon) => {
                out.push(icon);
                assert(out.deep_view() =~= before.push(icon.deep_view()));
            },
            Err(e) => {
                proof {
                    lemma_fold_failed(all, i + 1, Seq::<IconView>::empty(), step);
                }
                return Err(e);
            },
        }
        i = i + 1;
    }
    proof {
        lemma_fold_all(all, Seq::<IconView>::empty(), step);
    }
    Ok(out)
}

/// The icons that an `Icon` value describes, kind by kind in document order.
pub fn read_icons(value: &YamlNode, base: &Option<String>) -> (r: Result<Vec<Icon>, ParseError>)
    ensures
        seen(r) == icons_of(value.deep_view(), base.deep_view()),
{
    let kinds = match value.as_hash() {
        Some(kinds) => kinds,
        None => {
            return Err(ParseError::missing_value("icon"));
        },
    };
    let ghost all = kinds.deep_view();
    let ghost step = icon_step(base.deep_view());
    let mut out: Vec<Icon> = Vec::new();
    let mut i: usize = 0;
    proof {
        lemma_fold_none(all, Seq::<IconView>::empty(), step);
        assert(out.deep_view() =~= Seq::<IconView>::empty());
    }
    while i < kinds.len()
        invariant
            i <= kinds.len(),
            all == kinds.deep_view(),
            value.deep_view().as_mapping() == Some(all),
            step == icon_step(base.deep_view()),
            try_fold(all.take(i as int), Seq::<IconView>::empty(), step) == Ok::<
                Seq<IconView>,
                ParseFault,
            >(out.deep_view()),
        decreases kinds.len() - i,
    {
        proof {
            lemma_fold_next(all, i as int, Seq::<IconView>::empty(), step);
        }
        match kinds[i].0.as_str() {
            Some(kind) => {
                let ghost before = out.deep_view();
                match read_icons_of_kind(kind, &kinds[i].1, base) {
                    Ok(more) => {
                        let mut more = more;
                        let ghost added = more.deep_view();
                        out.append(&mut more);
                        assert(out.deep_view() =~= before + added);
                    },
                    Err(e) => {
                        proof {
                            lemma_fold_failed(all, i + 1, Seq::<IconView>::empty(), step);
                        }
                        return Err(e);
                    },
                }
            },
            None => {},
        }
        i = i + 1;
    }
    proof {
        lemma_fold_all(all, Seq::<IconView>::empty(), step);
    }
    Ok(out)
}

/// The image that an entry describes; its address is relative to `base`.
pub open spec fn image_of(item: YamlValue, kind: ImageKind, base: Option<Seq<char>>) -> Result<
    ImageView,
    ParseFault,
> {
    match required_text(item, "url"@, "url"@) {
        Ok(relative) => match media_url(base, relative) {
            Ok(url) => Ok(
                ImageView {
                    kind,
                    width: dimension(item, "width"@),
                    height: dimension(item, "height"@),
                    url,
                },
            ),
            Err(e) => Err(e),
        },
        Err(e) => Err(e),
    }
}

/// [`image_of`] for a fixed kind and base.
pub open spec fn image_maker(kind: ImageKind, base: Option<Seq<char>>) -> spec_fn(
    YamlValue,
) -> Result<ImageView, ParseFault> {
    |item: YamlValue| image_of(item, kind, base)
}

/// The reduced images of a screenshot; none where it lists none.
pub open spec fn thumbnails_of(item: YamlValue, base: Option<Seq<char>>) -> Result<
    Seq<ImageView>,
    ParseFault,
> {
    match item.get("thumbnails"@).as_list() {
        Some(items) => try_map(items, image_maker(ImageKind::Thumbnail, base)),
        None => Ok(Seq::empty()),
    }
}

/// The full-size image of a screenshot, where it has one.
pub open spec fn source_image_of(item: YamlValue, base: Option<Seq<char>>) -> Result<
    Seq<ImageView>,
    ParseFault,
> {
    let source = item.get("source-image"@);
    if source.as_mapping() is Some {
        match image_of(source, ImageKind::Source, base) {
            Ok(image) => Ok(seq![image]),
            Err(e) => Err(e),
        }
    } else {
        Ok(Seq::empty())
    }
}

/// The screenshot that an entry describes: it is the default one
/// unless the entry says otherwise, and its reduced images come before
/// the full-size one.
pub open spec fn screenshot_of(item: YamlValue, base: Option<Seq<char>>) -> Result<
    ScreenshotView,
    ParseFault,
> {
    match thumbnails_of(item, base) {
        Ok(thumbnails) => match source_image_of(item, base) {
            Ok(source) => Ok(
                ScreenshotView {
                    is_default: match item.get("default"@).as_boolean() {
                        Some(flag) => flag,
                        None => true,
                    },
                    caption: merged_text(TranslatedText::empty(), item.get("caption"@)),
                    images: thumbnails + source,
                },
            ),
            Err(e) => Err(e),
        },
        Err(e) => Err(e),
    }
}

/// [`screenshot_of`] for a fixed base.
pub open spec fn screenshot_maker(base: Option<Seq<char>>) -> spec_fn(YamlValue) -> Result<
    ScreenshotView,
    ParseFault,
> {
    |item: YamlValue| screenshot_of(item, base)
}

/// The text of a scalar that was written as text or as a number with a fraction.
pub open spec fn scalar_text(value: YamlValue) -> Option<Seq<char>> {
    match value {
        YamlValue::Text(s) => Some(s),
        YamlValue::Real(s) => Some(s),
        _ => None,
    }
}

/// The kind of a release, where the entry names one.
pub open spec fn release_kind_of(item: YamlValue) -> Result<Option<ReleaseKind>, ParseFault> {
    match item.get("type"@).as_text() {
        Some(token) => match ReleaseKind::of_token(token) {
            Some(kind) => Ok(Some(kind)),
            None => Err(ParseFault::InvalidValue(token, "type"@, "release"@)),
        },
        None => Ok(None),
    }
}

/// The urgency of a release, where the entry names one.
pub open spec fn release_urgency_of(item: YamlValue) -> Result<Option<ReleaseUrgency>, ParseFault> {
    match item.get("urgency"@).as_text() {
        Some(token) => match ReleaseUrgency::of_token(token) {
            Some(urgency) => Ok(Some(urgency)),
            None => Err(ParseFault::InvalidValue(token, "urgency"@, "release"@)),
        },
        None => Ok(None),
    }
}

/// The moment that a date field holds: an integer counts seconds since
/// the epoch, a text is read as a date, an absent field gives nothing.
pub open spec fn moment_of(node: YamlValue, field: Seq<char>) -> Result<
    Option<UtcInstant>,
    ParseFault,
> {
    match node {
        YamlValue::Integer(seconds) => Ok(Some(UtcInstant { seconds })),
        YamlValue::Text(text) => match date_of(text) {
            Some(moment) => Ok(Some(moment)),
            None => Err(ParseFault::InvalidValue(text, field, "release"@)),
        },
        YamlValue::Bad => Ok(None),
        _ => Err(ParseFault::MissingValue(field)),
    }
}

/// The date of a release: its `unix-timestamp` where it has one, else its `date`.
pub open spec fn release_date_of(item: YamlValue) -> Result<Option<UtcInstant>, ParseFault> {
    match moment_of(item.get("unix-timestamp"@), "unix-timestamp"@) {
        Ok(Some(moment)) => Ok(Some(moment)),
        Ok(None) => moment_of(item.get("date"@), "date"@),
        Err(e) => Err(e),
    }
}

/// The release that an entry describes; its version is required and not empty.
pub open spec fn release_of(item: YamlValue) -> Result<ReleaseView, ParseFault> {
    match scalar_text(item.get("version"@)) {
        Some(version) => if version.len() == 0 {
            Err(ParseFault::MissingValue("version"@))
        } else {
            match release_kind_of(item) {
                Ok(kind) => match release_date_of(item) {
                    Ok(date) => match release_urgency_of(item) {
                        Ok(urgency) => Ok(ReleaseView { version, kind, date, urgency }),
                        Err(e) => Err(e),
                    },
                    Err(e) => Err(e),
                },
                Err(e) => Err(e),
            }
        },
        None => Err(ParseFault::MissingValue("version"@)),
    }
}

/// [`release_of`] as a function value.
pub open spec fn release_maker() -> spec_fn(YamlValue) -> Result<ReleaseView, ParseFault> {
    |item: YamlValue| release_of(item)
}

/// The category that a list item names; a token outside the
/// vocabulary is kept as it was written.
pub open spec fn category_of(item: YamlValue) -> Result<Label, ParseFault> {
    match item.as_text() {
        Some(token) => Ok(Category::label_of(token)),
        None => Err(ParseFault::MissingValue("category"@)),
    }
}

/// [`category_of`] as a function value.
pub open spec fn category_maker() -> spec_fn(YamlValue) -> Result<Label, ParseFault> {
    |item: YamlValue| category_of(item)
}

/// The identifier that a node holds.
pub open spec fn id_of(item: YamlValue) -> Result<Seq<char>, ParseFault> {
    match item.as_text() {
        Some(text) => Ok(text),
        None => Err(ParseFault::MissingValue("id"@)),
    }
}

/// [`id_of`] as a function value.
pub open spec fn id_maker() -> spec_fn(YamlValue) -> Result<Seq<char>, ParseFault> {
    |item: YamlValue| id_of(item)
}

/// The licence that a node holds.
pub open spec fn license_of(item: YamlValue) -> Result<Seq<char>, ParseFault> {
    match item.as_text() {
        Some(text) => Ok(text),
        None => Err(ParseFault::MissingValue("license"@)),
    }
}

/// The image that an entry describes; its address is relative to `base`.
pub fn read_image(item: &YamlNode, kind: ImageKind, base: &Option<String>) -> (r: Result<
    Image,
    ParseError,
>)
    ensures
        seen(r) == image_of(item.deep_view(), kind, base.deep_view()),
{
    let relative = read_required_text(item, "url", "url")?;
    let url = resolve_media(base, relative)?;
    Ok(
        Image {
            kind,
            width: read_dimension(item, "width"),
            height: read_dimension(item, "height"),
            url,
        },
    )
}

/// The identifier that a node holds.
pub fn read_app_id(item: &YamlNode) -> (r: Result<AppId, ParseError>)
    ensures
        seen(r) == id_of(item.deep_view()),
{
    match item.as_str() {
        Some(text) => Ok(AppId::new(text)),
        None => Err(ParseError::missing_value("id")),
    }
}

/// The licence that a node holds.
pub fn read_license(item: &YamlNode) -> (r: Result<License, ParseError>)
    ensures
        seen(r) == license_of(item.deep_view()),
{
    match item.as_str() {
        Some(text) => Ok(License::new(text)),
        None => Err(ParseError::missing_value("license")),
    }
}

/// The category that a list item names.
pub fn read_category(item: &YamlNode) -> (r: Result<Category, ParseError>)
    ensures
        seen(r) == category_of(item.deep_view()),
{
    match item.as_str() {
        Some(token) => Ok(Category::from_token(token)),
        None => Err(ParseError::missing_value("category")),
    }
}

/// The kind of a release, where the entry names one.
pub fn read_release_kind(item: &YamlNode) -> (r: Result<Option<ReleaseKind>, ParseError>)
    ensures
        seen_plain(r) == release_kind_of(item.deep_view()),
{
    match item.get("type") {
        Some(node) => match node.as_str() {
            Some(token) => match ReleaseKind::from_token(token) {
                Some(kind) => Ok(Some(kind)),
                None => Err(ParseError::invalid_value(token, "type", "release")),
            },
            None => Ok(None),
        },
        None => Ok(None),
    }
}

/// The urgency of a release, where the entry names one.
pub fn read_release_urgency(item: &YamlNode) -> (r: Result<Option<ReleaseUrgency>, ParseError>)
    ensures
        seen_plain(r) == release_urgency_of(item.deep_view()),
{
    match item.get("urgency") {
        Some(node) => match node.as_str() {
            Some(token) => match ReleaseUrgency::from_token(token) {
                Some(urgency) => Ok(Some(urgency)),
                None => Err(ParseError::invalid_value(token, "urgency", "release")),
            },
            None => Ok(None),
        },
        None => Ok(None),
    }
}

/// The moment that a date field holds.
pub fn read_moment(node: &YamlNode, field: &str) -> (r: Result<Option<UtcInstant>, ParseError>)
    ensures
        seen_plain(r) == moment_of(node.deep_view(), field@),
{
    match node {
        YamlNode::Integer(seconds) => Ok(Some(UtcInstant { seconds: *seconds })),
        YamlNode::Text(text) => match deserialize_date(text.as_str()) {
            Some(moment) => Ok(Some(moment)),
            None => Err(ParseError::invalid_value(text.as_str(), field, "release")),
        },
        YamlNode::Bad => Ok(None),
        _ => Err(ParseError::missing_value(field)),
    }
}

/// The moment under the key `field`, where the entry has that key.
pub fn read_moment_under(item: &YamlNode, field: &str) -> (r: Result<
    Option<UtcInstant>,
    ParseError,
>)
    ensures
        seen_plain(r) == moment_of(item.deep_view().get(field@), field@),
{
    match item.get(field) {
        Some(node) => read_moment(node, field),
        None => Ok(None),
    }
}

/// The date of a release: its `unix-timestamp` where it has one, else its `date`.
pub fn read_release_date(item: &YamlNode) -> (r: Result<Option<UtcInstant>, ParseError>)
    ensures
        seen_plain(r) == release_date_of(item.deep_view()),
{
    match read_moment_under(item, "unix-timestamp")? {
        Some(moment) => Ok(Some(moment)),
        None => read_moment_under(item, "date"),
    }
}

/// The release that an entry describes.
pub fn read_release(item: &YamlNode) -> (r: Result<Release, ParseError>)
    ensures
        seen(r) == release_of(item.deep_view()),
{
    let version = match item.get("version") {
        Some(YamlNode::Text(s)) => s.clone(),
        Some(YamlNode::Real(s)) => s.clone(),
        _ => {
            return Err(ParseError::missing_value("version"));
        },
    };
    if version.as_str().unicode_len() == 0 {
        return Err(ParseError::missing_value("version"));
    }
    let kind = read_release_kind(item)?;
    let date = read_release_date(item)?;
    let urgency = read_release_urgency(item)?;
    Ok(Release { version, kind, date, urgency })
}

/// The images that the entries of a list describe, in order.
pub fn read_images(items: &Vec<YamlNode>, kind: ImageKind, base: &Option<String>) -> (r: Result<Vec<Image>, ParseError>)
    ensures
        seen(r) == try_map(items.deep_view(), image_maker(kind, base.deep_view())),
{
    let ghost all = items.deep_view();
    let ghost step = collecting(image_maker(kind, base.deep_view()));
    let mut out: Vec<Image> = Vec::new();
    let mut i: usize = 0;
    proof {
        lemma_fold_none(all, Seq::<ImageView>::empty(), step);
        assert(out.deep_view() =~= Seq::<ImageView>::empty());
    }
    while i < items.len()
        invariant
            i <= items.len(),
            all == items.deep_view(),
            step == collecting(image_maker(kind, base.deep_view())),
            try_fold(all.take(i as int), Seq::<ImageView>::empty(), step) == Ok::<Seq<ImageView>, ParseFault>(
                out.deep_view(),
            ),
        decreases items.len() - i,
    {
        proof {
            lemma_fold_next(all, i as int, Seq::<ImageView>::empty(), step);
        }
        let ghost before = out.deep_view();
        match read_image(&items[i], kind, base) {
            Ok(made) => {
                out.push(made);
                assert(out.deep_view() =~= before.push(made.deep_view()));
            },
            Err(e) => {
                proof {
                    lemma_fold_failed(all, i + 1, Seq::<ImageView>::empty(), step);
                }
                return Err(e);
            },
        }
        i = i + 1;
    }
    proof {
        lemma_fold_all(all, Seq::<ImageView>::empty(), step);
    }
    Ok(out)
}

/// The screenshot that an entry describes.
pub fn read_screenshot(item: &YamlNode, base: &Option<String>) -> (r: Result<
    Screenshot,
    ParseError,
>)
    ensures
        seen(r) == screenshot_of(item.deep_view(), base.deep_view()),
{
    let mut images: Vec<Image> = Vec::new();
    assert(images.deep_view() =~= Seq::<ImageView>::empty());
    match item.get("thumbnails") {
        Some(node) => match node.as_vec() {
            Some(items) => {
                images = read_images(items, ImageKind::Thumbnail, base)?;
            },
            None => {},
        },
        None => {},
    }
    let ghost thumbnails = images.deep_view();
    assert(thumbnails_of(item.deep_view(), base.deep_view()) == Ok::<Seq<ImageView>, ParseFault>(
        thumbnails,
    ));
    match item.get("source-image") {
        Some(source) => {
            if source.as_hash().is_some() {
                let image = read_image(source, ImageKind::Source, base)?;
                images.push(image);
                assert(images.deep_view() =~= thumbnails + seq![image.deep_view()]);
            } else {
                assert(images.deep_view() =~= thumbnails + Seq::<ImageView>::empty());
            }
        },
        None => {
            assert(images.deep_view() =~= thumbnails + Seq::<ImageView>::empty());
        },
    }
    let is_default = match item.get("default") {
        Some(node) => match node.as_bool() {
            Some(flag) => flag,
            None => true,
        },
        None => true,
    };
    let mut caption = TranslatableString::default();
    match item.get("caption") {
        Some(node) => {
            merge_text(&mut caption, node);
        },
        None => {},
    }
    Ok(Screenshot { is_default, caption, images })
}

/// The screenshots that the entries of a list describe, in order.
pub fn read_screenshots(items: &Vec<YamlNode>, base: &Option<String>) -> (r: Result<Vec<Screenshot>, ParseError>)
    ensures
        seen(r) == try_map(items.deep_view(), screenshot_maker(base.deep_view())),
{
    let ghost all = items.deep_view();
    let ghost step = collecting(screenshot_maker(base.deep_view()));
    let mut out: Vec<Screenshot> = Vec::new();
    let mut i: usize = 0;
    proof {
        lemma_fold_none(all, Seq::<ScreenshotView>::empty(), step);
        assert(out.deep_view() =~= Seq::<ScreenshotView>::empty());
    }
    while i < items.len()
        invariant
            i <= items.len(),
            all == items.deep_view(),
            step == collecting(screenshot_maker(base.deep_view())),
            try_fold(all.take(i as int), Seq::<ScreenshotView>::empty(), step) == Ok::<Seq<ScreenshotView>, ParseFault>(
                out.deep_view(),
            ),
        decreases items.len() - i,
    {
        proof {
            lemma_fold_next(all, i as int, Seq::<ScreenshotView>::empty(), step);
        }
        let ghost before = out.deep_view();
        match read_screenshot(&items[i], base) {
            Ok(made) => {
                out.push(made);
                assert(out.deep_view() =~= before.push(made.deep_view()));
            },
            Err(e) => {
                proof {
                    lemma_fold_failed(all, i + 1, Seq::<ScreenshotView>::empty(), step);
                }
                return Err(e);
            },
        }
        i = i + 1;
    }
    proof {
        lemma_fold_all(all, Seq::<ScreenshotView>::empty(), step);
    }
    Ok(out)
}

/// The releases that the entries of a list describe, in order.
pub fn read_releases(items: &Vec<YamlNode>) -> (r: Result<Vec<Release>, ParseError>)
    ensures
        seen(r) == try_map(items.deep_view(), release_maker()),
        r matches Ok(releases) ==> all_versioned(releases.deep_view()),
{
    let ghost all = items.deep_view();
    let ghost step = collecting(release_maker());
    let mut out: Vec<Release> = Vec::new();
    let mut i: usize = 0;
    proof {
        lemma_fold_none(all, Seq::<ReleaseView>::empty(), step);
        assert(out.deep_view() =~= Seq::<ReleaseView>::empty());
    }
    while i < items.len()
        invariant
            i <= items.len(),
            all == items.deep_view(),
            step == collecting(release_maker()),
            all_versioned(out.deep_view()),
            try_fold(all.take(i as int), Seq::<ReleaseView>::empty(), step) == Ok::<Seq<ReleaseView>, ParseFault>(
                out.deep_view(),
            ),
        decreases items.len() - i,
    {
        proof {
            lemma_fold_next(all, i as int, Seq::<ReleaseView>::empty(), step);
        }
        let ghost before = out.deep_view();
        match read_release(&items[i]) {
            Ok(made) => {
                out.push(made);
                assert(out.deep_view() =~= before.push(made.deep_view()));
            },
            Err(e) => {
                proof {
                    lemma_fold_failed(all, i + 1, Seq::<ReleaseView>::empty(), step);
                }
                return Err(e);
            },
        }
        i = i + 1;
    }
    proof {
        lemma_fold_all(all, Seq::<ReleaseView>::empty(), step);
    }
    Ok(out)
}

/// The categories that the items of a list name, in order.
pub fn read_categories(items: &Vec<YamlNode>) -> (r: Result<Vec<Category>, ParseError>)
    ensures
        seen(r) == try_map(items.deep_view(), category_maker()),
{
    let ghost all = items.deep_view();
    let ghost step = collecting(category_maker());
    let mut out: Vec<Category> = Vec::new();
    let mut i: usize = 0;
    proof {
        lemma_fold_none(all, Seq::<Label>::empty(), step);
        assert(out.deep_view() =~= Seq::<Label>::empty());
    }
    while i < items.len()
        invariant
            i <= items.len(),
            all == items.deep_view(),
            step == collecting(category_maker()),
            try_fold(all.take(i as int), Seq::<Label>::empty(), step) == Ok::<Seq<Label>, ParseFault>(
                out.deep_view(),
            ),
        decreases items.len() - i,
    {
        proof {
            lemma_fold_next(all, i as int, Seq::<Label>::empty(), step);
        }
        let ghost before = out.deep_view();
        match read_category(&items[i]) {
            Ok(made) => {
                out.push(made);
                assert(out.deep_view() =~= before.push(made.deep_view()));
            },
            Err(e) => {
                proof {
                    lemma_fold_failed(all, i + 1, Seq::<Label>::empty(), step);
                }
                return Err(e);
            },
        }
        i = i + 1;
    }
    proof {
        lemma_fold_all(all, Seq::<Label>::empty(), step);
    }
    Ok(out)
}

/// The identifiers that the items of a list hold, in order.
pub fn read_app_ids(items: &Vec<YamlNode>) -> (r: Result<Vec<AppId>, ParseError>)
    ensures
        seen(r) == try_map(items.deep_view(), id_maker()),
{
    let ghost all = items.deep_view();
    let ghost step = collecting(id_maker());
    let mut out: Vec<AppId> = Vec::new();
    let mut i: usize = 0;
    proof {
        lemma_fold_none(all, Seq::<Seq<char>>::empty(), step);
        assert(out.deep_view() =~= Seq::<Seq<char>>::empty());
    }
    while i < items.len()
        invariant
            i <= items.len(),
            all == items.deep_view(),
            step == collecting(id_maker()),
            try_fold(all.take(i as int), Seq::<Seq<char>>::empty(), step) == Ok::<Seq<Seq<char>>, ParseFault>(
                out.deep_view(),
            ),
        decreases items.len() - i,
    {
        proof {
            lemma_fold_next(all, i as int, Seq::<Seq<char>>::empty(), step);
        }
        let ghost before = out.deep_view();
        match read_app_id(&items[i]) {
            Ok(made) => {
                out.push(made);
                assert(out.deep_view() =~= before.push(made.deep_view()));
            },
            Err(e) => {
                proof {
                    lemma_fold_failed(all, i + 1, Seq::<Seq<char>>::empty(), step);
                }
                return Err(e);
            },
        }
        i = i + 1;
    }
    proof {
        lemma_fold_all(all, Seq::<Seq<char>>::empty(), step);
    }
    Ok(out)
}

/// The text that a node holds, or the failure that names `field`.
pub open spec fn plain_field(value: YamlValue, field: Seq<char>) -> Result<Seq<char>, ParseFault> {
    match value.as_text() {
        Some(text) => Ok(text),
        None => Err(ParseFault::MissingValue(field)),
    }
}

/// The categories under a `Categories` key.
pub open spec fn categories_of(value: YamlValue) -> Result<Seq<Label>, ParseFault> {
    match value.as_list() {
        Some(items) => try_map(items, category_maker()),
        None => Err(ParseFault::MissingValue("categories"@)),
    }
}

/// The identifiers under an `Extends` key.
pub open spec fn extends_of(value: YamlValue) -> Result<Seq<Seq<char>>, ParseFault> {
    match value.as_list() {
        Some(items) => try_map(items, id_maker()),
        None => Err(ParseFault::MissingValue("extends"@)),
    }
}

/// The screenshots under a `Screenshots` key.
pub open spec fn screenshots_of(value: YamlValue, base: Option<Seq<char>>) -> Result<
    Seq<ScreenshotView>,
    ParseFault,
> {
    match value.as_list() {
        Some(items) => try_map(items, screenshot_maker(base)),
        None => Err(ParseFault::MissingValue("screenshots"@)),
    }
}

/// The releases under a `Releases` key.
pub open spec fn releases_of(value: YamlValue) -> Result<Seq<ReleaseView>, ParseFault> {
    match value.as_list() {
        Some(items) => try_map(items, release_maker()),
        None => Err(ParseFault::MissingValue("releases"@)),
    }
}

/// What one entry of a component mapping makes of the component so
/// far. A key that is no text, or that the mapper does not know, changes nothing.
pub open spec fn entry_applied(
    c: ComponentView,
    key: YamlValue,
    value: YamlValue,
    base: Option<Seq<char>>,
) -> Result<ComponentView, ParseFault> {
    match key.as_text() {
        None => Ok(c),
        Some(k) => if k == "Name"@ {
            Ok(ComponentView { name: merged_text(c.name, value), ..c })
        } else if k == "Summary"@ {
            Ok(ComponentView { summary: merged_text(c.summary, value), ..c })
        } else if k == "DeveloperName"@ {
            Ok(ComponentView { developer_name: merged_text(c.developer_name, value), ..c })
        } else if k == "Description"@ {
            Ok(ComponentView { description: merged_text(c.description, value), ..c })
        } else if k == "Keywords"@ {
            Ok(ComponentView { keywords: merged_list(c.keywords, value), ..c })
        } else if k == "ProjectLicense"@ {
            match license_of(value) {
                Ok(license) => Ok(ComponentView { project_license: Some(license), ..c }),
                Err(e) => Err(e),
            }
        } else if k == "Icon"@ {
            match icons_of(value, base) {
                Ok(icons) => Ok(ComponentView { icons: c.icons + icons, ..c }),
                Err(e) => Err(e),
            }
        } else if k == "ProjectGroup"@ {
            match plain_field(value, "project_group"@) {
                Ok(group) => Ok(ComponentView { project_group: Some(group), ..c }),
                Err(e) => Err(e),
            }
        } else if k == "CompulsoryForDesktop"@ {
            match plain_field(value, "compulsory_for_desktop"@) {
                Ok(desktop) => Ok(
                    ComponentView {
                        compulsory_for_desktop: insert_once(c.compulsory_for_desktop, desktop),
                        ..c
                    },
                ),
                Err(e) => Err(e),
            }
        } else if k == "Package"@ {
            match plain_field(value, "pkgname"@) {
                Ok(name) => Ok(ComponentView { pkgname: Some(name), ..c }),
                Err(e) => Err(e),
            }
        } else if k == "SourcePackage"@ {
            match plain_field(value, "source_pkgname"@) {
                Ok(name) => Ok(ComponentView { source_pkgname: Some(name), ..c }),
                Err(e) => Err(e),
            }
        } else if k == "Categories"@ {
            match categories_of(value) {
                Ok(labels) => Ok(
                    ComponentView { categories: labels.fold_left(c.categories, once_step()), ..c },
                ),
                Err(e) => Err(e),
            }
        } else if k == "Extends"@ {
            match extends_of(value) {
                Ok(ids) => Ok(ComponentView { extends: c.extends + ids, ..c }),
                Err(e) => Err(e),
            }
        } else if k == "Screenshots"@ {
            match screenshots_of(value, base) {
                Ok(shots) => Ok(ComponentView { screenshots: c.screenshots + shots, ..c }),
                Err(e) => Err(e),
            }
        } else if k == "Releases"@ {
            match releases_of(value) {
                Ok(releases) => Ok(ComponentView { releases: c.releases + releases, ..c }),
                Err(e) => Err(e),
            }
        } else {
            Ok(c)
        },
    }
}

/// [`entry_applied`] for a fixed base.
pub open spec fn entry_step(base: Option<Seq<char>>) -> spec_fn(
    ComponentView,
    (YamlValue, YamlValue),
) -> Result<ComponentView, ParseFault> {
    |c: ComponentView, e: (YamlValue, YamlValue)| entry_applied(c, e.0, e.1, base)
}

/// The kind that a component mapping names under `Type`: the generic
/// kind where it names none; a kind outside the vocabulary is refused.
pub open spec fn kind_of(node: YamlValue) -> Result<Label, ParseFault> {
    match node.get("Type"@).as_text() {
        Some(token) => if ComponentKind::label_of(token).known {
            Ok(ComponentKind::label_of(token))
        } else {
            Err(ParseFault::InvalidValue(token, "type"@, "component"@))
        },
        None => Ok(Label { known: true, name: "generic"@ }),
    }
}

/// The identifier that a component mapping gives under `ID`, which is required.
pub open spec fn component_id_of(node: YamlValue) -> Result<Seq<char>, ParseFault> {
    match node.as_mapping() {
        Some(entries) => if has_entry(entries, "ID"@) {
            id_of(entry(entries, "ID"@))
        } else {
            Err(ParseFault::MissingTag("id"@))
        },
        None => Err(ParseFault::MissingTag("id"@)),
    }
}

/// The component that a document describes. Its kind and identifier
/// are settled first; then every entry is applied in document order,
/// and the first failure ends the work. The component takes the origin
/// of its collection, and its media are resolved against `base`.
pub open spec fn component_of(
    node: YamlValue,
    origin: Option<Seq<char>>,
    base: Option<Seq<char>>,
) -> Result<ComponentView, ParseFault> {
    match kind_of(node) {
        Ok(kind) => match component_id_of(node) {
            Ok(id) => try_fold(
                node.as_mapping().unwrap(),
                ComponentView { kind, origin, ..ComponentView::blank(id) },
                entry_step(base),
            ),
            Err(e) => Err(e),
        },
        Err(e) => Err(e),
    }
}

/// [`component_of`] for a fixed origin and base.
pub open spec fn component_maker(origin: Option<Seq<char>>, base: Option<Seq<char>>) -> spec_fn(
    YamlValue,
) -> Result<ComponentView, ParseFault> {
    |node: YamlValue| component_of(node, origin, base)
}

/// The text under `key` of a header, where there is one and it is not empty.
pub open spec fn filled_text(node: YamlValue, key: Seq<char>) -> Option<Seq<char>> {
    match scalar_text(node.get(key)) {
        Some(text) => if text.len() > 0 {
            Some(text)
        } else {
            None
        },
        None => None,
    }
}

/// The collection that a stream of documents describes. The first
/// document is the header, whose `Version` is required; `Origin`,
/// `MediaBaseUrl` and `Architecture` are optional. Every later document
/// is one component; the first failure ends the work.
pub open spec fn collection_of(documents: Seq<YamlValue>) -> Result<CollectionView, ParseFault> {
    if documents.len() == 0 {
        Err(ParseFault::MissingAttribute("version"@, "collection"@))
    } else {
        let header = documents[0];
        match filled_text(header, "Version"@) {
            Some(version) => {
                let origin = filled_text(header, "Origin"@);
                let base = filled_text(header, "MediaBaseUrl"@);
                match try_map(documents.skip(1), component_maker(origin, base)) {
                    Ok(components) => Ok(
                        CollectionView {
                            version,
                            origin,
                            media_base_url: base,
                            architecture: filled_text(header, "Architecture"@),
                            components,
                        },
                    ),
                    Err(e) => Err(e),
                }
            },
            None => Err(ParseFault::MissingAttribute("version"@, "collection"@)),
        }
    }
}

/// The text that a node holds, or the failure that names `field`.
pub fn read_plain_field<'a>(value: &'a YamlNode, field: &str) -> (r: Result<&'a str, ParseError>)
    ensures
        match r {
            Ok(text) => plain_field(value.deep_view(), field@) == Ok::<Seq<char>, ParseFault>(
                text@,
            ),
            Err(e) => plain_field(value.deep_view(), field@) == Err::<Seq<char>, ParseFault>(
                e.deep_view(),
            ),
        },
{
    match value.as_str() {
        Some(text) => Ok(text),
        None => Err(ParseError::missing_value(field)),
    }
}

/// Applies one entry of a component mapping to the component so far.
pub fn apply_entry(
    draft: &mut Component,
    key: &YamlNode,
    value: &YamlNode,
    base: &Option<String>,
) -> (r: Result<(), ParseError>)
    ensures
        match r {
            Ok(_) => entry_applied(
                old(draft).deep_view(),
                key.deep_view(),
                value.deep_view(),
                base.deep_view(),
            ) == Ok::<ComponentView, ParseFault>(final(draft).deep_view()),
            Err(e) => entry_applied(
                old(draft).deep_view(),
                key.deep_view(),
                value.deep_view(),
                base.deep_view(),
            ) == Err::<ComponentView, ParseFault>(e.deep_view()),
        },
        r is Ok && old(draft).deep_view().releases_versioned()
            ==> final(draft).deep_view().releases_versioned(),
{
    let k = match key.as_str() {
        Some(k) => k,
        None => {
            return Ok(());
        },
    };
    if same_text(k, "Name") {
        merge_text(&mut draft.name, value);
    } else if same_text(k, "Summary") {
        merge_text(&mut draft.summary, value);
    } else if same_text(k, "DeveloperName") {
        merge_text(&mut draft.developer_name, value);
    } else if same_text(k, "Description") {
        merge_markup(&mut draft.description, value);
    } else if same_text(k, "Keywords") {
        merge_list(&mut draft.keywords, value);
    } else if same_text(k, "ProjectLicense") {
        draft.project_license = Some(read_license(value)?);
    } else if same_text(k, "Icon") {
        let mut icons = read_icons(value, base)?;
        let ghost before = draft.icons.deep_view();
        let ghost added = icons.deep_view();
        draft.icons.append(&mut icons);
        assert(draft.icons.deep_view() =~= before + added);
    } else if same_text(k, "ProjectGroup") {
        draft.project_group = Some(owned(read_plain_field(value, "project_group")?));
    } else if same_text(k, "CompulsoryForDesktop") {
        let desktop = read_plain_field(value, "compulsory_for_desktop")?;
        if !has_word(&draft.compulsory_for_desktop, desktop) {
            let ghost before = draft.compulsory_for_desktop.deep_view();
            draft.compulsory_for_desktop.push(owned(desktop));
            assert(draft.compulsory_for_desktop.deep_view() =~= before.push(desktop@));
        }
    } else if same_text(k, "Package") {
        draft.pkgname = Some(owned(read_plain_field(value, "pkgname")?));
    } else if same_text(k, "SourcePackage") {
        draft.source_pkgname = Some(owned(read_plain_field(value, "source_pkgname")?));
    } else if same_text(k, "Categories") {
        let items = match value.as_vec() {
            Some(items) => items,
            None => {
                return Err(ParseError::missing_value("categories"));
            },
        };
        let labels = read_categories(items)?;
        add_categories(&mut draft.categories, labels);
    } else if same_text(k, "Extends") {
        let items = match value.as_vec() {
            Some(items) => items,
            None => {
                return Err(ParseError::missing_value("extends"));
            },
        };
        let mut ids = read_app_ids(items)?;
        let ghost before = draft.extends.deep_view();
        let ghost added = ids.deep_view();
        draft.extends.append(&mut ids);
        assert(draft.extends.deep_view() =~= before + added);
    } else if same_text(k, "Screenshots") {
        let items = match value.as_vec() {
            Some(items) => items,
            None => {
                return Err(ParseError::missing_value("screenshots"));
            },
        };
        let mut shots = read_screenshots(items, base)?;
        let ghost before = draft.screenshots.deep_view();
        let ghost added = shots.deep_view();
        draft.screenshots.append(&mut shots);
        assert(draft.screenshots.deep_view() =~= before + added);
    } else if same_text(k, "Releases") {
        let items = match value.as_vec() {
            Some(items) => items,
            None => {
                return Err(ParseError::missing_value("releases"));
            },
        };
        let mut releases = read_releases(items)?;
        let ghost before = draft.releases.deep_view();
        let ghost added = releases.deep_view();
        draft.releases.append(&mut releases);
        assert(draft.releases.deep_view() =~= before + added);
    }
    Ok(())
}

/// The kind that a component mapping names under `Type`.
pub fn read_kind(node: &YamlNode) -> (r: Result<ComponentKind, ParseError>)
    ensures
        seen(r) == kind_of(node.deep_view()),
{
    match node.get("Type") {
        Some(value) => match value.as_str() {
            Some(token) => {
                let kind = ComponentKind::from_token(token);
                if kind.is_known() {
                    Ok(kind)
                } else {
                    Err(ParseError::invalid_value(token, "type", "component"))
                }
            },
            None => Ok(ComponentKind::Generic),
        },
        None => Ok(ComponentKind::Generic),
    }
}

/// The identifier that a component mapping gives under `ID`.
pub fn read_component_id(node: &YamlNode) -> (r: Result<AppId, ParseError>)
    ensures
        seen(r) == component_id_of(node.deep_view()),
{
    match node.get("ID") {
        Some(value) => read_app_id(value),
        None => Err(ParseError::missing_tag("id")),
    }
}

/// The component that a document describes; see [`component_of`].
pub fn read_component(node: &YamlNode, origin: &Option<String>, base: &Option<String>) -> (r:
    Result<Component, ParseError>)
    ensures
        seen(r) == component_of(node.deep_view(), origin.deep_view(), base.deep_view()),
        r matches Ok(component) ==> component.deep_view().releases_versioned(),
{
    let kind = read_kind(node)?;
    let id = read_component_id(node)?;
    let entries = match node.as_hash() {
        Some(entries) => entries,
        None => {
            return Err(ParseError::missing_tag("id"));
        },
    };
    let mut draft = Component::blank(id);
    draft.kind = kind;
    draft.origin = owned_option(origin);
    let ghost start = draft.deep_view();
    let ghost all = entries.deep_view();
    let ghost step = entry_step(base.deep_view());
    let mut i: usize = 0;
    proof {
        lemma_fold_none(all, start, step);
    }
    while i < entries.len()
        invariant
            i <= entries.len(),
            all == entries.deep_view(),
            node.deep_view().as_mapping() == Some(all),
            kind_of(node.deep_view()) == Ok::<Label, ParseFault>(start.kind),
            component_id_of(node.deep_view()) == Ok::<Seq<char>, ParseFault>(start.id),
            start == (ComponentView {
                kind: start.kind,
                origin: origin.deep_view(),
                ..ComponentView::blank(start.id)
            }),
            step == entry_step(base.deep_view()),
            try_fold(all.take(i as int), start, step) == Ok::<ComponentView, ParseFault>(
                draft.deep_view(),
            ),
            draft.deep_view().releases_versioned(),
        decreases entries.len() - i,
    {
        proof {
            lemma_fold_next(all, i as int, start, step);
        }
        match apply_entry(&mut draft, &entries[i].0, &entries[i].1, base) {
            Ok(_) => {},
            Err(e) => {
                proof {
                    lemma_fold_failed(all, i + 1, start, step);
                }
                return Err(e);
            },
        }
        i = i + 1;
    }
    proof {
        lemma_fold_all(all, start, step);
    }
    Ok(draft)
}

/// The text under `key` of a header, where there is one and it is not empty.
pub fn read_filled_text(node: &YamlNode, key: &str) -> (r: Option<String>)
    ensures
        r.deep_view() == filled_text(node.deep_view(), key@),
{
    let text = match node.get(key) {
        Some(YamlNode::Text(s)) => s,
        Some(YamlNode::Real(s)) => s,
        _ => {
            return None;
        },
    };
    if text.as_str().unicode_len() > 0 {
        Some(text.clone())
    } else {
        None
    }
}

/// The collection that a stream of documents describes; see
/// [`collection_of`]. A collection that comes out has a version, and
/// so has every release in it.
pub fn read_collection(documents: &Vec<YamlNode>) -> (r: Result<Collection, ParseError>)
    ensures
        seen(r) == collection_of(documents.deep_view()),
        r matches Ok(collection) ==> collection.deep_view().well_formed(),
{
    if documents.len() == 0 {
        return Err(ParseError::missing_attribute("version", "collection"));
    }
    let header = &documents[0];
    let version = match read_filled_text(header, "Version") {
        Some(version) => version,
        None => {
            return Err(ParseError::missing_attribute("version", "collection"));
        },
    };
    let origin = read_filled_text(header, "Origin");
    let base = read_filled_text(header, "MediaBaseUrl");
    let architecture = read_filled_text(header, "Architecture");
    let ghost rest = documents.deep_view().skip(1);
    let ghost step = collecting(component_maker(origin.deep_view(), base.deep_view()));
    let mut components: Vec<Component> = Vec::new();
    let mut i: usize = 1;
    proof {
        lemma_fold_none(rest, Seq::<ComponentView>::empty(), step);
        assert(components.deep_view() =~= Seq::<ComponentView>::empty());
    }
    while i < documents.len()
        invariant
            1 <= i <= documents.len(),
            rest == documents.deep_view().skip(1),
            filled_text(documents.deep_view()[0], "Version"@) == Some(version@),
            version@.len() > 0,
            origin.deep_view() == filled_text(documents.deep_view()[0], "Origin"@),
            base.deep_view() == filled_text(documents.deep_view()[0], "MediaBaseUrl"@),
            step == collecting(component_maker(origin.deep_view(), base.deep_view())),
            try_fold(rest.take(i - 1), Seq::<ComponentView>::empty(), step) == Ok::<
                Seq<ComponentView>,
                ParseFault,
            >(components.deep_view()),
            forall|k: int|
                0 <= k < components.deep_view().len() ==> (
                #[trigger] components.deep_view()[k]).releases_versioned(),
        decreases documents.len() - i,
    {
        proof {
            lemma_fold_next(rest, i - 1, Seq::<ComponentView>::empty(), step);
            assert(rest[i - 1] == documents.deep_view()[i as int]);
        }
        let ghost before = components.deep_view();
        match read_component(&documents[i], &origin, &base) {
            Ok(component) => {
                components.push(component);
                assert(components.deep_view() =~= before.push(component.deep_view()));
            },
            Err(e) => {
                proof {
                    lemma_fold_failed(rest, i as int, Seq::<ComponentView>::empty(), step);
                }
                return Err(e);
            },
        }
        i = i + 1;
    }
    proof {
        lemma_fold_all(rest, Seq::<ComponentView>::empty(), step);
    }
    Ok(Collection { version, origin, media_base_url: base, components, architecture })
}

} // verus!
