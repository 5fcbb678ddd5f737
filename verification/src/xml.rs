//! The markup mapper: from a decoded element tree to a collection.

use vstd::prelude::*;
use vstd::string::StringExecFns;
use crate::collection::Collection;
use crate::enums::{
    Bundle, BundleView, Category, ComponentKind, Icon, IconView, ImageKind, Label, Launchable,
    ProjectUrl, Provide, ReleaseKind, ReleaseUrgency, Tagged,
};
use crate::error::{ParseError, ParseFault};
use crate::fold::{
    lemma_fold_all, lemma_fold_failed, lemma_fold_next, lemma_fold_none, seen, seen_plain,
    try_fold,
};
use crate::metadata::Metadata;
use crate::model::{
    all_versioned, AppId, CollectionView, Component, ComponentView, ContentRating, ContentRatingView, Image,
    ImageView, License, Release, ReleaseView, Screenshot, ScreenshotView, UtcInstant,
};
use crate::number::{parse_unsigned, unsigned_of};
use crate::outside::normalized_url;
use crate::resolve::{absolute_url, checked, date_of, deserialize_date};
use crate::text::{owned, same_text};
use crate::translatable::{TranslatableList, TranslatableString, TranslatedList, TranslatedText};
use crate::xml_tree::{ElementView, NodeView, XmlElement, XmlNode};
use crate::sets::{add_categories, has_word, insert_once, once_step};

verus! {

/// The locale that an element is marked with.
pub open spec fn lang_of(e: ElementView) -> Option<Seq<char>> {
    e.attribute("lang"@)
}

/// The text of an element, empty where it has none.
pub open spec fn text_or_empty(e: ElementView) -> Seq<char> {
    match e.text() {
        Some(text) => text,
        None => Seq::empty(),
    }
}

/// The text of an element, or the failure that names `field`.
pub open spec fn required_text(e: ElementView, field: Seq<char>) -> Result<Seq<char>, ParseFault> {
    match e.text() {
        Some(text) => Ok(text),
        None => Err(ParseFault::MissingValue(field)),
    }
}

/// The attribute `name`, or the failure that names it and `context`.
pub open spec fn required_attribute(e: ElementView, name: Seq<char>, context: Seq<char>) -> Result<
    Seq<char>,
    ParseFault,
> {
    match e.attribute(name) {
        Some(value) => Ok(value),
        None => Err(ParseFault::MissingAttribute(name, context)),
    }
}

/// A pixel dimension in the attribute `name`: a value that writes no
/// unsigned number counts as absent.
pub open spec fn dimension(e: ElementView, name: Seq<char>) -> Option<u32> {
    match e.attribute(name) {
        Some(text) => unsigned_of(text),
        None => None,
    }
}

/// The step that appends the markup of a child element; other nodes add nothing.
pub open spec fn markup_step() -> spec_fn(Seq<char>, NodeView) -> Seq<char> {
    |sofar: Seq<char>, node: NodeView|
        match node {
            NodeView::Element(e) => sofar + e.markup,
            _ => sofar,
        }
}

/// The markup inside an element: that of its child elements, one after the other.
pub open spec fn inner_markup(nodes: Seq<NodeView>) -> Seq<char> {
    nodes.fold_left(Seq::<char>::empty(), markup_step())
}

/// The step that takes what `each` makes of a child element: a value
/// to append, nothing, or a failure. Nodes that are no elements are passed over.
pub open spec fn gathering<U>(each: spec_fn(ElementView) -> Result<Option<U>, ParseFault>) -> spec_fn(
    Seq<U>,
    NodeView,
) -> Result<Seq<U>, ParseFault> {
    |sofar: Seq<U>, node: NodeView|
        match node {
            NodeView::Element(e) => match each(e) {
                Ok(Some(made)) => Ok(sofar.push(made)),
                Ok(None) => Ok(sofar),
                Err(x) => Err(x),
            },
            _ => Ok(sofar),
        }
}

/// What `each` makes of the child elements, in document order, or the first failure.
pub open spec fn gathered<U>(
    nodes: Seq<NodeView>,
    each: spec_fn(ElementView) -> Result<Option<U>, ParseFault>,
) -> Result<Seq<U>, ParseFault> {
    try_fold(nodes, Seq::<U>::empty(), gathering(each))
}

/// The icon that an `icon` element describes: its text is the name,
/// path or address, its `type` selects the variant, a local file where
/// it names none of the others.
pub open spec fn icon_of(e: ElementView) -> Result<IconView, ParseFault> {
    let width = dimension(e, "width"@);
    let height = dimension(e, "height"@);
    match required_text(e, "icon"@) {
        Ok(value) => if e.attribute("type"@) == Some("stock"@) {
            Ok(IconView::Stock(value))
        } else if e.attribute("type"@) == Some("cached"@) {
            Ok(IconView::Cached { path: value, width, height })
        } else if e.attribute("type"@) == Some("remote"@) {
            match checked(normalized_url(value)) {
                Ok(url) => Ok(IconView::Remote { url, width, height }),
                Err(x) => Err(x),
            }
        } else {
            Ok(IconView::Local { path: value, width, height })
        },
        Err(x) => Err(x),
    }
}

/// The kind that an `image` element names: the full-size one where it names none.
pub open spec fn image_kind_of(e: ElementView) -> Result<ImageKind, ParseFault> {
    match e.attribute("type"@) {
        Some(token) => match ImageKind::of_token(token) {
            Some(kind) => Ok(kind),
            None => Err(ParseFault::InvalidValue(token, "type"@, "image"@)),
        },
        None => Ok(ImageKind::Source),
    }
}

/// The image that an `image` element describes.
pub open spec fn image_of(e: ElementView) -> Result<ImageView, ParseFault> {
    match image_kind_of(e) {
        Ok(kind) => match required_text(e, "image"@) {
            Ok(value) => match checked(normalized_url(value)) {
                Ok(url) => Ok(
                    ImageView {
                        kind,
                        width: dimension(e, "width"@),
                        height: dimension(e, "height"@),
                        url,
                    },
                ),
                Err(x) => Err(x),
            },
            Err(x) => Err(x),
        },
        Err(x) => Err(x),
    }
}

/// What a child of a `screenshot` element adds to its images.
pub open spec fn image_each() -> spec_fn(ElementView) -> Result<Option<ImageView>, ParseFault> {
    |e: ElementView|
        if e.name == "image"@ {
            match image_of(e) {
                Ok(image) => Ok(Some(image)),
                Err(x) => Err(x),
            }
        } else {
            Ok(None)
        }
}

/// The step that writes a `caption` child into the caption of a screenshot.
pub open spec fn caption_step() -> spec_fn(TranslatedText, NodeView) -> TranslatedText {
    |sofar: TranslatedText, node: NodeView|
        match node {
            NodeView::Element(e) => if e.name == "caption"@ {
                sofar.with(lang_of(e), text_or_empty(e))
            } else {
                sofar
            },
            _ => sofar,
        }
}

/// The screenshot that a `screenshot` element describes. A `type`
/// attribute says whether it is the default one; without it the
/// screenshot is.
pub open spec fn screenshot_of(e: ElementView) -> Result<ScreenshotView, ParseFault> {
    match gathered(e.children, image_each()) {
        Ok(images) => Ok(
            ScreenshotView {
                is_default: match e.attribute("type"@) {
                    Some(token) => token == "default"@,
                    None => true,
                },
                caption: e.children.fold_left(TranslatedText::empty(), caption_step()),
                images,
            },
        ),
        Err(x) => Err(x),
    }
}

/// What a child of a `screenshots` element adds.
pub open spec fn screenshot_each() -> spec_fn(ElementView) -> Result<
    Option<ScreenshotView>,
    ParseFault,
> {
    |e: ElementView|
        if e.name == "screenshot"@ {
            match screenshot_of(e) {
                Ok(shot) => Ok(Some(shot)),
                Err(x) => Err(x),
            }
        } else {
            Ok(None)
        }
}

/// The kind that a `release` element names, where it names one.
pub open spec fn release_kind_of(e: ElementView) -> Result<Option<ReleaseKind>, ParseFault> {
    match e.attribute("type"@) {
        Some(token) => match ReleaseKind::of_token(token) {
            Some(kind) => Ok(Some(kind)),
            None => Err(ParseFault::InvalidValue(token, "type"@, "release"@)),
        },
        None => Ok(None),
    }
}

/// The urgency that a `release` element names, where it names one.
pub open spec fn release_urgency_of(e: ElementView) -> Result<Option<ReleaseUrgency>, ParseFault> {
    match e.attribute("urgency"@) {
        Some(token) => match ReleaseUrgency::of_token(token) {
            Some(urgency) => Ok(Some(urgency)),
            None => Err(ParseFault::InvalidValue(token, "urgency"@, "release"@)),
        },
        None => Ok(None),
    }
}

/// The moment in the attribute `name`, where the element has it.
pub open spec fn moment_in(e: ElementView, name: Seq<char>) -> Result<Option<UtcInstant>, ParseFault> {
    match e.attribute(name) {
        Some(text) => match date_of(text) {
            Some(moment) => Ok(Some(moment)),
            None => Err(ParseFault::InvalidValue(text, name, "release"@)),
        },
        None => Ok(None),
    }
}

/// The date of a release: its `timestamp` where it has one, else its `date`.
pub open spec fn release_date_of(e: ElementView) -> Result<Option<UtcInstant>, ParseFault> {
    match moment_in(e, "timestamp"@) {
        Ok(Some(moment)) => Ok(Some(moment)),
        Ok(None) => moment_in(e, "date"@),
        Err(x) => Err(x),
    }
}

/// The release that a `release` element describes; its version is required and not empty.
pub open spec fn release_of(e: ElementView) -> Result<ReleaseView, ParseFault> {
    match e.filled_attribute("version"@) {
        Some(version) => match release_kind_of(e) {
            Ok(kind) => match release_date_of(e) {
                Ok(date) => match release_urgency_of(e) {
                    Ok(urgency) => Ok(ReleaseView { version, kind, date, urgency }),
                    Err(x) => Err(x),
                },
                Err(x) => Err(x),
            },
            Err(x) => Err(x),
        },
        None => Err(ParseFault::MissingAttribute("version"@, "release"@)),
    }
}

/// What a child of a `releases` element adds.
pub open spec fn release_each() -> spec_fn(ElementView) -> Result<Option<ReleaseView>, ParseFault> {
    |e: ElementView|
        if e.name == "release"@ {
            match release_of(e) {
                Ok(release) => Ok(Some(release)),
                Err(x) => Err(x),
            }
        } else {
            Ok(None)
        }
}

/// What a child of a `categories` element adds: a token outside the
/// vocabulary is kept as it was written.
pub open spec fn category_each() -> spec_fn(ElementView) -> Result<Option<Label>, ParseFault> {
    |e: ElementView|
        if e.name == "category"@ {
            match required_text(e, "category"@) {
                Ok(token) => Ok(Some(Category::label_of(token))),
                Err(x) => Err(x),
            }
        } else {
            Ok(None)
        }
}

/// What a child of a `mimetypes` element adds.
pub open spec fn mimetype_each() -> spec_fn(ElementView) -> Result<Option<Seq<char>>, ParseFault> {
    |e: ElementView|
        if e.name == "mimetype"@ {
            match required_text(e, "mimetype"@) {
                Ok(text) => Ok(Some(text)),
                Err(x) => Err(x),
            }
        } else {
            Ok(None)
        }
}

/// What a child of a `provides` element adds: its name is the type of
/// the item, and a name outside the vocabulary is passed over.
pub open spec fn provide_each() -> spec_fn(ElementView) -> Result<Option<Tagged>, ParseFault> {
    |e: ElementView|
        if Provide::is_listed(e.name) {
            match required_text(e, "provides"@) {
                Ok(value) => Ok(Some(Tagged { tag: e.name, value })),
                Err(x) => Err(x),
            }
        } else {
            Ok(None)
        }
}

/// What a child of a `content_rating` element adds: the identifier of
/// an attribute and its value.
pub open spec fn rating_each() -> spec_fn(ElementView) -> Result<
    Option<(Seq<char>, Seq<char>)>,
    ParseFault,
> {
    |e: ElementView|
        if e.name == "content_attribute"@ {
            match required_attribute(e, "id"@, "content_attribute"@) {
                Ok(id) => Ok(Some((id, text_or_empty(e)))),
                Err(x) => Err(x),
            }
        } else {
            Ok(None)
        }
}

/// What a child of a `metadata` element adds: a key and its optional value.
pub open spec fn metadata_each() -> spec_fn(ElementView) -> Result<
    Option<(Seq<char>, Option<Seq<char>>)>,
    ParseFault,
> {
    |e: ElementView|
        if e.name == "value"@ {
            match required_attribute(e, "key"@, "value"@) {
                Ok(key) => Ok(Some((key, e.text()))),
                Err(x) => Err(x),
            }
        } else {
            Ok(None)
        }
}

/// The step that writes a `keyword` child into a list of words, under
/// its own locale or else under that of the list.
pub open spec fn keyword_step(outer: Option<Seq<char>>) -> spec_fn(
    TranslatedList,
    NodeView,
) -> TranslatedList {
    |sofar: TranslatedList, node: NodeView|
        match node {
            NodeView::Element(e) => if e.name == "keyword"@ && e.text() is Some {
                sofar.with_word(
                    if lang_of(e) is Some {
                        lang_of(e)
                    } else {
                        outer
                    },
                    e.text().unwrap(),
                )
            } else {
                sofar
            },
            _ => sofar,
        }
}

/// The step that writes one free-form key into the metadata.
pub open spec fn put_step() -> spec_fn(
    Map<Seq<char>, Option<Seq<char>>>,
    (Seq<char>, Option<Seq<char>>),
) -> Map<Seq<char>, Option<Seq<char>>> {
    |sofar: Map<Seq<char>, Option<Seq<char>>>, pair: (Seq<char>, Option<Seq<char>>)|
        sofar.insert(pair.0, pair.1)
}


/// The locale that an element is marked with.
pub fn read_lang(e: &XmlElement) -> (r: Option<&str>)
    ensures
        r.deep_view() == lang_of(e.deep_view()),
{
    e.attribute("lang")
}

/// The text of an element, empty where it has none.
pub fn read_text_or_empty(e: &XmlElement) -> (r: String)
    ensures
        r@ == text_or_empty(e.deep_view()),
{
    match e.text() {
        Some(text) => text,
        None => String::new(),
    }
}

/// The text of an element, or the failure that names `field`.
pub fn read_required_text(e: &XmlElement, field: &str) -> (r: Result<String, ParseError>)
    ensures
        seen(r) == required_text(e.deep_view(), field@),
{
    match e.text() {
        Some(text) => Ok(text),
        None => Err(ParseError::missing_value(field)),
    }
}

/// The attribute `name`, or the failure that names it and `context`.
pub fn read_required_attribute<'a>(e: &'a XmlElement, name: &str, context: &str) -> (r: Result<
    &'a str,
    ParseError,
>)
    ensures
        match r {
            Ok(value) => required_attribute(e.deep_view(), name@, context@) == Ok::<
                Seq<char>,
                ParseFault,
            >(value@),
            Err(x) => required_attribute(e.deep_view(), name@, context@) == Err::<
                Seq<char>,
                ParseFault,
            >(x.deep_view()),
        },
{
    match e.attribute(name) {
        Some(value) => Ok(value),
        None => Err(ParseError::missing_attribute(name, context)),
    }
}

/// A pixel dimension in the attribute `name`; a value that writes no
/// unsigned number counts as absent.
pub fn read_dimension(e: &XmlElement, name: &str) -> (r: Option<u32>)
    ensures
        r == dimension(e.deep_view(), name@),
{
    match e.attribute(name) {
        Some(text) => parse_unsigned(text),
        None => None,
    }
}

/// The markup inside an element: that of its child elements, one after the other.
pub fn read_inner_markup(nodes: &Vec<XmlNode>) -> (r: String)
    ensures
        r@ == inner_markup(nodes.deep_view()),
{
    let ghost all = nodes.deep_view();
    let mut out = String::new();
    let mut i: usize = 0;
    assert(all.take(0) =~= Seq::<NodeView>::empty());
    while i < nodes.len()
        invariant
            i <= nodes.len(),
            all == nodes.deep_view(),
            out@ == all.take(i as int).fold_left(Seq::<char>::empty(), markup_step()),
        decreases nodes.len() - i,
    {
        proof {
            assert(all.take(i + 1).drop_last() =~= all.take(i as int));
            assert(all.take(i + 1).last() == all[i as int]);
        }
        match nodes[i].as_element() {
            Some(e) => {
                out = out.concat(e.markup.as_str());
            },
            None => {},
        }
        i = i + 1;
    }
    assert(all.take(i as int) =~= all);
    out
}

/// The icon that an `icon` element describes.
pub fn read_icon(e: &XmlElement) -> (r: Result<Icon, ParseError>)
    ensures
        seen(r) == icon_of(e.deep_view()),
{
    let width = read_dimension(e, "width");
    let height = read_dimension(e, "height");
    let value = read_required_text(e, "icon")?;
    let kind = match e.attribute("type") {
        Some(kind) => kind,
        None => {
            return Ok(Icon::Local { path: value, width, height });
        },
    };
    if same_text(kind, "stock") {
        Ok(Icon::Stock(value))
    } else if same_text(kind, "cached") {
        Ok(Icon::Cached { path: value, width, height })
    } else if same_text(kind, "remote") {
        let url = absolute_url(value.as_str())?;
        Ok(Icon::Remote { url, width, height })
    } else {
        Ok(Icon::Local { path: value, width, height })
    }
}

/// The kind that an `image` element names.
pub fn read_image_kind(e: &XmlElement) -> (r: Result<ImageKind, ParseError>)
    ensures
        seen_plain(r) == image_kind_of(e.deep_view()),
{
    match e.attribute("type") {
        Some(token) => match ImageKind::from_token(token) {
            Some(kind) => Ok(kind),
            None => Err(ParseError::invalid_value(token, "type", "image")),
        },
        None => Ok(ImageKind::Source),
    }
}

/// The image that an `image` element describes.
pub fn read_image(e: &XmlElement) -> (r: Result<Image, ParseError>)
    ensures
        seen(r) == image_of(e.deep_view()),
{
    let kind = read_image_kind(e)?;
    let value = read_required_text(e, "image")?;
    let url = absolute_url(value.as_str())?;
    Ok(Image { kind, width: read_dimension(e, "width"), height: read_dimension(e, "height"), url })
}

/// The caption that the `caption` children of a screenshot write.
pub fn read_caption(nodes: &Vec<XmlNode>) -> (r: TranslatableString)
    ensures
        r.deep_view() == nodes.deep_view().fold_left(TranslatedText::empty(), caption_step()),
{
    let ghost all = nodes.deep_view();
    let mut caption = TranslatableString::default();
    let mut i: usize = 0;
    assert(all.take(0) =~= Seq::<NodeView>::empty());
    while i < nodes.len()
        invariant
            i <= nodes.len(),
            all == nodes.deep_view(),
            caption.deep_view() == all.take(i as int).fold_left(
                TranslatedText::empty(),
                caption_step(),
            ),
        decreases nodes.len() - i,
    {
        proof {
            assert(all.take(i + 1).drop_last() =~= all.take(i as int));
            assert(all.take(i + 1).last() == all[i as int]);
        }
        match nodes[i].as_element() {
            Some(e) => {
                if same_text(e.name.as_str(), "caption") {
                    let text = read_text_or_empty(e);
                    caption.add_for_locale(read_lang(e), text.as_str());
                }
            },
            None => {},
        }
        i = i + 1;
    }
    assert(all.take(i as int) =~= all);
    caption
}

/// The kind that a `release` element names, where it names one.
pub fn read_release_kind(e: &XmlElement) -> (r: Result<Option<ReleaseKind>, ParseError>)
    ensures
        seen_plain(r) == release_kind_of(e.deep_view()),
{
    match e.attribute("type") {
        Some(token) => match ReleaseKind::from_token(token) {
            Some(kind) => Ok(Some(kind)),
            None => Err(ParseError::invalid_value(token, "type", "release")),
        },
        None => Ok(None),
    }
}

/// The urgency that a `release` element names, where it names one.
pub fn read_release_urgency(e: &XmlElement) -> (r: Result<Option<ReleaseUrgency>, ParseError>)
    ensures
        seen_plain(r) == release_urgency_of(e.deep_view()),
{
    match e.attribute("urgency") {
        Some(token) => match ReleaseUrgency::from_token(token) {
            Some(urgency) => Ok(Some(urgency)),
            None => Err(ParseError::invalid_value(token, "urgency", "release")),
        },
        None => Ok(None),
    }
}

/// The moment in the attribute `name`, where the element has it.
pub fn read_moment_in(e: &XmlElement, name: &str) -> (r: Result<Option<UtcInstant>, ParseError>)
    ensures
        seen_plain(r) == moment_in(e.deep_view(), name@),
{
    match e.attribute(name) {
        Some(text) => match deserialize_date(text) {
            Some(moment) => Ok(Some(moment)),
            None => Err(ParseError::invalid_value(text, name, "release")),
        },
        None => Ok(None),
    }
}

/// The date of a release: its `timestamp` where it has one, else its `date`.
pub fn read_release_date(e: &XmlElement) -> (r: Result<Option<UtcInstant>, ParseError>)
    ensures
        seen_plain(r) == release_date_of(e.deep_view()),
{
    match read_moment_in(e, "timestamp")? {
        Some(moment) => Ok(Some(moment)),
        None => read_moment_in(e, "date"),
    }
}

/// The release that a `release` element describes.
pub fn read_release(e: &XmlElement) -> (r: Result<Release, ParseError>)
    ensures
        seen(r) == release_of(e.deep_view()),
        r matches Ok(release) ==> release.version@.len() > 0,
{
    let version = match e.filled_attribute("version") {
        Some(version) => owned(version),
        None => {
            return Err(ParseError::missing_attribute("version", "release"));
        },
    };
    let kind = read_release_kind(e)?;
    let date = read_release_date(e)?;
    let urgency = read_release_urgency(e)?;
    Ok(Release { version, kind, date, urgency })
}

/// The category that a `category` element names.
pub fn read_category(e: &XmlElement) -> (r: Result<Category, ParseError>)
    ensures
        match r {
            Ok(category) => required_text(e.deep_view(), "category"@) == Ok::<
                Seq<char>,
                ParseFault,
            >(category.deep_view().name) && category.deep_view() == Category::label_of(
                category.deep_view().name,
            ),
            Err(x) => required_text(e.deep_view(), "category"@) == Err::<Seq<char>, ParseFault>(
                x.deep_view(),
            ),
        },
{
    let token = read_required_text(e, "category")?;
    Ok(Category::from_token(token.as_str()))
}

/// The item that a child of a `provides` element describes, where its
/// name is in the vocabulary.
pub fn read_provide(e: &XmlElement) -> (r: Result<Option<Provide>, ParseError>)
    ensures
        seen(r) == provide_each()(e.deep_view()),
{
    if !is_provide_name(e.name.as_str()) {
        return Ok(None);
    }
    let value = read_required_text(e, "provides")?;
    Ok(Provide::of_type(e.name.as_str(), value))
}

/// Whether the vocabulary of provided items lists `name`.
pub fn is_provide_name(name: &str) -> (r: bool)
    ensures
        r == Provide::is_listed(name@),
{
    Provide::of_type(name, String::new()).is_some()
}

/// The attribute that a `content_attribute` element describes.
pub fn read_rating_attribute(e: &XmlElement) -> (r: Result<(String, String), ParseError>)
    ensures
        match r {
            Ok(pair) => required_attribute(e.deep_view(), "id"@, "content_attribute"@) == Ok::<
                Seq<char>,
                ParseFault,
            >(pair.0@) && pair.1@ == text_or_empty(e.deep_view()),
            Err(x) => required_attribute(e.deep_view(), "id"@, "content_attribute"@) == Err::<
                Seq<char>,
                ParseFault,
            >(x.deep_view()),
        },
{
    let id = read_required_attribute(e, "id", "content_attribute")?;
    Ok((owned(id), read_text_or_empty(e)))
}

/// The key and optional value that a `value` element describes.
pub fn read_metadata_value(e: &XmlElement) -> (r: Result<(String, Option<String>), ParseError>)
    ensures
        match r {
            Ok(pair) => required_attribute(e.deep_view(), "key"@, "value"@) == Ok::<
                Seq<char>,
                ParseFault,
            >(pair.0@) && pair.1.deep_view() == e.deep_view().text(),
            Err(x) => required_attribute(e.deep_view(), "key"@, "value"@) == Err::<
                Seq<char>,
                ParseFault,
            >(x.deep_view()),
        },
{
    let key = read_required_attribute(e, "key", "value")?;
    Ok((owned(key), e.text()))
}

/// What a child of a `screenshot` element adds to its images.
pub fn image_from(e: &XmlElement) -> (r: Result<Option<Image>, ParseError>)
    ensures
        seen(r) == image_each()(e.deep_view()),
{
    if same_text(e.name.as_str(), "image") {
        Ok(Some(read_image(e)?))
    } else {
        Ok(None)
    }
}

/// The images that the children of a `screenshot` element describe.
pub fn read_images(nodes: &Vec<XmlNode>) -> (r: Result<Vec<Image>, ParseError>)
    ensures
        seen(r) == gathered(nodes.deep_view(), image_each()),
{
    let ghost all = nodes.deep_view();
    let ghost step = gathering(image_each());
    let mut out: Vec<Image> = Vec::new();
    let mut i: usize = 0;
    proof {
        lemma_fold_none(all, Seq::<ImageView>::empty(), step);
        assert(out.deep_view() =~= Seq::<ImageView>::empty());
    }
    while i < nodes.len()
        invariant
            i <= nodes.len(),
            all == nodes.deep_view(),
            step == gathering(image_each()),
            try_fold(all.take(i as int), Seq::<ImageView>::empty(), step) == Ok::<Seq<ImageView>, ParseFault>(
                out.deep_view(),
            ),
        decreases nodes.len() - i,
    {
        proof {
            lemma_fold_next(all, i as int, Seq::<ImageView>::empty(), step);
        }
        let ghost before = out.deep_view();
        match nodes[i].as_element() {
            Some(e) => match image_from(e) {
                Ok(Some(made)) => {
                    out.push(made);
                    assert(out.deep_view() =~= before.push(made.deep_view()));
                },
                Ok(None) => {},
                Err(x) => {
                    proof {
                        lemma_fold_failed(all, i + 1, Seq::<ImageView>::empty(), step);
                    }
                    return Err(x);
                },
            },
            None => {},
        }
        i = i + 1;
    }
    proof {
        lemma_fold_all(all, Seq::<ImageView>::empty(), step);
    }
    Ok(out)
}

/// The screenshot that a `screenshot` element describes.
pub fn read_screenshot(e: &XmlElement) -> (r: Result<Screenshot, ParseError>)
    ensures
        seen(r) == screenshot_of(e.deep_view()),
{
    let nodes = e.nodes();
    let images = read_images(nodes)?;
    let is_default = match e.attribute("type") {
        Some(token) => same_text(token, "default"),
        None => true,
    };
    Ok(Screenshot { is_default, caption: read_caption(nodes), images })
}

/// What a child of a `screenshots` element adds.
pub fn screenshot_from(e: &XmlElement) -> (r: Result<Option<Screenshot>, ParseError>)
    ensures
        seen(r) == screenshot_each()(e.deep_view()),
{
    if same_text(e.name.as_str(), "screenshot") {
        Ok(Some(read_screenshot(e)?))
    } else {
        Ok(None)
    }
}

/// The screenshots that the children of a `screenshots` element describe.
pub fn read_screenshots(nodes: &Vec<XmlNode>) -> (r: Result<Vec<Screenshot>, ParseError>)
    ensures
        seen(r) == gathered(nodes.deep_view(), screenshot_each()),
{
    let ghost all = nodes.deep_view();
    let ghost step = gathering(screenshot_each());
    let mut out: Vec<Screenshot> = Vec::new();
    let mut i: usize = 0;
    proof {
        lemma_fold_none(all, Seq::<ScreenshotView>::empty(), step);
        assert(out.deep_view() =~= Seq::<ScreenshotView>::empty());
    }
    while i < nodes.len()
        invariant
            i <= nodes.len(),
            all == nodes.deep_view(),
            step == gathering(screenshot_each()),
            try_fold(all.take(i as int), Seq::<ScreenshotView>::empty(), step) == Ok::<Seq<ScreenshotView>, ParseFault>(
                out.deep_view(),
            ),
        decreases nodes.len() - i,
    {
        proof {
            lemma_fold_next(all, i as int, Seq::<ScreenshotView>::empty(), step);
        }
        let ghost before = out.deep_view();
        match nodes[i].as_element() {
            Some(e) => match screenshot_from(e) {
                Ok(Some(made)) => {
                    out.push(made);
                    assert(out.deep_view() =~= before.push(made.deep_view()));
                },
                Ok(None) => {},
                Err(x) => {
                    proof {
                        lemma_fold_failed(all, i + 1, Seq::<ScreenshotView>::empty(), step);
                    }
                    return Err(x);
                },
            },
            None => {},
        }
        i = i + 1;
    }
    proof {
        lemma_fold_all(all, Seq::<ScreenshotView>::empty(), step);
    }
    Ok(out)
}

/// What a child of a `releases` element adds.
pub fn release_from(e: &XmlElement) -> (r: Result<Option<Release>, ParseError>)
    ensures
        seen(r) == release_each()(e.deep_view()),
        r matches Ok(Some(release)) ==> release.version@.len() > 0,
{
    if same_text(e.name.as_str(), "release") {
        Ok(Some(read_release(e)?))
    } else {
        Ok(None)
    }
}

/// The releases that the children of a `releases` element describe.
pub fn read_releases(nodes: &Vec<XmlNode>) -> (r: Result<Vec<Release>, ParseError>)
    ensures
        seen(r) == gathered(nodes.deep_view(), release_each()),
        r matches Ok(releases) ==> all_versioned(releases.deep_view()),
{
    let ghost all = nodes.deep_view();
    let ghost step = gathering(release_each());
    let mut out: Vec<Release> = Vec::new();
    let mut i: usize = 0;
    proof {
        lemma_fold_none(all, Seq::<ReleaseView>::empty(), step);
        assert(out.deep_view() =~= Seq::<ReleaseView>::empty());
    }
    while i < nodes.len()
        invariant
            i <= nodes.len(),
            all == nodes.deep_view(),
            step == gathering(release_each()),
            try_fold(all.take(i as int), Seq::<ReleaseView>::empty(), step) == Ok::<Seq<ReleaseView>, ParseFault>(
                out.deep_view(),
            ),
            all_versioned(out.deep_view()),
        decreases nodes.len() - i,
    {
        proof {
            lemma_fold_next(all, i as int, Seq::<ReleaseView>::empty(), step);
        }
        let ghost before = out.deep_view();
        match nodes[i].as_element() {
            Some(e) => match release_from(e) {
                Ok(Some(made)) => {
                    out.push(made);
                    assert(out.deep_view() =~= before.push(made.deep_view()));
                },
                Ok(None) => {},
                Err(x) => {
                    proof {
                        lemma_fold_failed(all, i + 1, Seq::<ReleaseView>::empty(), step);
                    }
                    return Err(x);
                },
            },
            None => {},
        }
        i = i + 1;
    }
    proof {
        lemma_fold_all(all, Seq::<ReleaseView>::empty(), step);
    }
    Ok(out)
}

/// What a child of a `categories` element adds.
pub fn category_from(e: &XmlElement) -> (r: Result<Option<Category>, ParseError>)
    ensures
        seen(r) == category_each()(e.deep_view()),
{
    if same_text(e.name.as_str(), "category") {
        Ok(Some(read_category(e)?))
    } else {
        Ok(None)
    }
}

/// The categories that the children of a `categories` element name.
pub fn read_categories(nodes: &Vec<XmlNode>) -> (r: Result<Vec<Category>, ParseError>)
    ensures
        seen(r) == gathered(nodes.deep_view(), category_each()),
{
    let ghost all = nodes.deep_view();
    let ghost step = gathering(category_each());
    let mut out: Vec<Category> = Vec::new();
    let mut i: usize = 0;
    proof {
        lemma_fold_none(all, Seq::<Label>::empty(), step);
        assert(out.deep_view() =~= Seq::<Label>::empty());
    }
    while i < nodes.len()
        invariant
            i <= nodes.len(),
            all == nodes.deep_view(),
            step == gathering(category_each()),
            try_fold(all.take(i as int), Seq::<Label>::empty(), step) == Ok::<Seq<Label>, ParseFault>(
                out.deep_view(),
            ),
        decreases nodes.len() - i,
    {
        proof {
            lemma_fold_next(all, i as int, Seq::<Label>::empty(), step);
        }
        let ghost before = out.deep_view();
        match nodes[i].as_element() {
            Some(e) => match category_from(e) {
                Ok(Some(made)) => {
                    out.push(made);
                    assert(out.deep_view() =~= before.push(made.deep_view()));
                },
                Ok(None) => {},
                Err(x) => {
                    proof {
                        lemma_fold_failed(all, i + 1, Seq::<Label>::empty(), step);
                    }
                    return Err(x);
                },
            },
            None => {},
        }
        i = i + 1;
    }
    proof {
        lemma_fold_all(all, Seq::<Label>::empty(), step);
    }
    Ok(out)
}

/// What a child of a `mimetypes` element adds.
pub fn mimetype_from(e: &XmlElement) -> (r: Result<Option<String>, ParseError>)
    ensures
        seen(r) == mimetype_each()(e.deep_view()),
{
    if same_text(e.name.as_str(), "mimetype") {
        Ok(Some(read_required_text(e, "mimetype")?))
    } else {
        Ok(None)
    }
}

/// The media types that the children of a `mimetypes` element name.
pub fn read_mimetypes(nodes: &Vec<XmlNode>) -> (r: Result<Vec<String>, ParseError>)
    ensures
        seen(r) == gathered(nodes.deep_view(), mimetype_each()),
{
    let ghost all = nodes.deep_view();
    let ghost step = gathering(mimetype_each());
    let mut out: Vec<String> = Vec::new();
    let mut i: usize = 0;
    proof {
        lemma_fold_none(all, Seq::<Seq<char>>::empty(), step);
        assert(out.deep_view() =~= Seq::<Seq<char>>::empty());
    }
    while i < nodes.len()
        invariant
            i <= nodes.len(),
            all == nodes.deep_view(),
            step == gathering(mimetype_each()),
            try_fold(all.take(i as int), Seq::<Seq<char>>::empty(), step) == Ok::<Seq<Seq<char>>, ParseFault>(
                out.deep_view(),
            ),
        decreases nodes.len() - i,
    {
        proof {
            lemma_fold_next(all, i as int, Seq::<Seq<char>>::empty(), step);
        }
        let ghost before = out.deep_view();
        match nodes[i].as_element() {
            Some(e) => match mimetype_from(e) {
                Ok(Some(made)) => {
                    out.push(made);
                    assert(out.deep_view() =~= before.push(made.deep_view()));
                },
                Ok(None) => {},
                Err(x) => {
                    proof {
                        lemma_fold_failed(all, i + 1, Seq::<Seq<char>>::empty(), step);
                    }
                    return Err(x);
                },
            },
            None => {},
        }
        i = i + 1;
    }
    proof {
        lemma_fold_all(all, Seq::<Seq<char>>::empty(), step);
    }
    Ok(out)
}

/// The items that the children of a `provides` element describe.
pub fn read_provides(nodes: &Vec<XmlNode>) -> (r: Result<Vec<Provide>, ParseError>)
    ensures
        seen(r) == gathered(nodes.deep_view(), provide_each()),
{
    let ghost all = nodes.deep_view();
    let ghost step = gathering(provide_each());
    let mut out: Vec<Provide> = Vec::new();
    let mut i: usize = 0;
    proof {
        lemma_fold_none(all, Seq::<Tagged>::empty(), step);
        assert(out.deep_view() =~= Seq::<Tagged>::empty());
    }
    while i < nodes.len()
        invariant
            i <= nodes.len(),
            all == nodes.deep_view(),
            step == gathering(provide_each()),
            try_fold(all.take(i as int), Seq::<Tagged>::empty(), step) == Ok::<Seq<Tagged>, ParseFault>(
                out.deep_view(),
            ),
        decreases nodes.len() - i,
    {
        proof {
            lemma_fold_next(all, i as int, Seq::<Tagged>::empty(), step);
        }
        let ghost before = out.deep_view();
        match nodes[i].as_element() {
            Some(e) => match read_provide(e) {
                Ok(Some(made)) => {
                    out.push(made);
                    assert(out.deep_view() =~= before.push(made.deep_view()));
                },
                Ok(None) => {},
                Err(x) => {
                    proof {
                        lemma_fold_failed(all, i + 1, Seq::<Tagged>::empty(), step);
                    }
                    return Err(x);
                },
            },
            None => {},
        }
        i = i + 1;
    }
    proof {
        lemma_fold_all(all, Seq::<Tagged>::empty(), step);
    }
    Ok(out)
}

/// What a child of a `content_rating` element adds.
pub fn rating_from(e: &XmlElement) -> (r: Result<Option<(String, String)>, ParseError>)
    ensures
        seen(r) == rating_each()(e.deep_view()),
{
    if same_text(e.name.as_str(), "content_attribute") {
        Ok(Some(read_rating_attribute(e)?))
    } else {
        Ok(None)
    }
}

/// The attributes that the children of a `content_rating` element describe.
pub fn read_rating_attributes(nodes: &Vec<XmlNode>) -> (r: Result<Vec<(String, String)>, ParseError>)
    ensures
        seen(r) == gathered(nodes.deep_view(), rating_each()),
{
    let ghost all = nodes.deep_view();
    let ghost step = gathering(rating_each());
    let mut out: Vec<(String, String)> = Vec::new();
    let mut i: usize = 0;
    proof {
        lemma_fold_none(all, Seq::<(Seq<char>, Seq<char>)>::empty(), step);
        assert(out.deep_view() =~= Seq::<(Seq<char>, Seq<char>)>::empty());
    }
    while i < nodes.len()
        invariant
            i <= nodes.len(),
            all == nodes.deep_view(),
            step == gathering(rating_each()),
            try_fold(all.take(i as int), Seq::<(Seq<char>, Seq<char>)>::empty(), step) == Ok::<Seq<(Seq<char>, Seq<char>)>, ParseFault>(
                out.deep_view(),
            ),
        decreases nodes.len() - i,
    {
        proof {
            lemma_fold_next(all, i as int, Seq::<(Seq<char>, Seq<char>)>::empty(), step);
        }
        let ghost before = out.deep_view();
        match nodes[i].as_element() {
            Some(e) => match rating_from(e) {
                Ok(Some(made)) => {
                    out.push(made);
                    assert(out.deep_view() =~= before.push(made.deep_view()));
                },
                Ok(None) => {},
                Err(x) => {
                    proof {
                        lemma_fold_failed(all, i + 1, Seq::<(Seq<char>, Seq<char>)>::empty(), step);
                    }
                    return Err(x);
                },
            },
            None => {},
        }
        i = i + 1;
    }
    proof {
        lemma_fold_all(all, Seq::<(Seq<char>, Seq<char>)>::empty(), step);
    }
    Ok(out)
}

/// What a child of a `metadata` element adds.
pub fn metadata_from(e: &XmlElement) -> (r: Result<Option<(String, Option<String>)>, ParseError>)
    ensures
        seen(r) == metadata_each()(e.deep_view()),
{
    if same_text(e.name.as_str(), "value") {
        Ok(Some(read_metadata_value(e)?))
    } else {
        Ok(None)
    }
}

/// The keys that the children of a `metadata` element describe.
pub fn read_metadata(nodes: &Vec<XmlNode>) -> (r: Result<Vec<(String, Option<String>)>, ParseError>)
    ensures
        seen(r) == gathered(nodes.deep_view(), metadata_each()),
{
    let ghost all = nodes.deep_view();
    let ghost step = gathering(metadata_each());
    let mut out: Vec<(String, Option<String>)> = Vec::new();
    let mut i: usize = 0;
    proof {
        lemma_fold_none(all, Seq::<(Seq<char>, Option<Seq<char>>)>::empty(), step);
        assert(out.deep_view() =~= Seq::<(Seq<char>, Option<Seq<char>>)>::empty());
    }
    while i < nodes.len()
        invariant
            i <= nodes.len(),
            all == nodes.deep_view(),
            step == gathering(metadata_each()),
            try_fold(all.take(i as int), Seq::<(Seq<char>, Option<Seq<char>>)>::empty(), step) == Ok::<Seq<(Seq<char>, Option<Seq<char>>)>, ParseFault>(
                out.deep_view(),
            ),
        decreases nodes.len() - i,
    {
        proof {
            lemma_fold_next(all, i as int, Seq::<(Seq<char>, Option<Seq<char>>)>::empty(), step);
        }
        let ghost before = out.deep_view();
        match nodes[i].as_element() {
            Some(e) => match metadata_from(e) {
                Ok(Some(made)) => {
                    out.push(made);
                    assert(out.deep_view() =~= before.push(made.deep_view()));
                },
                Ok(None) => {},
                Err(x) => {
                    proof {
                        lemma_fold_failed(all, i + 1, Seq::<(Seq<char>, Option<Seq<char>>)>::empty(), step);
                    }
                    return Err(x);
                },
            },
            None => {},
        }
        i = i + 1;
    }
    proof {
        lemma_fold_all(all, Seq::<(Seq<char>, Option<Seq<char>>)>::empty(), step);
    }
    Ok(out)
}

/// The last child element named `name`, if there is one.
pub open spec fn last_child(nodes: Seq<NodeView>, name: Seq<char>) -> Option<ElementView>
    decreases nodes.len(),
{
    if nodes.len() == 0 {
        None
    } else {
        match nodes.last() {
            NodeView::Element(e) => if e.name == name {
                Some(e)
            } else {
                last_child(nodes.drop_last(), name)
            },
            _ => last_child(nodes.drop_last(), name),
        }
    }
}

/// The address that a `url` element gives, tagged by its type.
pub open spec fn url_of(e: ElementView) -> Result<Tagged, ParseFault> {
    match required_attribute(e, "type"@, "url"@) {
        Ok(kind) => match required_text(e, "url"@) {
            Ok(value) => match checked(normalized_url(value)) {
                Ok(address) => Ok(ProjectUrl::tagged(kind, address)),
                Err(x) => Err(x),
            },
            Err(x) => Err(x),
        },
        Err(x) => Err(x),
    }
}

/// The bundle that a `bundle` element describes.
pub open spec fn bundle_of(e: ElementView) -> Result<BundleView, ParseFault> {
    match required_attribute(e, "type"@, "bundle"@) {
        Ok(kind) => match required_text(e, "bundle"@) {
            Ok(reference) => match Bundle::described(
                kind,
                reference,
                e.attribute("runtime"@),
                e.attribute("sdk"@),
            ) {
                Some(bundle) => Ok(bundle),
                None => Err(ParseFault::InvalidValue(kind, "type"@, "bundle"@)),
            },
            Err(x) => Err(x),
        },
        Err(x) => Err(x),
    }
}

/// The launchable that a `launchable` element describes.
pub open spec fn launchable_of(e: ElementView) -> Result<Tagged, ParseFault> {
    match required_attribute(e, "type"@, "launchable"@) {
        Ok(kind) => match required_text(e, "launchable"@) {
            Ok(value) => Ok(Launchable::tagged(kind, value)),
            Err(x) => Err(x),
        },
        Err(x) => Err(x),
    }
}

/// The rating that a `content_rating` element describes.
pub open spec fn rating_of(e: ElementView) -> Result<ContentRatingView, ParseFault> {
    match required_attribute(e, "type"@, "content_rating"@) {
        Ok(version) => match gathered(e.children, rating_each()) {
            Ok(attributes) => Ok(ContentRatingView { version, attributes }),
            Err(x) => Err(x),
        },
        Err(x) => Err(x),
    }
}

/// What one child element of a component makes of the component so
/// far. An element that the mapper does not know changes nothing.
pub open spec fn element_applied(c: ComponentView, e: ElementView) -> Result<
    ComponentView,
    ParseFault,
> {
    if e.name == "name"@ {
        Ok(ComponentView { name: c.name.with(lang_of(e), text_or_empty(e)), ..c })
    } else if e.name == "summary"@ {
        Ok(ComponentView { summary: c.summary.with(lang_of(e), text_or_empty(e)), ..c })
    } else if e.name == "developer_name"@ {
        Ok(
            ComponentView {
                developer_name: c.developer_name.with(lang_of(e), text_or_empty(e)),
                ..c
            },
        )
    } else if e.name == "description"@ {
        Ok(
            ComponentView {
                description: c.description.with(lang_of(e), inner_markup(e.children)),
                ..c
            },
        )
    } else if e.name == "keywords"@ {
        Ok(
            ComponentView {
                keywords: e.children.fold_left(c.keywords, keyword_step(lang_of(e))),
                ..c
            },
        )
    } else if e.name == "project_license"@ {
        match required_text(e, "license"@) {
            Ok(license) => Ok(ComponentView { project_license: Some(license), ..c }),
            Err(x) => Err(x),
        }
    } else if e.name == "metadata_license"@ {
        match required_text(e, "license"@) {
            Ok(license) => Ok(ComponentView { metadata_license: Some(license), ..c }),
            Err(x) => Err(x),
        }
    } else if e.name == "project_group"@ {
        match required_text(e, "project_group"@) {
            Ok(group) => Ok(ComponentView { project_group: Some(group), ..c }),
            Err(x) => Err(x),
        }
    } else if e.name == "pkgname"@ {
        match required_text(e, "pkgname"@) {
            Ok(name) => Ok(ComponentView { pkgname: Some(name), ..c }),
            Err(x) => Err(x),
        }
    } else if e.name == "source_pkgname"@ {
        match required_text(e, "source_pkgname"@) {
            Ok(name) => Ok(ComponentView { source_pkgname: Some(name), ..c }),
            Err(x) => Err(x),
        }
    } else if e.name == "compulsory_for_desktop"@ {
        match required_text(e, "compulsory_for_desktop"@) {
            Ok(desktop) => Ok(
                ComponentView {
                    compulsory_for_desktop: insert_once(c.compulsory_for_desktop, desktop),
                    ..c
                },
            ),
            Err(x) => Err(x),
        }
    } else if e.name == "categories"@ {
        match gathered(e.children, category_each()) {
            Ok(labels) => Ok(
                ComponentView { categories: labels.fold_left(c.categories, once_step()), ..c },
            ),
            Err(x) => Err(x),
        }
    } else if e.name == "icon"@ {
        match icon_of(e) {
            Ok(icon) => Ok(ComponentView { icons: c.icons.push(icon), ..c }),
            Err(x) => Err(x),
        }
    } else if e.name == "screenshots"@ {
        match gathered(e.children, screenshot_each()) {
            Ok(shots) => Ok(ComponentView { screenshots: c.screenshots + shots, ..c }),
            Err(x) => Err(x),
        }
    } else if e.name == "releases"@ {
        match gathered(e.children, release_each()) {
            Ok(releases) => Ok(ComponentView { releases: c.releases + releases, ..c }),
            Err(x) => Err(x),
        }
    } else if e.name == "release"@ {
        match release_of(e) {
            Ok(release) => Ok(ComponentView { releases: c.releases.push(release), ..c }),
            Err(x) => Err(x),
        }
    } else if e.name == "extends"@ {
        match required_text(e, "id"@) {
            Ok(id) => Ok(ComponentView { extends: c.extends.push(id), ..c }),
            Err(x) => Err(x),
        }
    } else if e.name == "url"@ {
        match url_of(e) {
            Ok(url) => Ok(ComponentView { urls: c.urls.push(url), ..c }),
            Err(x) => Err(x),
        }
    } else if e.name == "provides"@ {
        match gathered(e.children, provide_each()) {
            Ok(items) => Ok(ComponentView { provides: c.provides + items, ..c }),
            Err(x) => Err(x),
        }
    } else if e.name == "bundle"@ {
        match bundle_of(e) {
            Ok(bundle) => Ok(ComponentView { bundles: c.bundles.push(bundle), ..c }),
            Err(x) => Err(x),
        }
    } else if e.name == "launchable"@ {
        match launchable_of(e) {
            Ok(launchable) => Ok(
                ComponentView { launchables: c.launchables.push(launchable), ..c },
            ),
            Err(x) => Err(x),
        }
    } else if e.name == "mimetypes"@ {
        match gathered(e.children, mimetype_each()) {
            Ok(types) => Ok(ComponentView { mimetypes: c.mimetypes + types, ..c }),
            Err(x) => Err(x),
        }
    } else if e.name == "content_rating"@ {
        match rating_of(e) {
            Ok(rating) => Ok(ComponentView { content_rating: Some(rating), ..c }),
            Err(x) => Err(x),
        }
    } else if e.name == "metadata"@ {
        match gathered(e.children, metadata_each()) {
            Ok(pairs) => Ok(
                ComponentView { metadata: pairs.fold_left(c.metadata, put_step()), ..c },
            ),
            Err(x) => Err(x),
        }
    } else {
        Ok(c)
    }
}

/// The step that applies a child element; other nodes change nothing.
pub open spec fn node_step() -> spec_fn(ComponentView, NodeView) -> Result<
    ComponentView,
    ParseFault,
> {
    |c: ComponentView, node: NodeView|
        match node {
            NodeView::Element(e) => element_applied(c, e),
            _ => Ok(c),
        }
}

/// The kind that a `component` element names in `type`: the generic
/// kind where it names none; a kind outside the vocabulary is kept as
/// it was written.
pub open spec fn kind_of(e: ElementView) -> Label {
    match e.attribute("type"@) {
        Some(token) => ComponentKind::label_of(token),
        None => Label { known: true, name: "generic"@ },
    }
}

/// The identifier of a component: the text of its `id` child, which is required.
pub open spec fn component_id_of(e: ElementView) -> Result<Seq<char>, ParseFault> {
    match last_child(e.children, "id"@) {
        Some(id) => required_text(id, "id"@),
        None => Err(ParseFault::MissingTag("id"@)),
    }
}

/// The component that a `component` element describes. Its identifier
/// is settled first; then every child is applied in document order,
/// and the first failure ends the work.
pub open spec fn component_of(e: ElementView) -> Result<ComponentView, ParseFault> {
    match component_id_of(e) {
        Ok(id) => try_fold(
            e.children,
            ComponentView { kind: kind_of(e), ..ComponentView::blank(id) },
            node_step(),
        ),
        Err(x) => Err(x),
    }
}

/// What a child of the root adds: a `component` element is one
/// component, any other element nothing.
pub open spec fn component_each() -> spec_fn(ElementView) -> Result<
    Option<ComponentView>,
    ParseFault,
> {
    |e: ElementView|
        if e.name == "component"@ {
            match component_of(e) {
                Ok(component) => Ok(Some(component)),
                Err(x) => Err(x),
            }
        } else {
            Ok(None)
        }
}

/// The collection that a root element describes. The root is a
/// `components` element whose `version` is required and not empty;
/// `origin`, `media_baseurl` and `architecture` are optional, and
/// absent where empty.
pub open spec fn collection_of(root: ElementView) -> Result<CollectionView, ParseFault> {
    if root.name != "components"@ {
        Err(ParseFault::MissingTag("components"@))
    } else {
        match root.filled_attribute("version"@) {
            Some(version) => match gathered(root.children, component_each()) {
                Ok(components) => Ok(
                    CollectionView {
                        version,
                        origin: root.filled_attribute("origin"@),
                        media_base_url: root.filled_attribute("media_baseurl"@),
                        architecture: root.filled_attribute("architecture"@),
                        components,
                    },
                ),
                Err(x) => Err(x),
            },
            None => Err(ParseFault::MissingAttribute("version"@, "collection"@)),
        }
    }
}

/// The last child element named `name`, if there is one.
pub fn find_last_child<'a>(nodes: &'a Vec<XmlNode>, name: &str) -> (r: Option<&'a XmlElement>)
    ensures
        r.deep_view() == last_child(nodes.deep_view(), name@),
{
    let ghost all = nodes.deep_view();
    let mut i: usize = nodes.len();
    assert(all.take(i as int) =~= all);
    while i > 0
        invariant
            i <= nodes.len(),
            all == nodes.deep_view(),
            last_child(all, name@) == last_child(all.take(i as int), name@),
        decreases i,
    {
        proof {
            assert(all.take(i as int).drop_last() =~= all.take(i - 1));
            assert(all.take(i as int).last() == all[i - 1]);
        }
        i = i - 1;
        match nodes[i].as_element() {
            Some(e) => {
                if same_text(e.name.as_str(), name) {
                    return Some(e);
                }
            },
            None => {},
        }
    }
    None
}

/// Writes the `keyword` children into `target`, each under its own
/// locale or else under `outer`.
pub fn merge_keywords(target: &mut TranslatableList, nodes: &Vec<XmlNode>, outer: Option<&str>)
    ensures
        final(target).deep_view() == nodes.deep_view().fold_left(
            old(target).deep_view(),
            keyword_step(outer.deep_view()),
        ),
{
    let ghost start = target.deep_view();
    let ghost all = nodes.deep_view();
    let ghost step = keyword_step(outer.deep_view());
    let mut i: usize = 0;
    assert(all.take(0) =~= Seq::<NodeView>::empty());
    while i < nodes.len()
        invariant
            i <= nodes.len(),
            all == nodes.deep_view(),
            step == keyword_step(outer.deep_view()),
            target.deep_view() == all.take(i as int).fold_left(start, step),
        decreases nodes.len() - i,
    {
        proof {
            assert(all.take(i + 1).drop_last() =~= all.take(i as int));
            assert(all.take(i + 1).last() == all[i as int]);
        }
        match nodes[i].as_element() {
            Some(e) => {
                if same_text(e.name.as_str(), "keyword") {
                    match e.text() {
                        Some(word) => {
                            let own = read_lang(e);
                            let locale = if own.is_some() {
                                own
                            } else {
                                outer
                            };
                            target.add_for_locale(locale, word.as_str());
                        },
                        None => {},
                    }
                }
            },
            None => {},
        }
        i = i + 1;
    }
    assert(all.take(i as int) =~= all);
}

/// Writes each pair of `pairs` into `target`; a later value for a key
/// replaces the earlier one.
pub fn put_all(target: &mut Metadata, pairs: &Vec<(String, Option<String>)>)
    ensures
        final(target).deep_view() == pairs.deep_view().fold_left(
            old(target).deep_view(),
            put_step(),
        ),
{
    let ghost start = target.deep_view();
    let ghost all = pairs.deep_view();
    let mut i: usize = 0;
    assert(all.take(0) =~= Seq::empty());
    while i < pairs.len()
        invariant
            i <= pairs.len(),
            all == pairs.deep_view(),
            target.deep_view() == all.take(i as int).fold_left(start, put_step()),
        decreases pairs.len() - i,
    {
        proof {
            assert(all.take(i + 1).drop_last() =~= all.take(i as int));
            assert(all.take(i + 1).last() == all[i as int]);
        }
        target.put(pairs[i].0.clone(), crate::text::owned_option(&pairs[i].1));
        i = i + 1;
    }
    assert(all.take(i as int) =~= all);
}

/// The address that a `url` element gives.
pub fn read_url(e: &XmlElement) -> (r: Result<ProjectUrl, ParseError>)
    ensures
        seen(r) == url_of(e.deep_view()),
{
    let kind = read_required_attribute(e, "type", "url")?;
    let value = read_required_text(e, "url")?;
    let address = absolute_url(value.as_str())?;
    Ok(ProjectUrl::of_type(kind, address))
}

/// The bundle that a `bundle` element describes.
pub fn read_bundle(e: &XmlElement) -> (r: Result<Bundle, ParseError>)
    ensures
        seen(r) == bundle_of(e.deep_view()),
{
    let kind = read_required_attribute(e, "type", "bundle")?;
    let reference = read_required_text(e, "bundle")?;
    let runtime = match e.attribute("runtime") {
        Some(text) => Some(owned(text)),
        None => None,
    };
    let sdk = match e.attribute("sdk") {
        Some(text) => Some(owned(text)),
        None => None,
    };
    match Bundle::of_type(kind, reference, runtime, sdk) {
        Some(bundle) => Ok(bundle),
        None => Err(ParseError::invalid_value(kind, "type", "bundle")),
    }
}

/// The launchable that a `launchable` element describes.
pub fn read_launchable(e: &XmlElement) -> (r: Result<Launchable, ParseError>)
    ensures
        seen(r) == launchable_of(e.deep_view()),
{
    let kind = read_required_attribute(e, "type", "launchable")?;
    let value = read_required_text(e, "launchable")?;
    Ok(Launchable::of_type(kind, value))
}

/// The rating that a `content_rating` element describes.
pub fn read_rating(e: &XmlElement) -> (r: Result<ContentRating, ParseError>)
    ensures
        seen(r) == rating_of(e.deep_view()),
{
    let version = read_required_attribute(e, "type", "content_rating")?;
    let attributes = read_rating_attributes(e.nodes())?;
    Ok(ContentRating { version: owned(version), attributes })
}

/// Applies one child element of a component to the component so far.
pub fn apply_element(draft: &mut Component, e: &XmlElement) -> (r: Result<(), ParseError>)
    ensures
        match r {
            Ok(_) => element_applied(old(draft).deep_view(), e.deep_view()) == Ok::<
                ComponentView,
                ParseFault,
            >(final(draft).deep_view()),
            Err(x) => element_applied(old(draft).deep_view(), e.deep_view()) == Err::<
                ComponentView,
                ParseFault,
            >(x.deep_view()),
        },
        r is Ok && old(draft).deep_view().releases_versioned()
            ==> final(draft).deep_view().releases_versioned(),
{
    let name = e.name.as_str();
    if same_text(name, "name") {
        let text = read_text_or_empty(e);
        draft.name.add_for_locale(read_lang(e), text.as_str());
    } else if same_text(name, "summary") {
        let text = read_text_or_empty(e);
        draft.summary.add_for_locale(read_lang(e), text.as_str());
    } else if same_text(name, "developer_name") {
        let text = read_text_or_empty(e);
        draft.developer_name.add_for_locale(read_lang(e), text.as_str());
    } else if same_text(name, "description") {
        let markup = read_inner_markup(e.nodes());
        draft.description.add_for_locale(read_lang(e), markup.as_str());
    } else if same_text(name, "keywords") {
        merge_keywords(&mut draft.keywords, e.nodes(), read_lang(e));
    } else if same_text(name, "project_license") {
        draft.project_license = Some(License(read_required_text(e, "license")?));
    } else if same_text(name, "metadata_license") {
        draft.metadata_license = Some(License(read_required_text(e, "license")?));
    } else if same_text(name, "project_group") {
        draft.project_group = Some(read_required_text(e, "project_group")?);
    } else if same_text(name, "pkgname") {
        draft.pkgname = Some(read_required_text(e, "pkgname")?);
    } else if same_text(name, "source_pkgname") {
        draft.source_pkgname = Some(read_required_text(e, "source_pkgname")?);
    } else if same_text(name, "compulsory_for_desktop") {
        let desktop = read_required_text(e, "compulsory_for_desktop")?;
        if !has_word(&draft.compulsory_for_desktop, desktop.as_str()) {
            let ghost before = draft.compulsory_for_desktop.deep_view();
            draft.compulsory_for_desktop.push(desktop);
            assert(draft.compulsory_for_desktop.deep_view() =~= before.push(desktop@));
        }
    } else if same_text(name, "categories") {
        let labels = read_categories(e.nodes())?;
        add_categories(&mut draft.categories, labels);
    } else if same_text(name, "icon") {
        let icon = read_icon(e)?;
        let ghost before = draft.icons.deep_view();
        draft.icons.push(icon);
        assert(draft.icons.deep_view() =~= before.push(icon.deep_view()));
    } else if same_text(name, "screenshots") {
        let mut shots = read_screenshots(e.nodes())?;
        let ghost before = draft.screenshots.deep_view();
        let ghost added = shots.deep_view();
        draft.screenshots.append(&mut shots);
        assert(draft.screenshots.deep_view() =~= before + added);
    } else if same_text(name, "releases") {
        let mut releases = read_releases(e.nodes())?;
        let ghost before = draft.releases.deep_view();
        let ghost added = releases.deep_view();
        draft.releases.append(&mut releases);
        assert(draft.releases.deep_view() =~= before + added);
    } else if same_text(name, "release") {
        let release = read_release(e)?;
        let ghost before = draft.releases.deep_view();
        draft.releases.push(release);
        assert(draft.releases.deep_view() =~= before.push(release.deep_view()));
    } else if same_text(name, "extends") {
        let id = AppId(read_required_text(e, "id")?);
        let ghost before = draft.extends.deep_view();
        draft.extends.push(id);
        assert(draft.extends.deep_view() =~= before.push(id.deep_view()));
    } else if same_text(name, "url") {
        let url = read_url(e)?;
        let ghost before = draft.urls.deep_view();
        draft.urls.push(url);
        assert(draft.urls.deep_view() =~= before.push(url.deep_view()));
    } else if same_text(name, "provides") {
        let mut items = read_provides(e.nodes())?;
        let ghost before = draft.provides.deep_view();
        let ghost added = items.deep_view();
        draft.provides.append(&mut items);
        assert(draft.provides.deep_view() =~= before + added);
    } else if same_text(name, "bundle") {
        let bundle = read_bundle(e)?;
        let ghost before = draft.bundles.deep_view();
        draft.bundles.push(bundle);
        assert(draft.bundles.deep_view() =~= before.push(bundle.deep_view()));
    } else if same_text(name, "launchable") {
        let launchable = read_launchable(e)?;
        let ghost before = draft.launchables.deep_view();
        draft.launchables.push(launchable);
        assert(draft.launchables.deep_view() =~= before.push(launchable.deep_view()));
    } else if same_text(name, "mimetypes") {
        let mut types = read_mimetypes(e.nodes())?;
        let ghost before = draft.mimetypes.deep_view();
        let ghost added = types.deep_view();
        draft.mimetypes.append(&mut types);
        assert(draft.mimetypes.deep_view() =~= before + added);
    } else if same_text(name, "content_rating") {
        draft.content_rating = Some(read_rating(e)?);
    } else if same_text(name, "metadata") {
        let pairs = read_metadata(e.nodes())?;
        put_all(&mut draft.metadata, &pairs);
    }
    Ok(())
}

/// The kind that a `component` element names in `type`.
pub fn read_kind(e: &XmlElement) -> (r: ComponentKind)
    ensures
        r.deep_view() == kind_of(e.deep_view()),
{
    match e.attribute("type") {
        Some(token) => ComponentKind::from_token(token),
        None => ComponentKind::Generic,
    }
}

/// The identifier of a component: the text of its `id` child.
pub fn read_component_id(e: &XmlElement) -> (r: Result<AppId, ParseError>)
    ensures
        seen(r) == component_id_of(e.deep_view()),
{
    match find_last_child(e.nodes(), "id") {
        Some(id) => Ok(AppId(read_required_text(id, "id")?)),
        None => Err(ParseError::missing_tag("id")),
    }
}

/// The component that a `component` element describes; see [`component_of`].
pub fn read_component(e: &XmlElement) -> (r: Result<Component, ParseError>)
    ensures
        seen(r) == component_of(e.deep_view()),
        r matches Ok(component) ==> component.deep_view().releases_versioned(),
{
    let id = read_component_id(e)?;
    let nodes = e.nodes();
    let mut draft = Component::blank(id);
    draft.kind = read_kind(e);
    let ghost start = draft.deep_view();
    let ghost all = nodes.deep_view();
    let ghost step = node_step();
    let mut i: usize = 0;
    proof {
        lemma_fold_none(all, start, step);
    }
    while i < nodes.len()
        invariant
            i <= nodes.len(),
            all == nodes.deep_view(),
            all == e.deep_view().children,
            component_id_of(e.deep_view()) == Ok::<Seq<char>, ParseFault>(start.id),
            start == (ComponentView { kind: kind_of(e.deep_view()), ..ComponentView::blank(start.id) }),
            step == node_step(),
            try_fold(all.take(i as int), start, step) == Ok::<ComponentView, ParseFault>(
                draft.deep_view(),
            ),
            draft.deep_view().releases_versioned(),
        decreases nodes.len() - i,
    {
        proof {
            lemma_fold_next(all, i as int, start, step);
        }
        match nodes[i].as_element() {
            Some(child) => match apply_element(&mut draft, child) {
                Ok(_) => {},
                Err(x) => {
                    proof {
                        lemma_fold_failed(all, i + 1, start, step);
                    }
                    return Err(x);
                },
            },
            None => {},
        }
        i = i + 1;
    }
    proof {
        lemma_fold_all(all, start, step);
    }
    Ok(draft)
}

/// What a child of the root adds.
pub fn component_from(e: &XmlElement) -> (r: Result<Option<Component>, ParseError>)
    ensures
        seen(r) == component_each()(e.deep_view()),
        r matches Ok(Some(component)) ==> component.deep_view().releases_versioned(),
{
    if same_text(e.name.as_str(), "component") {
        Ok(Some(read_component(e)?))
    } else {
        Ok(None)
    }
}

/// The components that the children of the root describe.
pub fn read_components(nodes: &Vec<XmlNode>) -> (r: Result<Vec<Component>, ParseError>)
    ensures
        seen(r) == gathered(nodes.deep_view(), component_each()),
        r matches Ok(components) ==> forall|k: int|
            0 <= k < components.deep_view().len() ==> (
            #[trigger] components.deep_view()[k]).releases_versioned(),
{
    let ghost all = nodes.deep_view();
    let ghost step = gathering(component_each());
    let mut out: Vec<Component> = Vec::new();
    let mut i: usize = 0;
    proof {
        lemma_fold_none(all, Seq::<ComponentView>::empty(), step);
        assert(out.deep_view() =~= Seq::<ComponentView>::empty());
    }
    while i < nodes.len()
        invariant
            i <= nodes.len(),
            all == nodes.deep_view(),
            step == gathering(component_each()),
            try_fold(all.take(i as int), Seq::<ComponentView>::empty(), step) == Ok::<Seq<ComponentView>, ParseFault>(
                out.deep_view(),
            ),
            forall|k: int|
                0 <= k < out.deep_view().len() ==> (#[trigger] out.deep_view()[k]).releases_versioned(),
        decreases nodes.len() - i,
    {
        proof {
            lemma_fold_next(all, i as int, Seq::<ComponentView>::empty(), step);
        }
        let ghost before = out.deep_view();
        match nodes[i].as_element() {
            Some(e) => match component_from(e) {
                Ok(Some(made)) => {
                    out.push(made);
                    assert(out.deep_view() =~= before.push(made.deep_view()));
                },
                Ok(None) => {},
                Err(x) => {
                    proof {
                        lemma_fold_failed(all, i + 1, Seq::<ComponentView>::empty(), step);
                    }
                    return Err(x);
                },
            },
            None => {},
        }
        i = i + 1;
    }
    proof {
        lemma_fold_all(all, Seq::<ComponentView>::empty(), step);
    }
    Ok(out)
}

/// The collection that a root element describes; see
/// [`collection_of`]. A collection that comes out has a version, and
/// so has every release in it.
pub fn read_collection(root: &XmlElement) -> (r: Result<Collection, ParseError>)
    ensures
        seen(r) == collection_of(root.deep_view()),
        r matches Ok(collection) ==> collection.deep_view().well_formed(),
{
    if !same_text(root.name.as_str(), "components") {
        return Err(ParseError::missing_tag("components"));
    }
    let version = match root.filled_attribute("version") {
        Some(version) => owned(version),
        None => {
            return Err(ParseError::missing_attribute("version", "collection"));
        },
    };
    let components = read_components(root.nodes())?;
    let origin = match root.filled_attribute("origin") {
        Some(text) => Some(owned(text)),
        None => None,
    };
    let media_base_url = match root.filled_attribute("media_baseurl") {
        Some(text) => Some(owned(text)),
        None => None,
    };
    let architecture = match root.filled_attribute("architecture") {
        Some(text) => Some(owned(text)),
        None => None,
    };
    Ok(Collection { version, origin, media_base_url, components, architecture })
}

} // verus!
