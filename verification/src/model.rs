//! The canonical entities that both mappers fill.

use vstd::prelude::*;
use vstd::std_specs::convert::FromSpecImpl;
use crate::enums::{
    Bundle, BundleView, Category, ComponentKind, Icon, IconView, ImageKind, Label, Launchable,
    ProjectUrl, Provide, ReleaseKind, ReleaseUrgency, Tagged,
};
use crate::metadata::Metadata;
use crate::text::owned;
use crate::translatable::{
    MarkupTranslatableString, TranslatableList, TranslatableString, TranslatedList,
    TranslatedText,
};

verus! {

/// The identifier that tells one component from another.
#[derive(Clone, Debug, PartialEq, Eq, Hash)]
pub struct AppId(pub String);

impl DeepView for AppId {
    type V = Seq<char>;

    open spec fn deep_view(&self) -> Seq<char> {
        self.0@
    }
}

/// The conversion is [`AppId::new`].
impl From<&str> for AppId {
    fn from(text: &str) -> (r: AppId) {
        AppId::new(text)
    }
}

impl FromSpecImpl<&str> for AppId {
    open spec fn obeys_from_spec() -> bool {
        false
    }

    open spec fn from_spec(text: &str) -> AppId {
        arbitrary()
    }
}

impl AppId {
    /// The value that holds the characters of `text`.
    pub fn new(text: &str) -> (r: AppId)
        ensures
            r.deep_view() == text@,
    {
        AppId(owned(text))
    }

    /// The characters of this value.
    pub fn as_str(&self) -> (r: &str)
        ensures
            r@ == self.deep_view(),
    {
        self.0.as_str()
    }
}

/// The licence of a project or of its metadata, as an expression.
#[derive(Clone, Debug, PartialEq, Eq, Hash)]
pub struct License(pub String);

impl DeepView for License {
    type V = Seq<char>;

    open spec fn deep_view(&self) -> Seq<char> {
        self.0@
    }
}

/// The conversion is [`License::new`].
impl From<&str> for License {
    fn from(text: &str) -> (r: License) {
        License::new(text)
    }
}

impl FromSpecImpl<&str> for License {
    open spec fn obeys_from_spec() -> bool {
        false
    }

    open spec fn from_spec(text: &str) -> License {
        arbitrary()
    }
}

impl License {
    /// The value that holds the characters of `text`.
    pub fn new(text: &str) -> (r: License)
        ensures
            r.deep_view() == text@,
    {
        License(owned(text))
    }

    /// The characters of this value.
    pub fn as_str(&self) -> (r: &str)
        ensures
            r@ == self.deep_view(),
    {
        self.0.as_str()
    }
}

/// A moment in time, as whole seconds since 1970-01-01T00:00:00Z.
#[derive(Clone, Copy, Debug, PartialEq, Eq, Structural)]
pub struct UtcInstant {
    pub seconds: i64,
}

/// The mathematical value of an [`Image`].
pub struct ImageView {
    pub kind: ImageKind,
    pub width: Option<u32>,
    pub height: Option<u32>,
    pub url: Seq<char>,
}

/// One picture of a screenshot.
#[derive(Clone, Debug, PartialEq, Eq)]
pub struct Image {
    pub kind: ImageKind,
    pub width: Option<u32>,
    pub height: Option<u32>,
    /// The absolute address of the picture.
    pub url: String,
}

impl DeepView for Image {
    type V = ImageView;

    open spec fn deep_view(&self) -> ImageView {
        ImageView { kind: self.kind, width: self.width, height: self.height, url: self.url@ }
    }
}

/// The mathematical value of a [`Screenshot`].
pub struct ScreenshotView {
    pub is_default: bool,
    pub caption: TranslatedText,
    pub images: Seq<ImageView>,
}

/// A view of the running software, in one or more sizes.
#[derive(Clone, Debug, PartialEq)]
pub struct Screenshot {
    pub is_default: bool,
    pub caption: TranslatableString,
    pub images: Vec<Image>,
}

impl DeepView for Screenshot {
    type V = ScreenshotView;

    open spec fn deep_view(&self) -> ScreenshotView {
        ScreenshotView {
            is_default: self.is_default,
            caption: self.caption.deep_view(),
            images: self.images.deep_view(),
        }
    }
}

/// The mathematical value of a [`Release`].
pub struct ReleaseView {
    pub version: Seq<char>,
    pub kind: Option<ReleaseKind>,
    pub date: Option<UtcInstant>,
    pub urgency: Option<ReleaseUrgency>,
}

/// One published version of a component.
#[derive(Clone, Debug, PartialEq, Eq)]
pub struct Release {
    pub version: String,
    pub kind: Option<ReleaseKind>,
    pub date: Option<UtcInstant>,
    pub urgency: Option<ReleaseUrgency>,
}

impl DeepView for Release {
    type V = ReleaseView;

    open spec fn deep_view(&self) -> ReleaseView {
        ReleaseView {
            version: self.version@,
            kind: self.kind,
            date: self.date,
            urgency: self.urgency,
        }
    }
}

/// Every release of a list has a version.
pub open spec fn all_versioned(releases: Seq<ReleaseView>) -> bool {
    forall|i: int| 0 <= i < releases.len() ==> (#[trigger] releases[i]).version.len() > 0
}

/// The mathematical value of a [`ContentRating`].
pub struct ContentRatingView {
    pub version: Seq<char>,
    pub attributes: Seq<(Seq<char>, Seq<char>)>,
}

/// An age rating: the scheme it follows and the value of each of its attributes.
#[derive(Clone, Debug, PartialEq, Eq)]
pub struct ContentRating {
    pub version: String,
    pub attributes: Vec<(String, String)>,
}

impl DeepView for ContentRating {
    type V = ContentRatingView;

    open spec fn deep_view(&self) -> ContentRatingView {
        ContentRatingView { version: self.version@, attributes: self.attributes.deep_view() }
    }
}

/// The mathematical value of a [`Component`].
pub struct ComponentView {
    pub kind: Label,
    pub id: Seq<char>,
    pub origin: Option<Seq<char>>,
    pub name: TranslatedText,
    pub summary: TranslatedText,
    pub description: TranslatedText,
    pub developer_name: TranslatedText,
    pub keywords: TranslatedList,
    pub project_license: Option<Seq<char>>,
    pub metadata_license: Option<Seq<char>>,
    pub project_group: Option<Seq<char>>,
    pub pkgname: Option<Seq<char>>,
    pub source_pkgname: Option<Seq<char>>,
    pub compulsory_for_desktop: Seq<Seq<char>>,
    pub categories: Seq<Label>,
    pub icons: Seq<IconView>,
    pub screenshots: Seq<ScreenshotView>,
    pub releases: Seq<ReleaseView>,
    pub extends: Seq<Seq<char>>,
    pub urls: Seq<Tagged>,
    pub provides: Seq<Tagged>,
    pub bundles: Seq<BundleView>,
    pub launchables: Seq<Tagged>,
    pub mimetypes: Seq<Seq<char>>,
    pub content_rating: Option<ContentRatingView>,
    pub metadata: Map<Seq<char>, Option<Seq<char>>>,
}

/// A single describable unit of software.
#[derive(Clone, Debug, PartialEq)]
pub struct Component {
    /// What kind of software this is.
    pub kind: ComponentKind,
    /// The identifier, required.
    pub id: AppId,
    /// The repository that the component came from.
    pub origin: Option<String>,
    /// The name shown to people.
    pub name: TranslatableString,
    /// A one-line account of what it does.
    pub summary: TranslatableString,
    /// A longer account, which may hold limited markup.
    pub description: MarkupTranslatableString,
    /// Who develops it.
    pub developer_name: TranslatableString,
    /// Words to find it by.
    pub keywords: TranslatableList,
    /// The licence of the software.
    pub project_license: Option<License>,
    /// The licence of this description.
    pub metadata_license: Option<License>,
    /// The umbrella project it belongs to.
    pub project_group: Option<String>,
    /// The package that installs it.
    pub pkgname: Option<String>,
    /// The source package it is built from.
    pub source_pkgname: Option<String>,
    /// The desktops that cannot do without it, each named once.
    pub compulsory_for_desktop: Vec<String>,
    /// Its menu categories, each listed once.
    pub categories: Vec<Category>,
    /// Its icons, in document order.
    pub icons: Vec<Icon>,
    /// Its screenshots, in document order.
    pub screenshots: Vec<Screenshot>,
    /// Its releases, in document order.
    pub releases: Vec<Release>,
    /// The components that this one extends.
    pub extends: Vec<AppId>,
    /// Addresses of the project.
    pub urls: Vec<ProjectUrl>,
    /// What it makes available to the system.
    pub provides: Vec<Provide>,
    /// Packaged forms in which it can be had.
    pub bundles: Vec<Bundle>,
    /// Ways to start it.
    pub launchables: Vec<Launchable>,
    /// The media types it handles.
    pub mimetypes: Vec<String>,
    /// Its age rating.
    pub content_rating: Option<ContentRating>,
    /// Free-form keys with optional values; a later value for a key replaces the earlier one.
    pub metadata: Metadata,
}

impl DeepView for Component {
    type V = ComponentView;

    open spec fn deep_view(&self) -> ComponentView {
        ComponentView {
            kind: self.kind.deep_view(),
            id: self.id.deep_view(),
            origin: self.origin.deep_view(),
            name: self.name.deep_view(),
            summary: self.summary.deep_view(),
            description: self.description.deep_view(),
            developer_name: self.developer_name.deep_view(),
            keywords: self.keywords.deep_view(),
            project_license: self.project_license.deep_view(),
            metadata_license: self.metadata_license.deep_view(),
            project_group: self.project_group.deep_view(),
            pkgname: self.pkgname.deep_view(),
            source_pkgname: self.source_pkgname.deep_view(),
            compulsory_for_desktop: self.compulsory_for_desktop.deep_view(),
            categories: self.categories.deep_view(),
            icons: self.icons.deep_view(),
            screenshots: self.screenshots.deep_view(),
            releases: self.releases.deep_view(),
            extends: self.extends.deep_view(),
            urls: self.urls.deep_view(),
            provides: self.provides.deep_view(),
            bundles: self.bundles.deep_view(),
            launchables: self.launchables.deep_view(),
            mimetypes: self.mimetypes.deep_view(),
            content_rating: self.content_rating.deep_view(),
            metadata: self.metadata.deep_view(),
        }
    }
}

impl ComponentView {
    /// The component that has only an identifier: of the generic kind, with nothing else set.
    pub open spec fn blank(id: Seq<char>) -> ComponentView {
        ComponentView {
            kind: Label { known: true, name: "generic"@ },
            id,
            origin: None,
            name: TranslatedText::empty(),
            summary: TranslatedText::empty(),
            description: TranslatedText::empty(),
            developer_name: TranslatedText::empty(),
            keywords: TranslatedList::empty(),
            project_license: None,
            metadata_license: None,
            project_group: None,
            pkgname: None,
            source_pkgname: None,
            compulsory_for_desktop: Seq::empty(),
            categories: Seq::empty(),
            icons: Seq::empty(),
            screenshots: Seq::empty(),
            releases: Seq::empty(),
            extends: Seq::empty(),
            urls: Seq::empty(),
            provides: Seq::empty(),
            bundles: Seq::empty(),
            launchables: Seq::empty(),
            mimetypes: Seq::empty(),
            content_rating: None,
            metadata: Map::empty(),
        }
    }

    /// Every release of the component has a version.
    pub open spec fn releases_versioned(self) -> bool {
        all_versioned(self.releases)
    }
}

impl Component {
    /// The component that has only the identifier `id`.
    pub fn blank(id: AppId) -> (r: Component)
        ensures
            r.deep_view() == ComponentView::blank(id.deep_view()),
    {
        let r = Component {
            kind: ComponentKind::Generic,
            id,
            origin: None,
            name: TranslatableString::default(),
            summary: TranslatableString::default(),
            description: MarkupTranslatableString::default(),
            developer_name: TranslatableString::default(),
            keywords: TranslatableList::default(),
            project_license: None,
            metadata_license: None,
            project_group: None,
            pkgname: None,
            source_pkgname: None,
            compulsory_for_desktop: Vec::new(),
            categories: Vec::new(),
            icons: Vec::new(),
            screenshots: Vec::new(),
            releases: Vec::new(),
            extends: Vec::new(),
            urls: Vec::new(),
            provides: Vec::new(),
            bundles: Vec::new(),
            launchables: Vec::new(),
            mimetypes: Vec::new(),
            content_rating: None,
            metadata: Metadata::default(),
        };
        proof {
            let v = r.deep_view();
            let b = ComponentView::blank(id.deep_view());
            assert(v.compulsory_for_desktop =~= b.compulsory_for_desktop);
            assert(v.categories =~= b.categories);
            assert(v.icons =~= b.icons);
            assert(v.screenshots =~= b.screenshots);
            assert(v.releases =~= b.releases);
            assert(v.extends =~= b.extends);
            assert(v.urls =~= b.urls);
            assert(v.provides =~= b.provides);
            assert(v.bundles =~= b.bundles);
            assert(v.launchables =~= b.launchables);
            assert(v.mimetypes =~= b.mimetypes);
            assert(v.metadata =~= b.metadata);
        }
        r
    }
}

/// The mathematical value of a [`Collection`](crate::collection::Collection).
pub struct CollectionView {
    pub version: Seq<char>,
    pub origin: Option<Seq<char>>,
    pub media_base_url: Option<Seq<char>>,
    pub architecture: Option<Seq<char>>,
    pub components: Seq<ComponentView>,
}

impl CollectionView {
    /// The collection has a version, and so has every release in it.
    pub open spec fn well_formed(self) -> bool {
        &&& self.version.len() > 0
        &&& forall|i: int|
            0 <= i < self.components.len() ==> (#[trigger] self.components[i]).releases_versioned()
    }
}

} // verus!
