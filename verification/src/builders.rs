//! Staged construction of the model's entities: setters in any order,
//! then one step that hands out the finished value.

use vstd::prelude::*;
use crate::collection::Collection;
use crate::enums::{
    Bundle, Category, ComponentKind, Icon, ImageKind, Launchable, ProjectUrl, Provide,
    ReleaseKind, ReleaseUrgency,
};
use crate::model::{
    AppId, CollectionView, Component, ComponentView, ContentRating, Image, ImageView, License,
    Release, ReleaseView, Screenshot, ScreenshotView, UtcInstant,
};
use crate::sets::{has_category, has_word, insert_once};
use crate::text::owned;
use crate::translatable::{
    MarkupTranslatableString, TranslatableList, TranslatableString, TranslatedText,
};

verus! {

/// Builds an [`Image`].
#[derive(Clone, Debug)]
pub struct ImageBuilder {
    draft: Image,
}

impl DeepView for ImageBuilder {
    type V = ImageView;

    closed spec fn deep_view(&self) -> ImageView {
        self.draft.deep_view()
    }
}

impl ImageBuilder {
    /// Starts a full-size image at the address `url`, with no dimensions.
    pub fn new(url: &str) -> (r: Self)
        ensures
            r.deep_view() == (ImageView {
                kind: ImageKind::Source,
                width: None,
                height: None,
                url: url@,
            }),
    {
        ImageBuilder { draft: Image { kind: ImageKind::Source, width: None, height: None, url: owned(url) } }
    }

    /// Sets whether the image is the full picture or a reduced one.
    pub fn kind(self, kind: ImageKind) -> (r: Self)
        ensures
            r.deep_view() == (ImageView { kind, ..self.deep_view() }),
    {
        let mut draft = self.draft;
        draft.kind = kind;
        ImageBuilder { draft }
    }

    /// Sets the width in pixels.
    pub fn width(self, width: u32) -> (r: Self)
        ensures
            r.deep_view() == (ImageView { width: Some(width), ..self.deep_view() }),
    {
        let mut draft = self.draft;
        draft.width = Some(width);
        ImageBuilder { draft }
    }

    /// Sets the height in pixels.
    pub fn height(self, height: u32) -> (r: Self)
        ensures
            r.deep_view() == (ImageView { height: Some(height), ..self.deep_view() }),
    {
        let mut draft = self.draft;
        draft.height = Some(height);
        ImageBuilder { draft }
    }

    /// The finished image.
    pub fn build(self) -> (r: Image)
        ensures
            r.deep_view() == self.deep_view(),
    {
        self.draft
    }
}

/// Builds a [`Release`].
#[derive(Clone, Debug)]
pub struct ReleaseBuilder {
    draft: Release,
}

impl DeepView for ReleaseBuilder {
    type V = ReleaseView;

    closed spec fn deep_view(&self) -> ReleaseView {
        self.draft.deep_view()
    }
}

impl ReleaseBuilder {
    /// Starts a release of the version `version`, which is required.
    pub fn new(version: &str) -> (r: Self)
        requires
            version@.len() > 0,
        ensures
            r.deep_view() == (ReleaseView {
                version: version@,
                kind: None,
                date: None,
                urgency: None,
            }),
    {
        ReleaseBuilder { draft: Release { version: owned(version), kind: None, date: None, urgency: None } }
    }

    /// Sets how settled the release is.
    pub fn kind(self, kind: ReleaseKind) -> (r: Self)
        ensures
            r.deep_view() == (ReleaseView { kind: Some(kind), ..self.deep_view() }),
    {
        let mut draft = self.draft;
        draft.kind = Some(kind);
        ReleaseBuilder { draft }
    }

    /// Sets the moment of the release.
    pub fn date(self, date: UtcInstant) -> (r: Self)
        ensures
            r.deep_view() == (ReleaseView { date: Some(date), ..self.deep_view() }),
    {
        let mut draft = self.draft;
        draft.date = Some(date);
        ReleaseBuilder { draft }
    }

    /// Sets how pressing the release is.
    pub fn urgency(self, urgency: ReleaseUrgency) -> (r: Self)
        ensures
            r.deep_view() == (ReleaseView { urgency: Some(urgency), ..self.deep_view() }),
    {
        let mut draft = self.draft;
        draft.urgency = Some(urgency);
        ReleaseBuilder { draft }
    }

    /// The finished release.
    pub fn build(self) -> (r: Release)
        ensures
            r.deep_view() == self.deep_view(),
    {
        self.draft
    }
}

/// Builds a [`Screenshot`].
#[derive(Clone, Debug)]
pub struct ScreenshotBuilder {
    draft: Screenshot,
}

impl DeepView for ScreenshotBuilder {
    type V = ScreenshotView;

    closed spec fn deep_view(&self) -> ScreenshotView {
        self.draft.deep_view()
    }
}

impl ScreenshotView {
    /// The screenshot that a builder starts from: the default one, with
    /// no caption and no image.
    pub open spec fn blank() -> ScreenshotView {
        ScreenshotView { is_default: true, caption: TranslatedText::empty(), images: Seq::empty() }
    }
}

impl Default for ScreenshotBuilder {
    fn default() -> (r: Self)
        ensures
            r.deep_view() == ScreenshotView::blank(),
    {
        let r = ScreenshotBuilder {
            draft: Screenshot {
                is_default: true,
                caption: TranslatableString::default(),
                images: Vec::new(),
            },
        };
        assert(r.deep_view().images =~= Seq::empty());
        r
    }
}

impl ScreenshotBuilder {
    /// Says whether this is the default screenshot.
    pub fn set_default(self, is_default: bool) -> (r: Self)
        ensures
            r.deep_view() == (ScreenshotView { is_default, ..self.deep_view() }),
    {
        let mut draft = self.draft;
        draft.is_default = is_default;
        ScreenshotBuilder { draft }
    }

    /// Sets the caption.
    pub fn caption(self, caption: TranslatableString) -> (r: Self)
        ensures
            r.deep_view() == (ScreenshotView { caption: caption.deep_view(), ..self.deep_view() }),
    {
        let mut draft = self.draft;
        draft.caption = caption;
        ScreenshotBuilder { draft }
    }

    /// Appends an image.
    pub fn image(self, image: Image) -> (r: Self)
        ensures
            r.deep_view() == (ScreenshotView {
                images: self.deep_view().images.push(image.deep_view()),
                ..self.deep_view()
            }),
    {
        let mut draft = self.draft;
        let ghost before = draft.images.deep_view();
        draft.images.push(image);
        assert(draft.images.deep_view() =~= before.push(image.deep_view()));
        ScreenshotBuilder { draft }
    }

    /// The finished screenshot.
    pub fn build(self) -> (r: Screenshot)
        ensures
            r.deep_view() == self.deep_view(),
    {
        self.draft
    }
}

/// Builds a [`Collection`].
#[derive(Clone, Debug)]
pub struct CollectionBuilder {
    draft: Collection,
}

impl DeepView for CollectionBuilder {
    type V = CollectionView;

    closed spec fn deep_view(&self) -> CollectionView {
        self.draft.deep_view()
    }
}

impl CollectionBuilder {
    /// Starts a collection of the format version `version`, which is required.
    pub fn new(version: &str) -> (r: Self)
        requires
            version@.len() > 0,
        ensures
            r.deep_view() == (CollectionView {
                version: version@,
                origin: None,
                media_base_url: None,
                architecture: None,
                components: Seq::empty(),
            }),
    {
        let r = CollectionBuilder {
            draft: Collection {
                version: owned(version),
                origin: None,
                media_base_url: None,
                components: Vec::new(),
                architecture: None,
            },
        };
        assert(r.deep_view().components =~= Seq::empty());
        r
    }

    /// Sets the repository that the collection came from.
    pub fn origin(self, origin: &str) -> (r: Self)
        ensures
            r.deep_view() == (CollectionView { origin: Some(origin@), ..self.deep_view() }),
    {
        let mut draft = self.draft;
        draft.origin = Some(owned(origin));
        CollectionBuilder { draft }
    }

    /// Sets the address that relative media addresses are appended to.
    pub fn media_base_url(self, url: &str) -> (r: Self)
        ensures
            r.deep_view() == (CollectionView { media_base_url: Some(url@), ..self.deep_view() }),
    {
        let mut draft = self.draft;
        draft.media_base_url = Some(owned(url));
        CollectionBuilder { draft }
    }

    /// Sets the processor architecture that the collection is for.
    pub fn architecture(self, architecture: &str) -> (r: Self)
        ensures
            r.deep_view() == (CollectionView {
                architecture: Some(architecture@),
                ..self.deep_view()
            }),
    {
        let mut draft = self.draft;
        draft.architecture = Some(owned(architecture));
        CollectionBuilder { draft }
    }

    /// Appends a component.
    pub fn component(self, component: Component) -> (r: Self)
        ensures
            r.deep_view() == (CollectionView {
                components: self.deep_view().components.push(component.deep_view()),
                ..self.deep_view()
            }),
    {
        let mut draft = self.draft;
        let ghost before = draft.components.deep_view();
        draft.components.push(component);
        assert(draft.components.deep_view() =~= before.push(component.deep_view()));
        CollectionBuilder { draft }
    }

    /// The finished collection.
    pub fn build(self) -> (r: Collection)
        ensures
            r.deep_view() == self.deep_view(),
    {
        self.draft
    }
}

/// Builds a [`Component`]. The identifier is required: without it
/// there is nothing to build.
#[derive(Clone, Debug)]
pub struct ComponentBuilder {
    named: bool,
    draft: Component,
}

impl DeepView for ComponentBuilder {
    type V = ComponentView;

    closed spec fn deep_view(&self) -> ComponentView {
        self.draft.deep_view()
    }
}

impl Default for ComponentBuilder {
    fn default() -> (r: Self)
        ensures
            r.deep_view() == ComponentView::blank(Seq::empty()),
            !r.has_id(),
    {
        proof {
            reveal_strlit("");
            assert(""@ =~= Seq::<char>::empty());
        }
        ComponentBuilder { named: false, draft: Component::blank(AppId::new("")) }
    }
}

impl ComponentBuilder {
    /// Whether the identifier was set.
    pub closed spec fn has_id(&self) -> bool {
        self.named
    }

    /// Sets the identifier.
    pub fn id(self, id: AppId) -> (r: Self)
        ensures
            r.deep_view() == (ComponentView { id: id.deep_view(), ..self.deep_view() }),
            r.has_id(),
    {
        let mut draft = self.draft;
        draft.id = id;
        ComponentBuilder { named: true, draft }
    }

    /// Sets the kind of software.
    pub fn kind(self, kind: ComponentKind) -> (r: Self)
        ensures
            r.deep_view() == (ComponentView { kind: kind.deep_view(), ..self.deep_view() }),
            r.has_id() == self.has_id(),
    {
        let mut draft = self.draft;
        draft.kind = kind;
        ComponentBuilder { named: self.named, draft }
    }

    /// Sets the repository that the component came from.
    pub fn origin(self, origin: &str) -> (r: Self)
        ensures
            r.deep_view() == (ComponentView { origin: Some(origin@), ..self.deep_view() }),
            r.has_id() == self.has_id(),
    {
        let mut draft = self.draft;
        draft.origin = Some(owned(origin));
        ComponentBuilder { named: self.named, draft }
    }

    /// Sets the name.
    pub fn name(self, name: TranslatableString) -> (r: Self)
        ensures
            r.deep_view() == (ComponentView { name: name.deep_view(), ..self.deep_view() }),
            r.has_id() == self.has_id(),
    {
        let mut draft = self.draft;
        draft.name = name;
        ComponentBuilder { named: self.named, draft }
    }

    /// Sets the one-line summary.
    pub fn summary(self, summary: TranslatableString) -> (r: Self)
        ensures
            r.deep_view() == (ComponentView { summary: summary.deep_view(), ..self.deep_view() }),
            r.has_id() == self.has_id(),
    {
        let mut draft = self.draft;
        draft.summary = summary;
        ComponentBuilder { named: self.named, draft }
    }

    /// Sets the long description.
    pub fn description(self, description: MarkupTranslatableString) -> (r: Self)
        ensures
            r.deep_view() == (ComponentView { description: description.deep_view(), ..self.deep_view() }),
            r.has_id() == self.has_id(),
    {
        let mut draft = self.draft;
        draft.description = description;
        ComponentBuilder { named: self.named, draft }
    }

    /// Sets the name of the developer.
    pub fn developer_name(self, developer_name: TranslatableString) -> (r: Self)
        ensures
            r.deep_view() == (ComponentView { developer_name: developer_name.deep_view(), ..self.deep_view() }),
            r.has_id() == self.has_id(),
    {
        let mut draft = self.draft;
        draft.developer_name = developer_name;
        ComponentBuilder { named: self.named, draft }
    }

    /// Sets the words to find the component by.
    pub fn keywords(self, keywords: TranslatableList) -> (r: Self)
        ensures
            r.deep_view() == (ComponentView { keywords: keywords.deep_view(), ..self.deep_view() }),
            r.has_id() == self.has_id(),
    {
        let mut draft = self.draft;
        draft.keywords = keywords;
        ComponentBuilder { named: self.named, draft }
    }

    /// Sets the licence of the software.
    pub fn project_license(self, license: License) -> (r: Self)
        ensures
            r.deep_view() == (ComponentView { project_license: Some(license.deep_view()), ..self.deep_view() }),
            r.has_id() == self.has_id(),
    {
        let mut draft = self.draft;
        draft.project_license = Some(license);
        ComponentBuilder { named: self.named, draft }
    }

    /// Sets the licence of the description.
    pub fn metadata_license(self, license: License) -> (r: Self)
        ensures
            r.deep_view() == (ComponentView { metadata_license: Some(license.deep_view()), ..self.deep_view() }),
            r.has_id() == self.has_id(),
    {
        let mut draft = self.draft;
        draft.metadata_license = Some(license);
        ComponentBuilder { named: self.named, draft }
    }

    /// Sets the umbrella project.
    pub fn project_group(self, group: &str) -> (r: Self)
        ensures
            r.deep_view() == (ComponentView { project_group: Some(group@), ..self.deep_view() }),
            r.has_id() == self.has_id(),
    {
        let mut draft = self.draft;
        draft.project_group = Some(owned(group));
        ComponentBuilder { named: self.named, draft }
    }

    /// Sets the package that installs the component.
    pub fn pkgname(self, name: &str) -> (r: Self)
        ensures
            r.deep_view() == (ComponentView { pkgname: Some(name@), ..self.deep_view() }),
            r.has_id() == self.has_id(),
    {
        let mut draft = self.draft;
        draft.pkgname = Some(owned(name));
        ComponentBuilder { named: self.named, draft }
    }

    /// Sets the source package.
    pub fn source_pkgname(self, name: &str) -> (r: Self)
        ensures
            r.deep_view() == (ComponentView { source_pkgname: Some(name@), ..self.deep_view() }),
            r.has_id() == self.has_id(),
    {
        let mut draft = self.draft;
        draft.source_pkgname = Some(owned(name));
        ComponentBuilder { named: self.named, draft }
    }

    /// Sets the age rating.
    pub fn content_rating(self, rating: ContentRating) -> (r: Self)
        ensures
            r.deep_view() == (ComponentView { content_rating: Some(rating.deep_view()), ..self.deep_view() }),
            r.has_id() == self.has_id(),
    {
        let mut draft = self.draft;
        draft.content_rating = Some(rating);
        ComponentBuilder { named: self.named, draft }
    }

    /// Appends an icon.
    pub fn icon(self, icon: Icon) -> (r: Self)
        ensures
            r.deep_view() == (ComponentView {
                icons: self.deep_view().icons.push(icon.deep_view()),
                ..self.deep_view()
            }),
            r.has_id() == self.has_id(),
    {
        let mut draft = self.draft;
        let ghost before = draft.icons.deep_view();
        draft.icons.push(icon);
        assert(draft.icons.deep_view() =~= before.push(icon.deep_view()));
        ComponentBuilder { named: self.named, draft }
    }

    /// Appends a screenshot.
    pub fn screenshot(self, screenshot: Screenshot) -> (r: Self)
        ensures
            r.deep_view() == (ComponentView {
                screenshots: self.deep_view().screenshots.push(screenshot.deep_view()),
                ..self.deep_view()
            }),
            r.has_id() == self.has_id(),
    {
        let mut draft = self.draft;
        let ghost before = draft.screenshots.deep_view();
        draft.screenshots.push(screenshot);
        assert(draft.screenshots.deep_view() =~= before.push(screenshot.deep_view()));
        ComponentBuilder { named: self.named, draft }
    }

    /// Appends a release.
    pub fn release(self, release: Release) -> (r: Self)
        ensures
            r.deep_view() == (ComponentView {
                releases: self.deep_view().releases.push(release.deep_view()),
                ..self.deep_view()
            }),
            r.has_id() == self.has_id(),
    {
        let mut draft = self.draft;
        let ghost before = draft.releases.deep_view();
        draft.releases.push(release);
        assert(draft.releases.deep_view() =~= before.push(release.deep_view()));
        ComponentBuilder { named: self.named, draft }
    }

    /// Appends a component that this one extends.
    pub fn extend(self, id: AppId) -> (r: Self)
        ensures
            r.deep_view() == (ComponentView {
                extends: self.deep_view().extends.push(id.deep_view()),
                ..self.deep_view()
            }),
            r.has_id() == self.has_id(),
    {
        let mut draft = self.draft;
        let ghost before = draft.extends.deep_view();
        draft.extends.push(id);
        assert(draft.extends.deep_view() =~= before.push(id.deep_view()));
        ComponentBuilder { named: self.named, draft }
    }

    /// Appends an address of the project.
    pub fn url(self, url: ProjectUrl) -> (r: Self)
        ensures
            r.deep_view() == (ComponentView {
                urls: self.deep_view().urls.push(url.deep_view()),
                ..self.deep_view()
            }),
            r.has_id() == self.has_id(),
    {
        let mut draft = self.draft;
        let ghost before = draft.urls.deep_view();
        draft.urls.push(url);
        assert(draft.urls.deep_view() =~= before.push(url.deep_view()));
        ComponentBuilder { named: self.named, draft }
    }

    /// Appends something that the component provides.
    pub fn provide(self, item: Provide) -> (r: Self)
        ensures
            r.deep_view() == (ComponentView {
                provides: self.deep_view().provides.push(item.deep_view()),
                ..self.deep_view()
            }),
            r.has_id() == self.has_id(),
    {
        let mut draft = self.draft;
        let ghost before = draft.provides.deep_view();
        draft.provides.push(item);
        assert(draft.provides.deep_view() =~= before.push(item.deep_view()));
        ComponentBuilder { named: self.named, draft }
    }

    /// Appends a bundle.
    pub fn bundle(self, bundle: Bundle) -> (r: Self)
        ensures
            r.deep_view() == (ComponentView {
                bundles: self.deep_view().bundles.push(bundle.deep_view()),
                ..self.deep_view()
            }),
            r.has_id() == self.has_id(),
    {
        let mut draft = self.draft;
        let ghost before = draft.bundles.deep_view();
        draft.bundles.push(bundle);
        assert(draft.bundles.deep_view() =~= before.push(bundle.deep_view()));
        ComponentBuilder { named: self.named, draft }
    }

    /// Appends a launchable.
    pub fn launchable(self, launchable: Launchable) -> (r: Self)
        ensures
            r.deep_view() == (ComponentView {
                launchables: self.deep_view().launchables.push(launchable.deep_view()),
                ..self.deep_view()
            }),
            r.has_id() == self.has_id(),
    {
        let mut draft = self.draft;
        let ghost before = draft.launchables.deep_view();
        draft.launchables.push(launchable);
        assert(draft.launchables.deep_view() =~= before.push(launchable.deep_view()));
        ComponentBuilder { named: self.named, draft }
    }

    /// Appends a media type.
    pub fn mimetype(self, mimetype: &str) -> (r: Self)
        ensures
            r.deep_view() == (ComponentView {
                mimetypes: self.deep_view().mimetypes.push(mimetype@),
                ..self.deep_view()
            }),
            r.has_id() == self.has_id(),
    {
        let mut draft = self.draft;
        let ghost before = draft.mimetypes.deep_view();
        draft.mimetypes.push(owned(mimetype));
        assert(draft.mimetypes.deep_view() =~= before.push(mimetype@));
        ComponentBuilder { named: self.named, draft }
    }

    /// Adds a category, unless the component has it already.
    pub fn category(self, category: Category) -> (r: Self)
        ensures
            r.deep_view() == (ComponentView {
                categories: insert_once(self.deep_view().categories, category.deep_view()),
                ..self.deep_view()
            }),
            r.has_id() == self.has_id(),
    {
        let mut draft = self.draft;
        if !has_category(&draft.categories, &category) {
            let ghost before = draft.categories.deep_view();
            draft.categories.push(category);
            assert(draft.categories.deep_view() =~= before.push(category.deep_view()));
        }
        ComponentBuilder { named: self.named, draft }
    }

    /// Adds a desktop that cannot do without the component, unless it is listed already.
    pub fn compulsory_for_desktop(self, desktop: &str) -> (r: Self)
        ensures
            r.deep_view() == (ComponentView {
                compulsory_for_desktop: insert_once(
                    self.deep_view().compulsory_for_desktop,
                    desktop@,
                ),
                ..self.deep_view()
            }),
            r.has_id() == self.has_id(),
    {
        let mut draft = self.draft;
        if !has_word(&draft.compulsory_for_desktop, desktop) {
            let ghost before = draft.compulsory_for_desktop.deep_view();
            draft.compulsory_for_desktop.push(owned(desktop));
            assert(draft.compulsory_for_desktop.deep_view() =~= before.push(desktop@));
        }
        ComponentBuilder { named: self.named, draft }
    }

    /// Writes `value` under the free-form key `key`; a second write for a
    /// key replaces the first.
    pub fn metadata(self, key: String, value: Option<String>) -> (r: Self)
        ensures
            r.deep_view() == (ComponentView {
                metadata: self.deep_view().metadata.insert(key@, value.deep_view()),
                ..self.deep_view()
            }),
            r.has_id() == self.has_id(),
    {
        let mut draft = self.draft;
        draft.metadata.put(key, value);
        ComponentBuilder { named: self.named, draft }
    }

    /// The finished component.
    pub fn build(self) -> (r: Component)
        requires
            self.has_id(),
        ensures
            r.deep_view() == self.deep_view(),
    {
        self.draft
    }
}

} // verus!
