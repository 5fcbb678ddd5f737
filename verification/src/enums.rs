//! The closed vocabularies of the model, each with an escape for what it does not list.

use vstd::prelude::*;
use crate::text::{owned, same_text};

verus! {

/// The mathematical value of a token of a closed vocabulary: whether the
/// vocabulary lists it, and its canonical spelling.
pub struct Label {
    pub known: bool,
    pub name: Seq<char>,
}

/// What kind of software a component is.
#[derive(Clone, Debug, PartialEq, Eq)]
pub enum ComponentKind {
    Runtime,
    ConsoleApplication,
    DesktopApplication,
    WebApplication,
    InputMethod,
    OperatingSystem,
    Theme,
    Firmware,
    Addon,
    Font,
    Generic,
    IconTheme,
    Localization,
    Driver,
    Codec,
    Service,
    Repository,
    /// A kind that this vocabulary does not list, as it was written.
    Unknown(String),
}

impl DeepView for ComponentKind {
    type V = Label;

    open spec fn deep_view(&self) -> Label {
        match self {
            ComponentKind::Runtime => Label { known: true, name: "runtime"@ },
            ComponentKind::ConsoleApplication => Label { known: true, name: "console-application"@ },
            ComponentKind::DesktopApplication => Label { known: true, name: "desktop-application"@ },
            ComponentKind::WebApplication => Label { known: true, name: "web-application"@ },
            ComponentKind::InputMethod => Label { known: true, name: "inputmethod"@ },
            ComponentKind::OperatingSystem => Label { known: true, name: "operating-system"@ },
            ComponentKind::Theme => Label { known: true, name: "theme"@ },
            ComponentKind::Firmware => Label { known: true, name: "firmware"@ },
            ComponentKind::Addon => Label { known: true, name: "addon"@ },
            ComponentKind::Font => Label { known: true, name: "font"@ },
            ComponentKind::Generic => Label { known: true, name: "generic"@ },
            ComponentKind::IconTheme => Label { known: true, name: "icon-theme"@ },
            ComponentKind::Localization => Label { known: true, name: "localization"@ },
            ComponentKind::Driver => Label { known: true, name: "driver"@ },
            ComponentKind::Codec => Label { known: true, name: "codec"@ },
            ComponentKind::Service => Label { known: true, name: "service"@ },
            ComponentKind::Repository => Label { known: true, name: "repository"@ },
            ComponentKind::Unknown(s) => Label { known: false, name: s@ },
        }
    }
}

impl Default for ComponentKind {
    fn default() -> (r: Self)
        ensures
            r == ComponentKind::Generic,
    {
        ComponentKind::Generic
    }
}

impl ComponentKind {
    /// The canonical spelling of a kind token, if the vocabulary lists the token.
    pub open spec fn canonical(token: Seq<char>) -> Option<Seq<char>> {
        if token == "runtime"@ {
            Some("runtime"@)
        } else if token == "console-application"@ || token == "console-app"@ {
            Some("console-application"@)
        } else if token == "desktop-application"@ || token == "desktop-app"@ || token == "desktop"@ {
            Some("desktop-application"@)
        } else if token == "web-application"@ || token == "web-app"@ {
            Some("web-application"@)
        } else if token == "inputmethod"@ {
            Some("inputmethod"@)
        } else if token == "operating-system"@ {
            Some("operating-system"@)
        } else if token == "theme"@ {
            Some("theme"@)
        } else if token == "firmware"@ {
            Some("firmware"@)
        } else if token == "addon"@ {
            Some("addon"@)
        } else if token == "font"@ {
            Some("font"@)
        } else if token == "generic"@ {
            Some("generic"@)
        } else if token == "icon-theme"@ {
            Some("icon-theme"@)
        } else if token == "localization"@ {
            Some("localization"@)
        } else if token == "driver"@ {
            Some("driver"@)
        } else if token == "codec"@ {
            Some("codec"@)
        } else if token == "service"@ {
            Some("service"@)
        } else if token == "repository"@ {
            Some("repository"@)
        } else {
            None
        }
    }

    /// The value that a kind token stands for.
    pub open spec fn label_of(token: Seq<char>) -> Label {
        match Self::canonical(token) {
            Some(name) => Label { known: true, name },
            None => Label { known: false, name: token },
        }
    }

    /// The kind that a token names; a token that the vocabulary does not
    /// list is kept as it was written.
    pub fn from_token(token: &str) -> (r: ComponentKind)
        ensures
            r.deep_view() == Self::label_of(token@),
    {
        if same_text(token, "runtime") {
            ComponentKind::Runtime
        } else if same_text(token, "console-application") || same_text(token, "console-app") {
            ComponentKind::ConsoleApplication
        } else if same_text(token, "desktop-application") || same_text(token, "desktop-app") || same_text(token, "desktop") {
            ComponentKind::DesktopApplication
        } else if same_text(token, "web-application") || same_text(token, "web-app") {
            ComponentKind::WebApplication
        } else if same_text(token, "inputmethod") {
            ComponentKind::InputMethod
        } else if same_text(token, "operating-system") {
            ComponentKind::OperatingSystem
        } else if same_text(token, "theme") {
            ComponentKind::Theme
        } else if same_text(token, "firmware") {
            ComponentKind::Firmware
        } else if same_text(token, "addon") {
            ComponentKind::Addon
        } else if same_text(token, "font") {
            ComponentKind::Font
        } else if same_text(token, "generic") {
            ComponentKind::Generic
        } else if same_text(token, "icon-theme") {
            ComponentKind::IconTheme
        } else if same_text(token, "localization") {
            ComponentKind::Localization
        } else if same_text(token, "driver") {
            ComponentKind::Driver
        } else if same_text(token, "codec") {
            ComponentKind::Codec
        } else if same_text(token, "service") {
            ComponentKind::Service
        } else if same_text(token, "repository") {
            ComponentKind::Repository
        } else {
            ComponentKind::Unknown(owned(token))
        }
    }

    /// Whether the vocabulary lists this kind.
    pub fn is_known(&self) -> (r: bool)
        ensures
            r == self.deep_view().known,
    {
        match self {
            ComponentKind::Unknown(_) => false,
            _ => true,
        }
    }

    /// The canonical spelling of this kind.
    pub fn token(&self) -> (r: String)
        ensures
            r@ == self.deep_view().name,
    {
        match self {
            ComponentKind::Runtime => owned("runtime"),
            ComponentKind::ConsoleApplication => owned("console-application"),
            ComponentKind::DesktopApplication => owned("desktop-application"),
            ComponentKind::WebApplication => owned("web-application"),
            ComponentKind::InputMethod => owned("inputmethod"),
            ComponentKind::OperatingSystem => owned("operating-system"),
            ComponentKind::Theme => owned("theme"),
            ComponentKind::Firmware => owned("firmware"),
            ComponentKind::Addon => owned("addon"),
            ComponentKind::Font => owned("font"),
            ComponentKind::Generic => owned("generic"),
            ComponentKind::IconTheme => owned("icon-theme"),
            ComponentKind::Localization => owned("localization"),
            ComponentKind::Driver => owned("driver"),
            ComponentKind::Codec => owned("codec"),
            ComponentKind::Service => owned("service"),
            ComponentKind::Repository => owned("repository"),
            ComponentKind::Unknown(s) => s.clone(),
        }
    }
}

/// A menu category of a component.
#[derive(Clone, Debug, PartialEq, Eq)]
pub enum Category {
    AudioVideo,
    Audio,
    Video,
    Development,
    Education,
    Game,
    Graphics,
    Network,
    Office,
    Science,
    Settings,
    System,
    Utility,
    Building,
    Debugger,
    IDE,
    Translation,
    Calendar,
    Database,
    Dictionary,
    Email,
    Finance,
    Presentation,
    Spreadsheet,
    WordProcessor,
    Photography,
    Publishing,
    Viewer,
    TextTools,
    Chat,
    News,
    WebBrowser,
    Player,
    Recorder,
    Music,
    Languages,
    Literature,
    Maps,
    Math,
    Archiving,
    Compression,
    Emulator,
    FileManager,
    TerminalEmulator,
    Monitor,
    Security,
    Accessibility,
    Calculator,
    Clock,
    TextEditor,
    Documentation,
    /// A category that this vocabulary does not list, as it was written.
    Unknown(String),
}

impl DeepView for Category {
    type V = Label;

    open spec fn deep_view(&self) -> Label {
        match self {
            Category::AudioVideo => Label { known: true, name: "AudioVideo"@ },
            Category::Audio => Label { known: true, name: "Audio"@ },
            Category::Video => Label { known: true, name: "Video"@ },
            Category::Development => Label { known: true, name: "Development"@ },
            Category::Education => Label { known: true, name: "Education"@ },
            Category::Game => Label { known: true, name: "Game"@ },
            Category::Graphics => Label { known: true, name: "Graphics"@ },
            Category::Network => Label { known: true, name: "Network"@ },
            Category::Office => Label { known: true, name: "Office"@ },
            Category::Science => Label { known: true, name: "Science"@ },
            Category::Settings => Label { known: true, name: "Settings"@ },
            Category::System => Label { known: true, name: "System"@ },
            Category::Utility => Label { known: true, name: "Utility"@ },
            Category::Building => Label { known: true, name: "Building"@ },
            Category::Debugger => Label { known: true, name: "Debugger"@ },
            Category::IDE => Label { known: true, name: "IDE"@ },
            Category::Translation => Label { known: true, name: "Translation"@ },
            Category::Calendar => Label { known: true, name: "Calendar"@ },
            Category::Database => Label { known: true, name: "Database"@ },
            Category::Dictionary => Label { known: true, name: "Dictionary"@ },
            Category::Email => Label { known: true, name: "Email"@ },
            Category::Finance => Label { known: true, name: "Finance"@ },
            Category::Presentation => Label { known: true, name: "Presentation"@ },
            Category::Spreadsheet => Label { known: true, name: "Spreadsheet"@ },
            Category::WordProcessor => Label { known: true, name: "WordProcessor"@ },
            Category::Photography => Label { known: true, name: "Photography"@ },
            Category::Publishing => Label { known: true, name: "Publishing"@ },
            Category::Viewer => Label { known: true, name: "Viewer"@ },
            Category::TextTools => Label { known: true, name: "TextTools"@ },
            Category::Chat => Label { known: true, name: "Chat"@ },
            Category::News => Label { known: true, name: "News"@ },
            Category::WebBrowser => Label { known: true, name: "WebBrowser"@ },
            Category::Player => Label { known: true, name: "Player"@ },
            Category::Recorder => Label { known: true, name: "Recorder"@ },
            Category::Music => Label { known: true, name: "Music"@ },
            Category::Languages => Label { known: true, name: "Languages"@ },
            Category::Literature => Label { known: true, name: "Literature"@ },
            Category::Maps => Label { known: true, name: "Maps"@ },
            Category::Math => Label { known: true, name: "Math"@ },
            Category::Archiving => Label { known: true, name: "Archiving"@ },
            Category::Compression => Label { known: true, name: "Compression"@ },
            Category::Emulator => Label { known: true, name: "Emulator"@ },
            Category::FileManager => Label { known: true, name: "FileManager"@ },
            Category::TerminalEmulator => Label { known: true, name: "TerminalEmulator"@ },
            Category::Monitor => Label { known: true, name: "Monitor"@ },
            Category::Security => Label { known: true, name: "Security"@ },
            Category::Accessibility => Label { known: true, name: "Accessibility"@ },
            Category::Calculator => Label { known: true, name: "Calculator"@ },
            Category::Clock => Label { known: true, name: "Clock"@ },
            Category::TextEditor => Label { known: true, name: "TextEditor"@ },
            Category::Documentation => Label { known: true, name: "Documentation"@ },
            Category::Unknown(s) => Label { known: false, name: s@ },
        }
    }
}

impl Category {
    /// Whether the vocabulary lists a category token.
    pub open spec fn is_registered(token: Seq<char>) -> bool {
        token == "AudioVideo"@
        || token == "Audio"@
        || token == "Video"@
        || token == "Development"@
        || token == "Education"@
        || token == "Game"@
        || token == "Graphics"@
        || token == "Network"@
        || token == "Office"@
        || token == "Science"@
        || token == "Settings"@
        || token == "System"@
        || token == "Utility"@
        || token == "Building"@
        || token == "Debugger"@
        || token == "IDE"@
        || token == "Translation"@
        || token == "Calendar"@
        || token == "Database"@
        || token == "Dictionary"@
        || token == "Email"@
        || token == "Finance"@
        || token == "Presentation"@
        || token == "Spreadsheet"@
        || token == "WordProcessor"@
        || token == "Photography"@
        || token == "Publishing"@
        || token == "Viewer"@
        || token == "TextTools"@
        || token == "Chat"@
        || token == "News"@
        || token == "WebBrowser"@
        || token == "Player"@
        || token == "Recorder"@
        || token == "Music"@
        || token == "Languages"@
        || token == "Literature"@
        || token == "Maps"@
        || token == "Math"@
        || token == "Archiving"@
        || token == "Compression"@
        || token == "Emulator"@
        || token == "FileManager"@
        || token == "TerminalEmulator"@
        || token == "Monitor"@
        || token == "Security"@
        || token == "Accessibility"@
        || token == "Calculator"@
        || token == "Clock"@
        || token == "TextEditor"@
        || token == "Documentation"@
    }

    /// The value that a category token stands for: a token outside the
    /// vocabulary is kept as it was written.
    pub open spec fn label_of(token: Seq<char>) -> Label {
        Label { known: Self::is_registered(token), name: token }
    }

    /// The category that a token names; never fails.
    pub fn from_token(token: &str) -> (r: Category)
        ensures
            r.deep_view() == Self::label_of(token@),
    {
        if same_text(token, "AudioVideo") {
            Category::AudioVideo
        } else if same_text(token, "Audio") {
            Category::Audio
        } else if same_text(token, "Video") {
            Category::Video
        } else if same_text(token, "Development") {
            Category::Development
        } else if same_text(token, "Education") {
            Category::Education
        } else if same_text(token, "Game") {
            Category::Game
        } else if same_text(token, "Graphics") {
            Category::Graphics
        } else if same_text(token, "Network") {
            Category::Network
        } else if same_text(token, "Office") {
            Category::Office
        } else if same_text(token, "Science") {
            Category::Science
        } else if same_text(token, "Settings") {
            Category::Settings
        } else if same_text(token, "System") {
            Category::System
        } else if same_text(token, "Utility") {
            Category::Utility
        } else if same_text(token, "Building") {
            Category::Building
        } else if same_text(token, "Debugger") {
            Category::Debugger
        } else if same_text(token, "IDE") {
            Category::IDE
        } else if same_text(token, "Translation") {
            Category::Translation
        } else if same_text(token, "Calendar") {
            Category::Calendar
        } else if same_text(token, "Database") {
            Category::Database
        } else if same_text(token, "Dictionary") {
            Category::Dictionary
        } else if same_text(token, "Email") {
            Category::Email
        } else if same_text(token, "Finance") {
            Category::Finance
        } else if same_text(token, "Presentation") {
            Category::Presentation
        } else if same_text(token, "Spreadsheet") {
            Category::Spreadsheet
        } else if same_text(token, "WordProcessor") {
            Category::WordProcessor
        } else if same_text(token, "Photography") {
            Category::Photography
        } else if same_text(token, "Publishing") {
            Category::Publishing
        } else if same_text(token, "Viewer") {
            Category::Viewer
        } else if same_text(token, "TextTools") {
            Category::TextTools
        } else if same_text(token, "Chat") {
            Category::Chat
        } else if same_text(token, "News") {
            Category::News
        } else if same_text(token, "WebBrowser") {
            Category::WebBrowser
        } else if same_text(token, "Player") {
            Category::Player
        } else if same_text(token, "Recorder") {
            Category::Recorder
        } else if same_text(token, "Music") {
            Category::Music
        } else if same_text(token, "Languages") {
            Category::Languages
        } else if same_text(token, "Literature") {
            Category::Literature
        } else if same_text(token, "Maps") {
            Category::Maps
        } else if same_text(token, "Math") {
            Category::Math
        } else if same_text(token, "Archiving") {
            Category::Archiving
        } else if same_text(token, "Compression") {
            Category::Compression
        } else if same_text(token, "Emulator") {
            Category::Emulator
        } else if same_text(token, "FileManager") {
            Category::FileManager
        } else if same_text(token, "TerminalEmulator") {
            Category::TerminalEmulator
        } else if same_text(token, "Monitor") {
            Category::Monitor
        } else if same_text(token, "Security") {
            Category::Security
        } else if same_text(token, "Accessibility") {
            Category::Accessibility
        } else if same_text(token, "Calculator") {
            Category::Calculator
        } else if same_text(token, "Clock") {
            Category::Clock
        } else if same_text(token, "TextEditor") {
            Category::TextEditor
        } else if same_text(token, "Documentation") {
            Category::Documentation
        } else {
            Category::Unknown(owned(token))
        }
    }

    /// Whether the vocabulary lists this category.
    pub fn is_known(&self) -> (r: bool)
        ensures
            r == self.deep_view().known,
    {
        match self {
            Category::Unknown(_) => false,
            _ => true,
        }
    }

    /// The spelling of this category.
    pub fn token(&self) -> (r: String)
        ensures
            r@ == self.deep_view().name,
    {
        match self {
            Category::AudioVideo => owned("AudioVideo"),
            Category::Audio => owned("Audio"),
            Category::Video => owned("Video"),
            Category::Development => owned("Development"),
            Category::Education => owned("Education"),
            Category::Game => owned("Game"),
            Category::Graphics => owned("Graphics"),
            Category::Network => owned("Network"),
            Category::Office => owned("Office"),
            Category::Science => owned("Science"),
            Category::Settings => owned("Settings"),
            Category::System => owned("System"),
            Category::Utility => owned("Utility"),
            Category::Building => owned("Building"),
            Category::Debugger => owned("Debugger"),
            Category::IDE => owned("IDE"),
            Category::Translation => owned("Translation"),
            Category::Calendar => owned("Calendar"),
            Category::Database => owned("Database"),
            Category::Dictionary => owned("Dictionary"),
            Category::Email => owned("Email"),
            Category::Finance => owned("Finance"),
            Category::Presentation => owned("Presentation"),
            Category::Spreadsheet => owned("Spreadsheet"),
            Category::WordProcessor => owned("WordProcessor"),
            Category::Photography => owned("Photography"),
            Category::Publishing => owned("Publishing"),
            Category::Viewer => owned("Viewer"),
            Category::TextTools => owned("TextTools"),
            Category::Chat => owned("Chat"),
            Category::News => owned("News"),
            Category::WebBrowser => owned("WebBrowser"),
            Category::Player => owned("Player"),
            Category::Recorder => owned("Recorder"),
            Category::Music => owned("Music"),
            Category::Languages => owned("Languages"),
            Category::Literature => owned("Literature"),
            Category::Maps => owned("Maps"),
            Category::Math => owned("Math"),
            Category::Archiving => owned("Archiving"),
            Category::Compression => owned("Compression"),
            Category::Emulator => owned("Emulator"),
            Category::FileManager => owned("FileManager"),
            Category::TerminalEmulator => owned("TerminalEmulator"),
            Category::Monitor => owned("Monitor"),
            Category::Security => owned("Security"),
            Category::Accessibility => owned("Accessibility"),
            Category::Calculator => owned("Calculator"),
            Category::Clock => owned("Clock"),
            Category::TextEditor => owned("TextEditor"),
            Category::Documentation => owned("Documentation"),
            Category::Unknown(s) => s.clone(),
        }
    }

    /// A copy of this category.
    pub fn copied(&self) -> (r: Category)
        ensures
            r.deep_view() == self.deep_view(),
    {
        match self {
            Category::Unknown(s) => Category::Unknown(s.clone()),
            _ => Category::from_token(self.token().as_str()),
        }
    }

    /// Whether two categories are the same one.
    pub fn same(&self, other: &Category) -> (r: bool)
        ensures
            r == (self.deep_view() == other.deep_view()),
    {
        self.is_known() == other.is_known() && self.token() == other.token()
    }
}

/// Whether an image is the full picture or a reduced one.
#[derive(Clone, Copy, Debug, PartialEq, Eq, Structural)]
pub enum ImageKind {
    Source,
    Thumbnail,
}

impl ImageKind {
    /// The value that a token names, if the vocabulary lists the token.
    pub open spec fn of_token(token: Seq<char>) -> Option<ImageKind> {
        if token == "source"@ {
            Some(ImageKind::Source)
        } else if token == "thumbnail"@ {
            Some(ImageKind::Thumbnail)
        } else {
            None
        }
    }

    /// The value that a token names, if the vocabulary lists the token.
    pub fn from_token(token: &str) -> (r: Option<ImageKind>)
        ensures
            r == Self::of_token(token@),
    {
        if same_text(token, "source") {
            Some(ImageKind::Source)
        } else if same_text(token, "thumbnail") {
            Some(ImageKind::Thumbnail)
        } else {
            None
        }
    }
}

/// How settled a release is.
#[derive(Clone, Copy, Debug, PartialEq, Eq, Structural)]
pub enum ReleaseKind {
    Stable,
    Development,
}

impl ReleaseKind {
    /// The value that a token names, if the vocabulary lists the token.
    pub open spec fn of_token(token: Seq<char>) -> Option<ReleaseKind> {
        if token == "stable"@ {
            Some(ReleaseKind::Stable)
        } else if token == "development"@ {
            Some(ReleaseKind::Development)
        } else {
            None
        }
    }

    /// The value that a token names, if the vocabulary lists the token.
    pub fn from_token(token: &str) -> (r: Option<ReleaseKind>)
        ensures
            r == Self::of_token(token@),
    {
        if same_text(token, "stable") {
            Some(ReleaseKind::Stable)
        } else if same_text(token, "development") {
            Some(ReleaseKind::Development)
        } else {
            None
        }
    }
}

/// How pressing it is to install a release.
#[derive(Clone, Copy, Debug, PartialEq, Eq, Structural)]
pub enum ReleaseUrgency {
    Low,
    Medium,
    High,
    Critical,
}

impl ReleaseUrgency {
    /// The value that a token names, if the vocabulary lists the token.
    pub open spec fn of_token(token: Seq<char>) -> Option<ReleaseUrgency> {
        if token == "low"@ {
            Some(ReleaseUrgency::Low)
        } else if token == "medium"@ {
            Some(ReleaseUrgency::Medium)
        } else if token == "high"@ {
            Some(ReleaseUrgency::High)
        } else if token == "critical"@ {
            Some(ReleaseUrgency::Critical)
        } else {
            None
        }
    }

    /// The value that a token names, if the vocabulary lists the token.
    pub fn from_token(token: &str) -> (r: Option<ReleaseUrgency>)
        ensures
            r == Self::of_token(token@),
    {
        if same_text(token, "low") {
            Some(ReleaseUrgency::Low)
        } else if same_text(token, "medium") {
            Some(ReleaseUrgency::Medium)
        } else if same_text(token, "high") {
            Some(ReleaseUrgency::High)
        } else if same_text(token, "critical") {
            Some(ReleaseUrgency::Critical)
        } else {
            None
        }
    }
}

/// The mathematical value of a tagged text: the tag of its variant and what it carries.
pub struct Tagged {
    pub tag: Seq<char>,
    pub value: Seq<char>,
}

/// An address that belongs to a project, by its purpose.
#[derive(Clone, Debug, PartialEq, Eq)]
pub enum ProjectUrl {
    Homepage(String),
    BugTracker(String),
    Faq(String),
    Help(String),
    Donation(String),
    Translate(String),
    Contact(String),
    /// One whose type this vocabulary does not list.
    Unknown(String),
}

impl DeepView for ProjectUrl {
    type V = Tagged;

    open spec fn deep_view(&self) -> Tagged {
        match self {
            ProjectUrl::Homepage(s) => Tagged { tag: "homepage"@, value: s@ },
            ProjectUrl::BugTracker(s) => Tagged { tag: "bugtracker"@, value: s@ },
            ProjectUrl::Faq(s) => Tagged { tag: "faq"@, value: s@ },
            ProjectUrl::Help(s) => Tagged { tag: "help"@, value: s@ },
            ProjectUrl::Donation(s) => Tagged { tag: "donation"@, value: s@ },
            ProjectUrl::Translate(s) => Tagged { tag: "translate"@, value: s@ },
            ProjectUrl::Contact(s) => Tagged { tag: "contact"@, value: s@ },
            ProjectUrl::Unknown(s) => Tagged { tag: "unknown"@, value: s@ },
        }
    }
}

impl ProjectUrl {
    /// Whether the vocabulary lists a type token.
    pub open spec fn is_listed(token: Seq<char>) -> bool {
        token == "homepage"@
        || token == "bugtracker"@
        || token == "faq"@
        || token == "help"@
        || token == "donation"@
        || token == "translate"@
        || token == "contact"@
    }

    /// The value of an address of type `token` that carries `value`.
    pub open spec fn tagged(token: Seq<char>, value: Seq<char>) -> Tagged {
        if Self::is_listed(token) {
            Tagged { tag: token, value }
        } else {
            Tagged { tag: "unknown"@, value }
        }
    }

    /// An address of type `token` that carries `value`.
    pub fn of_type(token: &str, value: String) -> (r: ProjectUrl)
        ensures
            r.deep_view() == Self::tagged(token@, value@),
    {
        if same_text(token, "homepage") {
            ProjectUrl::Homepage(value)
        } else if same_text(token, "bugtracker") {
            ProjectUrl::BugTracker(value)
        } else if same_text(token, "faq") {
            ProjectUrl::Faq(value)
        } else if same_text(token, "help") {
            ProjectUrl::Help(value)
        } else if same_text(token, "donation") {
            ProjectUrl::Donation(value)
        } else if same_text(token, "translate") {
            ProjectUrl::Translate(value)
        } else if same_text(token, "contact") {
            ProjectUrl::Contact(value)
        } else {
            ProjectUrl::Unknown(value)
        }
    }
}

/// A way to start a component.
#[derive(Clone, Debug, PartialEq, Eq)]
pub enum Launchable {
    DesktopId(String),
    Service(String),
    Url(String),
    CockpitManifest(String),
    /// One whose type this vocabulary does not list.
    Unknown(String),
}

impl DeepView for Launchable {
    type V = Tagged;

    open spec fn deep_view(&self) -> Tagged {
        match self {
            Launchable::DesktopId(s) => Tagged { tag: "desktop-id"@, value: s@ },
            Launchable::Service(s) => Tagged { tag: "service"@, value: s@ },
            Launchable::Url(s) => Tagged { tag: "url"@, value: s@ },
            Launchable::CockpitManifest(s) => Tagged { tag: "cockpit-manifest"@, value: s@ },
            Launchable::Unknown(s) => Tagged { tag: "unknown"@, value: s@ },
        }
    }
}

impl Launchable {
    /// Whether the vocabulary lists a type token.
    pub open spec fn is_listed(token: Seq<char>) -> bool {
        token == "desktop-id"@
        || token == "service"@
        || token == "url"@
        || token == "cockpit-manifest"@
    }

    /// The value of a launchable of type `token` that carries `value`.
    pub open spec fn tagged(token: Seq<char>, value: Seq<char>) -> Tagged {
        if Self::is_listed(token) {
            Tagged { tag: token, value }
        } else {
            Tagged { tag: "unknown"@, value }
        }
    }

    /// A launchable of type `token` that carries `value`.
    pub fn of_type(token: &str, value: String) -> (r: Launchable)
        ensures
            r.deep_view() == Self::tagged(token@, value@),
    {
        if same_text(token, "desktop-id") {
            Launchable::DesktopId(value)
        } else if same_text(token, "service") {
            Launchable::Service(value)
        } else if same_text(token, "url") {
            Launchable::Url(value)
        } else if same_text(token, "cockpit-manifest") {
            Launchable::CockpitManifest(value)
        } else {
            Launchable::Unknown(value)
        }
    }
}

/// Something that a component makes available to the system.
#[derive(Clone, Debug, PartialEq, Eq)]
pub enum Provide {
    Library(String),
    Binary(String),
    Font(String),
    Modalias(String),
    Firmware(String),
    Python2(String),
    Python3(String),
    DBus(String),
    Id(String),
    Codec(String),
}

impl DeepView for Provide {
    type V = Tagged;

    open spec fn deep_view(&self) -> Tagged {
        match self {
            Provide::Library(s) => Tagged { tag: "library"@, value: s@ },
            Provide::Binary(s) => Tagged { tag: "binary"@, value: s@ },
            Provide::Font(s) => Tagged { tag: "font"@, value: s@ },
            Provide::Modalias(s) => Tagged { tag: "modalias"@, value: s@ },
            Provide::Firmware(s) => Tagged { tag: "firmware"@, value: s@ },
            Provide::Python2(s) => Tagged { tag: "python2"@, value: s@ },
            Provide::Python3(s) => Tagged { tag: "python3"@, value: s@ },
            Provide::DBus(s) => Tagged { tag: "dbus"@, value: s@ },
            Provide::Id(s) => Tagged { tag: "id"@, value: s@ },
            Provide::Codec(s) => Tagged { tag: "codec"@, value: s@ },
        }
    }
}

impl Provide {
    /// Whether the vocabulary lists a type token.
    pub open spec fn is_listed(token: Seq<char>) -> bool {
        token == "library"@
        || token == "binary"@
        || token == "font"@
        || token == "modalias"@
        || token == "firmware"@
        || token == "python2"@
        || token == "python3"@
        || token == "dbus"@
        || token == "id"@
        || token == "codec"@
    }

    /// A provided item of type `token` that carries `value`, if the vocabulary lists the type.
    pub fn of_type(token: &str, value: String) -> (r: Option<Provide>)
        ensures
            r.deep_view() == (if Self::is_listed(token@) {
                Some(Tagged { tag: token@, value: value@ })
            } else {
                None
            }),
    {
        if same_text(token, "library") {
            Some(Provide::Library(value))
        } else if same_text(token, "binary") {
            Some(Provide::Binary(value))
        } else if same_text(token, "font") {
            Some(Provide::Font(value))
        } else if same_text(token, "modalias") {
            Some(Provide::Modalias(value))
        } else if same_text(token, "firmware") {
            Some(Provide::Firmware(value))
        } else if same_text(token, "python2") {
            Some(Provide::Python2(value))
        } else if same_text(token, "python3") {
            Some(Provide::Python3(value))
        } else if same_text(token, "dbus") {
            Some(Provide::DBus(value))
        } else if same_text(token, "id") {
            Some(Provide::Id(value))
        } else if same_text(token, "codec") {
            Some(Provide::Codec(value))
        } else {
            None
        }
    }
}

/// The mathematical value of an [`Icon`].
pub enum IconView {
    Stock(Seq<char>),
    Cached { path: Seq<char>, width: Option<u32>, height: Option<u32> },
    Local { path: Seq<char>, width: Option<u32>, height: Option<u32> },
    Remote { url: Seq<char>, width: Option<u32>, height: Option<u32> },
}

/// A picture that stands for a component.
#[derive(Clone, Debug, PartialEq, Eq)]
pub enum Icon {
    /// An icon of the current theme, by name.
    Stock(String),
    /// A file of the icon cache that comes with the collection.
    Cached { path: String, width: Option<u32>, height: Option<u32> },
    /// A file on the local machine.
    Local { path: String, width: Option<u32>, height: Option<u32> },
    /// A picture at an absolute address.
    Remote { url: String, width: Option<u32>, height: Option<u32> },
}

impl DeepView for Icon {
    type V = IconView;

    open spec fn deep_view(&self) -> IconView {
        match self {
            Icon::Stock(name) => IconView::Stock(name@),
            Icon::Cached { path, width, height } => IconView::Cached {
                path: path@,
                width: *width,
                height: *height,
            },
            Icon::Local { path, width, height } => IconView::Local {
                path: path@,
                width: *width,
                height: *height,
            },
            Icon::Remote { url, width, height } => IconView::Remote {
                url: url@,
                width: *width,
                height: *height,
            },
        }
    }
}

/// The mathematical value of a [`Bundle`].
pub struct BundleView {
    pub tag: Seq<char>,
    pub reference: Seq<char>,
    pub runtime: Option<Seq<char>>,
    pub sdk: Option<Seq<char>>,
}

/// A packaged form in which a component can be had.
#[derive(Clone, Debug, PartialEq, Eq)]
pub enum Bundle {
    Limba(String),
    Flatpak { runtime: Option<String>, sdk: Option<String>, reference: String },
    AppImage(String),
    Snap(String),
    Tarball(String),
}

impl DeepView for Bundle {
    type V = BundleView;

    open spec fn deep_view(&self) -> BundleView {
        match self {
            Bundle::Limba(s) => BundleView {
                tag: "limba"@,
                reference: s@,
                runtime: None,
                sdk: None,
            },
            Bundle::Flatpak { runtime, sdk, reference } => BundleView {
                tag: "flatpak"@,
                reference: reference@,
                runtime: runtime.deep_view(),
                sdk: sdk.deep_view(),
            },
            Bundle::AppImage(s) => BundleView {
                tag: "appimage"@,
                reference: s@,
                runtime: None,
                sdk: None,
            },
            Bundle::Snap(s) => BundleView {
                tag: "snap"@,
                reference: s@,
                runtime: None,
                sdk: None,
            },
            Bundle::Tarball(s) => BundleView {
                tag: "tarball"@,
                reference: s@,
                runtime: None,
                sdk: None,
            },
        }
    }
}

impl Bundle {
    /// Whether the vocabulary lists a bundle type.
    pub open spec fn is_listed(token: Seq<char>) -> bool {
        token == "limba"@ || token == "flatpak"@ || token == "appimage"@ || token == "snap"@
            || token == "tarball"@
    }

    /// The value of a bundle of type `token`: only a flatpak bundle keeps a runtime and an sdk.
    pub open spec fn described(
        token: Seq<char>,
        reference: Seq<char>,
        runtime: Option<Seq<char>>,
        sdk: Option<Seq<char>>,
    ) -> Option<BundleView> {
        if token == "flatpak"@ {
            Some(BundleView { tag: token, reference, runtime, sdk })
        } else if Self::is_listed(token) {
            Some(BundleView { tag: token, reference, runtime: None, sdk: None })
        } else {
            None
        }
    }

    /// A bundle of type `token`, if the vocabulary lists the type.
    pub fn of_type(
        token: &str,
        reference: String,
        runtime: Option<String>,
        sdk: Option<String>,
    ) -> (r: Option<Bundle>)
        ensures
            r.deep_view() == Self::described(
                token@,
                reference@,
                runtime.deep_view(),
                sdk.deep_view(),
            ),
    {
        if same_text(token, "flatpak") {
            Some(Bundle::Flatpak { runtime, sdk, reference })
        } else if same_text(token, "limba") {
            Some(Bundle::Limba(reference))
        } else if same_text(token, "appimage") {
            Some(Bundle::AppImage(reference))
        } else if same_text(token, "snap") {
            Some(Bundle::Snap(reference))
        } else if same_text(token, "tarball") {
            Some(Bundle::Tarball(reference))
        } else {
            None
        }
    }
}

} // verus!
