//! A discovered binding, where it came from, and where in macOS's keyboard
//! pipeline it intercepts the keystroke.

use vstd::prelude::*;

use crate::combo::KeyCombo;

verus! {

/// A discovered keyboard shortcut binding.
#[derive(Debug, Clone, PartialEq, Eq)]
pub struct Binding {
    /// The key combination this binding is registered for.
    pub combo: KeyCombo,
    /// Where the binding was discovered.
    pub source: BindingSource,
    /// Human-readable label (e.g. "Show Spotlight search").
    pub label: String,
    /// Whether the binding currently fires. Sources that can see an entry
    /// the user switched off report it with `enabled = false`, so a free
    /// combo can still be explained without being counted as taken.
    pub enabled: bool,
}

/// How macOS delivers a system shortcut.
#[derive(Debug, Clone, Copy, PartialEq, Eq, Hash, Structural)]
pub enum SystemDispatch {
    /// The window server handles the key before any app sees it
    /// (Spotlight, Mission Control, screenshots, ⌘Tab).
    BeforeApps,
    /// A standard menu item AppKit adds to every app (Minimize, Fill,
    /// Center): the frontmost app's menu dispatches it, so it never
    /// shadows an app's own binding.
    StandardMenuItem,
}

/// The system, app, or launcher that owns a binding.
#[derive(Debug, Clone, PartialEq, Eq)]
pub enum BindingSource {
    /// A macOS system shortcut. `id` is the symbolic hotkey number of
    /// `com.apple.symbolichotkeys` (64 = Spotlight) when one is known;
    /// shortcuts such as ⌘Tab have none.
    SystemSymbolicHotkey { id: Option<u32>, dispatch: SystemDispatch },
    /// A per-app menu-item override from the app's `NSUserKeyEquivalents`.
    AppMenuOverride {
        /// The app's bundle identifier (e.g. `"com.apple.TextEdit"`).
        bundle_id: String,
        /// The menu item the user remapped (e.g. `"New"`).
        menu_item: String,
    },
    /// A menu item declared by a running app, read through the
    /// Accessibility API.
    AppMenuItem {
        bundle_id: String,
        /// Localized app name as macOS reports it, when available.
        app_name: Option<String>,
        /// Menu hierarchy path to the item, top-level first.
        menu_path: Vec<String>,
    },
    /// An item of an app's status-bar menu whose shortcut works as a
    /// global hotkey.
    StatusMenuItem { bundle_id: String, app_name: Option<String>, menu_path: Vec<String> },
    /// An item of the Apple menu, which every app shows.
    AppleMenuItem { menu_path: Vec<String> },
}

/// Where in macOS's keyboard pipeline a binding intercepts the keystroke,
/// ordered from first to last. When two enabled global bindings claim the
/// same combo, the one on the earlier layer sees the event first.
#[derive(Debug, Clone, Copy, PartialEq, Eq, PartialOrd, Ord, Hash, Structural)]
pub enum Layer {
    /// Virtual keyboard driver (Karabiner-Elements).
    Driver,
    /// Session-level `CGEventTap` (skhd, BetterTouchTool, Keyboard Maestro).
    EventTap,
    /// macOS system shortcuts.
    System,
    /// Process-registered global hotkeys (Raycast, Alfred, Hammerspoon, ...).
    GlobalHotkey,
    /// A menu item of an application. Fires only while that app is frontmost.
    AppMenu,
}

/// When a binding can fire at all.
#[derive(Debug, Clone, Copy, PartialEq, Eq, Hash, Structural)]
pub enum Scope {
    /// Regardless of which app is frontmost.
    Global,
    /// Only while the owning app is frontmost.
    App,
}

impl Layer {
    /// Position in the pipeline, first to last.
    pub open spec fn spec_rank(self) -> nat {
        match self {
            Layer::Driver => 0,
            Layer::EventTap => 1,
            Layer::System => 2,
            Layer::GlobalHotkey => 3,
            Layer::AppMenu => 4,
        }
    }

    /// Position in the pipeline: the earlier layer sees the key first.
    pub fn rank(self) -> (r: u8)
        ensures
            r as nat == self.spec_rank(),
    {
        match self {
            Layer::Driver => 0,
            Layer::EventTap => 1,
            Layer::System => 2,
            Layer::GlobalHotkey => 3,
            Layer::AppMenu => 4,
        }
    }

    pub open spec fn spec_scope(self) -> Scope {
        match self {
            Layer::AppMenu => Scope::App,
            _ => Scope::Global,
        }
    }

    /// Whether bindings on this layer fire globally or only in their app:
    /// only the app-menu layer is app-scoped.
    pub fn scope(self) -> (s: Scope)
        ensures
            s == self.spec_scope(),
    {
        match self {
            Layer::AppMenu => Scope::App,
            _ => Scope::Global,
        }
    }

    pub open spec fn spec_name(self) -> Seq<char> {
        match self {
            Layer::Driver => "driver"@,
            Layer::EventTap => "event-tap"@,
            Layer::System => "system"@,
            Layer::GlobalHotkey => "global-hotkey"@,
            Layer::AppMenu => "app-menu"@,
        }
    }

    /// Stable lowercase identifier, for output and filters.
    pub fn name(self) -> (s: &'static str)
        ensures
            s@ == self.spec_name(),
    {
        match self {
            Layer::Driver => "driver",
            Layer::EventTap => "event-tap",
            Layer::System => "system",
            Layer::GlobalHotkey => "global-hotkey",
            Layer::AppMenu => "app-menu",
        }
    }
}

/// Each layer has a rank of its own, so the ranks order the layers from
/// the driver, which sees a key first, to the app menus, which see it
/// last.
pub proof fn law_layer_ranks_are_distinct(a: Layer, b: Layer)
    ensures
        a.spec_rank() == b.spec_rank() <==> a == b,
{
}

impl BindingSource {
    pub open spec fn spec_layer(self) -> Layer {
        match self {
            BindingSource::SystemSymbolicHotkey { dispatch, .. } => match dispatch {
                SystemDispatch::BeforeApps => Layer::System,
                SystemDispatch::StandardMenuItem => Layer::AppMenu,
            },
            BindingSource::StatusMenuItem { .. } => Layer::GlobalHotkey,
            BindingSource::AppMenuOverride { .. } => Layer::AppMenu,
            BindingSource::AppMenuItem { .. } => Layer::AppMenu,
            BindingSource::AppleMenuItem { .. } => Layer::AppMenu,
        }
    }

    /// The pipeline layer this binding lives on. Decides who wins when two
    /// global bindings share a combo. A system shortcut that is only a
    /// standard menu item sits on the app-menu layer with the apps.
    pub fn layer(&self) -> (l: Layer)
        ensures
            l == self.spec_layer(),
    {
        match self {
            BindingSource::SystemSymbolicHotkey { dispatch, .. } => match dispatch {
                SystemDispatch::BeforeApps => Layer::System,
                SystemDispatch::StandardMenuItem => Layer::AppMenu,
            },
            BindingSource::StatusMenuItem { .. } => Layer::GlobalHotkey,
            BindingSource::AppMenuOverride { .. } => Layer::AppMenu,
            BindingSource::AppMenuItem { .. } => Layer::AppMenu,
            BindingSource::AppleMenuItem { .. } => Layer::AppMenu,
        }
    }

    pub open spec fn spec_scope(self) -> Scope {
        self.spec_layer().spec_scope()
    }

    /// Shorthand for `self.layer().scope()`.
    pub fn scope(&self) -> (s: Scope)
        ensures
            s == self.spec_scope(),
    {
        self.layer().scope()
    }

    pub open spec fn spec_owner(self) -> Seq<char> {
        match self {
            BindingSource::SystemSymbolicHotkey { .. } => "macOS"@,
            BindingSource::AppMenuOverride { bundle_id, .. } => bundle_id@,
            BindingSource::AppMenuItem { bundle_id, app_name, .. } => match app_name {
                Some(name) => name@,
                None => bundle_id@,
            },
            BindingSource::StatusMenuItem { bundle_id, app_name, .. } => match app_name {
                Some(name) => name@,
                None => bundle_id@,
            },
            BindingSource::AppleMenuItem { .. } => "macOS"@,
        }
    }

    /// Short human-readable identifier for whoever owns this binding —
    /// answers "who took this keystroke?" not "what does it do?": `macOS`
    /// for the system and the Apple menu, the app's name when known, else
    /// its bundle id.
    pub fn owner(&self) -> (s: &str)
        ensures
            s@ == self.spec_owner(),
    {
        match self {
            BindingSource::SystemSymbolicHotkey { .. } => "macOS",
            BindingSource::AppMenuOverride { bundle_id, .. } => bundle_id.as_str(),
            BindingSource::AppMenuItem { bundle_id, app_name, .. } => match app_name {
                Some(name) => name.as_str(),
                None => bundle_id.as_str(),
            },
            BindingSource::StatusMenuItem { bundle_id, app_name, .. } => match app_name {
                Some(name) => name.as_str(),
                None => bundle_id.as_str(),
            },
            BindingSource::AppleMenuItem { .. } => "macOS",
        }
    }

    pub open spec fn spec_bundle_id(self) -> Option<Seq<char>> {
        match self {
            BindingSource::SystemSymbolicHotkey { .. } => None,
            BindingSource::AppMenuOverride { bundle_id, .. } => Some(bundle_id@),
            BindingSource::AppMenuItem { bundle_id, .. } => Some(bundle_id@),
            BindingSource::StatusMenuItem { bundle_id, .. } => Some(bundle_id@),
            BindingSource::AppleMenuItem { .. } => None,
        }
    }

    /// The owning app's bundle identifier, when there is one; `None` for
    /// system-level entries. Lets filters match `com.apple.finder`
    /// regardless of the localized display name.
    pub fn bundle_id(&self) -> (r: Option<&str>)
        ensures
            match r {
                Some(s) => self.spec_bundle_id() == Some(s@),
                None => self.spec_bundle_id() is None,
            },
    {
        match self {
            BindingSource::SystemSymbolicHotkey { .. } => None,
            BindingSource::AppMenuOverride { bundle_id, .. } => Some(bundle_id.as_str()),
            BindingSource::AppMenuItem { bundle_id, .. } => Some(bundle_id.as_str()),
            BindingSource::StatusMenuItem { bundle_id, .. } => Some(bundle_id.as_str()),
            BindingSource::AppleMenuItem { .. } => None,
        }
    }
}

} // verus!
