//! What is known about macOS's own shortcuts beyond what the live table
//! says: which id a combo belongs to, its label, whether macOS ships it
//! switched on, and whether macOS handles it before apps or merely offers
//! it as a standard menu item. Verified against macOS Tahoe (26.x); an
//! entry not listed is reported as a generic macOS shortcut.

use vstd::prelude::*;

use crate::binding::SystemDispatch;
use crate::combo::{Key, KeyCombo, Modifiers, NamedKey};

verus! {

/// A symbolic hotkey that has an id in `com.apple.symbolichotkeys`.
#[derive(Debug, Clone, Copy)]
pub struct KnownHotkey {
    pub id: u32,
    /// Built-in combo, when there is one; some ids ship with no key.
    pub combo: Option<KeyCombo>,
    /// Whether macOS ships the shortcut switched on.
    pub enabled: bool,
    pub label: &'static str,
    pub dispatch: SystemDispatch,
}

/// A shortcut macOS registers without exposing an id.
#[derive(Debug, Clone, Copy)]
pub struct BuiltinShortcut {
    pub combo: KeyCombo,
    pub label: &'static str,
    pub dispatch: SystemDispatch,
}

/// The symbolic hotkeys with an id, as macOS ships them.
pub open spec fn known_table() -> Seq<KnownHotkey> {
    seq![
        KnownHotkey { id: 7, combo: Some(KeyCombo { modifiers: Modifiers { ctrl: true, ..Modifiers::none() }, key: Key::Named(NamedKey::F2) }), enabled: true, label: "Move focus to the menu bar", dispatch: SystemDispatch::BeforeApps },
        KnownHotkey { id: 8, combo: Some(KeyCombo { modifiers: Modifiers { ctrl: true, ..Modifiers::none() }, key: Key::Named(NamedKey::F3) }), enabled: true, label: "Move focus to the Dock", dispatch: SystemDispatch::BeforeApps },
        KnownHotkey { id: 9, combo: Some(KeyCombo { modifiers: Modifiers { ctrl: true, ..Modifiers::none() }, key: Key::Named(NamedKey::F4) }), enabled: true, label: "Move focus to active or next window", dispatch: SystemDispatch::BeforeApps },
        KnownHotkey { id: 10, combo: Some(KeyCombo { modifiers: Modifiers { ctrl: true, ..Modifiers::none() }, key: Key::Named(NamedKey::F5) }), enabled: true, label: "Move focus to the window toolbar", dispatch: SystemDispatch::BeforeApps },
        KnownHotkey { id: 11, combo: Some(KeyCombo { modifiers: Modifiers { ctrl: true, ..Modifiers::none() }, key: Key::Named(NamedKey::F6) }), enabled: true, label: "Move focus to the floating window", dispatch: SystemDispatch::BeforeApps },
        KnownHotkey { id: 12, combo: Some(KeyCombo { modifiers: Modifiers { ctrl: true, ..Modifiers::none() }, key: Key::Named(NamedKey::F1) }), enabled: true, label: "Turn keyboard access on or off", dispatch: SystemDispatch::BeforeApps },
        KnownHotkey { id: 13, combo: Some(KeyCombo { modifiers: Modifiers { ctrl: true, ..Modifiers::none() }, key: Key::Named(NamedKey::F7) }), enabled: true, label: "Change the way Tab moves focus", dispatch: SystemDispatch::BeforeApps },
        KnownHotkey { id: 57, combo: Some(KeyCombo { modifiers: Modifiers { ctrl: true, ..Modifiers::none() }, key: Key::Named(NamedKey::F8) }), enabled: true, label: "Move focus to status menus", dispatch: SystemDispatch::BeforeApps },
        KnownHotkey { id: 27, combo: Some(KeyCombo { modifiers: Modifiers { cmd: true, ..Modifiers::none() }, key: Key::Char('`') }), enabled: true, label: "Move focus to next window", dispatch: SystemDispatch::StandardMenuItem },
        KnownHotkey { id: 51, combo: None, enabled: true, label: "Move focus to the window drawer", dispatch: SystemDispatch::StandardMenuItem },
        KnownHotkey { id: 15, combo: Some(KeyCombo { modifiers: Modifiers { opt: true, cmd: true, ..Modifiers::none() }, key: Key::Char('8') }), enabled: false, label: "Turn zoom on or off", dispatch: SystemDispatch::BeforeApps },
        KnownHotkey { id: 17, combo: Some(KeyCombo { modifiers: Modifiers { opt: true, cmd: true, ..Modifiers::none() }, key: Key::Char('=') }), enabled: false, label: "Zoom in", dispatch: SystemDispatch::BeforeApps },
        KnownHotkey { id: 19, combo: Some(KeyCombo { modifiers: Modifiers { opt: true, cmd: true, ..Modifiers::none() }, key: Key::Char('-') }), enabled: false, label: "Zoom out", dispatch: SystemDispatch::BeforeApps },
        KnownHotkey { id: 21, combo: Some(KeyCombo { modifiers: Modifiers { ctrl: true, opt: true, cmd: true, ..Modifiers::none() }, key: Key::Char('8') }), enabled: false, label: "Invert colors", dispatch: SystemDispatch::BeforeApps },
        KnownHotkey { id: 23, combo: Some(KeyCombo { modifiers: Modifiers { opt: true, cmd: true, ..Modifiers::none() }, key: Key::Char('\\') }), enabled: false, label: "Turn image smoothing on or off", dispatch: SystemDispatch::BeforeApps },
        KnownHotkey { id: 25, combo: Some(KeyCombo { modifiers: Modifiers { ctrl: true, opt: true, cmd: true, ..Modifiers::none() }, key: Key::Char('.') }), enabled: false, label: "Increase contrast", dispatch: SystemDispatch::BeforeApps },
        KnownHotkey { id: 26, combo: Some(KeyCombo { modifiers: Modifiers { ctrl: true, opt: true, cmd: true, ..Modifiers::none() }, key: Key::Char(',') }), enabled: false, label: "Decrease contrast", dispatch: SystemDispatch::BeforeApps },
        KnownHotkey { id: 59, combo: Some(KeyCombo { modifiers: Modifiers { cmd: true, ..Modifiers::none() }, key: Key::Named(NamedKey::F5) }), enabled: true, label: "Turn VoiceOver on or off", dispatch: SystemDispatch::BeforeApps },
        KnownHotkey { id: 28, combo: Some(KeyCombo { modifiers: Modifiers { shift: true, cmd: true, ..Modifiers::none() }, key: Key::Char('3') }), enabled: true, label: "Save picture of screen as a file", dispatch: SystemDispatch::BeforeApps },
        KnownHotkey { id: 29, combo: Some(KeyCombo { modifiers: Modifiers { ctrl: true, shift: true, cmd: true, ..Modifiers::none() }, key: Key::Char('3') }), enabled: true, label: "Copy picture of screen to the clipboard", dispatch: SystemDispatch::BeforeApps },
        KnownHotkey { id: 30, combo: Some(KeyCombo { modifiers: Modifiers { shift: true, cmd: true, ..Modifiers::none() }, key: Key::Char('4') }), enabled: true, label: "Save picture of selected area as a file", dispatch: SystemDispatch::BeforeApps },
        KnownHotkey { id: 31, combo: Some(KeyCombo { modifiers: Modifiers { ctrl: true, shift: true, cmd: true, ..Modifiers::none() }, key: Key::Char('4') }), enabled: true, label: "Copy picture of selected area to the clipboard", dispatch: SystemDispatch::BeforeApps },
        KnownHotkey { id: 184, combo: Some(KeyCombo { modifiers: Modifiers { shift: true, cmd: true, ..Modifiers::none() }, key: Key::Char('5') }), enabled: true, label: "Screenshot and recording options", dispatch: SystemDispatch::BeforeApps },
        KnownHotkey { id: 181, combo: Some(KeyCombo { modifiers: Modifiers { shift: true, cmd: true, ..Modifiers::none() }, key: Key::Char('6') }), enabled: true, label: "Save picture of the Touch Bar as a file", dispatch: SystemDispatch::BeforeApps },
        KnownHotkey { id: 182, combo: Some(KeyCombo { modifiers: Modifiers { ctrl: true, shift: true, cmd: true, ..Modifiers::none() }, key: Key::Char('6') }), enabled: true, label: "Copy picture of the Touch Bar to the clipboard", dispatch: SystemDispatch::BeforeApps },
        KnownHotkey { id: 32, combo: Some(KeyCombo { modifiers: Modifiers { ctrl: true, ..Modifiers::none() }, key: Key::Named(NamedKey::Up) }), enabled: true, label: "Mission Control", dispatch: SystemDispatch::BeforeApps },
        KnownHotkey { id: 33, combo: Some(KeyCombo { modifiers: Modifiers { ctrl: true, ..Modifiers::none() }, key: Key::Named(NamedKey::Down) }), enabled: true, label: "Application windows", dispatch: SystemDispatch::BeforeApps },
        KnownHotkey { id: 36, combo: Some(KeyCombo { modifiers: Modifiers::none(), key: Key::Named(NamedKey::F11) }), enabled: true, label: "Show Desktop", dispatch: SystemDispatch::BeforeApps },
        KnownHotkey { id: 79, combo: Some(KeyCombo { modifiers: Modifiers { ctrl: true, ..Modifiers::none() }, key: Key::Named(NamedKey::Left) }), enabled: true, label: "Move left a space", dispatch: SystemDispatch::BeforeApps },
        KnownHotkey { id: 81, combo: Some(KeyCombo { modifiers: Modifiers { ctrl: true, ..Modifiers::none() }, key: Key::Named(NamedKey::Right) }), enabled: true, label: "Move right a space", dispatch: SystemDispatch::BeforeApps },
        KnownHotkey { id: 118, combo: Some(KeyCombo { modifiers: Modifiers { ctrl: true, ..Modifiers::none() }, key: Key::Char('1') }), enabled: false, label: "Switch to Desktop 1", dispatch: SystemDispatch::BeforeApps },
        KnownHotkey { id: 119, combo: Some(KeyCombo { modifiers: Modifiers { ctrl: true, ..Modifiers::none() }, key: Key::Char('2') }), enabled: false, label: "Switch to Desktop 2", dispatch: SystemDispatch::BeforeApps },
        KnownHotkey { id: 120, combo: Some(KeyCombo { modifiers: Modifiers { ctrl: true, ..Modifiers::none() }, key: Key::Char('3') }), enabled: false, label: "Switch to Desktop 3", dispatch: SystemDispatch::BeforeApps },
        KnownHotkey { id: 121, combo: Some(KeyCombo { modifiers: Modifiers { ctrl: true, ..Modifiers::none() }, key: Key::Char('4') }), enabled: false, label: "Switch to Desktop 4", dispatch: SystemDispatch::BeforeApps },
        KnownHotkey { id: 64, combo: Some(KeyCombo { modifiers: Modifiers { cmd: true, ..Modifiers::none() }, key: Key::Named(NamedKey::Space) }), enabled: true, label: "Show Spotlight search", dispatch: SystemDispatch::BeforeApps },
        KnownHotkey { id: 65, combo: Some(KeyCombo { modifiers: Modifiers { opt: true, cmd: true, ..Modifiers::none() }, key: Key::Named(NamedKey::Space) }), enabled: true, label: "Show Finder search window", dispatch: SystemDispatch::BeforeApps },
        KnownHotkey { id: 60, combo: Some(KeyCombo { modifiers: Modifiers { ctrl: true, ..Modifiers::none() }, key: Key::Named(NamedKey::Space) }), enabled: true, label: "Select the previous input source", dispatch: SystemDispatch::BeforeApps },
        KnownHotkey { id: 61, combo: Some(KeyCombo { modifiers: Modifiers { ctrl: true, opt: true, ..Modifiers::none() }, key: Key::Named(NamedKey::Space) }), enabled: true, label: "Select next source in Input menu", dispatch: SystemDispatch::BeforeApps },
        KnownHotkey { id: 52, combo: Some(KeyCombo { modifiers: Modifiers { opt: true, cmd: true, ..Modifiers::none() }, key: Key::Char('d') }), enabled: true, label: "Turn Dock hiding on/off", dispatch: SystemDispatch::BeforeApps },
        KnownHotkey { id: 98, combo: Some(KeyCombo { modifiers: Modifiers { shift: true, cmd: true, ..Modifiers::none() }, key: Key::Char('/') }), enabled: true, label: "Show Help menu", dispatch: SystemDispatch::StandardMenuItem },
        KnownHotkey { id: 160, combo: None, enabled: true, label: "Show Launchpad", dispatch: SystemDispatch::BeforeApps },
        KnownHotkey { id: 163, combo: None, enabled: true, label: "Show Notification Center", dispatch: SystemDispatch::BeforeApps },
        KnownHotkey { id: 175, combo: None, enabled: true, label: "Turn Do Not Disturb on/off", dispatch: SystemDispatch::BeforeApps },
    ]
}

/// Shortcuts macOS registers without a plist id.
pub open spec fn builtin_table() -> Seq<BuiltinShortcut> {
    seq![
        BuiltinShortcut { combo: KeyCombo { modifiers: Modifiers { cmd: true, ..Modifiers::none() }, key: Key::Named(NamedKey::Tab) }, label: "Switch to next app", dispatch: SystemDispatch::BeforeApps },
        BuiltinShortcut { combo: KeyCombo { modifiers: Modifiers { shift: true, cmd: true, ..Modifiers::none() }, key: Key::Named(NamedKey::Tab) }, label: "Switch to previous app", dispatch: SystemDispatch::BeforeApps },
        BuiltinShortcut { combo: KeyCombo { modifiers: Modifiers { opt: true, cmd: true, ..Modifiers::none() }, key: Key::Named(NamedKey::Escape) }, label: "Force Quit", dispatch: SystemDispatch::BeforeApps },
        BuiltinShortcut { combo: KeyCombo { modifiers: Modifiers { opt: true, shift: true, cmd: true, ..Modifiers::none() }, key: Key::Named(NamedKey::Escape) }, label: "Force Quit frontmost app", dispatch: SystemDispatch::BeforeApps },
        BuiltinShortcut { combo: KeyCombo { modifiers: Modifiers { opt: true, cmd: true, ..Modifiers::none() }, key: Key::Named(NamedKey::F5) }, label: "Show Accessibility controls", dispatch: SystemDispatch::BeforeApps },
        BuiltinShortcut { combo: KeyCombo { modifiers: Modifiers { ctrl: true, ..Modifiers::none() }, key: Key::Char('5') }, label: "Switch to Desktop 5", dispatch: SystemDispatch::BeforeApps },
        BuiltinShortcut { combo: KeyCombo { modifiers: Modifiers { ctrl: true, ..Modifiers::none() }, key: Key::Char('6') }, label: "Switch to Desktop 6", dispatch: SystemDispatch::BeforeApps },
        BuiltinShortcut { combo: KeyCombo { modifiers: Modifiers { ctrl: true, ..Modifiers::none() }, key: Key::Char('7') }, label: "Switch to Desktop 7", dispatch: SystemDispatch::BeforeApps },
        BuiltinShortcut { combo: KeyCombo { modifiers: Modifiers { ctrl: true, ..Modifiers::none() }, key: Key::Char('8') }, label: "Switch to Desktop 8", dispatch: SystemDispatch::BeforeApps },
        BuiltinShortcut { combo: KeyCombo { modifiers: Modifiers { ctrl: true, ..Modifiers::none() }, key: Key::Char('9') }, label: "Switch to Desktop 9", dispatch: SystemDispatch::BeforeApps },
        BuiltinShortcut { combo: KeyCombo { modifiers: Modifiers { ctrl: true, ..Modifiers::none() }, key: Key::Char('0') }, label: "Switch to Desktop 10", dispatch: SystemDispatch::BeforeApps },
        BuiltinShortcut { combo: KeyCombo { modifiers: Modifiers { fn_key: true, ..Modifiers::none() }, key: Key::Char('q') }, label: "Quick Note", dispatch: SystemDispatch::BeforeApps },
        BuiltinShortcut { combo: KeyCombo { modifiers: Modifiers { fn_key: true, ..Modifiers::none() }, key: Key::Char('c') }, label: "Show Control Center", dispatch: SystemDispatch::BeforeApps },
        BuiltinShortcut { combo: KeyCombo { modifiers: Modifiers { fn_key: true, ..Modifiers::none() }, key: Key::Char('n') }, label: "Show Notification Center", dispatch: SystemDispatch::BeforeApps },
        BuiltinShortcut { combo: KeyCombo { modifiers: Modifiers { cmd: true, ..Modifiers::none() }, key: Key::Char('m') }, label: "Minimize", dispatch: SystemDispatch::StandardMenuItem },
        BuiltinShortcut { combo: KeyCombo { modifiers: Modifiers { opt: true, cmd: true, ..Modifiers::none() }, key: Key::Char('m') }, label: "Minimize All", dispatch: SystemDispatch::StandardMenuItem },
        BuiltinShortcut { combo: KeyCombo { modifiers: Modifiers { shift: true, cmd: true, ..Modifiers::none() }, key: Key::Char('`') }, label: "Move focus to previous window", dispatch: SystemDispatch::StandardMenuItem },
        BuiltinShortcut { combo: KeyCombo { modifiers: Modifiers { ctrl: true, cmd: true, ..Modifiers::none() }, key: Key::Named(NamedKey::Space) }, label: "Emoji & Symbols", dispatch: SystemDispatch::StandardMenuItem },
        BuiltinShortcut { combo: KeyCombo { modifiers: Modifiers { fn_key: true, ..Modifiers::none() }, key: Key::Char('f') }, label: "Enter or exit full screen", dispatch: SystemDispatch::StandardMenuItem },
        BuiltinShortcut { combo: KeyCombo { modifiers: Modifiers { ctrl: true, fn_key: true, ..Modifiers::none() }, key: Key::Char('c') }, label: "Center", dispatch: SystemDispatch::StandardMenuItem },
        BuiltinShortcut { combo: KeyCombo { modifiers: Modifiers { ctrl: true, fn_key: true, ..Modifiers::none() }, key: Key::Char('f') }, label: "Fill", dispatch: SystemDispatch::StandardMenuItem },
        BuiltinShortcut { combo: KeyCombo { modifiers: Modifiers { ctrl: true, fn_key: true, ..Modifiers::none() }, key: Key::Char('r') }, label: "Return to Previous Size", dispatch: SystemDispatch::StandardMenuItem },
        BuiltinShortcut { combo: KeyCombo { modifiers: Modifiers { ctrl: true, fn_key: true, ..Modifiers::none() }, key: Key::Named(NamedKey::Left) }, label: "Tile Left Half", dispatch: SystemDispatch::StandardMenuItem },
        BuiltinShortcut { combo: KeyCombo { modifiers: Modifiers { ctrl: true, fn_key: true, ..Modifiers::none() }, key: Key::Named(NamedKey::Right) }, label: "Tile Right Half", dispatch: SystemDispatch::StandardMenuItem },
        BuiltinShortcut { combo: KeyCombo { modifiers: Modifiers { ctrl: true, fn_key: true, ..Modifiers::none() }, key: Key::Named(NamedKey::Up) }, label: "Tile Top Half", dispatch: SystemDispatch::StandardMenuItem },
        BuiltinShortcut { combo: KeyCombo { modifiers: Modifiers { ctrl: true, fn_key: true, ..Modifiers::none() }, key: Key::Named(NamedKey::Down) }, label: "Tile Bottom Half", dispatch: SystemDispatch::StandardMenuItem },
    ]
}

/// The symbolic hotkeys with an id, as macOS ships them.
pub fn known_hotkeys() -> (t: Vec<KnownHotkey>)
    ensures
        t@ == known_table(),
{
    let mut t: Vec<KnownHotkey> = Vec::new();
    t.push(KnownHotkey { id: 7, combo: Some(KeyCombo { modifiers: Modifiers::ctrl(), key: Key::Named(NamedKey::F2) }), enabled: true, label: "Move focus to the menu bar", dispatch: SystemDispatch::BeforeApps });
    t.push(KnownHotkey { id: 8, combo: Some(KeyCombo { modifiers: Modifiers::ctrl(), key: Key::Named(NamedKey::F3) }), enabled: true, label: "Move focus to the Dock", dispatch: SystemDispatch::BeforeApps });
    t.push(KnownHotkey { id: 9, combo: Some(KeyCombo { modifiers: Modifiers::ctrl(), key: Key::Named(NamedKey::F4) }), enabled: true, label: "Move focus to active or next window", dispatch: SystemDispatch::BeforeApps });
    t.push(KnownHotkey { id: 10, combo: Some(KeyCombo { modifiers: Modifiers::ctrl(), key: Key::Named(NamedKey::F5) }), enabled: true, label: "Move focus to the window toolbar", dispatch: SystemDispatch::BeforeApps });
    t.push(KnownHotkey { id: 11, combo: Some(KeyCombo { modifiers: Modifiers::ctrl(), key: Key::Named(NamedKey::F6) }), enabled: true, label: "Move focus to the floating window", dispatch: SystemDispatch::BeforeApps });
    t.push(KnownHotkey { id: 12, combo: Some(KeyCombo { modifiers: Modifiers::ctrl(), key: Key::Named(NamedKey::F1) }), enabled: true, label: "Turn keyboard access on or off", dispatch: SystemDispatch::BeforeApps });
    t.push(KnownHotkey { id: 13, combo: Some(KeyCombo { modifiers: Modifiers::ctrl(), key: Key::Named(NamedKey::F7) }), enabled: true, label: "Change the way Tab moves focus", dispatch: SystemDispatch::BeforeApps });
    t.push(KnownHotkey { id: 57, combo: Some(KeyCombo { modifiers: Modifiers::ctrl(), key: Key::Named(NamedKey::F8) }), enabled: true, label: "Move focus to status menus", dispatch: SystemDispatch::BeforeApps });
    t.push(KnownHotkey { id: 27, combo: Some(KeyCombo { modifiers: Modifiers::cmd(), key: Key::Char('`') }), enabled: true, label: "Move focus to next window", dispatch: SystemDispatch::StandardMenuItem });
    t.push(KnownHotkey { id: 51, combo: None, enabled: true, label: "Move focus to the window drawer", dispatch: SystemDispatch::StandardMenuItem });
    t.push(KnownHotkey { id: 15, combo: Some(KeyCombo { modifiers: Modifiers::opt().union(Modifiers::cmd()), key: Key::Char('8') }), enabled: false, label: "Turn zoom on or off", dispatch: SystemDispatch::BeforeApps });
    t.push(KnownHotkey { id: 17, combo: Some(KeyCombo { modifiers: Modifiers::opt().union(Modifiers::cmd()), key: Key::Char('=') }), enabled: false, label: "Zoom in", dispatch: SystemDispatch::BeforeApps });
    t.push(KnownHotkey { id: 19, combo: Some(KeyCombo { modifiers: Modifiers::opt().union(Modifiers::cmd()), key: Key::Char('-') }), enabled: false, label: "Zoom out", dispatch: SystemDispatch::BeforeApps });
    t.push(KnownHotkey { id: 21, combo: Some(KeyCombo { modifiers: Modifiers::ctrl().union(Modifiers::opt()).union(Modifiers::cmd()), key: Key::Char('8') }), enabled: false, label: "Invert colors", dispatch: SystemDispatch::BeforeApps });
    t.push(KnownHotkey { id: 23, combo: Some(KeyCombo { modifiers: Modifiers::opt().union(Modifiers::cmd()), key: Key::Char('\\') }), enabled: false, label: "Turn image smoothing on or off", dispatch: SystemDispatch::BeforeApps });
    t.push(KnownHotkey { id: 25, combo: Some(KeyCombo { modifiers: Modifiers::ctrl().union(Modifiers::opt()).union(Modifiers::cmd()), key: Key::Char('.') }), enabled: false, label: "Increase contrast", dispatch: SystemDispatch::BeforeApps });
    t.push(KnownHotkey { id: 26, combo: Some(KeyCombo { modifiers: Modifiers::ctrl().union(Modifiers::opt()).union(Modifiers::cmd()), key: Key::Char(',') }), enabled: false, label: "Decrease contrast", dispatch: SystemDispatch::BeforeApps });
    t.push(KnownHotkey { id: 59, combo: Some(KeyCombo { modifiers: Modifiers::cmd(), key: Key::Named(NamedKey::F5) }), enabled: true, label: "Turn VoiceOver on or off", dispatch: SystemDispatch::BeforeApps });
    t.push(KnownHotkey { id: 28, combo: Some(KeyCombo { modifiers: Modifiers::shift().union(Modifiers::cmd()), key: Key::Char('3') }), enabled: true, label: "Save picture of screen as a file", dispatch: SystemDispatch::BeforeApps });
    t.push(KnownHotkey { id: 29, combo: Some(KeyCombo { modifiers: Modifiers::ctrl().union(Modifiers::shift()).union(Modifiers::cmd()), key: Key::Char('3') }), enabled: true, label: "Copy picture of screen to the clipboard", dispatch: SystemDispatch::BeforeApps });
    t.push(KnownHotkey { id: 30, combo: Some(KeyCombo { modifiers: Modifiers::shift().union(Modifiers::cmd()), key: Key::Char('4') }), enabled: true, label: "Save picture of selected area as a file", dispatch: SystemDispatch::BeforeApps });
    t.push(KnownHotkey { id: 31, combo: Some(KeyCombo { modifiers: Modifiers::ctrl().union(Modifiers::shift()).union(Modifiers::cmd()), key: Key::Char('4') }), enabled: true, label: "Copy picture of selected area to the clipboard", dispatch: SystemDispatch::BeforeApps });
    t.push(KnownHotkey { id: 184, combo: Some(KeyCombo { modifiers: Modifiers::shift().union(Modifiers::cmd()), key: Key::Char('5') }), enabled: true, label: "Screenshot and recording options", dispatch: SystemDispatch::BeforeApps });
    t.push(KnownHotkey { id: 181, combo: Some(KeyCombo { modifiers: Modifiers::shift().union(Modifiers::cmd()), key: Key::Char('6') }), enabled: true, label: "Save picture of the Touch Bar as a file", dispatch: SystemDispatch::BeforeApps });
    t.push(KnownHotkey { id: 182, combo: Some(KeyCombo { modifiers: Modifiers::ctrl().union(Modifiers::shift()).union(Modifiers::cmd()), key: Key::Char('6') }), enabled: true, label: "Copy picture of the Touch Bar to the clipboard", dispatch: SystemDispatch::BeforeApps });
    t.push(KnownHotkey { id: 32, combo: Some(KeyCombo { modifiers: Modifiers::ctrl(), key: Key::Named(NamedKey::Up) }), enabled: true, label: "Mission Control", dispatch: SystemDispatch::BeforeApps });
    t.push(KnownHotkey { id: 33, combo: Some(KeyCombo { modifiers: Modifiers::ctrl(), key: Key::Named(NamedKey::Down) }), enabled: true, label: "Application windows", dispatch: SystemDispatch::BeforeApps });
    t.push(KnownHotkey { id: 36, combo: Some(KeyCombo { modifiers: Modifiers::empty(), key: Key::Named(NamedKey::F11) }), enabled: true, label: "Show Desktop", dispatch: SystemDispatch::BeforeApps });
    t.push(KnownHotkey { id: 79, combo: Some(KeyCombo { modifiers: Modifiers::ctrl(), key: Key::Named(NamedKey::Left) }), enabled: true, label: "Move left a space", dispatch: SystemDispatch::BeforeApps });
    t.push(KnownHotkey { id: 81, combo: Some(KeyCombo { modifiers: Modifiers::ctrl(), key: Key::Named(NamedKey::Right) }), enabled: true, label: "Move right a space", dispatch: SystemDispatch::BeforeApps });
    t.push(KnownHotkey { id: 118, combo: Some(KeyCombo { modifiers: Modifiers::ctrl(), key: Key::Char('1') }), enabled: false, label: "Switch to Desktop 1", dispatch: SystemDispatch::BeforeApps });
    t.push(KnownHotkey { id: 119, combo: Some(KeyCombo { modifiers: Modifiers::ctrl(), key: Key::Char('2') }), enabled: false, label: "Switch to Desktop 2", dispatch: SystemDispatch::BeforeApps });
    t.push(KnownHotkey { id: 120, combo: Some(KeyCombo { modifiers: Modifiers::ctrl(), key: Key::Char('3') }), enabled: false, label: "Switch to Desktop 3", dispatch: SystemDispatch::BeforeApps });
    t.push(KnownHotkey { id: 121, combo: Some(KeyCombo { modifiers: Modifiers::ctrl(), key: Key::Char('4') }), enabled: false, label: "Switch to Desktop 4", dispatch: SystemDispatch::BeforeApps });
    t.push(KnownHotkey { id: 64, combo: Some(KeyCombo { modifiers: Modifiers::cmd(), key: Key::Named(NamedKey::Space) }), enabled: true, label: "Show Spotlight search", dispatch: SystemDispatch::BeforeApps });
    t.push(KnownHotkey { id: 65, combo: Some(KeyCombo { modifiers: Modifiers::opt().union(Modifiers::cmd()), key: Key::Named(NamedKey::Space) }), enabled: true, label: "Show Finder search window", dispatch: SystemDispatch::BeforeApps });
    t.push(KnownHotkey { id: 60, combo: Some(KeyCombo { modifiers: Modifiers::ctrl(), key: Key::Named(NamedKey::Space) }), enabled: true, label: "Select the previous input source", dispatch: SystemDispatch::BeforeApps });
    t.push(KnownHotkey { id: 61, combo: Some(KeyCombo { modifiers: Modifiers::ctrl().union(Modifiers::opt()), key: Key::Named(NamedKey::Space) }), enabled: true, label: "Select next source in Input menu", dispatch: SystemDispatch::BeforeApps });
    t.push(KnownHotkey { id: 52, combo: Some(KeyCombo { modifiers: Modifiers::opt().union(Modifiers::cmd()), key: Key::Char('d') }), enabled: true, label: "Turn Dock hiding on/off", dispatch: SystemDispatch::BeforeApps });
    t.push(KnownHotkey { id: 98, combo: Some(KeyCombo { modifiers: Modifiers::shift().union(Modifiers::cmd()), key: Key::Char('/') }), enabled: true, label: "Show Help menu", dispatch: SystemDispatch::StandardMenuItem });
    t.push(KnownHotkey { id: 160, combo: None, enabled: true, label: "Show Launchpad", dispatch: SystemDispatch::BeforeApps });
    t.push(KnownHotkey { id: 163, combo: None, enabled: true, label: "Show Notification Center", dispatch: SystemDispatch::BeforeApps });
    t.push(KnownHotkey { id: 175, combo: None, enabled: true, label: "Turn Do Not Disturb on/off", dispatch: SystemDispatch::BeforeApps });
    assert(t@ =~= known_table());
    t
}

/// Shortcuts macOS registers without a plist id.
pub fn builtin_shortcuts() -> (t: Vec<BuiltinShortcut>)
    ensures
        t@ == builtin_table(),
{
    let mut t: Vec<BuiltinShortcut> = Vec::new();
    t.push(BuiltinShortcut { combo: KeyCombo { modifiers: Modifiers::cmd(), key: Key::Named(NamedKey::Tab) }, label: "Switch to next app", dispatch: SystemDispatch::BeforeApps });
    t.push(BuiltinShortcut { combo: KeyCombo { modifiers: Modifiers::shift().union(Modifiers::cmd()), key: Key::Named(NamedKey::Tab) }, label: "Switch to previous app", dispatch: SystemDispatch::BeforeApps });
    t.push(BuiltinShortcut { combo: KeyCombo { modifiers: Modifiers::opt().union(Modifiers::cmd()), key: Key::Named(NamedKey::Escape) }, label: "Force Quit", dispatch: SystemDispatch::BeforeApps });
    t.push(BuiltinShortcut { combo: KeyCombo { modifiers: Modifiers::opt().union(Modifiers::shift()).union(Modifiers::cmd()), key: Key::Named(NamedKey::Escape) }, label: "Force Quit frontmost app", dispatch: SystemDispatch::BeforeApps });
    t.push(BuiltinShortcut { combo: KeyCombo { modifiers: Modifiers::opt().union(Modifiers::cmd()), key: Key::Named(NamedKey::F5) }, label: "Show Accessibility controls", dispatch: SystemDispatch::BeforeApps });
    t.push(BuiltinShortcut { combo: KeyCombo { modifiers: Modifiers::ctrl(), key: Key::Char('5') }, label: "Switch to Desktop 5", dispatch: SystemDispatch::BeforeApps });
    t.push(BuiltinShortcut { combo: KeyCombo { modifiers: Modifiers::ctrl(), key: Key::Char('6') }, label: "Switch to Desktop 6", dispatch: SystemDispatch::BeforeApps });
    t.push(BuiltinShortcut { combo: KeyCombo { modifiers: Modifiers::ctrl(), key: Key::Char('7') }, label: "Switch to Desktop 7", dispatch: SystemDispatch::BeforeApps });
    t.push(BuiltinShortcut { combo: KeyCombo { modifiers: Modifiers::ctrl(), key: Key::Char('8') }, label: "Switch to Desktop 8", dispatch: SystemDispatch::BeforeApps });
    t.push(BuiltinShortcut { combo: KeyCombo { modifiers: Modifiers::ctrl(), key: Key::Char('9') }, label: "Switch to Desktop 9", dispatch: SystemDispatch::BeforeApps });
    t.push(BuiltinShortcut { combo: KeyCombo { modifiers: Modifiers::ctrl(), key: Key::Char('0') }, label: "Switch to Desktop 10", dispatch: SystemDispatch::BeforeApps });
    t.push(BuiltinShortcut { combo: KeyCombo { modifiers: Modifiers::fn_key(), key: Key::Char('q') }, label: "Quick Note", dispatch: SystemDispatch::BeforeApps });
    t.push(BuiltinShortcut { combo: KeyCombo { modifiers: Modifiers::fn_key(), key: Key::Char('c') }, label: "Show Control Center", dispatch: SystemDispatch::BeforeApps });
    t.push(BuiltinShortcut { combo: KeyCombo { modifiers: Modifiers::fn_key(), key: Key::Char('n') }, label: "Show Notification Center", dispatch: SystemDispatch::BeforeApps });
    t.push(BuiltinShortcut { combo: KeyCombo { modifiers: Modifiers::cmd(), key: Key::Char('m') }, label: "Minimize", dispatch: SystemDispatch::StandardMenuItem });
    t.push(BuiltinShortcut { combo: KeyCombo { modifiers: Modifiers::opt().union(Modifiers::cmd()), key: Key::Char('m') }, label: "Minimize All", dispatch: SystemDispatch::StandardMenuItem });
    t.push(BuiltinShortcut { combo: KeyCombo { modifiers: Modifiers::shift().union(Modifiers::cmd()), key: Key::Char('`') }, label: "Move focus to previous window", dispatch: SystemDispatch::StandardMenuItem });
    t.push(BuiltinShortcut { combo: KeyCombo { modifiers: Modifiers::ctrl().union(Modifiers::cmd()), key: Key::Named(NamedKey::Space) }, label: "Emoji & Symbols", dispatch: SystemDispatch::StandardMenuItem });
    t.push(BuiltinShortcut { combo: KeyCombo { modifiers: Modifiers::fn_key(), key: Key::Char('f') }, label: "Enter or exit full screen", dispatch: SystemDispatch::StandardMenuItem });
    t.push(BuiltinShortcut { combo: KeyCombo { modifiers: Modifiers::ctrl().union(Modifiers::fn_key()), key: Key::Char('c') }, label: "Center", dispatch: SystemDispatch::StandardMenuItem });
    t.push(BuiltinShortcut { combo: KeyCombo { modifiers: Modifiers::ctrl().union(Modifiers::fn_key()), key: Key::Char('f') }, label: "Fill", dispatch: SystemDispatch::StandardMenuItem });
    t.push(BuiltinShortcut { combo: KeyCombo { modifiers: Modifiers::ctrl().union(Modifiers::fn_key()), key: Key::Char('r') }, label: "Return to Previous Size", dispatch: SystemDispatch::StandardMenuItem });
    t.push(BuiltinShortcut { combo: KeyCombo { modifiers: Modifiers::ctrl().union(Modifiers::fn_key()), key: Key::Named(NamedKey::Left) }, label: "Tile Left Half", dispatch: SystemDispatch::StandardMenuItem });
    t.push(BuiltinShortcut { combo: KeyCombo { modifiers: Modifiers::ctrl().union(Modifiers::fn_key()), key: Key::Named(NamedKey::Right) }, label: "Tile Right Half", dispatch: SystemDispatch::StandardMenuItem });
    t.push(BuiltinShortcut { combo: KeyCombo { modifiers: Modifiers::ctrl().union(Modifiers::fn_key()), key: Key::Named(NamedKey::Up) }, label: "Tile Top Half", dispatch: SystemDispatch::StandardMenuItem });
    t.push(BuiltinShortcut { combo: KeyCombo { modifiers: Modifiers::ctrl().union(Modifiers::fn_key()), key: Key::Named(NamedKey::Down) }, label: "Tile Bottom Half", dispatch: SystemDispatch::StandardMenuItem });
    assert(t@ =~= builtin_table());
    t
}

/// The first entry of `t` with this id.
pub open spec fn known_by_id(t: Seq<KnownHotkey>, id: u32) -> Option<KnownHotkey>
    decreases t.len(),
{
    if t.len() == 0 {
        None
    } else if t[0].id == id {
        Some(t[0])
    } else {
        known_by_id(t.drop_first(), id)
    }
}

/// The first entry of `t` with this combo.
pub open spec fn builtin_by_combo(t: Seq<BuiltinShortcut>, combo: KeyCombo) -> Option<BuiltinShortcut>
    decreases t.len(),
{
    if t.len() == 0 {
        None
    } else if t[0].combo == combo {
        Some(t[0])
    } else {
        builtin_by_combo(t.drop_first(), combo)
    }
}

/// The label of a known id.
pub open spec fn spec_label_for(id: u32) -> Option<Seq<char>> {
    match known_by_id(known_table(), id) {
        Some(k) => Some(k.label@),
        None => None,
    }
}

/// Label of the symbolic hotkey `id`, when it is known.
pub fn label_for(id: u32) -> (r: Option<&'static str>)
    ensures
        match r {
            Some(l) => spec_label_for(id) == Some(l@),
            None => spec_label_for(id) is None,
        },
{
    match find_known(id) {
        Some(k) => Some(k.label),
        None => None,
    }
}

/// The known entry for `id`.
pub fn find_known(id: u32) -> (r: Option<KnownHotkey>)
    ensures
        r == known_by_id(known_table(), id),
{
    let t = known_hotkeys();
    let mut i: usize = 0;
    assert(t@.skip(0) =~= t@);
    while i < t.len()
        invariant
            i <= t@.len(),
            t@ == known_table(),
            known_by_id(t@, id) == known_by_id(t@.skip(i as int), id),
        decreases t@.len() - i,
    {
        assert(t@.skip(i as int).drop_first() =~= t@.skip(i + 1));
        if t[i].id == id {
            return Some(t[i]);
        }
        i = i + 1;
    }
    None
}

/// Label and dispatch for a combo macOS registers without an id.
pub fn builtin_for(combo: &KeyCombo) -> (r: Option<BuiltinShortcut>)
    ensures
        r == builtin_by_combo(builtin_table(), *combo),
{
    let t = builtin_shortcuts();
    let mut i: usize = 0;
    assert(t@.skip(0) =~= t@);
    while i < t.len()
        invariant
            i <= t@.len(),
            t@ == builtin_table(),
            builtin_by_combo(t@, *combo) == builtin_by_combo(t@.skip(i as int), *combo),
        decreases t@.len() - i,
    {
        assert(t@.skip(i as int).drop_first() =~= t@.skip(i + 1));
        if t[i].combo == *combo {
            return Some(t[i]);
        }
        i = i + 1;
    }
    None
}

/// How macOS delivers the shortcut behind `id` / `combo`: a known id's
/// own dispatch, else a builtin combo's, else a standard menu item. An
/// unverified entry can then under-report a real interception but never
/// invents a conflict.
pub open spec fn spec_dispatch_for(id: Option<u32>, combo: KeyCombo) -> SystemDispatch {
    match id {
        Some(i) if known_by_id(known_table(), i) is Some => known_by_id(known_table(), i)->0.dispatch,
        _ => match builtin_by_combo(builtin_table(), combo) {
            Some(b) => b.dispatch,
            None => SystemDispatch::StandardMenuItem,
        },
    }
}

/// How macOS delivers the shortcut behind `id` / `combo`.
pub fn dispatch_for(id: Option<u32>, combo: &KeyCombo) -> (d: SystemDispatch)
    ensures
        d == spec_dispatch_for(id, *combo),
{
    if let Some(i) = id {
        if let Some(k) = find_known(i) {
            return k.dispatch;
        }
    }
    match builtin_for(combo) {
        Some(b) => b.dispatch,
        None => SystemDispatch::StandardMenuItem,
    }
}

} // verus!
