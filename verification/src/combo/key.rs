//! The non-modifier portion of a hotkey: printable chars, named keys, or
//! a verbatim macOS virtual keycode for unmapped values.

use vstd::prelude::*;

use super::vk::{spec_vk_to_ansi_char, spec_vk_to_named, vk_to_ansi_char, vk_to_named};
use crate::text::{chars_eq_str, decimal, decimal_chars, push_chars, push_str, string_of};

verus! {

/// Non-printable named key on a macOS keyboard.
#[derive(Debug, Clone, Copy, PartialEq, Eq, Hash, Structural)]
pub enum NamedKey {
    Space,
    Return,
    Tab,
    Escape,
    Delete,
    Backspace,
    Help,
    Insert,
    F1,
    F2,
    F3,
    F4,
    F5,
    F6,
    F7,
    F8,
    F9,
    F10,
    F11,
    F12,
    F13,
    F14,
    F15,
    F16,
    F17,
    F18,
    F19,
    F20,
    Up,
    Down,
    Left,
    Right,
    PageUp,
    PageDown,
    Home,
    End,
}

impl NamedKey {
    /// Stable lowercase name, as `Display` renders it (`space`, `f1`, `pageup`).
    pub open spec fn spec_name(self) -> Seq<char> {
        match self {
            NamedKey::Space => "space"@,
            NamedKey::Return => "return"@,
            NamedKey::Tab => "tab"@,
            NamedKey::Escape => "escape"@,
            NamedKey::Delete => "delete"@,
            NamedKey::Backspace => "backspace"@,
            NamedKey::Help => "help"@,
            NamedKey::Insert => "insert"@,
            NamedKey::F1 => "f1"@,
            NamedKey::F2 => "f2"@,
            NamedKey::F3 => "f3"@,
            NamedKey::F4 => "f4"@,
            NamedKey::F5 => "f5"@,
            NamedKey::F6 => "f6"@,
            NamedKey::F7 => "f7"@,
            NamedKey::F8 => "f8"@,
            NamedKey::F9 => "f9"@,
            NamedKey::F10 => "f10"@,
            NamedKey::F11 => "f11"@,
            NamedKey::F12 => "f12"@,
            NamedKey::F13 => "f13"@,
            NamedKey::F14 => "f14"@,
            NamedKey::F15 => "f15"@,
            NamedKey::F16 => "f16"@,
            NamedKey::F17 => "f17"@,
            NamedKey::F18 => "f18"@,
            NamedKey::F19 => "f19"@,
            NamedKey::F20 => "f20"@,
            NamedKey::Up => "up"@,
            NamedKey::Down => "down"@,
            NamedKey::Left => "left"@,
            NamedKey::Right => "right"@,
            NamedKey::PageUp => "pageup"@,
            NamedKey::PageDown => "pagedown"@,
            NamedKey::Home => "home"@,
            NamedKey::End => "end"@,
        }
    }

    /// The key's lowercase name.
    pub fn name(self) -> (s: &'static str)
        ensures
            s@ == self.spec_name(),
    {
        match self {
            NamedKey::Space => "space",
            NamedKey::Return => "return",
            NamedKey::Tab => "tab",
            NamedKey::Escape => "escape",
            NamedKey::Delete => "delete",
            NamedKey::Backspace => "backspace",
            NamedKey::Help => "help",
            NamedKey::Insert => "insert",
            NamedKey::F1 => "f1",
            NamedKey::F2 => "f2",
            NamedKey::F3 => "f3",
            NamedKey::F4 => "f4",
            NamedKey::F5 => "f5",
            NamedKey::F6 => "f6",
            NamedKey::F7 => "f7",
            NamedKey::F8 => "f8",
            NamedKey::F9 => "f9",
            NamedKey::F10 => "f10",
            NamedKey::F11 => "f11",
            NamedKey::F12 => "f12",
            NamedKey::F13 => "f13",
            NamedKey::F14 => "f14",
            NamedKey::F15 => "f15",
            NamedKey::F16 => "f16",
            NamedKey::F17 => "f17",
            NamedKey::F18 => "f18",
            NamedKey::F19 => "f19",
            NamedKey::F20 => "f20",
            NamedKey::Up => "up",
            NamedKey::Down => "down",
            NamedKey::Left => "left",
            NamedKey::Right => "right",
            NamedKey::PageUp => "pageup",
            NamedKey::PageDown => "pagedown",
            NamedKey::Home => "home",
            NamedKey::End => "end",
        }
    }

    /// The name as an owned string.
    pub fn to_string(self) -> (s: String)
        ensures
            s@ == self.spec_name(),
    {
        crate::text::owned(self.name())
    }
}

/// Named key spelled by a lowercase token: every name `NamedKey` renders
/// to, plus the aliases `enter`, `esc`, `del` and `ins`.
pub open spec fn spec_parse_named(lower: Seq<char>) -> Option<NamedKey> {
    if lower == "space"@ {
        Some(NamedKey::Space)
    } else if lower == "return"@ || lower == "enter"@ {
        Some(NamedKey::Return)
    } else if lower == "tab"@ {
        Some(NamedKey::Tab)
    } else if lower == "escape"@ || lower == "esc"@ {
        Some(NamedKey::Escape)
    } else if lower == "delete"@ || lower == "del"@ {
        Some(NamedKey::Delete)
    } else if lower == "backspace"@ {
        Some(NamedKey::Backspace)
    } else if lower == "help"@ {
        Some(NamedKey::Help)
    } else if lower == "insert"@ || lower == "ins"@ {
        Some(NamedKey::Insert)
    } else if lower == "f1"@ {
        Some(NamedKey::F1)
    } else if lower == "f2"@ {
        Some(NamedKey::F2)
    } else if lower == "f3"@ {
        Some(NamedKey::F3)
    } else if lower == "f4"@ {
        Some(NamedKey::F4)
    } else if lower == "f5"@ {
        Some(NamedKey::F5)
    } else if lower == "f6"@ {
        Some(NamedKey::F6)
    } else if lower == "f7"@ {
        Some(NamedKey::F7)
    } else if lower == "f8"@ {
        Some(NamedKey::F8)
    } else if lower == "f9"@ {
        Some(NamedKey::F9)
    } else if lower == "f10"@ {
        Some(NamedKey::F10)
    } else if lower == "f11"@ {
        Some(NamedKey::F11)
    } else if lower == "f12"@ {
        Some(NamedKey::F12)
    } else if lower == "f13"@ {
        Some(NamedKey::F13)
    } else if lower == "f14"@ {
        Some(NamedKey::F14)
    } else if lower == "f15"@ {
        Some(NamedKey::F15)
    } else if lower == "f16"@ {
        Some(NamedKey::F16)
    } else if lower == "f17"@ {
        Some(NamedKey::F17)
    } else if lower == "f18"@ {
        Some(NamedKey::F18)
    } else if lower == "f19"@ {
        Some(NamedKey::F19)
    } else if lower == "f20"@ {
        Some(NamedKey::F20)
    } else if lower == "up"@ {
        Some(NamedKey::Up)
    } else if lower == "down"@ {
        Some(NamedKey::Down)
    } else if lower == "left"@ {
        Some(NamedKey::Left)
    } else if lower == "right"@ {
        Some(NamedKey::Right)
    } else if lower == "pageup"@ {
        Some(NamedKey::PageUp)
    } else if lower == "pagedown"@ {
        Some(NamedKey::PageDown)
    } else if lower == "home"@ {
        Some(NamedKey::Home)
    } else if lower == "end"@ {
        Some(NamedKey::End)
    } else {
        None
    }
}

/// Looks up a lowercase token in the named-key table.
pub fn parse_named(lower: &[char]) -> (r: Option<NamedKey>)
    ensures
        r == spec_parse_named(lower@),
{
    if chars_eq_str(lower, "space") {
        Some(NamedKey::Space)
    } else if chars_eq_str(lower, "return") || chars_eq_str(lower, "enter") {
        Some(NamedKey::Return)
    } else if chars_eq_str(lower, "tab") {
        Some(NamedKey::Tab)
    } else if chars_eq_str(lower, "escape") || chars_eq_str(lower, "esc") {
        Some(NamedKey::Escape)
    } else if chars_eq_str(lower, "delete") || chars_eq_str(lower, "del") {
        Some(NamedKey::Delete)
    } else if chars_eq_str(lower, "backspace") {
        Some(NamedKey::Backspace)
    } else if chars_eq_str(lower, "help") {
        Some(NamedKey::Help)
    } else if chars_eq_str(lower, "insert") || chars_eq_str(lower, "ins") {
        Some(NamedKey::Insert)
    } else if chars_eq_str(lower, "f1") {
        Some(NamedKey::F1)
    } else if chars_eq_str(lower, "f2") {
        Some(NamedKey::F2)
    } else if chars_eq_str(lower, "f3") {
        Some(NamedKey::F3)
    } else if chars_eq_str(lower, "f4") {
        Some(NamedKey::F4)
    } else if chars_eq_str(lower, "f5") {
        Some(NamedKey::F5)
    } else if chars_eq_str(lower, "f6") {
        Some(NamedKey::F6)
    } else if chars_eq_str(lower, "f7") {
        Some(NamedKey::F7)
    } else if chars_eq_str(lower, "f8") {
        Some(NamedKey::F8)
    } else if chars_eq_str(lower, "f9") {
        Some(NamedKey::F9)
    } else if chars_eq_str(lower, "f10") {
        Some(NamedKey::F10)
    } else if chars_eq_str(lower, "f11") {
        Some(NamedKey::F11)
    } else if chars_eq_str(lower, "f12") {
        Some(NamedKey::F12)
    } else if chars_eq_str(lower, "f13") {
        Some(NamedKey::F13)
    } else if chars_eq_str(lower, "f14") {
        Some(NamedKey::F14)
    } else if chars_eq_str(lower, "f15") {
        Some(NamedKey::F15)
    } else if chars_eq_str(lower, "f16") {
        Some(NamedKey::F16)
    } else if chars_eq_str(lower, "f17") {
        Some(NamedKey::F17)
    } else if chars_eq_str(lower, "f18") {
        Some(NamedKey::F18)
    } else if chars_eq_str(lower, "f19") {
        Some(NamedKey::F19)
    } else if chars_eq_str(lower, "f20") {
        Some(NamedKey::F20)
    } else if chars_eq_str(lower, "up") {
        Some(NamedKey::Up)
    } else if chars_eq_str(lower, "down") {
        Some(NamedKey::Down)
    } else if chars_eq_str(lower, "left") {
        Some(NamedKey::Left)
    } else if chars_eq_str(lower, "right") {
        Some(NamedKey::Right)
    } else if chars_eq_str(lower, "pageup") {
        Some(NamedKey::PageUp)
    } else if chars_eq_str(lower, "pagedown") {
        Some(NamedKey::PageDown)
    } else if chars_eq_str(lower, "home") {
        Some(NamedKey::Home)
    } else if chars_eq_str(lower, "end") {
        Some(NamedKey::End)
    } else {
        None
    }
}

/// The non-modifier portion of a hotkey.
#[derive(Debug, Clone, Copy, PartialEq, Eq, Hash, Structural)]
pub enum Key {
    /// A single printable character (letter, digit, or punctuation).
    Char(char),
    /// A recognized non-printable key.
    Named(NamedKey),
    /// A macOS virtual keycode not classified into a named or printable
    /// variant, surfaced verbatim so unmapped keys stay visible.
    Virtual(u16),
}

/// `Key::from_char`: Apple's menu glyphs, NSText PUA function-key
/// constants and C0 controls become named keys; a plain space is `Space`;
/// anything else is kept as a character, lowercased when ASCII.
pub open spec fn spec_key_from_char(c: char) -> Key {
    match c {
        '\u{238B}' => Key::Named(NamedKey::Escape),
        '\u{23CE}' => Key::Named(NamedKey::Return),
        '\u{21E5}' => Key::Named(NamedKey::Tab),
        '\u{232B}' => Key::Named(NamedKey::Backspace),
        '\u{2326}' => Key::Named(NamedKey::Delete),
        '\u{2191}' => Key::Named(NamedKey::Up),
        '\u{2193}' => Key::Named(NamedKey::Down),
        '\u{2190}' => Key::Named(NamedKey::Left),
        '\u{2192}' => Key::Named(NamedKey::Right),
        '\u{21DE}' => Key::Named(NamedKey::PageUp),
        '\u{21DF}' => Key::Named(NamedKey::PageDown),
        '\u{2196}' => Key::Named(NamedKey::Home),
        '\u{2198}' => Key::Named(NamedKey::End),
        '\u{001B}' => Key::Named(NamedKey::Escape),
        '\u{000D}' | '\u{000A}' | '\u{0003}' => Key::Named(NamedKey::Return),
        '\u{0009}' => Key::Named(NamedKey::Tab),
        '\u{0008}' | '\u{007F}' => Key::Named(NamedKey::Backspace),
        ' ' => Key::Named(NamedKey::Space),
        '\u{F700}' => Key::Named(NamedKey::Up),
        '\u{F701}' => Key::Named(NamedKey::Down),
        '\u{F702}' => Key::Named(NamedKey::Left),
        '\u{F703}' => Key::Named(NamedKey::Right),
        '\u{F704}' => Key::Named(NamedKey::F1),
        '\u{F705}' => Key::Named(NamedKey::F2),
        '\u{F706}' => Key::Named(NamedKey::F3),
        '\u{F707}' => Key::Named(NamedKey::F4),
        '\u{F708}' => Key::Named(NamedKey::F5),
        '\u{F709}' => Key::Named(NamedKey::F6),
        '\u{F70A}' => Key::Named(NamedKey::F7),
        '\u{F70B}' => Key::Named(NamedKey::F8),
        '\u{F70C}' => Key::Named(NamedKey::F9),
        '\u{F70D}' => Key::Named(NamedKey::F10),
        '\u{F70E}' => Key::Named(NamedKey::F11),
        '\u{F70F}' => Key::Named(NamedKey::F12),
        '\u{F710}' => Key::Named(NamedKey::F13),
        '\u{F711}' => Key::Named(NamedKey::F14),
        '\u{F712}' => Key::Named(NamedKey::F15),
        '\u{F713}' => Key::Named(NamedKey::F16),
        '\u{F714}' => Key::Named(NamedKey::F17),
        '\u{F715}' => Key::Named(NamedKey::F18),
        '\u{F716}' => Key::Named(NamedKey::F19),
        '\u{F717}' => Key::Named(NamedKey::F20),
        '\u{F727}' => Key::Named(NamedKey::Insert),
        '\u{F728}' => Key::Named(NamedKey::Delete),
        '\u{F729}' => Key::Named(NamedKey::Home),
        '\u{F72B}' => Key::Named(NamedKey::End),
        '\u{F72C}' => Key::Named(NamedKey::PageUp),
        '\u{F72D}' => Key::Named(NamedKey::PageDown),
        '\u{F746}' => Key::Named(NamedKey::Help),
        _ => Key::Char(crate::text::ascii_lower(c)),
    }
}

/// `Key::from_vk`: ANSI keycodes give their US character, named keycodes
/// their `NamedKey`, anything else is kept verbatim.
pub open spec fn spec_key_from_vk(vk: u16) -> Key {
    match spec_vk_to_ansi_char(vk) {
        Some(c) => Key::Char(c),
        None => match spec_vk_to_named(vk) {
            Some(n) => Key::Named(n),
            None => Key::Virtual(vk),
        },
    }
}

/// How a key renders: the character itself, the named key's name, or
/// `vk` followed by the decimal keycode.
pub open spec fn spec_key_text(k: Key) -> Seq<char> {
    match k {
        Key::Char(c) => seq![c],
        Key::Named(n) => n.spec_name(),
        Key::Virtual(v) => "vk"@ + decimal(v as nat),
    }
}

impl Key {
    /// Construct a `Key` from a single character, normalizing common macOS
    /// representations of non-printable keys to the corresponding `NamedKey`:
    /// Misc Technical glyphs Apple shows in menus, the NSText PUA
    /// function-key constants of `AppKit/NSEvent.h`, and C0 control
    /// characters from `AppKit/NSText.h` (`0x7F`, Apple's main delete key,
    /// is `Backspace`; `0xF728` is forward `Delete`).
    pub fn from_char(c: char) -> (k: Key)
        ensures
            k == spec_key_from_char(c),
    {
        match c {
            '\u{238B}' => Key::Named(NamedKey::Escape),
            '\u{23CE}' => Key::Named(NamedKey::Return),
            '\u{21E5}' => Key::Named(NamedKey::Tab),
            '\u{232B}' => Key::Named(NamedKey::Backspace),
            '\u{2326}' => Key::Named(NamedKey::Delete),
            '\u{2191}' => Key::Named(NamedKey::Up),
            '\u{2193}' => Key::Named(NamedKey::Down),
            '\u{2190}' => Key::Named(NamedKey::Left),
            '\u{2192}' => Key::Named(NamedKey::Right),
            '\u{21DE}' => Key::Named(NamedKey::PageUp),
            '\u{21DF}' => Key::Named(NamedKey::PageDown),
            '\u{2196}' => Key::Named(NamedKey::Home),
            '\u{2198}' => Key::Named(NamedKey::End),
            '\u{001B}' => Key::Named(NamedKey::Escape),
            '\u{000D}' | '\u{000A}' | '\u{0003}' => Key::Named(NamedKey::Return),
            '\u{0009}' => Key::Named(NamedKey::Tab),
            '\u{0008}' | '\u{007F}' => Key::Named(NamedKey::Backspace),
            ' ' => Key::Named(NamedKey::Space),
            '\u{F700}' => Key::Named(NamedKey::Up),
            '\u{F701}' => Key::Named(NamedKey::Down),
            '\u{F702}' => Key::Named(NamedKey::Left),
            '\u{F703}' => Key::Named(NamedKey::Right),
            '\u{F704}' => Key::Named(NamedKey::F1),
            '\u{F705}' => Key::Named(NamedKey::F2),
            '\u{F706}' => Key::Named(NamedKey::F3),
            '\u{F707}' => Key::Named(NamedKey::F4),
            '\u{F708}' => Key::Named(NamedKey::F5),
            '\u{F709}' => Key::Named(NamedKey::F6),
            '\u{F70A}' => Key::Named(NamedKey::F7),
            '\u{F70B}' => Key::Named(NamedKey::F8),
            '\u{F70C}' => Key::Named(NamedKey::F9),
            '\u{F70D}' => Key::Named(NamedKey::F10),
            '\u{F70E}' => Key::Named(NamedKey::F11),
            '\u{F70F}' => Key::Named(NamedKey::F12),
            '\u{F710}' => Key::Named(NamedKey::F13),
            '\u{F711}' => Key::Named(NamedKey::F14),
            '\u{F712}' => Key::Named(NamedKey::F15),
            '\u{F713}' => Key::Named(NamedKey::F16),
            '\u{F714}' => Key::Named(NamedKey::F17),
            '\u{F715}' => Key::Named(NamedKey::F18),
            '\u{F716}' => Key::Named(NamedKey::F19),
            '\u{F717}' => Key::Named(NamedKey::F20),
            '\u{F727}' => Key::Named(NamedKey::Insert),
            '\u{F728}' => Key::Named(NamedKey::Delete),
            '\u{F729}' => Key::Named(NamedKey::Home),
            '\u{F72B}' => Key::Named(NamedKey::End),
            '\u{F72C}' => Key::Named(NamedKey::PageUp),
            '\u{F72D}' => Key::Named(NamedKey::PageDown),
            '\u{F746}' => Key::Named(NamedKey::Help),
            other => Key::Char(crate::text::lower_char(other)),
        }
    }

    /// Construct a `Key` from a macOS Carbon virtual keycode
    /// (`HIToolbox/Events.h`).
    pub fn from_vk(vk: u16) -> (k: Key)
        ensures
            k == spec_key_from_vk(vk),
    {
        if let Some(c) = vk_to_ansi_char(vk) {
            return Key::Char(c);
        }
        if let Some(named) = vk_to_named(vk) {
            return Key::Named(named);
        }
        Key::Virtual(vk)
    }

    /// The key as it renders: `a`, `space`, `vk42`.
    pub fn to_string(&self) -> (s: String)
        ensures
            s@ == spec_key_text(*self),
    {
        match self {
            Key::Char(c) => {
                let v: [char; 1] = [*c];
                let s = string_of(&v);
                assert(s@ =~= seq![*c]);
                s
            },
            Key::Named(n) => n.to_string(),
            Key::Virtual(v) => {
                let mut s = crate::text::owned("vk");
                let digits = decimal_chars(*v as u64);
                push_chars(&mut s, digits.as_slice());
                s
            },
        }
    }
}

} // verus!
