//! macOS virtual keycode → key tables, from `HIToolbox/Events.h`
//! (`kVK_*` constants).

use vstd::prelude::*;

use super::key::NamedKey;

verus! {

/// Named keys by virtual keycode. `kVK_Delete` (0x33) is Apple's main
/// delete key, semantically Backspace.
pub open spec fn spec_vk_to_named(vk: u16) -> Option<NamedKey> {
    match vk {
        0x31 => Some(NamedKey::Space),
        0x24 => Some(NamedKey::Return),
        0x30 => Some(NamedKey::Tab),
        0x35 => Some(NamedKey::Escape),
        0x33 => Some(NamedKey::Backspace),
        0x75 => Some(NamedKey::Delete),
        0x72 => Some(NamedKey::Help),
        0x7A => Some(NamedKey::F1),
        0x78 => Some(NamedKey::F2),
        0x63 => Some(NamedKey::F3),
        0x76 => Some(NamedKey::F4),
        0x60 => Some(NamedKey::F5),
        0x61 => Some(NamedKey::F6),
        0x62 => Some(NamedKey::F7),
        0x64 => Some(NamedKey::F8),
        0x65 => Some(NamedKey::F9),
        0x6D => Some(NamedKey::F10),
        0x67 => Some(NamedKey::F11),
        0x6F => Some(NamedKey::F12),
        0x69 => Some(NamedKey::F13),
        0x6B => Some(NamedKey::F14),
        0x71 => Some(NamedKey::F15),
        0x6A => Some(NamedKey::F16),
        0x40 => Some(NamedKey::F17),
        0x4F => Some(NamedKey::F18),
        0x50 => Some(NamedKey::F19),
        0x5A => Some(NamedKey::F20),
        0x7E => Some(NamedKey::Up),
        0x7D => Some(NamedKey::Down),
        0x7B => Some(NamedKey::Left),
        0x7C => Some(NamedKey::Right),
        0x74 => Some(NamedKey::PageUp),
        0x79 => Some(NamedKey::PageDown),
        0x73 => Some(NamedKey::Home),
        0x77 => Some(NamedKey::End),
        _ => None,
    }
}

/// Map macOS virtual keycodes to `NamedKey`.
pub fn vk_to_named(vk: u16) -> (r: Option<NamedKey>)
    ensures
        r == spec_vk_to_named(vk),
{
    match vk {
        0x31 => Some(NamedKey::Space),
        0x24 => Some(NamedKey::Return),
        0x30 => Some(NamedKey::Tab),
        0x35 => Some(NamedKey::Escape),
        0x33 => Some(NamedKey::Backspace),
        0x75 => Some(NamedKey::Delete),
        0x72 => Some(NamedKey::Help),
        0x7A => Some(NamedKey::F1),
        0x78 => Some(NamedKey::F2),
        0x63 => Some(NamedKey::F3),
        0x76 => Some(NamedKey::F4),
        0x60 => Some(NamedKey::F5),
        0x61 => Some(NamedKey::F6),
        0x62 => Some(NamedKey::F7),
        0x64 => Some(NamedKey::F8),
        0x65 => Some(NamedKey::F9),
        0x6D => Some(NamedKey::F10),
        0x67 => Some(NamedKey::F11),
        0x6F => Some(NamedKey::F12),
        0x69 => Some(NamedKey::F13),
        0x6B => Some(NamedKey::F14),
        0x71 => Some(NamedKey::F15),
        0x6A => Some(NamedKey::F16),
        0x40 => Some(NamedKey::F17),
        0x4F => Some(NamedKey::F18),
        0x50 => Some(NamedKey::F19),
        0x5A => Some(NamedKey::F20),
        0x7E => Some(NamedKey::Up),
        0x7D => Some(NamedKey::Down),
        0x7B => Some(NamedKey::Left),
        0x7C => Some(NamedKey::Right),
        0x74 => Some(NamedKey::PageUp),
        0x79 => Some(NamedKey::PageDown),
        0x73 => Some(NamedKey::Home),
        0x77 => Some(NamedKey::End),
        _ => None,
    }
}

/// ANSI-layout keycodes (`kVK_ANSI_*`) to their lowercase US character.
pub open spec fn spec_vk_to_ansi_char(vk: u16) -> Option<char> {
    match vk {
        0x00 => Some('a'),
        0x01 => Some('s'),
        0x02 => Some('d'),
        0x03 => Some('f'),
        0x04 => Some('h'),
        0x05 => Some('g'),
        0x06 => Some('z'),
        0x07 => Some('x'),
        0x08 => Some('c'),
        0x09 => Some('v'),
        0x0B => Some('b'),
        0x0C => Some('q'),
        0x0D => Some('w'),
        0x0E => Some('e'),
        0x0F => Some('r'),
        0x10 => Some('y'),
        0x11 => Some('t'),
        0x12 => Some('1'),
        0x13 => Some('2'),
        0x14 => Some('3'),
        0x15 => Some('4'),
        0x17 => Some('5'),
        0x16 => Some('6'),
        0x1A => Some('7'),
        0x1C => Some('8'),
        0x19 => Some('9'),
        0x1D => Some('0'),
        0x18 => Some('='),
        0x1B => Some('-'),
        0x21 => Some('['),
        0x1E => Some(']'),
        0x27 => Some('\''),
        0x29 => Some(';'),
        0x2A => Some('\\'),
        0x2B => Some(','),
        0x2F => Some('.'),
        0x2C => Some('/'),
        0x32 => Some('`'),
        0x1F => Some('o'),
        0x20 => Some('u'),
        0x22 => Some('i'),
        0x23 => Some('p'),
        0x25 => Some('l'),
        0x26 => Some('j'),
        0x28 => Some('k'),
        0x2D => Some('n'),
        0x2E => Some('m'),
        _ => None,
    }
}

/// Map ANSI-layout virtual keycodes to their lowercase character.
pub fn vk_to_ansi_char(vk: u16) -> (r: Option<char>)
    ensures
        r == spec_vk_to_ansi_char(vk),
{
    match vk {
        0x00 => Some('a'),
        0x01 => Some('s'),
        0x02 => Some('d'),
        0x03 => Some('f'),
        0x04 => Some('h'),
        0x05 => Some('g'),
        0x06 => Some('z'),
        0x07 => Some('x'),
        0x08 => Some('c'),
        0x09 => Some('v'),
        0x0B => Some('b'),
        0x0C => Some('q'),
        0x0D => Some('w'),
        0x0E => Some('e'),
        0x0F => Some('r'),
        0x10 => Some('y'),
        0x11 => Some('t'),
        0x12 => Some('1'),
        0x13 => Some('2'),
        0x14 => Some('3'),
        0x15 => Some('4'),
        0x17 => Some('5'),
        0x16 => Some('6'),
        0x1A => Some('7'),
        0x1C => Some('8'),
        0x19 => Some('9'),
        0x1D => Some('0'),
        0x18 => Some('='),
        0x1B => Some('-'),
        0x21 => Some('['),
        0x1E => Some(']'),
        0x27 => Some('\''),
        0x29 => Some(';'),
        0x2A => Some('\\'),
        0x2B => Some(','),
        0x2F => Some('.'),
        0x2C => Some('/'),
        0x32 => Some('`'),
        0x1F => Some('o'),
        0x20 => Some('u'),
        0x22 => Some('i'),
        0x23 => Some('p'),
        0x25 => Some('l'),
        0x26 => Some('j'),
        0x28 => Some('k'),
        0x2D => Some('n'),
        0x2E => Some('m'),
        _ => None,
    }
}

} // verus!
