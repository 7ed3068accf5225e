//! The system's own view of its symbolic hotkeys, as Carbon's
//! `CopySymbolicHotKeys()` reports it: virtual keycode, Carbon modifier
//! mask and enabled flag per entry, with no id and no label.

use vstd::prelude::*;

use crate::combo::{spec_key_from_vk, Key, KeyCombo, Modifiers, NamedKey};

verus! {

/// One row of the live table.
#[derive(Debug, Clone, Copy, PartialEq, Eq, Structural)]
pub struct LiveHotkey {
    /// Virtual keycode; `NO_KEY` when the shortcut has no key assigned.
    pub vk: u16,
    /// Carbon modifier mask: `cmdKey`, `shiftKey`, `optionKey`,
    /// `controlKey` and the fn bit.
    pub carbon_modifiers: u32,
    pub enabled: bool,
}

/// Placeholder keycode for entries without a key.
pub const NO_KEY: u16 = 0xFFFF;

// Carbon modifier bits, from `HIToolbox/Events.h`: cmdKey = 1 << 8,
// shiftKey = 1 << 9, optionKey = 1 << 11, controlKey = 1 << 12, and
// kEventKeyModifierFnMask = 1 << 17.
pub const CARBON_CMD: u32 = 0x100;
pub const CARBON_SHIFT: u32 = 0x200;
pub const CARBON_OPT: u32 = 0x800;
pub const CARBON_CTRL: u32 = 0x1000;
pub const CARBON_FN: u32 = 0x20000;

/// F1 through F20.
pub open spec fn spec_is_function_key(key: Key) -> bool {
    match key {
        Key::Named(n) => match n {
            NamedKey::F1 | NamedKey::F2 | NamedKey::F3 | NamedKey::F4 | NamedKey::F5 | NamedKey::F6
            | NamedKey::F7 | NamedKey::F8 | NamedKey::F9 | NamedKey::F10 | NamedKey::F11
            | NamedKey::F12 | NamedKey::F13 | NamedKey::F14 | NamedKey::F15 | NamedKey::F16
            | NamedKey::F17 | NamedKey::F18 | NamedKey::F19 | NamedKey::F20 => true,
            _ => false,
        },
        _ => false,
    }
}

/// Whether `key` is one of F1–F20.
pub fn is_function_key(key: &Key) -> (b: bool)
    ensures
        b == spec_is_function_key(*key),
{
    match key {
        Key::Named(n) => match n {
            NamedKey::F1 | NamedKey::F2 | NamedKey::F3 | NamedKey::F4 | NamedKey::F5 | NamedKey::F6
            | NamedKey::F7 | NamedKey::F8 | NamedKey::F9 | NamedKey::F10 | NamedKey::F11
            | NamedKey::F12 | NamedKey::F13 | NamedKey::F14 | NamedKey::F15 | NamedKey::F16
            | NamedKey::F17 | NamedKey::F18 | NamedKey::F19 | NamedKey::F20 => true,
            _ => false,
        },
        _ => false,
    }
}

/// The combo of a live-table row: `None` without a key; otherwise the
/// key of the keycode and the modifiers of the Carbon mask, where the fn
/// bit counts only off F1–F20 (on a function key macOS sets it to mean
/// "the F-key, not the media key printed on it").
pub open spec fn spec_live_combo(row: LiveHotkey) -> Option<KeyCombo> {
    if row.vk == NO_KEY {
        None
    } else {
        let key = spec_key_from_vk(row.vk);
        let m = row.carbon_modifiers;
        Some(
            KeyCombo {
                modifiers: Modifiers {
                    cmd: m & CARBON_CMD != 0,
                    shift: m & CARBON_SHIFT != 0,
                    opt: m & CARBON_OPT != 0,
                    ctrl: m & CARBON_CTRL != 0,
                    fn_key: m & CARBON_FN != 0 && !spec_is_function_key(key),
                },
                key,
            },
        )
    }
}

/// What a live-table row means (`HIToolbox/Events.h`): keycode
/// `0xFFFF` is no key; otherwise the key is the keycode's, and the
/// Carbon mask gives Command at `1 << 8`, Shift at `1 << 9`, Option at
/// `1 << 11` and Control at `1 << 12`, each from its own bit; fn
/// (`1 << 17`) counts off F1–F20 only. Keycode `0x14` with mask `0x300`
/// is ⇧⌘3.
pub proof fn law_live_row_bits(row: LiveHotkey)
    ensures
        spec_live_combo(row) is None <==> row.vk == 0xFFFF,
        row.vk != 0xFFFF ==> spec_live_combo(row) == Some(
            KeyCombo {
                modifiers: Modifiers {
                    cmd: row.carbon_modifiers & 0x100 != 0,
                    shift: row.carbon_modifiers & 0x200 != 0,
                    opt: row.carbon_modifiers & 0x800 != 0,
                    ctrl: row.carbon_modifiers & 0x1000 != 0,
                    fn_key: row.carbon_modifiers & 0x2_0000 != 0 && !spec_is_function_key(
                        spec_key_from_vk(row.vk),
                    ),
                },
                key: spec_key_from_vk(row.vk),
            },
        ),
{
}

impl LiveHotkey {
    /// The combo this entry is bound to, or `None` when it has no key.
    ///
    /// The fn bit is dropped on F1–F20, which is how users write
    /// `ctrl+f2`; everywhere else fn is a real modifier (fn+Q opens Quick
    /// Note) and is kept.
    pub fn combo(&self) -> (c: Option<KeyCombo>)
        ensures
            c == spec_live_combo(*self),
    {
        if self.vk == NO_KEY {
            return None;
        }
        let key = Key::from_vk(self.vk);
        let m = self.carbon_modifiers;
        let fn_bit = m & CARBON_FN != 0;
        let modifiers = Modifiers {
            cmd: m & CARBON_CMD != 0,
            shift: m & CARBON_SHIFT != 0,
            opt: m & CARBON_OPT != 0,
            ctrl: m & CARBON_CTRL != 0,
            fn_key: fn_bit && !is_function_key(&key),
        };
        Some(KeyCombo { modifiers, key })
    }

    /// A row from the raw dictionary values of `CopySymbolicHotKeys()`:
    /// a keycode outside `0..=0xFFFF` or missing counts as no key, a
    /// modifier mask outside `u32` or missing as no modifiers, and a
    /// missing enabled flag as off.
    pub fn from_raw(code: Option<i64>, modifiers: Option<i64>, enabled: Option<bool>) -> (row: LiveHotkey)
        ensures
            row.vk == (match code {
                Some(v) if 0 <= v <= 0xFFFF => v as u16,
                _ => NO_KEY,
            }),
            row.carbon_modifiers == (match modifiers {
                Some(m) if 0 <= m <= 0xFFFF_FFFF => m as u32,
                _ => 0u32,
            }),
            row.enabled == (enabled == Some(true)),
    {
        let vk: u16 = match code {
            Some(v) => if 0 <= v && v <= 0xFFFF {
                v as u16
            } else {
                NO_KEY
            },
            None => NO_KEY,
        };
        let carbon_modifiers: u32 = match modifiers {
            Some(m) => if 0 <= m && m <= 0xFFFF_FFFF {
                m as u32
            } else {
                0
            },
            None => 0,
        };
        let enabled = match enabled {
            Some(b) => b,
            None => false,
        };
        LiveHotkey { vk, carbon_modifiers, enabled }
    }
}

} // verus!
