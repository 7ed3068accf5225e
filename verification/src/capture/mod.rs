//! What an interactive keystroke capture produces, and the decisions made
//! on the raw event: its modifier flags, whether its keycode is a macOS
//! system action, and what the permission state means.
//!
//! The event tap itself and the permission query are the caller's; this
//! module turns what they report into values.

pub mod probe;

pub use probe::{
    input_source_change, new_windows, reaction_order, Probe, Reaction, ReactionKind, WatchState,
};

use vstd::prelude::*;

use crate::combo::{spec_key_from_vk, Key, KeyCombo, Modifiers};
use crate::error::ScanError;
use crate::text::owned;

verus! {

/// What a capture produced: a hotkey-shaped combination, or a macOS
/// system-action dispatch code (`vk >= 0x80`), which no app can bind and
/// which is therefore surfaced separately.
#[derive(Debug, Clone, Copy, PartialEq, Eq, Hash, Structural)]
pub enum Captured {
    Combo(KeyCombo),
    SystemAction(SystemAction),
}

/// A macOS extended-keycode dispatch event captured in the KeyDown
/// channel. Codes outside the documented `kVK_*` range (`0x00..=0x7E`)
/// are routed by macOS itself; the hotkey registration APIs do not
/// accept them.
#[derive(Debug, Clone, Copy, PartialEq, Eq, Hash, Structural)]
pub struct SystemAction {
    /// Raw virtual keycode; always `>= 0x80`.
    pub vk: u16,
    pub kind: SystemActionKind,
}

/// Best-effort classification of an extended keycode. Only codes
/// observed on a machine at hand are classified; the rest are `Unknown`.
#[derive(Debug, Clone, Copy, PartialEq, Eq, Hash, Structural)]
pub enum SystemActionKind {
    /// Mission Control (fn+F3 by default), vk `0xA0`.
    MissionControl,
    /// The 🌐 key set to "Change Input Source", vk `0xB3`.
    ChangeInputSource,
    /// Any other `>= 0x80` keycode.
    Unknown,
}

impl SystemActionKind {
    pub open spec fn spec_name(self) -> Seq<char> {
        match self {
            SystemActionKind::MissionControl => "Mission Control"@,
            SystemActionKind::ChangeInputSource => "Change Input Source"@,
            SystemActionKind::Unknown => "unrecognized macOS extended keycode"@,
        }
    }

    /// Human-readable action name; for `Unknown` it says that the code is
    /// not classified.
    pub fn name(&self) -> (s: &'static str)
        ensures
            s@ == self.spec_name(),
    {
        match self {
            SystemActionKind::MissionControl => "Mission Control",
            SystemActionKind::ChangeInputSource => "Change Input Source",
            SystemActionKind::Unknown => "unrecognized macOS extended keycode",
        }
    }

    pub open spec fn spec_source_hint(self) -> Option<Seq<char>> {
        match self {
            SystemActionKind::MissionControl => Some(
                "System Settings → Keyboard → Keyboard Shortcuts… → Mission Control"@,
            ),
            SystemActionKind::ChangeInputSource => Some("System Settings → Keyboard → Press 🌐 key"@),
            SystemActionKind::Unknown => None,
        }
    }

    /// Where in System Settings the action can be changed, when known.
    pub fn source_hint(&self) -> (r: Option<&'static str>)
        ensures
            match r {
                Some(s) => self.spec_source_hint() == Some(s@),
                None => self.spec_source_hint() is None,
            },
    {
        match self {
            SystemActionKind::MissionControl => Some(
                "System Settings → Keyboard → Keyboard Shortcuts… → Mission Control",
            ),
            SystemActionKind::ChangeInputSource => Some("System Settings → Keyboard → Press 🌐 key"),
            SystemActionKind::Unknown => None,
        }
    }
}

pub open spec fn spec_classify_extended_vk(vk: u16) -> Option<SystemAction> {
    if vk < 0x80 {
        None
    } else {
        Some(
            SystemAction {
                vk,
                kind: if vk == 0xA0 {
                    SystemActionKind::MissionControl
                } else if vk == 0xB3 {
                    SystemActionKind::ChangeInputSource
                } else {
                    SystemActionKind::Unknown
                },
            },
        )
    }
}

/// `None` for a keycode of the documented range (below `0x80`), which
/// [`Key::from_vk`] handles; otherwise the system action, classified
/// where possible.
pub fn classify_extended_vk(vk: u16) -> (r: Option<SystemAction>)
    ensures
        r == spec_classify_extended_vk(vk),
{
    if vk < 0x80 {
        return None;
    }
    let kind = match vk {
        0xA0 => SystemActionKind::MissionControl,
        0xB3 => SystemActionKind::ChangeInputSource,
        _ => SystemActionKind::Unknown,
    };
    Some(SystemAction { vk, kind })
}

pub open spec fn spec_build_captured(vk: u16, modifiers: Modifiers) -> Captured {
    match spec_classify_extended_vk(vk) {
        Some(action) => Captured::SystemAction(action),
        None => Captured::Combo(KeyCombo { modifiers, key: spec_key_from_vk(vk) }),
    }
}

/// What a KeyDown event with keycode `vk` and these modifiers captured:
/// an extended keycode is a system action, anything else a combo.
pub fn build_captured(vk: u16, modifiers: Modifiers) -> (c: Captured)
    ensures
        c == spec_build_captured(vk, modifiers),
{
    match classify_extended_vk(vk) {
        Some(action) => Captured::SystemAction(action),
        None => Captured::Combo(KeyCombo { modifiers, key: Key::from_vk(vk) }),
    }
}

// Mask bits from `CoreGraphics/CGEventTypes.h` (`kCGEventFlagMask*`),
// identical to the `NSEventModifierFlag*` bits: Shift = 1 << 17,
// Control = 1 << 18, Alternate (Option) = 1 << 19, Command = 1 << 20,
// SecondaryFn = 1 << 23.
pub const FLAG_SHIFT: u64 = 0x2_0000;
pub const FLAG_CONTROL: u64 = 0x4_0000;
pub const FLAG_ALTERNATE: u64 = 0x8_0000;
pub const FLAG_COMMAND: u64 = 0x10_0000;
pub const FLAG_FUNCTION: u64 = 0x80_0000;

pub open spec fn spec_decode_cg_flags(flags: u64) -> Modifiers {
    Modifiers {
        cmd: flags & FLAG_COMMAND != 0,
        opt: flags & FLAG_ALTERNATE != 0,
        ctrl: flags & FLAG_CONTROL != 0,
        shift: flags & FLAG_SHIFT != 0,
        fn_key: flags & FLAG_FUNCTION != 0,
    }
}

/// The modifiers held according to an event's `CGEventFlags`.
pub fn decode_cg_flags(flags: u64) -> (m: Modifiers)
    ensures
        m == spec_decode_cg_flags(flags),
{
    Modifiers {
        cmd: flags & FLAG_COMMAND != 0,
        opt: flags & FLAG_ALTERNATE != 0,
        ctrl: flags & FLAG_CONTROL != 0,
        shift: flags & FLAG_SHIFT != 0,
        fn_key: flags & FLAG_FUNCTION != 0,
    }
}

/// What an event's `CGEventFlags` mean for the captured combo
/// (`CoreGraphics/CGEventTypes.h`): Shift is bit `1 << 17`, Control
/// `1 << 18`, Option `1 << 19`, Command `1 << 20` and fn `1 << 23`, each
/// modifier read from its own bit whatever the others hold. A KeyDown of
/// keycode `0x31` with flags `0x40000` is ⌃Space.
pub proof fn law_cg_flag_bits(vk: u16, flags: u64)
    ensures
        spec_decode_cg_flags(flags).shift == (flags & 0x2_0000 != 0),
        spec_decode_cg_flags(flags).ctrl == (flags & 0x4_0000 != 0),
        spec_decode_cg_flags(flags).opt == (flags & 0x8_0000 != 0),
        spec_decode_cg_flags(flags).cmd == (flags & 0x10_0000 != 0),
        spec_decode_cg_flags(flags).fn_key == (flags & 0x80_0000 != 0),
        spec_classify_extended_vk(vk) is None ==> spec_build_captured(vk, spec_decode_cg_flags(flags))
            == Captured::Combo(
            KeyCombo {
                modifiers: Modifiers {
                    shift: flags & 0x2_0000 != 0,
                    ctrl: flags & 0x4_0000 != 0,
                    opt: flags & 0x8_0000 != 0,
                    cmd: flags & 0x10_0000 != 0,
                    fn_key: flags & 0x80_0000 != 0,
                },
                key: spec_key_from_vk(vk),
            },
        ),
{
}

/// State of a macOS privacy permission, read without prompting.
#[derive(Debug, Clone, Copy, PartialEq, Eq, Structural)]
pub enum PermissionStatus {
    Granted,
    Denied,
    /// The user has not been asked yet; macOS will prompt on first use.
    Undetermined,
}

/// The status an `IOHIDAccessType` reports: `kIOHIDAccessTypeGranted`
/// (0), `kIOHIDAccessTypeDenied` (1), anything else undetermined.
pub fn permission_from_access_type(raw: u32) -> (s: PermissionStatus)
    ensures
        s == (if raw == 0 {
            PermissionStatus::Granted
        } else if raw == 1 {
            PermissionStatus::Denied
        } else {
            PermissionStatus::Undetermined
        }),
{
    if raw == 0 {
        PermissionStatus::Granted
    } else if raw == 1 {
        PermissionStatus::Denied
    } else {
        PermissionStatus::Undetermined
    }
}

/// A capture-time failure. The error's path is empty: capture reads no
/// file, and `ScanError` is the crate's general error envelope.
pub fn capture_error(msg: &str) -> (e: ScanError)
    ensures
        e matches ScanError::Schema { path, message } && path@ == Seq::<char>::empty() && message@
            == msg@,
{
    ScanError::Schema { path: String::new(), message: owned(msg) }
}

/// What capturing needs from the Input Monitoring permission: nothing
/// when it is granted, else an error saying where to grant it.
pub fn check_input_monitoring(granted: bool) -> (r: Result<(), ScanError>)
    ensures
        granted <==> r is Ok,
        r matches Err(ScanError::Schema { message, .. }) ==> message@
            == "Input Monitoring permission denied. Grant access in System Settings → Privacy & Security → Input Monitoring and re-run."@,
{
    if granted {
        Ok(())
    } else {
        Err(
            capture_error(
                "Input Monitoring permission denied. Grant access in System Settings → Privacy & Security → Input Monitoring and re-run.",
            ),
        )
    }
}

} // verus!
