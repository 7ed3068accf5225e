//! Types describing a keyboard shortcut: modifiers, the key, and the
//! combo formed by their pairing.

mod key;
mod modifiers;
mod parse;
pub mod readback;
pub mod reorder;
mod vk;

pub use key::{
    parse_named, spec_key_from_char, spec_key_from_vk, spec_key_text, spec_parse_named, Key,
    NamedKey,
};
pub use modifiers::{join_plus, modifier_words, spec_modifiers_text, Modifiers};
pub use parse::{
    parse_key, parse_modifier, spec_parse_combo, spec_parse_key, spec_parse_modifier,
    spec_parse_modifiers, spec_parse_token, ComboToken, ParseFailure,
};
pub use vk::{spec_vk_to_ansi_char, spec_vk_to_named, vk_to_ansi_char, vk_to_named};

use vstd::prelude::*;

use crate::text::{debug_quoted, debug_text, owned, push_chars, push_str};

verus! {

/// A keyboard shortcut: the set of held modifiers plus the key being pressed.
#[derive(Debug, Clone, Copy, PartialEq, Eq, Hash, Structural)]
pub struct KeyCombo {
    pub modifiers: Modifiers,
    pub key: Key,
}

/// How a combo renders: `modifiers+key`, e.g. `cmd+space` or
/// `ctrl+shift+cmd+3`; only the key when no modifier is held.
pub open spec fn spec_combo_text(c: KeyCombo) -> Seq<char> {
    if c.modifiers == Modifiers::none() {
        spec_key_text(c.key)
    } else {
        spec_modifiers_text(c.modifiers) + seq!['+'] + spec_key_text(c.key)
    }
}

impl KeyCombo {
    /// Renders as `modifiers+key` (`cmd+space`), or only the key when the
    /// modifier set is empty (`escape`, `f1`).
    pub fn to_string(&self) -> (s: String)
        ensures
            s@ == spec_combo_text(*self),
    {
        if self.modifiers.is_empty() {
            self.key.to_string()
        } else {
            let mut s = self.modifiers.to_string();
            push_str(&mut s, "+");
            proof { reveal_strlit("+"); }
            let k = self.key.to_string();
            push_str(&mut s, k.as_str());
            s
        }
    }
}

/// Errors returned by [`KeyCombo::parse`].
#[derive(Debug, Clone, PartialEq, Eq)]
pub enum ComboParseError {
    Empty,
    UnknownModifier(String),
    MissingKey,
    UnknownKey(String),
}

impl View for ComboParseError {
    type V = ParseFailure;

    open spec fn view(&self) -> ParseFailure {
        match self {
            ComboParseError::Empty => ParseFailure::Empty,
            ComboParseError::UnknownModifier(t) => ParseFailure::UnknownModifier(t@),
            ComboParseError::MissingKey => ParseFailure::MissingKey,
            ComboParseError::UnknownKey(t) => ParseFailure::UnknownKey(t@),
        }
    }
}

/// The message each parse error displays.
pub open spec fn spec_parse_error_text(e: ParseFailure) -> Seq<char> {
    match e {
        ParseFailure::Empty => "empty key combo"@,
        ParseFailure::UnknownModifier(t) => "unknown modifier: "@ + debug_quoted(t),
        ParseFailure::MissingKey => "missing key (combo had only modifiers)"@,
        ParseFailure::UnknownKey(t) => "unrecognized key: "@ + debug_quoted(t),
    }
}

impl ComboParseError {
    /// The human-readable message, e.g. `unknown modifier: "super"`.
    pub fn to_string(&self) -> (s: String)
        ensures
            s@ == spec_parse_error_text(self@),
    {
        match self {
            ComboParseError::Empty => owned("empty key combo"),
            ComboParseError::UnknownModifier(t) => {
                let mut s = owned("unknown modifier: ");
                let q = debug_text(t.as_str());
                push_str(&mut s, q.as_str());
                s
            },
            ComboParseError::MissingKey => owned("missing key (combo had only modifiers)"),
            ComboParseError::UnknownKey(t) => {
                let mut s = owned("unrecognized key: ");
                let q = debug_text(t.as_str());
                push_str(&mut s, q.as_str());
                s
            },
        }
    }
}

} // verus!
