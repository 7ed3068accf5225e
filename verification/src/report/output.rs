//! Labels shared by the reports, and where a binding can be changed.

use vstd::prelude::*;

use crate::binding::{Binding, BindingSource, Layer, SystemDispatch};
use crate::text::{owned, push_str};

verus! {

/// Human-readable name of a layer for tables.
pub fn layer_label(layer: Layer) -> (s: &'static str)
    ensures
        s@ == layer.spec_name(),
{
    layer.name()
}

/// Section of the Keyboard Shortcuts pane that lists symbolic hotkey `id`.
pub open spec fn spec_settings_section(id: u32) -> Seq<char> {
    if (7 <= id <= 13) || id == 27 || id == 51 || id == 57 || id == 98 {
        "Keyboard"@
    } else if (15 <= id <= 26) || id == 59 || id == 175 {
        "Accessibility"@
    } else if (28 <= id <= 31) || id == 181 || id == 182 || id == 184 {
        "Screenshots"@
    } else if id == 32 || id == 33 || id == 36 || (79 <= id <= 82) || (118 <= id <= 121) {
        "Mission Control"@
    } else if id == 52 || id == 160 {
        "Launchpad & Dock"@
    } else if id == 60 || id == 61 {
        "Input Sources"@
    } else if id == 64 || id == 65 {
        "Spotlight"@
    } else {
        "the section listing it"@
    }
}

pub fn settings_section(id: u32) -> (s: &'static str)
    ensures
        s@ == spec_settings_section(id),
{
    if (7 <= id && id <= 13) || id == 27 || id == 51 || id == 57 || id == 98 {
        "Keyboard"
    } else if (15 <= id && id <= 26) || id == 59 || id == 175 {
        "Accessibility"
    } else if (28 <= id && id <= 31) || id == 181 || id == 182 || id == 184 {
        "Screenshots"
    } else if id == 32 || id == 33 || id == 36 || (79 <= id && id <= 82) || (118 <= id && id <= 121) {
        "Mission Control"
    } else if id == 52 || id == 160 {
        "Launchpad & Dock"
    } else if id == 60 || id == 61 {
        "Input Sources"
    } else if id == 64 || id == 65 {
        "Spotlight"
    } else {
        "the section listing it"
    }
}

/// Where a person would go to change or remove `b`.
pub open spec fn spec_how_to_change(b: Binding) -> Seq<char> {
    let pane = "System Settings → Keyboard → Keyboard Shortcuts"@;
    let owner = b.source.spec_owner();
    match b.source {
        BindingSource::SystemSymbolicHotkey { id, dispatch } => match dispatch {
            SystemDispatch::BeforeApps => match id {
                Some(i) => pane + " → "@ + spec_settings_section(i),
                None => "built into macOS; it cannot be changed"@,
            },
            SystemDispatch::StandardMenuItem => "a standard menu item; "@ + pane
                + " → App Shortcuts can override it for one app"@,
        },
        BindingSource::AppleMenuItem { .. } => "built into macOS; it cannot be changed"@,
        BindingSource::StatusMenuItem { .. } => "in "@ + owner + "'s own settings"@,
        BindingSource::AppMenuItem { .. } => "in "@ + owner + " itself if it lets you, otherwise "@
            + pane + " → App Shortcuts: add "@ + owner + " with the menu title \""@ + b.label@
            + "\""@,
        BindingSource::AppMenuOverride { bundle_id, .. } => pane
            + " → App Shortcuts: this is your own override for "@ + bundle_id@,
    }
}

pub fn how_to_change(b: &Binding) -> (s: String)
    ensures
        s@ == spec_how_to_change(*b),
{
    let pane = "System Settings → Keyboard → Keyboard Shortcuts";
    match &b.source {
        BindingSource::SystemSymbolicHotkey { id, dispatch } => match dispatch {
            SystemDispatch::BeforeApps => match id {
                Some(i) => {
                    let mut s = owned(pane);
                    push_str(&mut s, " → ");
                    push_str(&mut s, settings_section(*i));
                    s
                },
                None => owned("built into macOS; it cannot be changed"),
            },
            SystemDispatch::StandardMenuItem => {
                let mut s = owned("a standard menu item; ");
                push_str(&mut s, pane);
                push_str(&mut s, " → App Shortcuts can override it for one app");
                s
            },
        },
        BindingSource::AppleMenuItem { .. } => owned("built into macOS; it cannot be changed"),
        BindingSource::StatusMenuItem { .. } => {
            let mut s = owned("in ");
            push_str(&mut s, b.source.owner());
            push_str(&mut s, "'s own settings");
            s
        },
        BindingSource::AppMenuItem { .. } => {
            let owner = b.source.owner();
            let mut s = owned("in ");
            push_str(&mut s, owner);
            push_str(&mut s, " itself if it lets you, otherwise ");
            push_str(&mut s, pane);
            push_str(&mut s, " → App Shortcuts: add ");
            push_str(&mut s, owner);
            push_str(&mut s, " with the menu title \"");
            push_str(&mut s, b.label.as_str());
            push_str(&mut s, "\"");
            s
        },
        BindingSource::AppMenuOverride { bundle_id, .. } => {
            let mut s = owned(pane);
            push_str(&mut s, " → App Shortcuts: this is your own override for ");
            push_str(&mut s, bundle_id.as_str());
            s
        },
    }
}


/// Whether `name` is among `names`.
pub open spec fn named_in(names: Seq<String>, name: Seq<char>) -> bool {
    exists|i: int| 0 <= i < names.len() && (#[trigger] names[i])@ == name
}

/// The first requested source name that is not available, if any: the
/// command refuses it and lists what is.
pub fn unknown_source(available: &Vec<String>, only: &Vec<String>) -> (r: Option<usize>)
    ensures
        match r {
            Some(i) => i < only@.len() && !named_in(available@, only@[i as int]@) && forall|k: int|
                0 <= k < i ==> named_in(available@, (#[trigger] only@[k])@),
            None => forall|k: int| 0 <= k < only@.len() ==> named_in(available@, (#[trigger] only@[k])@),
        },
{
    let mut i: usize = 0;
    while i < only.len()
        invariant
            i <= only@.len(),
            forall|k: int| 0 <= k < i ==> named_in(available@, (#[trigger] only@[k])@),
        decreases only@.len() - i,
    {
        if !contains_name(available, only[i].as_str()) {
            return Some(i);
        }
        i = i + 1;
    }
    None
}

/// Whether `name` is among `names`.
pub fn contains_name(names: &Vec<String>, name: &str) -> (b: bool)
    ensures
        b == named_in(names@, name@),
{
    let mut i: usize = 0;
    while i < names.len()
        invariant
            i <= names@.len(),
            forall|k: int| 0 <= k < i ==> (#[trigger] names@[k])@ != name@,
        decreases names@.len() - i,
    {
        if crate::text::str_eq(names[i].as_str(), name) {
            return true;
        }
        i = i + 1;
    }
    false
}

/// Whether the source called `name` runs: every source does when
/// `only` is empty, else those it names.
pub fn keeps_source(name: &str, only: &Vec<String>) -> (b: bool)
    ensures
        b == (only@.len() == 0 || named_in(only@, name@)),
{
    only.len() == 0 || contains_name(only, name)
}

} // verus!
