//! Who gets a combo, in one sentence; and what a probe saw after letting
//! the key through, cross-checked against the bindings the sources know.

use vstd::prelude::*;

use crate::binding::{Binding, BindingSource, Layer};
use crate::capture::{Probe, Reaction, ReactionKind};
use crate::combo::{spec_combo_text, KeyCombo};
use crate::hotkey_index::{refs_view, winner_view, HotkeyIndex, Winner, WinnerView};
use crate::text::{
    chars_eq, chars_of, decimal, decimal_chars, lower_chars, lower_seq, owned, push_chars, push_str,
    signed_decimal, signed_decimal_chars,
};

verus! {

/// How long a probe watches for reactions after the key, in milliseconds.
pub const PROBE_SETTLE_MS: u64 = 800;

/// What is said after the winner of a global combo about the others.
pub open spec fn losers_tail(n: int) -> Seq<char> {
    if n == 0 {
        Seq::empty()
    } else if n == 1 {
        "; the other binding never sees this key"@
    } else {
        "; the other "@ + decimal(n as nat) + " bindings never see this key"@
    }
}

/// Whether every claimant is an item of the Apple menu.
pub open spec fn all_apple_menu(matches: Seq<Binding>) -> bool {
    matches.len() > 0 && forall|i: int| 0 <= i < matches.len() ==> (#[trigger] matches[i]).source is AppleMenuItem
}

/// One sentence on who gets the key.
pub open spec fn spec_who_sentence(text: Seq<char>, winner: WinnerView, matches: Seq<Binding>) -> Seq<char> {
    match winner {
        WinnerView::FrontmostApp => if all_apple_menu(matches) {
            text + " is an Apple menu item ("@ + matches[0].label@ + "), available in every app"@
        } else {
            text + " is only bound in app menus: whichever app is frontmost handles it"@
        },
        WinnerView::Nobody => "nothing enabled is bound to "@ + text,
        WinnerView::Global(b) => text + " fires "@ + b.source.spec_owner() + " ("@
            + b.source.spec_layer().spec_name() + " layer): "@ + b.label@ + losers_tail(matches.len() - 1),
        WinnerView::Contested(layer) => text + " is contested on the "@ + layer.spec_name()
            + " layer: which binding fires depends on registration order, which cannot be observed from outside"@,
    }
}

fn every_apple_menu(matches: &Vec<&Binding>) -> (b: bool)
    ensures
        b == all_apple_menu(refs_view(matches@)),
{
    if matches.len() == 0 {
        return false;
    }
    let ghost m = refs_view(matches@);
    let mut i: usize = 0;
    while i < matches.len()
        invariant
            i <= matches@.len(),
            m == refs_view(matches@),
            forall|q: int| 0 <= q < i ==> (#[trigger] m[q]).source is AppleMenuItem,
        decreases matches@.len() - i,
    {
        match &matches[i].source {
            BindingSource::AppleMenuItem { .. } => {},
            _ => {
                assert(!(m[i as int].source is AppleMenuItem));
                return false;
            },
        }
        i = i + 1;
    }
    true
}

/// One sentence on who gets `combo`, given its claimants ordered like
/// `find` and the winner among them.
pub fn describe(combo: &KeyCombo, winner: Winner<'_>, matches: &Vec<&Binding>) -> (s: String)
    requires
        winner is Global ==> matches@.len() > 0,
    ensures
        s@ == spec_who_sentence(spec_combo_text(*combo), winner_view(winner), refs_view(matches@)),
{
    let text = combo.to_string();
    match winner {
        Winner::FrontmostApp => {
            if every_apple_menu(matches) {
                let mut s = owned(text.as_str());
                push_str(&mut s, " is an Apple menu item (");
                push_str(&mut s, matches[0].label.as_str());
                push_str(&mut s, "), available in every app");
                s
            } else {
                let mut s = owned(text.as_str());
                push_str(&mut s, " is only bound in app menus: whichever app is frontmost handles it");
                s
            }
        },
        Winner::Nobody => {
            let mut s = owned("nothing enabled is bound to ");
            push_str(&mut s, text.as_str());
            s
        },
        Winner::Global(b) => {
            let mut s = owned(text.as_str());
            push_str(&mut s, " fires ");
            push_str(&mut s, b.source.owner());
            push_str(&mut s, " (");
            push_str(&mut s, b.source.layer().name());
            push_str(&mut s, " layer): ");
            push_str(&mut s, b.label.as_str());
            let losers = matches.len() - 1;
            if losers == 0 {
                assert(s@ =~= s@ + losers_tail(0));
            } else if losers == 1 {
                push_str(&mut s, "; the other binding never sees this key");
            } else {
                push_str(&mut s, "; the other ");
                let digits = decimal_chars(losers as u64);
                push_chars(&mut s, digits.as_slice());
                push_str(&mut s, " bindings never see this key");
            }
            s
        },
        Winner::Contested(layer) => {
            let mut s = owned(text.as_str());
            push_str(&mut s, " is contested on the ");
            push_str(&mut s, layer.name());
            push_str(
                &mut s,
                " layer: which binding fires depends on registration order, which cannot be observed from outside",
            );
            s
        },
    }
}

/// The `Fires` verdict for a claimant on `layer` at position `i` of the
/// claimants: `yes` for the global binding that gets the key (the first
/// claimant), `contested` for each claimant on a contested first layer,
/// `app` for every claimant when only app menus claim the combo (the
/// frontmost app handles it), and blank for one that never sees the key.
pub open spec fn spec_fires_label(winner: WinnerView, layer: Layer, i: int) -> Seq<char> {
    match winner {
        WinnerView::Global(_) => if i == 0 {
            "yes"@
        } else {
            ""@
        },
        WinnerView::Contested(l) => if layer == l {
            "contested"@
        } else {
            ""@
        },
        WinnerView::FrontmostApp => "app"@,
        WinnerView::Nobody => ""@,
    }
}

/// What the `Fires` column says for the claimant at `i`, which sits on
/// `layer`; see [`spec_fires_label`]. Disabled bindings are listed apart,
/// as `off`.
pub fn fires_label(winner: Winner<'_>, layer: Layer, i: usize) -> (s: &'static str)
    ensures
        s@ == spec_fires_label(winner_view(winner), layer, i as int),
{
    match winner {
        Winner::Global(_) => if i == 0 {
            "yes"
        } else {
            ""
        },
        Winner::Contested(l) => if layer == l {
            "contested"
        } else {
            ""
        },
        Winner::FrontmostApp => "app",
        Winner::Nobody => "",
    }
}

// ---------------------------------------------------------------------
// Probes
// ---------------------------------------------------------------------

pub open spec fn opt_text(s: Option<String>) -> Option<Seq<char>> {
    match s {
        Some(t) => Some(t@),
        None => None,
    }
}

/// `str::eq_ignore_ascii_case`.
pub open spec fn same_ignoring_ascii_case(a: Seq<char>, b: Seq<char>) -> bool {
    lower_seq(a) == lower_seq(b)
}

fn eq_ignore_ascii_case(a: &str, b: &str) -> (r: bool)
    ensures
        r == same_ignoring_ascii_case(a@, b@),
{
    let x = chars_of(a);
    let y = chars_of(b);
    let lx = lower_chars(x.as_slice());
    let ly = lower_chars(y.as_slice());
    chars_eq(lx.as_slice(), ly.as_slice())
}

/// Whether binding `b` belongs to the app that reacted: the same bundle
/// id, or the app's name as the binding's owner, ignoring ASCII case.
pub open spec fn belongs_to(b: Binding, r: Reaction) -> bool {
    let same_bundle = match (b.source.spec_bundle_id(), opt_text(r.bundle_id)) {
        (Some(a), Some(c)) => same_ignoring_ascii_case(a, c),
        _ => false,
    };
    let same_name = match opt_text(r.app_name) {
        Some(n) => same_ignoring_ascii_case(n, b.source.spec_owner()),
        None => false,
    };
    same_bundle || same_name
}

/// Whether some static binding on the combo belongs to the reacting app.
pub open spec fn spec_is_known(r: Reaction, matches: Seq<Binding>) -> bool {
    exists|i: int| 0 <= i < matches.len() && belongs_to(#[trigger] matches[i], r)
}

pub fn is_known(r: &Reaction, matches: &Vec<&Binding>) -> (k: bool)
    ensures
        k == spec_is_known(*r, refs_view(matches@)),
{
    let ghost m = refs_view(matches@);
    let mut i: usize = 0;
    while i < matches.len()
        invariant
            i <= matches@.len(),
            m == refs_view(matches@),
            forall|q: int| 0 <= q < i ==> !belongs_to(#[trigger] m[q], *r),
        decreases matches@.len() - i,
    {
        let b = matches[i];
        let same_bundle = match (b.source.bundle_id(), &r.bundle_id) {
            (Some(a), Some(c)) => eq_ignore_ascii_case(a, c.as_str()),
            _ => false,
        };
        let same_name = match &r.app_name {
            Some(n) => eq_ignore_ascii_case(n.as_str(), b.source.owner()),
            None => false,
        };
        assert(m[i as int] == *b);
        if same_bundle || same_name {
            return true;
        }
        i = i + 1;
    }
    false
}

/// How a reacting app is named: its name, else its bundle id, else
/// `pid <pid>`.
pub open spec fn spec_reactor_name(r: Reaction) -> Seq<char> {
    match r.app_name {
        Some(n) => n@,
        None => match r.bundle_id {
            Some(b) => b@,
            None => "pid "@ + signed_decimal(r.pid as int),
        },
    }
}

pub fn reactor_name(r: &Reaction) -> (s: String)
    ensures
        s@ == spec_reactor_name(*r),
{
    match &r.app_name {
        Some(n) => owned(n.as_str()),
        None => match &r.bundle_id {
            Some(b) => owned(b.as_str()),
            None => {
                let mut s = owned("pid ");
                let digits = signed_decimal_chars(r.pid as i64);
                push_chars(&mut s, digits.as_slice());
                s
            },
        },
    }
}

pub open spec fn spec_describe_reaction(r: Reaction) -> Seq<char> {
    let who = spec_reactor_name(r);
    match r.kind {
        ReactionKind::Activated => who + " came to the front"@,
        ReactionKind::NewWindows(n) => if n == 1 {
            who + " opened a window"@
        } else {
            who + " opened "@ + decimal(n as nat) + " windows"@
        },
    }
}

pub fn describe_reaction(r: &Reaction) -> (s: String)
    ensures
        s@ == spec_describe_reaction(*r),
{
    let mut s = reactor_name(r);
    match r.kind {
        ReactionKind::Activated => push_str(&mut s, " came to the front"),
        ReactionKind::NewWindows(n) => {
            if n == 1 {
                push_str(&mut s, " opened a window");
            } else {
                push_str(&mut s, " opened ");
                let digits = decimal_chars(n as u64);
                push_chars(&mut s, digits.as_slice());
                push_str(&mut s, " windows");
            }
        },
    }
    s
}

/// The lines of the reactions, each marked when no source lists it.
pub open spec fn reaction_lines(rs: Seq<Reaction>, matches: Seq<Binding>) -> Seq<char>
    decreases rs.len(),
{
    if rs.len() == 0 {
        Seq::empty()
    } else {
        let r = rs.last();
        reaction_lines(rs.drop_last(), matches) + "  "@ + spec_describe_reaction(r) + (if spec_is_known(
            r,
            matches,
        ) {
            "\n"@
        } else {
            "  (in no source)\n"@
        })
    }
}

/// The names of the reacting apps no source lists.
pub open spec fn unexplained(rs: Seq<Reaction>, matches: Seq<Binding>) -> Seq<Seq<char>>
    decreases rs.len(),
{
    if rs.len() == 0 {
        Seq::empty()
    } else {
        let prev = unexplained(rs.drop_last(), matches);
        if spec_is_known(rs.last(), matches) {
            prev
        } else {
            prev.push(spec_reactor_name(rs.last()))
        }
    }
}

pub open spec fn unexplained_lines(names: Seq<Seq<char>>, text: Seq<char>) -> Seq<char>
    decreases names.len(),
{
    if names.len() == 0 {
        Seq::empty()
    } else {
        let who = names.last();
        unexplained_lines(names.drop_last(), text) + who + " reacts to "@ + text
            + " from its own code: no file or menu records it, so tussle cannot list it. To change it: "@
            + who + "'s own settings.\n"@
    }
}

/// The first system shortcut among the claimants, as `  (owner: action)`.
pub open spec fn system_by(matches: Seq<Binding>) -> Seq<char>
    decreases matches.len(),
{
    if matches.len() == 0 {
        Seq::empty()
    } else if matches[0].source is SystemSymbolicHotkey {
        "  ("@ + matches[0].source.spec_owner() + ": "@ + matches[0].label@ + ")"@
    } else {
        system_by(matches.drop_first())
    }
}

/// What happened in the watch window after the key went through. A
/// reaction from an app that no source lists means the app reacts to
/// the key from its own code; when a system shortcut fired and such an
/// app reacted too, both really happened.
pub open spec fn spec_describe_probe(text: Seq<char>, change: Option<(Seq<char>, Seq<char>)>, rs: Seq<Reaction>, matches: Seq<Binding>) -> Seq<char> {
    let head = "Observed within "@ + decimal(PROBE_SETTLE_MS as nat) + " ms of letting "@ + text + " through:\n"@;
    let source_line = match change {
        Some((before, after)) => "  input source changed: "@ + before + " -> "@ + after + system_by(matches) + "\n"@,
        None => Seq::empty(),
    };
    let quiet = if rs.len() == 0 && change is None {
        "  nothing came to the front, no window opened, input source unchanged\n"@
    } else {
        Seq::empty()
    };
    let names = unexplained(rs, matches);
    let both = if change is Some && names.len() > 0 {
        "Both fired: the system shortcut only blocks apps that claim the key through their menus; an app that merely watches keystrokes still sees it. Turn off whichever you do not want.\n"@
    } else {
        Seq::empty()
    };
    head + source_line + reaction_lines(rs, matches) + quiet + unexplained_lines(names, text) + both
}

pub open spec fn change_view(c: Option<(String, String)>) -> Option<(Seq<char>, Seq<char>)> {
    match c {
        Some((a, b)) => Some((a@, b@)),
        None => None,
    }
}

fn push_system_by(out: &mut String, matches: &Vec<&Binding>)
    ensures
        final(out)@ == old(out)@ + system_by(refs_view(matches@)),
{
    let ghost m = refs_view(matches@);
    let mut i: usize = 0;
    assert(m.skip(0) =~= m);
    while i < matches.len()
        invariant
            i <= matches@.len(),
            m == refs_view(matches@),
            out@ == old(out)@,
            system_by(m) == system_by(m.skip(i as int)),
        decreases matches@.len() - i,
    {
        assert(m.skip(i as int)[0] == *matches@[i as int]);
        match &matches[i].source {
            BindingSource::SystemSymbolicHotkey { .. } => {
                push_str(out, "  (");
                push_str(out, matches[i].source.owner());
                push_str(out, ": ");
                push_str(out, matches[i].label.as_str());
                push_str(out, ")");
                return;
            },
            _ => {},
        }
        assert(m.skip(i as int).drop_first() =~= m.skip(i + 1));
        i = i + 1;
    }
    assert(m.skip(i as int) =~= Seq::<Binding>::empty());
    assert(out@ =~= old(out)@ + system_by(m));
}

/// Describe what a probe saw after letting `combo` through, given the
/// combo's claimants.
pub fn describe_probe(combo: &KeyCombo, probe: &Probe, matches: &Vec<&Binding>) -> (s: String)
    ensures
        s@ == spec_describe_probe(
            spec_combo_text(*combo),
            change_view(probe.input_source_change),
            probe.reactions@,
            refs_view(matches@),
        ),
{
    let text = combo.to_string();
    let ghost m = refs_view(matches@);
    let ghost rs = probe.reactions@;
    let mut out = owned("Observed within ");
    let ms = decimal_chars(PROBE_SETTLE_MS);
    push_chars(&mut out, ms.as_slice());
    push_str(&mut out, " ms of letting ");
    push_str(&mut out, text.as_str());
    push_str(&mut out, " through:\n");
    let ghost after_head = out@;
    let system_fired = match &probe.input_source_change {
        Some((before, after)) => {
            push_str(&mut out, "  input source changed: ");
            push_str(&mut out, before.as_str());
            push_str(&mut out, " -> ");
            push_str(&mut out, after.as_str());
            push_system_by(&mut out, matches);
            push_str(&mut out, "\n");
            true
        },
        None => false,
    };
    let ghost after_source = out@;
    let mut names: Vec<String> = Vec::new();
    let mut i: usize = 0;
    while i < probe.reactions.len()
        invariant
            i <= rs.len(),
            rs == probe.reactions@,
            m == refs_view(matches@),
            out@ == after_source + reaction_lines(rs.take(i as int), m),
            names@.map_values(|t: String| t@) == unexplained(rs.take(i as int), m),
        decreases rs.len() - i,
    {
        assert(rs.take(i + 1).drop_last() =~= rs.take(i as int));
        assert(rs.take(i + 1).last() == rs[i as int]);
        let r = &probe.reactions[i];
        let known = is_known(r, matches);
        push_str(&mut out, "  ");
        let d = describe_reaction(r);
        push_str(&mut out, d.as_str());
        if known {
            push_str(&mut out, "\n");
        } else {
            push_str(&mut out, "  (in no source)\n");
            let ghost before = names@;
            names.push(reactor_name(r));
            assert(names@.map_values(|t: String| t@) =~= before.map_values(|t: String| t@).push(
                spec_reactor_name(*r),
            ));
        }
        i = i + 1;
    }
    assert(rs.take(rs.len() as int) =~= rs);
    if probe.reactions.len() == 0 && !system_fired {
        push_str(&mut out, "  nothing came to the front, no window opened, input source unchanged\n");
    }
    let ghost before_names = out@;
    let ghost nv = names@.map_values(|t: String| t@);
    let mut k: usize = 0;
    while k < names.len()
        invariant
            k <= names@.len(),
            nv == names@.map_values(|t: String| t@),
            text@ == spec_combo_text(*combo),
            out@ == before_names + unexplained_lines(nv.take(k as int), text@),
        decreases names@.len() - k,
    {
        assert(nv.take(k + 1).drop_last() =~= nv.take(k as int));
        assert(nv.take(k + 1).last() == names@[k as int]@);
        let who = names[k].as_str();
        push_str(&mut out, who);
        push_str(&mut out, " reacts to ");
        push_str(&mut out, text.as_str());
        push_str(
            &mut out,
            " from its own code: no file or menu records it, so tussle cannot list it. To change it: ",
        );
        push_str(&mut out, who);
        push_str(&mut out, "'s own settings.\n");
        k = k + 1;
    }
    assert(nv.take(nv.len() as int) =~= nv);
    if system_fired && names.len() > 0 {
        push_str(
            &mut out,
            "Both fired: the system shortcut only blocks apps that claim the key through their menus; an app that merely watches keystrokes still sees it. Turn off whichever you do not want.\n",
        );
    }
    proof {
        let change = change_view(probe.input_source_change);
        let quiet = if rs.len() == 0 && change is None {
            "  nothing came to the front, no window opened, input source unchanged\n"@
        } else {
            Seq::<char>::empty()
        };
        let both = if change is Some && nv.len() > 0 {
            "Both fired: the system shortcut only blocks apps that claim the key through their menus; an app that merely watches keystrokes still sees it. Turn off whichever you do not want.\n"@
        } else {
            Seq::<char>::empty()
        };
        assert(before_names =~= after_source + reaction_lines(rs, m) + quiet);
        assert(out@ =~= before_names + unexplained_lines(nv, text@) + both);
    }
    out
}

} // verus!
