//! The set of held modifier keys.

use vstd::prelude::*;

use crate::text::push_str;

verus! {

/// Set of macOS keyboard modifier flags that can be part of a hotkey.
///
/// The five recognized modifiers match what every relevant macOS API
/// exposes (Symbolic Hot Keys plist, NSUserKeyEquivalents, Carbon
/// `RegisterEventHotKey`, Accessibility `AXMenuItemCmdModifiers`).
#[derive(Debug, Clone, Copy, PartialEq, Eq, Hash, Default, Structural)]
pub struct Modifiers {
    pub cmd: bool,
    pub opt: bool,
    pub ctrl: bool,
    pub shift: bool,
    pub fn_key: bool,
}

impl Modifiers {
    pub open spec fn none() -> Modifiers {
        Modifiers { cmd: false, opt: false, ctrl: false, shift: false, fn_key: false }
    }

    /// The empty set.
    pub fn empty() -> (m: Modifiers)
        ensures
            m == Modifiers::none(),
    {
        Modifiers { cmd: false, opt: false, ctrl: false, shift: false, fn_key: false }
    }

    /// Command (⌘).
    pub fn cmd() -> (m: Modifiers)
        ensures
            m == (Modifiers { cmd: true, ..Modifiers::none() }),
    {
        Modifiers { cmd: true, opt: false, ctrl: false, shift: false, fn_key: false }
    }

    /// Option (⌥).
    pub fn opt() -> (m: Modifiers)
        ensures
            m == (Modifiers { opt: true, ..Modifiers::none() }),
    {
        Modifiers { cmd: false, opt: true, ctrl: false, shift: false, fn_key: false }
    }

    /// Control (⌃).
    pub fn ctrl() -> (m: Modifiers)
        ensures
            m == (Modifiers { ctrl: true, ..Modifiers::none() }),
    {
        Modifiers { cmd: false, opt: false, ctrl: true, shift: false, fn_key: false }
    }

    /// Shift (⇧).
    pub fn shift() -> (m: Modifiers)
        ensures
            m == (Modifiers { shift: true, ..Modifiers::none() }),
    {
        Modifiers { cmd: false, opt: false, ctrl: false, shift: true, fn_key: false }
    }

    /// fn / Globe (🌐).
    pub fn fn_key() -> (m: Modifiers)
        ensures
            m == (Modifiers { fn_key: true, ..Modifiers::none() }),
    {
        Modifiers { cmd: false, opt: false, ctrl: false, shift: false, fn_key: true }
    }

    /// Every modifier.
    pub fn all() -> (m: Modifiers)
        ensures
            m == (Modifiers { cmd: true, opt: true, ctrl: true, shift: true, fn_key: true }),
    {
        Modifiers { cmd: true, opt: true, ctrl: true, shift: true, fn_key: true }
    }

    pub open spec fn spec_union(self, other: Modifiers) -> Modifiers {
        Modifiers {
            cmd: self.cmd || other.cmd,
            opt: self.opt || other.opt,
            ctrl: self.ctrl || other.ctrl,
            shift: self.shift || other.shift,
            fn_key: self.fn_key || other.fn_key,
        }
    }

    /// Every modifier held in `self` or in `other`.
    pub fn union(self, other: Modifiers) -> (m: Modifiers)
        ensures
            m == self.spec_union(other),
    {
        Modifiers {
            cmd: self.cmd || other.cmd,
            opt: self.opt || other.opt,
            ctrl: self.ctrl || other.ctrl,
            shift: self.shift || other.shift,
            fn_key: self.fn_key || other.fn_key,
        }
    }

    pub open spec fn spec_contains(self, other: Modifiers) -> bool {
        &&& other.cmd ==> self.cmd
        &&& other.opt ==> self.opt
        &&& other.ctrl ==> self.ctrl
        &&& other.shift ==> self.shift
        &&& other.fn_key ==> self.fn_key
    }

    /// Whether every modifier of `other` is held in `self`.
    pub fn contains(self, other: Modifiers) -> (b: bool)
        ensures
            b == self.spec_contains(other),
    {
        (!other.cmd || self.cmd) && (!other.opt || self.opt) && (!other.ctrl || self.ctrl) && (
        !other.shift || self.shift) && (!other.fn_key || self.fn_key)
    }

    /// Whether no modifier is held.
    pub fn is_empty(self) -> (b: bool)
        ensures
            b == (self == Modifiers::none()),
    {
        !self.cmd && !self.opt && !self.ctrl && !self.shift && !self.fn_key
    }
}


/// Pieces joined with `+` between them.
pub open spec fn join_plus(parts: Seq<Seq<char>>) -> Seq<char>
    decreases parts.len(),
{
    if parts.len() == 0 {
        Seq::<char>::empty()
    } else if parts.len() == 1 {
        parts[0]
    } else {
        join_plus(parts.drop_last()) + seq!['+'] + parts.last()
    }
}

/// The names of the held modifiers, in the visual order Apple uses in
/// System Settings (⌃⌥⇧⌘ plus fn).
pub open spec fn modifier_words(m: Modifiers) -> Seq<Seq<char>> {
    (if m.ctrl { seq!["ctrl"@] } else { Seq::empty() })
    + (if m.opt { seq!["opt"@] } else { Seq::empty() })
    + (if m.shift { seq!["shift"@] } else { Seq::empty() })
    + (if m.cmd { seq!["cmd"@] } else { Seq::empty() })
    + (if m.fn_key { seq!["fn"@] } else { Seq::empty() })
}

/// How a modifier set renders: lowercase names joined with `+`, ordered
/// `ctrl+opt+shift+cmd+fn`; the empty set renders as the empty string.
pub open spec fn spec_modifiers_text(m: Modifiers) -> Seq<char> {
    join_plus(modifier_words(m))
}

/// Appends `word` as the next piece of a `+`-joined list.
fn push_word(out: &mut String, words: Ghost<Seq<Seq<char>>>, word: &str, first: bool)
    requires
        old(out)@ == join_plus(words@),
        first == (words@.len() == 0),
    ensures
        final(out)@ == join_plus(words@.push(word@)),
{
    assert(words@.push(word@).drop_last() =~= words@);
    if !first {
        push_str(out, "+");
        proof { reveal_strlit("+"); }
        assert("+"@ =~= seq!['+']);
    } else {
        assert(out@ =~= Seq::<char>::empty());
    }
    push_str(out, word);
    assert(out@ =~= join_plus(words@.push(word@)));
}

impl Modifiers {
    /// `ctrl+opt+shift+cmd+fn` order, `+`-joined; empty for no modifiers.
    pub fn to_string(&self) -> (s: String)
        ensures
            s@ == spec_modifiers_text(*self),
    {
        let mut out = String::new();
        let ghost mut words: Seq<Seq<char>> = Seq::empty();
        let mut first = true;
        if self.ctrl {
            push_word(&mut out, Ghost(words), "ctrl", first);
            first = false;
            proof { words = words.push("ctrl"@); }
        }
        assert(words =~= (if self.ctrl { seq!["ctrl"@] } else { Seq::empty() }));
        assert(first == (words.len() == 0));
        if self.opt {
            push_word(&mut out, Ghost(words), "opt", first);
            first = false;
            proof { words = words.push("opt"@); }
        }
        assert(words =~= (if self.ctrl { seq!["ctrl"@] } else { Seq::empty() })
            + (if self.opt { seq!["opt"@] } else { Seq::empty() }));
        if self.shift {
            push_word(&mut out, Ghost(words), "shift", first);
            first = false;
            proof { words = words.push("shift"@); }
        }
        assert(words =~= (if self.ctrl { seq!["ctrl"@] } else { Seq::empty() })
            + (if self.opt { seq!["opt"@] } else { Seq::empty() })
            + (if self.shift { seq!["shift"@] } else { Seq::empty() }));
        if self.cmd {
            push_word(&mut out, Ghost(words), "cmd", first);
            first = false;
            proof { words = words.push("cmd"@); }
        }
        assert(words =~= (if self.ctrl { seq!["ctrl"@] } else { Seq::empty() })
            + (if self.opt { seq!["opt"@] } else { Seq::empty() })
            + (if self.shift { seq!["shift"@] } else { Seq::empty() })
            + (if self.cmd { seq!["cmd"@] } else { Seq::empty() }));
        if self.fn_key {
            push_word(&mut out, Ghost(words), "fn", first);
            first = false;
            proof { words = words.push("fn"@); }
        }
        assert(words =~= modifier_words(*self));
        out
    }
}

} // verus!
