//! Per-app menu shortcuts read through the macOS Accessibility API: the
//! decisions made on what the API reports.
//!
//! The caller walks every running app's menu bar and status-bar menus
//! with `AXUIElement` queries; this module decides which apps to walk,
//! what a menu item's key equivalent is, what binding it becomes, when a
//! failed query means the app stopped answering, which of two walks of
//! the same app to keep, and which Apple-menu items are duplicates.

use vstd::prelude::*;

use crate::binding::{Binding, BindingSource};
use crate::combo::{spec_key_from_char, Key, KeyCombo, Modifiers};
use crate::text::{chars_of, decimal, owned, push_chars, signed_decimal, signed_decimal_chars};

verus! {

broadcast use vstd::string::group_string_axioms;

// ---------------------------------------------------------------------
// Running apps
// ---------------------------------------------------------------------

/// A running app that may own a menu bar.
#[derive(Debug, Clone, PartialEq, Eq)]
pub struct RunningApp {
    pub pid: i32,
    pub bundle_id: Option<String>,
    pub app_name: Option<String>,
}

/// Whether `needle` occurs in `hay` as a contiguous run.
pub open spec fn contains_text(hay: Seq<char>, needle: Seq<char>) -> bool {
    exists|i: int| 0 <= i <= hay.len() - needle.len() && #[trigger] hay.subrange(i, i + needle.len()) == needle
}

/// Whether `needle` occurs in `hay`.
pub fn text_contains(hay: &str, needle: &str) -> (b: bool)
    ensures
        b == contains_text(hay@, needle@),
{
    let h = chars_of(hay);
    let n = chars_of(needle);
    if n.len() > h.len() {
        return false;
    }
    let mut i: usize = 0;
    while i <= h.len() - n.len()
        invariant
            h@ == hay@,
            n@ == needle@,
            n@.len() <= h@.len(),
            i <= h@.len() - n@.len() + 1,
            forall|q: int| 0 <= q < i ==> #[trigger] h@.subrange(q, q + n@.len()) != n@,
        decreases h@.len() - n@.len() + 1 - i,
    {
        let mut k: usize = 0;
        while k < n.len() && h[i + k] == n[k]
            invariant
                k <= n@.len(),
                i + n.len() <= h.len(),
                forall|q: int| 0 <= q < k ==> h@[i + q] == n@[q],
            decreases n@.len() - k,
        {
            k = k + 1;
        }
        if k == n.len() {
            assert(h@.subrange(i as int, i + n@.len()) =~= n@);
            return true;
        }
        assert(h@.subrange(i as int, i + n@.len())[k as int] != n@[k as int]);
        i = i + 1;
    }
    false
}

/// What `str::to_lowercase` makes of `s`: Unicode lowercase mapping, a
/// function of the text alone.
pub uninterp spec fn lowercased(s: Seq<char>) -> Seq<char>;

/// `str::to_lowercase`. The contract names the result; nothing else is
/// stated of Unicode case mapping.
#[verifier::external_body]
fn to_lowercase(s: &str) -> (r: String)
    ensures
        r@ == lowercased(s@),
{
    s.to_lowercase()
}

/// Each term lowercased, for [`matches_bundle_filter`].
pub fn lowercase_terms(terms: &Vec<String>) -> (r: Vec<String>)
    ensures
        r@.len() == terms@.len(),
        forall|i: int| 0 <= i < r@.len() ==> (#[trigger] r@[i])@ == lowercased(terms@[i]@),
{
    let mut r: Vec<String> = Vec::new();
    let mut i: usize = 0;
    while i < terms.len()
        invariant
            i <= terms@.len(),
            r@.len() == i,
            forall|q: int| 0 <= q < i ==> (#[trigger] r@[q])@ == lowercased(terms@[q]@),
        decreases terms@.len() - i,
    {
        r.push(to_lowercase(terms[i].as_str()));
        i = i + 1;
    }
    r
}

/// The text of an optional string.
pub open spec fn opt_view(s: Option<String>) -> Option<Seq<char>> {
    match s {
        Some(t) => Some(t@),
        None => None,
    }
}

/// The terms of a filter, lowercased.
pub open spec fn terms_lowercased(filter: Seq<String>) -> Seq<Seq<char>> {
    filter.map_values(|t: String| lowercased(t@))
}

/// Whether the lowercased text, if any, contains `term`.
pub open spec fn some_contains(s: Option<Seq<char>>, term: Seq<char>) -> bool {
    match s {
        Some(t) => contains_text(lowercased(t), term),
        None => false,
    }
}

/// Whether the bundle id or the name, lowercased, contains one of the
/// terms.
pub open spec fn spec_matches_bundle_filter(bundle_id: Option<Seq<char>>, app_name: Option<Seq<char>>, terms: Seq<Seq<char>>) -> bool {
    exists|i: int|
        0 <= i < terms.len() && (some_contains(bundle_id, #[trigger] terms[i]) || some_contains(app_name, terms[i]))
}

fn lower_contains(s: &Option<String>, term: &str) -> (b: bool)
    ensures
        b == some_contains(opt_view(*s), term@),
{
    match s {
        Some(t) => {
            let l = to_lowercase(t.as_str());
            text_contains(l.as_str(), term)
        },
        None => false,
    }
}

/// Whether the app's bundle id or display name, lowercased, contains any
/// of the already lowercased terms of `filter_lc`.
pub fn matches_bundle_filter(bundle_id: &Option<String>, app_name: &Option<String>, filter_lc: &Vec<String>) -> (b: bool)
    ensures
        b == spec_matches_bundle_filter(opt_view(*bundle_id), opt_view(*app_name), filter_lc@.map_values(|t: String| t@)),
{
    let ghost terms = filter_lc@.map_values(|t: String| t@);
    let mut i: usize = 0;
    while i < filter_lc.len()
        invariant
            i <= filter_lc@.len(),
            terms == filter_lc@.map_values(|t: String| t@),
            forall|q: int|
                0 <= q < i ==> !(some_contains(opt_view(*bundle_id), #[trigger] terms[q]) || some_contains(
                    opt_view(*app_name),
                    terms[q],
                )),
        decreases filter_lc@.len() - i,
    {
        if lower_contains(bundle_id, filter_lc[i].as_str()) || lower_contains(app_name, filter_lc[i].as_str()) {
            assert(terms[i as int] == filter_lc@[i as int]@);
            return true;
        }
        i = i + 1;
    }
    false
}

/// Whether the filter keeps the app.
pub open spec fn app_kept(a: RunningApp, filter: Seq<String>) -> bool {
    spec_matches_bundle_filter(opt_view(a.bundle_id), opt_view(a.app_name), terms_lowercased(filter))
}

/// The apps to walk: all of them when the filter is empty, else those
/// whose bundle id or name contains one of its terms, ignoring case.
pub fn filter_running_apps(apps: Vec<RunningApp>, filter: &Vec<String>) -> (r: Vec<RunningApp>)
    ensures
        filter@.len() == 0 ==> r@ == apps@,
        filter@.len() > 0 ==> r@ == apps@.filter(|a: RunningApp| app_kept(a, filter@)),
{
    if filter.len() == 0 {
        return apps;
    }
    let lc = lowercase_terms(filter);
    assert(lc@.map_values(|t: String| t@) =~= terms_lowercased(filter@));
    let ghost all = apps@;
    let ghost pred = |a: RunningApp| app_kept(a, filter@);
    let total = apps.len();
    let mut rest = apps;
    let mut kept: Vec<RunningApp> = Vec::new();
    let mut k: usize = 0;
    while rest.len() > 0
        invariant
            k <= all.len(),
            all.len() == total,
            rest@ == all.skip(k as int),
            lc@.map_values(|t: String| t@) == terms_lowercased(filter@),
            pred == (|a: RunningApp| app_kept(a, filter@)),
            kept@ == all.take(k as int).filter(pred),
        decreases rest@.len(),
    {
        let app = rest.remove(0);
        proof {
            assert(all.take(k + 1).drop_last() =~= all.take(k as int));
            assert(all.take(k + 1).last() == app);
        }
        let keep = matches_bundle_filter(&app.bundle_id, &app.app_name, &lc);
        assert(keep == pred(app));
        let ghost before = kept@;
        if keep {
            kept.push(app);
        }
        proof {
            reveal(Seq::filter);
            let t = all.take(k + 1);
            assert(t.filter(pred) == (if pred(t.last()) {
                t.drop_last().filter(pred).push(t.last())
            } else {
                t.drop_last().filter(pred)
            }));
        }
        k = k + 1;
        assert(rest@ =~= all.skip(k as int));
    }
    assert(all.take(k as int) =~= all);
    kept
}


/// Whether a running app is worth walking: not one whose activation
/// policy is `Prohibited` (XPC services, helpers without UI), and not an
/// Apple-style XPC bundle, whose executable lives under `/XPCServices/`.
pub fn keeps_running_app(prohibited: bool, executable_path: &Option<String>) -> (b: bool)
    ensures
        b == (!prohibited && !(match executable_path {
            Some(p) => contains_text(p@, "/XPCServices/"@),
            None => false,
        })),
{
    if prohibited {
        return false;
    }
    match executable_path {
        Some(p) => !text_contains(p.as_str(), "/XPCServices/"),
        None => true,
    }
}

/// How an app is named in messages: its name, else its bundle id, else
/// `pid <pid>`.
pub open spec fn spec_display_name(app: RunningApp) -> Seq<char> {
    match app.app_name {
        Some(n) => n@,
        None => match app.bundle_id {
            Some(b) => b@,
            None => "pid "@ + signed_decimal(app.pid as int),
        },
    }
}

pub fn display_name(app: &RunningApp) -> (s: String)
    ensures
        s@ == spec_display_name(*app),
{
    match &app.app_name {
        Some(n) => owned(n.as_str()),
        None => match &app.bundle_id {
            Some(b) => owned(b.as_str()),
            None => {
                let mut s = owned("pid ");
                let digits = signed_decimal_chars(app.pid as i64);
                push_chars(&mut s, digits.as_slice());
                s
            },
        },
    }
}

// ---------------------------------------------------------------------
// Menu items
// ---------------------------------------------------------------------

// `AXMenuItemModifiers` from `HIServices/AXAttributeConstants.h`:
// Shift = 1 << 0, Option = 1 << 1, Control = 1 << 2, NoCommand = 1 << 3.
// `1 << 4` is undocumented but empirically fn / Globe: macOS 14+ reports
// fn+F (Enter Full Screen) with mask `0x18`.
pub const AX_MOD_SHIFT: i64 = 1;
pub const AX_MOD_OPTION: i64 = 2;
pub const AX_MOD_CONTROL: i64 = 4;
pub const AX_MOD_NO_COMMAND: i64 = 8;
pub const AX_MOD_FN: i64 = 16;

/// The modifiers of an `AXMenuItemCmdModifiers` mask. Command is implicit
/// for menu shortcuts and held unless the no-command bit is set.
pub open spec fn spec_decode_ax_modifiers(mask: i64) -> Modifiers {
    Modifiers {
        cmd: mask & AX_MOD_NO_COMMAND == 0,
        opt: mask & AX_MOD_OPTION != 0,
        ctrl: mask & AX_MOD_CONTROL != 0,
        shift: mask & AX_MOD_SHIFT != 0,
        fn_key: mask & AX_MOD_FN != 0,
    }
}

/// Decode an `AXMenuItemCmdModifiers` integer.
pub fn decode_ax_modifiers(mask: i64) -> (m: Modifiers)
    ensures
        m == spec_decode_ax_modifiers(mask),
{
    Modifiers {
        cmd: mask & AX_MOD_NO_COMMAND == 0,
        opt: mask & AX_MOD_OPTION != 0,
        ctrl: mask & AX_MOD_CONTROL != 0,
        shift: mask & AX_MOD_SHIFT != 0,
        fn_key: mask & AX_MOD_FN != 0,
    }
}

/// What a menu item's `AXMenuItemCmdModifiers` mask means, bit by bit
/// (`HIServices/AXAttributeConstants.h`): `1 << 0` is Shift, `1 << 1`
/// Option, `1 << 2` Control, `1 << 3` means no Command (Command is held
/// otherwise), and `1 << 4` is fn. Each modifier depends on its own bit
/// alone: Redo's mask `1` with the key `Z` is ⇧⌘Z, a mask of `2` is ⌥⌘.
/// Stated for the key equivalent read from a menu item with a key.
pub proof fn law_ax_mask_bits(mask: i64, ch: Seq<char>)
    requires
        ch.len() > 0,
    ensures
        spec_decode_ax_modifiers(mask).shift == (mask & 1 != 0),
        spec_decode_ax_modifiers(mask).opt == (mask & 2 != 0),
        spec_decode_ax_modifiers(mask).ctrl == (mask & 4 != 0),
        spec_decode_ax_modifiers(mask).cmd == (mask & 8 == 0),
        spec_decode_ax_modifiers(mask).fn_key == (mask & 16 != 0),
        spec_key_equivalent(Ok(ch), Ok(mask)) == Ok::<Option<KeyCombo>, AxFailure>(
            Some(
                KeyCombo {
                    modifiers: Modifiers {
                        shift: mask & 1 != 0,
                        opt: mask & 2 != 0,
                        ctrl: mask & 4 != 0,
                        cmd: mask & 8 == 0,
                        fn_key: mask & 16 != 0,
                    },
                    key: spec_key_from_char(ch[0]),
                },
            ),
        ),
{
}

/// Why an Accessibility query failed.
#[derive(Debug, Clone, Copy, PartialEq, Eq, Structural)]
pub enum AxFailure {
    /// `kAXErrorCannotComplete`; `timed_out` says whether it took long
    /// enough to be the messaging timeout expiring rather than an
    /// immediate refusal.
    CannotComplete { timed_out: bool },
    /// Any other error, such as the attribute being absent.
    Other,
}

/// The key equivalent of a menu item, from its `AXMenuItemCmdChar` and
/// `AXMenuItemCmdModifiers` queries: an absent or empty character is no
/// key equivalent, which is the common case; an absent mask is `0`; any
/// other failure is passed on. The key is the first character.
pub open spec fn spec_key_equivalent(cmd_char: Result<Seq<char>, AxFailure>, mask: Result<i64, AxFailure>) -> Result<Option<KeyCombo>, AxFailure> {
    match cmd_char {
        Err(AxFailure::Other) => Ok(None),
        Err(e) => Err(e),
        Ok(ch) => if ch.len() == 0 {
            Ok(None)
        } else {
            match mask {
                Ok(m) => Ok(Some(KeyCombo { modifiers: spec_decode_ax_modifiers(m), key: spec_key_from_char(ch[0]) })),
                Err(AxFailure::Other) => Ok(Some(KeyCombo { modifiers: spec_decode_ax_modifiers(0), key: spec_key_from_char(ch[0]) })),
                Err(e) => Err(e),
            }
        },
    }
}

pub open spec fn str_result(r: Result<String, AxFailure>) -> Result<Seq<char>, AxFailure> {
    match r {
        Ok(s) => Ok(s@),
        Err(e) => Err(e),
    }
}

/// Decide a menu item's key equivalent from what its queries returned.
pub fn key_equivalent(cmd_char: Result<String, AxFailure>, mask: Result<i64, AxFailure>) -> (r: Result<Option<KeyCombo>, AxFailure>)
    ensures
        r == spec_key_equivalent(str_result(cmd_char), mask),
{
    let ch = match cmd_char {
        Err(AxFailure::Other) => {
            return Ok(None);
        },
        Err(e) => {
            return Err(e);
        },
        Ok(ch) => ch,
    };
    let cs = chars_of(ch.as_str());
    if cs.len() == 0 {
        return Ok(None);
    }
    let m = match mask {
        Ok(m) => m,
        Err(AxFailure::Other) => 0,
        Err(e) => {
            return Err(e);
        },
    };
    Ok(Some(KeyCombo { modifiers: decode_ax_modifiers(m), key: Key::from_char(cs[0]) }))
}

/// Whether a failed query stops the walk: the app is not answering in
/// time, and every further query would cost another full timeout.
pub fn stalls(failure: AxFailure) -> (b: bool)
    ensures
        b == (failure matches AxFailure::CannotComplete { timed_out } && timed_out),
{
    match failure {
        AxFailure::CannotComplete { timed_out } => timed_out,
        AxFailure::Other => false,
    }
}

/// Which menu bar of an app a menu item was found in.
#[derive(Debug, Clone, Copy, PartialEq, Eq, Structural)]
pub enum MenuBar {
    /// The main menu bar, visible while the app is frontmost.
    Main,
    /// The status-bar (`NSStatusItem`) menus, `AXExtrasMenuBar`.
    Extras,
}

/// The title of the Apple menu as the Accessibility API reports it.
pub const APPLE_MENU_TITLE: &'static str = "Apple";

/// Where a menu item's binding comes from: an item of a status-bar menu
/// works as a global hotkey; an item under the Apple menu is shown by
/// every app; anything else belongs to the app's own menus.
pub open spec fn item_source_matches(s: BindingSource, app: RunningApp, bar: MenuBar, path: Seq<String>) -> bool {
    let bundle = match app.bundle_id {
        Some(b) => b@,
        None => Seq::<char>::empty(),
    };
    match bar {
        MenuBar::Extras => s matches BindingSource::StatusMenuItem { bundle_id, app_name, menu_path }
            && bundle_id@ == bundle && opt_view(app_name) == opt_view(app.app_name) && menu_path@ == path,
        MenuBar::Main => if path.len() > 0 && path[0]@ == APPLE_MENU_TITLE@ {
            s matches BindingSource::AppleMenuItem { menu_path } && menu_path@ == path
        } else {
            s matches BindingSource::AppMenuItem { bundle_id, app_name, menu_path } && bundle_id@ == bundle
                && opt_view(app_name) == opt_view(app.app_name) && menu_path@ == path
        },
    }
}

fn copy_opt(s: &Option<String>) -> (r: Option<String>)
    ensures
        opt_view(r) == opt_view(*s),
{
    match s {
        Some(t) => Some(owned(t.as_str())),
        None => None,
    }
}

/// The binding of a menu item with a key equivalent, found in `bar` at
/// `path` (titles of the enclosing menus, top level first, then the
/// item's own when it has one).
pub fn menu_item_binding(app: &RunningApp, bar: MenuBar, path: Vec<String>, title: &str, combo: KeyCombo) -> (b: Binding)
    ensures
        b.combo == combo,
        item_source_matches(b.source, *app, bar, path@),
        b.label@ == title@,
        b.enabled,
{
    let bundle = match &app.bundle_id {
        Some(b) => owned(b.as_str()),
        None => String::new(),
    };
    let apple = path.len() > 0 && crate::text::str_eq(path[0].as_str(), APPLE_MENU_TITLE);
    let source = match bar {
        MenuBar::Extras => BindingSource::StatusMenuItem { bundle_id: bundle, app_name: copy_opt(&app.app_name), menu_path: path },
        MenuBar::Main => if apple {
            BindingSource::AppleMenuItem { menu_path: path }
        } else {
            BindingSource::AppMenuItem { bundle_id: bundle, app_name: copy_opt(&app.app_name), menu_path: path }
        },
    };
    Binding { combo, source, label: owned(title), enabled: true }
}

/// The path below a menu item: the enclosing path, plus the item's title
/// when it has one.
pub fn extend_path(path: &Vec<String>, title: &str) -> (r: Vec<String>)
    ensures
        r@.len() == path@.len() + (if title@.len() == 0 { 0int } else { 1int }),
        forall|i: int| 0 <= i < path@.len() ==> (#[trigger] r@[i])@ == path@[i]@,
        title@.len() > 0 ==> r@[path@.len() as int]@ == title@,
{
    let mut r: Vec<String> = Vec::new();
    let mut i: usize = 0;
    while i < path.len()
        invariant
            i <= path@.len(),
            r@.len() == i,
            forall|q: int| 0 <= q < i ==> (#[trigger] r@[q])@ == path@[q]@,
        decreases path@.len() - i,
    {
        r.push(owned(path[i].as_str()));
        i = i + 1;
    }
    if !title.is_empty() {
        r.push(owned(title));
    }
    r
}

// ---------------------------------------------------------------------
// Walks
// ---------------------------------------------------------------------

/// Everything one walk of an app produced.
#[derive(Debug, Default)]
pub struct WalkResult {
    pub bindings: Vec<Binding>,
    /// The app stopped answering before the walk finished, so `bindings`
    /// is incomplete, possibly empty.
    pub timed_out: bool,
}

/// Pick the better of two walks of the same app. A finished second walk
/// wins outright. If the app timed out again, keep whichever attempt saw
/// more, the second on a tie, and report the app as unresponsive.
pub fn resolve_retry(first: WalkResult, second: WalkResult) -> (r: (WalkResult, bool))
    ensures
        !second.timed_out ==> r.0 == second && !r.1,
        second.timed_out ==> r.1 && r.0 == (if second.bindings@.len() >= first.bindings@.len() {
            second
        } else {
            first
        }),
{
    if !second.timed_out {
        return (second, false);
    }
    let best = if second.bindings.len() >= first.bindings.len() {
        second
    } else {
        first
    };
    (best, true)
}

/// Whether an Apple-menu binding with this combo and label occurs in `bs`.
pub open spec fn has_apple_item(bs: Seq<Binding>, combo: KeyCombo, label: Seq<char>) -> bool {
    exists|i: int|
        0 <= i < bs.len() && (#[trigger] bs[i]).source is AppleMenuItem && bs[i].combo == combo && bs[i].label@
            == label
}

/// Every app shows the same Apple menu, so its items come back once per
/// running app: the first of each `(combo, label)` is kept and
/// everything else passes through.
pub open spec fn spec_dedupe_apple_menu(bs: Seq<Binding>) -> Seq<Binding>
    decreases bs.len(),
{
    if bs.len() == 0 {
        Seq::empty()
    } else {
        let prev = spec_dedupe_apple_menu(bs.drop_last());
        let b = bs.last();
        if b.source is AppleMenuItem && has_apple_item(bs.drop_last(), b.combo, b.label@) {
            prev
        } else {
            prev.push(b)
        }
    }
}

proof fn lemma_dedupe_keeps_first(bs: Seq<Binding>, combo: KeyCombo, label: Seq<char>)
    ensures
        has_apple_item(spec_dedupe_apple_menu(bs), combo, label) == has_apple_item(bs, combo, label),
    decreases bs.len(),
{
    if bs.len() > 0 {
        let prev = bs.drop_last();
        lemma_dedupe_keeps_first(prev, combo, label);
        let d = spec_dedupe_apple_menu(prev);
        if has_apple_item(prev, combo, label) {
            let i = choose|i: int|
                0 <= i < prev.len() && (#[trigger] prev[i]).source is AppleMenuItem && prev[i].combo == combo
                    && prev[i].label@ == label;
            assert(bs[i] == prev[i]);
            let j = choose|j: int|
                0 <= j < d.len() && (#[trigger] d[j]).source is AppleMenuItem && d[j].combo == combo && d[j].label@
                    == label;
            assert(spec_dedupe_apple_menu(bs).len() >= d.len());
            assert(spec_dedupe_apple_menu(bs)[j] == d[j]);
        }
        if has_apple_item(bs, combo, label) && !has_apple_item(prev, combo, label) {
            let i = choose|i: int|
                0 <= i < bs.len() && (#[trigger] bs[i]).source is AppleMenuItem && bs[i].combo == combo && bs[i].label@
                    == label;
            if i < prev.len() {
                assert(prev[i] == bs[i]);
            }
            assert(spec_dedupe_apple_menu(bs)[d.len() as int] == bs.last());
        }
        if has_apple_item(spec_dedupe_apple_menu(bs), combo, label) && !has_apple_item(d, combo, label) {
            let j = choose|j: int|
                0 <= j < spec_dedupe_apple_menu(bs).len() && (#[trigger] spec_dedupe_apple_menu(bs)[j]).source is AppleMenuItem
                    && spec_dedupe_apple_menu(bs)[j].combo == combo && spec_dedupe_apple_menu(bs)[j].label@ == label;
            if j < d.len() {
                assert(spec_dedupe_apple_menu(bs)[j] == d[j]);
            } else {
                assert(bs[bs.len() - 1] == bs.last());
            }
        }
    }
}

fn is_apple_duplicate(kept: &Vec<Binding>, b: &Binding, Ghost(seen): Ghost<Seq<Binding>>) -> (dup: bool)
    requires
        has_apple_item(kept@, b.combo, b.label@) == has_apple_item(seen, b.combo, b.label@),
    ensures
        dup == (b.source is AppleMenuItem && has_apple_item(seen, b.combo, b.label@)),
{
    let apple = match &b.source {
        BindingSource::AppleMenuItem { .. } => true,
        _ => false,
    };
    if !apple {
        return false;
    }
    let label = chars_of(b.label.as_str());
    let mut i: usize = 0;
    while i < kept.len()
        invariant
            i <= kept@.len(),
            label@ == b.label@,
            b.source is AppleMenuItem,
            has_apple_item(kept@, b.combo, b.label@) == has_apple_item(seen, b.combo, b.label@),
            forall|q: int|
                0 <= q < i ==> !((#[trigger] kept@[q]).source is AppleMenuItem && kept@[q].combo == b.combo
                    && kept@[q].label@ == b.label@),
        decreases kept@.len() - i,
    {
        let k = &kept[i];
        let k_apple = match &k.source {
            BindingSource::AppleMenuItem { .. } => true,
            _ => false,
        };
        if k_apple && k.combo == b.combo {
            let other = chars_of(k.label.as_str());
            if crate::text::chars_eq(other.as_slice(), label.as_slice()) {
                assert(kept@[i as int].label@ == b.label@);
                assert(has_apple_item(kept@, b.combo, b.label@));
                return true;
            }
        }
        i = i + 1;
    }
    false
}


/// Every Apple-menu item comes out once per `(combo, label)`: no two
/// kept Apple-menu bindings share both, each pair the walks saw is kept,
/// and every other binding passes through unchanged and in order.
pub proof fn law_apple_menu_items_once(bs: Seq<Binding>)
    ensures
        forall|i: int, j: int|
            0 <= i < j < spec_dedupe_apple_menu(bs).len() && (#[trigger] spec_dedupe_apple_menu(bs)[i]).source is AppleMenuItem
                && (#[trigger] spec_dedupe_apple_menu(bs)[j]).source is AppleMenuItem ==> !(
            spec_dedupe_apple_menu(bs)[i].combo == spec_dedupe_apple_menu(bs)[j].combo
                && spec_dedupe_apple_menu(bs)[i].label@ == spec_dedupe_apple_menu(bs)[j].label@),
        forall|combo: KeyCombo, label: Seq<char>|
            #[trigger] has_apple_item(spec_dedupe_apple_menu(bs), combo, label) == has_apple_item(bs, combo, label),
        spec_dedupe_apple_menu(bs).filter(|b: Binding| !(b.source is AppleMenuItem)) == bs.filter(
            |b: Binding| !(b.source is AppleMenuItem),
        ),
    decreases bs.len(),
{
    reveal(Seq::filter);
    assert forall|combo: KeyCombo, label: Seq<char>|
        #[trigger] has_apple_item(spec_dedupe_apple_menu(bs), combo, label) == has_apple_item(bs, combo, label) by {
        lemma_dedupe_keeps_first(bs, combo, label);
    }
    if bs.len() > 0 {
        let prev = bs.drop_last();
        law_apple_menu_items_once(prev);
        let d = spec_dedupe_apple_menu(prev);
        let out = spec_dedupe_apple_menu(bs);
        let b = bs.last();
        let pred = |x: Binding| !(x.source is AppleMenuItem);
        if b.source is AppleMenuItem && has_apple_item(prev, b.combo, b.label@) {
            assert(out == d);
            assert(bs.filter(pred) == prev.filter(pred));
        } else {
            assert(out == d.push(b));
            assert(out.drop_last() =~= d);
            assert(out.last() == b);
            assert forall|i: int, j: int|
                0 <= i < j < out.len() && (#[trigger] out[i]).source is AppleMenuItem && (#[trigger] out[j]).source is AppleMenuItem
                    implies !(out[i].combo == out[j].combo && out[i].label@ == out[j].label@) by {
                if j == out.len() - 1 {
                    assert(out[i] == d[i]);
                    if out[i].combo == out[j].combo && out[i].label@ == out[j].label@ {
                        lemma_dedupe_keeps_first(prev, b.combo, b.label@);
                        assert(has_apple_item(d, b.combo, b.label@));
                    }
                } else {
                    assert(out[i] == d[i] && out[j] == d[j]);
                }
            }
        }
    }
}

/// Keep the first Apple-menu binding of each `(combo, label)`; every
/// other binding passes through, in order.
pub fn dedupe_apple_menu(bindings: Vec<Binding>) -> (out: Vec<Binding>)
    ensures
        out@ == spec_dedupe_apple_menu(bindings@),
{
    let ghost all = bindings@;
    let total = bindings.len();
    let mut rest = bindings;
    let mut out: Vec<Binding> = Vec::new();
    let mut k: usize = 0;
    while rest.len() > 0
        invariant
            k <= all.len(),
            all.len() == total,
            rest@ == all.skip(k as int),
            out@ == spec_dedupe_apple_menu(all.take(k as int)),
        decreases rest@.len(),
    {
        let b = rest.remove(0);
        proof {
            assert(all.take(k + 1).drop_last() =~= all.take(k as int));
            assert(all.take(k + 1).last() == b);
            lemma_dedupe_keeps_first(all.take(k as int), b.combo, b.label@);
        }
        let dup = is_apple_duplicate(&out, &b, Ghost(all.take(k as int)));
        if !dup {
            out.push(b);
        }
        k = k + 1;
        assert(rest@ =~= all.skip(k as int));
    }
    assert(all.take(k as int) =~= all);
    out
}

/// The bindings of all walks, in walk order.
pub open spec fn walks_bindings(ws: Seq<WalkResult>) -> Seq<Binding>
    decreases ws.len(),
{
    if ws.len() == 0 {
        Seq::empty()
    } else {
        walks_bindings(ws.drop_last()) + ws.last().bindings@
    }
}

/// The source's bindings from the walks of every app: all of them, in
/// order, with the Apple menu's items once.
pub fn collect_walks(walks: Vec<WalkResult>) -> (out: Vec<Binding>)
    ensures
        out@ == spec_dedupe_apple_menu(walks_bindings(walks@)),
{
    let ghost all = walks@;
    let total = walks.len();
    let mut rest = walks;
    let mut flat: Vec<Binding> = Vec::new();
    let mut k: usize = 0;
    while rest.len() > 0
        invariant
            k <= all.len(),
            all.len() == total,
            rest@ == all.skip(k as int),
            flat@ == walks_bindings(all.take(k as int)),
        decreases rest@.len(),
    {
        let mut w = rest.remove(0);
        proof {
            assert(all.take(k + 1).drop_last() =~= all.take(k as int));
            assert(all.take(k + 1).last() == w);
        }
        flat.append(&mut w.bindings);
        k = k + 1;
        assert(rest@ =~= all.skip(k as int));
    }
    assert(all.take(k as int) =~= all);
    dedupe_apple_menu(flat)
}

/// The positions of the walks that timed out, in order: the apps to ask
/// again with a longer timeout.
pub fn timed_out_walks(walks: &Vec<WalkResult>) -> (r: Vec<usize>)
    ensures
        forall|i: int| 0 <= i < r@.len() ==> (#[trigger] r@[i]) < walks@.len() && walks@[r@[i] as int].timed_out,
        forall|i: int, j: int| 0 <= i < j < r@.len() ==> (#[trigger] r@[i]) < (#[trigger] r@[j]),
        forall|k: int| 0 <= k < walks@.len() && (#[trigger] walks@[k]).timed_out ==> r@.contains(k as usize),
{
    let mut r: Vec<usize> = Vec::new();
    let mut i: usize = 0;
    while i < walks.len()
        invariant
            i <= walks@.len(),
            forall|q: int| 0 <= q < r@.len() ==> (#[trigger] r@[q]) < i && walks@[r@[q] as int].timed_out,
            forall|p: int, q: int| 0 <= p < q < r@.len() ==> (#[trigger] r@[p]) < (#[trigger] r@[q]),
            forall|k: int| 0 <= k < i && (#[trigger] walks@[k]).timed_out ==> r@.contains(k as usize),
        decreases walks@.len() - i,
    {
        if walks[i].timed_out {
            let ghost before = r@;
            r.push(i);
            assert forall|k: int| 0 <= k < i + 1 && (#[trigger] walks@[k]).timed_out implies r@.contains(k as usize) by {
                if k < i {
                    let q = choose|q: int| 0 <= q < before.len() && before[q] == k as usize;
                    assert(r@[q] == k as usize);
                } else {
                    assert(r@[before.len() as int] == i);
                }
            }
        }
        i = i + 1;
    }
    r
}

} // verus!
