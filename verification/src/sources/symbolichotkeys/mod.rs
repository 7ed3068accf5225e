//! Reads `com.apple.symbolichotkeys.plist` and merges it with macOS's
//! default table and, when available, the live system table.
//!
//! macOS defaults are not stored in the plist, which only records what
//! the user changed. Without the live table the result is the built-in
//! defaults overlaid by the plist; with it, the live table is the truth
//! for combos and enabled state and the plist and defaults only supply
//! ids and labels.

pub mod known;
pub mod laws;
pub mod live;
pub mod overrides;

pub use live::{LiveHotkey, NO_KEY};
pub use crate::sources::plist::PlistRead;
pub use overrides::Override;

use vstd::prelude::*;

use crate::binding::{Binding, BindingSource};
use crate::combo::KeyCombo;
use crate::error::{ScanError, ScanWarning};
use crate::order::{lemma_first_after_is, sort_spec};
use crate::sources::SourceScan;
use crate::text::{decimal, decimal_chars, owned, push_chars, push_str};
use known::{
    builtin_by_combo, builtin_for, builtin_table, dispatch_for, known_by_id, known_hotkeys,
    known_table, label_for, spec_dispatch_for, spec_label_for, KnownHotkey,
};
use live::spec_live_combo;
use overrides::{
    error_path, find_override, override_for, parse_overrides, problem_of, spec_parse_overrides,
    PlistProblem,
};

verus! {

/// Label of a live-table entry nothing could name.
pub const UNLABELLED_SYSTEM_SHORTCUT: &'static str = "macOS shortcut";

/// Reads `com.apple.symbolichotkeys.plist` and merges its contents with
/// macOS's hardcoded default table.
#[derive(Debug, Clone)]
pub struct SymbolicHotkeys {
    plist_path: String,
    live: LiveTable,
}

/// Where the effective system table comes from.
#[derive(Debug, Clone)]
pub enum LiveTable {
    /// Only the plist plus the built-in defaults table. Deterministic; the
    /// fallback when the system table cannot be read.
    PlistOnly,
    /// Ask macOS via `CopySymbolicHotKeys()`.
    System,
    /// A captured table, for tests and for reproducing another machine.
    Snapshot(Vec<LiveHotkey>),
}

/// A system binding as the contracts describe it.
pub struct SystemEntry {
    pub combo: KeyCombo,
    pub id: Option<u32>,
    pub label: Seq<char>,
    pub enabled: bool,
}

/// `b` is the system binding `e` describes, with the dispatch macOS uses
/// for its id and combo.
pub open spec fn binding_matches(b: Binding, e: SystemEntry) -> bool {
    &&& b.combo == e.combo
    &&& b.source == BindingSource::SystemSymbolicHotkey {
        id: e.id,
        dispatch: spec_dispatch_for(e.id, e.combo),
    }
    &&& b.label@ == e.label
    &&& b.enabled == e.enabled
}

pub open spec fn bindings_match(bs: Seq<Binding>, es: Seq<SystemEntry>) -> bool {
    &&& bs.len() == es.len()
    &&& forall|i: int| 0 <= i < bs.len() ==> binding_matches(#[trigger] bs[i], es[i])
}

// ---------------------------------------------------------------------
// The plist and the defaults table
// ---------------------------------------------------------------------

/// Label of an id: the known label, else `Symbolic hotkey #<id>`.
pub open spec fn spec_emit_label(id: u32) -> Seq<char> {
    match spec_label_for(id) {
        Some(l) => l,
        None => "Symbolic hotkey #"@ + decimal(id as nat),
    }
}

/// The combo and enabled state of a default, given what the plist says
/// about its id: a switched-off id keeps any stored combo and is off; a
/// custom combo replaces the default; an id the plist does not mention is
/// in whatever state macOS ships it.
pub open spec fn resolve_default(d: KnownHotkey, default: KeyCombo, o: Option<Override>) -> (KeyCombo, bool) {
    match o {
        Some(Override::Disabled(custom)) => (
            match custom {
                Some(c) => c,
                None => default,
            },
            false,
        ),
        Some(Override::Custom(c)) => (c, true),
        Some(Override::EnabledWithDefault) => (default, true),
        None => (default, d.enabled),
    }
}

/// One `(id, combo, enabled)` per default of the table that has a combo,
/// in table order.
pub open spec fn default_entries(t: Seq<KnownHotkey>, ov: Seq<(u32, Override)>) -> Seq<(u32, KeyCombo, bool)>
    decreases t.len(),
{
    if t.len() == 0 {
        Seq::empty()
    } else {
        let prev = default_entries(t.drop_last(), ov);
        let d = t.last();
        match d.combo {
            Some(dc) => {
                let (c, e) = resolve_default(d, dc, override_for(ov, d.id));
                prev.push((d.id, c, e))
            },
            None => prev,
        }
    }
}

/// Whether the defaults table has a combo for `id`.
pub open spec fn has_default(id: u32) -> bool {
    match known_by_id(known_table(), id) {
        Some(k) => k.combo is Some,
        None => false,
    }
}

/// Plist entries for ids without a default: a custom combo is reported
/// on, a switched-off id with a stored combo is reported off, anything
/// else has no combo to report.
pub open spec fn extra_entries(ov: Seq<(u32, Override)>) -> Seq<(u32, KeyCombo, bool)>
    decreases ov.len(),
{
    if ov.len() == 0 {
        Seq::empty()
    } else {
        let prev = extra_entries(ov.drop_last());
        let (id, o) = ov.last();
        if has_default(id) {
            prev
        } else {
            match o {
                Override::Custom(c) => prev.push((id, c, true)),
                Override::Disabled(Some(c)) => prev.push((id, c, false)),
                _ => prev,
            }
        }
    }
}

/// Triples ordered by id.
pub open spec fn id_ord() -> spec_fn((u32, KeyCombo, bool), (u32, KeyCombo, bool)) -> int {
    |a: (u32, KeyCombo, bool), b: (u32, KeyCombo, bool)| if a.0 < b.0 {
        -1int
    } else if a.0 > b.0 {
        1int
    } else {
        0int
    }
}

pub open spec fn emit_entry(t: (u32, KeyCombo, bool)) -> SystemEntry {
    SystemEntry { combo: t.1, id: Some(t.0), label: spec_emit_label(t.0), enabled: t.2 }
}

/// The bindings the plist and the defaults table give, ordered by id.
pub open spec fn spec_plist_entries(ov: Seq<(u32, Override)>) -> Seq<SystemEntry> {
    sort_spec(default_entries(known_table(), ov) + extra_entries(ov), id_ord()).map_values(
        |t: (u32, KeyCombo, bool)| emit_entry(t),
    )
}

/// The binding for symbolic hotkey `id`.
pub fn emit(id: u32, combo: KeyCombo, enabled: bool) -> (b: Binding)
    ensures
        binding_matches(b, emit_entry((id, combo, enabled))),
{
    let label = match label_for(id) {
        Some(l) => owned(l),
        None => {
            let mut s = owned("Symbolic hotkey #");
            let digits = decimal_chars(id as u64);
            push_chars(&mut s, digits.as_slice());
            s
        },
    };
    Binding {
        combo,
        source: BindingSource::SystemSymbolicHotkey {
            id: Some(id),
            dispatch: dispatch_for(Some(id), &combo),
        },
        label,
        enabled,
    }
}

fn has_default_id(table: &Vec<KnownHotkey>, id: u32) -> (b: bool)
    requires
        table@ == known_table(),
    ensures
        b == has_default(id),
{
    let mut i: usize = 0;
    assert(table@.skip(0) =~= table@);
    while i < table.len()
        invariant
            i <= table@.len(),
            table@ == known_table(),
            known_by_id(table@, id) == known_by_id(table@.skip(i as int), id),
        decreases table@.len() - i,
    {
        assert(table@.skip(i as int).drop_first() =~= table@.skip(i + 1));
        if table[i].id == id {
            return table[i].combo.is_some();
        }
        i = i + 1;
    }
    false
}

/// Sort `(id, combo, enabled)` triples by id, stably.
fn sort_by_id(items: &Vec<(u32, KeyCombo, bool)>) -> (out: Vec<(u32, KeyCombo, bool)>)
    ensures
        out@ == sort_spec(items@, id_ord()),
{
    let mut out: Vec<(u32, KeyCombo, bool)> = Vec::new();
    let mut i: usize = 0;
    while i < items.len()
        invariant
            i <= items@.len(),
            out@ == sort_spec(items@.take(i as int), id_ord()),
        decreases items@.len() - i,
    {
        let x = items[i];
        let mut j: usize = 0;
        while j < out.len() && out[j].0 <= x.0
            invariant
                j <= out@.len(),
                forall|k: int| 0 <= k < j ==> id_ord()(#[trigger] out@[k], x) <= 0,
            decreases out@.len() - j,
        {
            j = j + 1;
        }
        proof {
            lemma_first_after_is(out@, x, id_ord(), j as int);
            assert(items@.take(i + 1).drop_last() =~= items@.take(i as int));
            assert(items@.take(i + 1).last() == x);
        }
        out.insert(j, x);
        i = i + 1;
    }
    assert(items@.take(items@.len() as int) =~= items@);
    out
}

/// Bindings from the plist merged with the defaults table: every default
/// with a combo, overridden as the plist says, plus ids without a default
/// that the plist gives a combo; ordered by id. Switched-off entries are
/// kept with `enabled = false`.
pub fn plist_bindings(ov: &Vec<(u32, Override)>) -> (bs: Vec<Binding>)
    ensures
        bindings_match(bs@, spec_plist_entries(ov@)),
{
    let table = known_hotkeys();
    let mut triples: Vec<(u32, KeyCombo, bool)> = Vec::new();
    let mut i: usize = 0;
    while i < table.len()
        invariant
            table@ == known_table(),
            i <= table@.len(),
            triples@ == default_entries(table@.take(i as int), ov@),
        decreases table@.len() - i,
    {
        let d = table[i];
        assert(table@.take(i + 1).drop_last() =~= table@.take(i as int));
        if let Some(dc) = d.combo {
            let (c, e) = match find_override(ov, d.id) {
                Some(Override::Disabled(custom)) => (
                    match custom {
                        Some(c) => c,
                        None => dc,
                    },
                    false,
                ),
                Some(Override::Custom(c)) => (c, true),
                Some(Override::EnabledWithDefault) => (dc, true),
                None => (dc, d.enabled),
            };
            triples.push((d.id, c, e));
        }
        i = i + 1;
    }
    assert(table@.take(table@.len() as int) =~= table@);
    let ghost defaults = triples@;
    let mut k: usize = 0;
    while k < ov.len()
        invariant
            table@ == known_table(),
            k <= ov@.len(),
            defaults == default_entries(known_table(), ov@),
            triples@ == defaults + extra_entries(ov@.take(k as int)),
        decreases ov@.len() - k,
    {
        assert(ov@.take(k + 1).drop_last() =~= ov@.take(k as int));
        let (id, o) = ov[k];
        if !has_default_id(&table, id) {
            match o {
                Override::Custom(c) => {
                    triples.push((id, c, true));
                },
                Override::Disabled(Some(c)) => {
                    triples.push((id, c, false));
                },
                _ => {},
            }
        }
        k = k + 1;
    }
    assert(ov@.take(ov@.len() as int) =~= ov@);
    let sorted = sort_by_id(&triples);
    let mut bs: Vec<Binding> = Vec::new();
    let mut m: usize = 0;
    let ghost want = spec_plist_entries(ov@);
    while m < sorted.len()
        invariant
            m <= sorted@.len(),
            want == sorted@.map_values(|t: (u32, KeyCombo, bool)| emit_entry(t)),
            bs@.len() == m,
            forall|q: int| 0 <= q < m ==> binding_matches(#[trigger] bs@[q], want[q]),
        decreases sorted@.len() - m,
    {
        let (id, combo, enabled) = sorted[m];
        let b = emit(id, combo, enabled);
        bs.push(b);
        m = m + 1;
    }
    bs
}

// ---------------------------------------------------------------------
// The live table
// ---------------------------------------------------------------------

/// The combo the plist stores for an entry, if it stores one.
pub open spec fn stored_combo(o: Override) -> Option<KeyCombo> {
    match o {
        Override::Custom(c) => Some(c),
        Override::Disabled(Some(c)) => Some(c),
        _ => None,
    }
}

/// Whether the plist gives `id` a combo of its own, so that the default
/// combo no longer belongs to it.
pub open spec fn moved(ov: Seq<(u32, Override)>, id: u32) -> bool {
    exists|k: int| 0 <= k < ov.len() && (#[trigger] ov[k]).0 == id && stored_combo(ov[k].1) is Some
}

/// `(combo, id)` for every default with a combo whose id the plist has
/// not given a combo of its own, in table order.
pub open spec fn table_pairs(t: Seq<KnownHotkey>, ov: Seq<(u32, Override)>) -> Seq<(KeyCombo, u32)>
    decreases t.len(),
{
    if t.len() == 0 {
        Seq::empty()
    } else {
        let prev = table_pairs(t.drop_last(), ov);
        match t.last().combo {
            Some(c) => if moved(ov, t.last().id) {
                prev
            } else {
                prev.push((c, t.last().id))
            },
            None => prev,
        }
    }
}

/// `(combo, id)` for every plist entry that stores a combo, in plist order.
pub open spec fn override_pairs(ov: Seq<(u32, Override)>) -> Seq<(KeyCombo, u32)>
    decreases ov.len(),
{
    if ov.len() == 0 {
        Seq::empty()
    } else {
        let prev = override_pairs(ov.drop_last());
        match ov.last().1 {
            Override::Custom(c) => prev.push((c, ov.last().0)),
            Override::Disabled(Some(c)) => prev.push((c, ov.last().0)),
            _ => prev,
        }
    }
}

/// The last id paired with `combo`.
pub open spec fn lookup_last(pairs: Seq<(KeyCombo, u32)>, combo: KeyCombo) -> Option<u32>
    decreases pairs.len(),
{
    if pairs.len() == 0 {
        None
    } else if pairs.last().0 == combo {
        Some(pairs.last().1)
    } else {
        lookup_last(pairs.drop_last(), combo)
    }
}

/// The id a combo belongs to: the user's own combos over the defaults,
/// and a default combo only while its id keeps it (if Spotlight was moved
/// to ⌥Space, ⌥Space is 64 and ⌘Space no longer is).
pub open spec fn spec_id_for(ov: Seq<(u32, Override)>, combo: KeyCombo) -> Option<u32> {
    lookup_last(table_pairs(known_table(), ov) + override_pairs(ov), combo)
}

/// Label of a live entry: the id's known label, else the label of a
/// builtin with that combo, else `Symbolic hotkey #<id>`, else
/// `macOS shortcut`.
pub open spec fn spec_live_label(id: Option<u32>, combo: KeyCombo) -> Seq<char> {
    match id {
        Some(i) if spec_label_for(i) is Some => spec_label_for(i)->0,
        _ => match builtin_by_combo(builtin_table(), combo) {
            Some(b) => b.label@,
            None => match id {
                Some(i) => "Symbolic hotkey #"@ + decimal(i as nat),
                None => UNLABELLED_SYSTEM_SHORTCUT@,
            },
        },
    }
}

/// One entry per distinct `(combo, enabled)` of the rows that have a key,
/// in order of first appearance.
pub open spec fn spec_live_entries(rows: Seq<LiveHotkey>, ov: Seq<(u32, Override)>) -> Seq<SystemEntry>
    decreases rows.len(),
{
    if rows.len() == 0 {
        Seq::empty()
    } else {
        let prev = spec_live_entries(rows.drop_last(), ov);
        let row = rows.last();
        match spec_live_combo(row) {
            None => prev,
            Some(c) => if exists|i: int|
                0 <= i < prev.len() && (#[trigger] prev[i]).combo == c && prev[i].enabled
                    == row.enabled {
                prev
            } else {
                let id = spec_id_for(ov, c);
                prev.push(
                    SystemEntry { combo: c, id, label: spec_live_label(id, c), enabled: row.enabled },
                )
            },
        }
    }
}

fn is_moved(ov: &Vec<(u32, Override)>, id: u32) -> (b: bool)
    ensures
        b == moved(ov@, id),
{
    let mut k: usize = 0;
    while k < ov.len()
        invariant
            k <= ov@.len(),
            forall|q: int| 0 <= q < k ==> !((#[trigger] ov@[q]).0 == id && stored_combo(ov@[q].1) is Some),
        decreases ov@.len() - k,
    {
        let (i, o) = ov[k];
        if i == id {
            match o {
                Override::Custom(_) => return true,
                Override::Disabled(Some(_)) => return true,
                _ => {},
            }
        }
        k = k + 1;
    }
    false
}

fn id_pairs(table: &Vec<KnownHotkey>, ov: &Vec<(u32, Override)>) -> (pairs: Vec<(KeyCombo, u32)>)
    requires
        table@ == known_table(),
    ensures
        pairs@ == table_pairs(known_table(), ov@) + override_pairs(ov@),
{
    let mut pairs: Vec<(KeyCombo, u32)> = Vec::new();
    let mut i: usize = 0;
    while i < table.len()
        invariant
            i <= table@.len(),
            pairs@ == table_pairs(table@.take(i as int), ov@),
        decreases table@.len() - i,
    {
        assert(table@.take(i + 1).drop_last() =~= table@.take(i as int));
        if let Some(c) = table[i].combo {
            if !is_moved(ov, table[i].id) {
                pairs.push((c, table[i].id));
            }
        }
        i = i + 1;
    }
    assert(table@.take(table@.len() as int) =~= table@);
    let ghost base = pairs@;
    let mut k: usize = 0;
    while k < ov.len()
        invariant
            k <= ov@.len(),
            base == table_pairs(known_table(), ov@),
            pairs@ == base + override_pairs(ov@.take(k as int)),
        decreases ov@.len() - k,
    {
        assert(ov@.take(k + 1).drop_last() =~= ov@.take(k as int));
        let (id, o) = ov[k];
        match o {
            Override::Custom(c) => pairs.push((c, id)),
            Override::Disabled(Some(c)) => pairs.push((c, id)),
            _ => {},
        }
        k = k + 1;
    }
    assert(ov@.take(ov@.len() as int) =~= ov@);
    pairs
}

fn find_last(pairs: &Vec<(KeyCombo, u32)>, combo: &KeyCombo) -> (r: Option<u32>)
    ensures
        r == lookup_last(pairs@, *combo),
{
    let mut i: usize = pairs.len();
    assert(pairs@.take(i as int) =~= pairs@);
    while i > 0
        invariant
            i <= pairs@.len(),
            lookup_last(pairs@, *combo) == lookup_last(pairs@.take(i as int), *combo),
        decreases i,
    {
        assert(pairs@.take(i as int).drop_last() =~= pairs@.take(i - 1));
        if pairs[i - 1].0 == *combo {
            return Some(pairs[i - 1].1);
        }
        i = i - 1;
    }
    None
}

fn live_label(id: Option<u32>, combo: &KeyCombo) -> (s: String)
    ensures
        s@ == spec_live_label(id, *combo),
{
    if let Some(i) = id {
        if let Some(l) = label_for(i) {
            return owned(l);
        }
    }
    if let Some(b) = builtin_for(combo) {
        return owned(b.label);
    }
    match id {
        Some(i) => {
            let mut s = owned("Symbolic hotkey #");
            let digits = decimal_chars(i as u64);
            push_chars(&mut s, digits.as_slice());
            s
        },
        None => owned(UNLABELLED_SYSTEM_SHORTCUT),
    }
}

/// Bindings from the live table, labelled through the plist and the
/// defaults table wherever a combo can be tied to an id. Rows without a
/// key are skipped and a row repeating an earlier `(combo, enabled)` is
/// dropped.
pub fn merge_live(rows: &Vec<LiveHotkey>, ov: &Vec<(u32, Override)>) -> (bs: Vec<Binding>)
    ensures
        bindings_match(bs@, spec_live_entries(rows@, ov@)),
{
    let table = known_hotkeys();
    let pairs = id_pairs(&table, ov);
    let mut bs: Vec<Binding> = Vec::new();
    let mut i: usize = 0;
    while i < rows.len()
        invariant
            i <= rows@.len(),
            pairs@ == table_pairs(known_table(), ov@) + override_pairs(ov@),
            bindings_match(bs@, spec_live_entries(rows@.take(i as int), ov@)),
        decreases rows@.len() - i,
    {
        let row = rows[i];
        let ghost prev = spec_live_entries(rows@.take(i as int), ov@);
        assert(rows@.take(i + 1).drop_last() =~= rows@.take(i as int));
        assert(rows@.take(i + 1).last() == row);
        if let Some(combo) = row.combo() {
            let mut j: usize = 0;
            let mut dup = false;
            while j < bs.len()
                invariant
                    j <= bs@.len(),
                    bindings_match(bs@, prev),
                    dup == exists|q: int|
                        0 <= q < j && (#[trigger] prev[q]).combo == combo && prev[q].enabled
                            == row.enabled,
                decreases bs@.len() - j,
            {
                assert(binding_matches(bs@[j as int], prev[j as int]));
                if bs[j].combo == combo && bs[j].enabled == row.enabled {
                    dup = true;
                }
                j = j + 1;
            }
            if !dup {
                let id = find_last(&pairs, &combo);
                let label = live_label(id, &combo);
                let b = Binding {
                    combo,
                    source: BindingSource::SystemSymbolicHotkey {
                        id,
                        dispatch: dispatch_for(id, &combo),
                    },
                    label,
                    enabled: row.enabled,
                };
                bs.push(b);
            }
        }
        i = i + 1;
    }
    assert(rows@.take(rows@.len() as int) =~= rows@);
    bs
}

// ---------------------------------------------------------------------
// The source
// ---------------------------------------------------------------------

/// The text of a plist problem reported against `path`, as a scan error
/// displays it.
pub open spec fn problem_text(path: Seq<char>, p: PlistProblem) -> Seq<char> {
    match p {
        PlistProblem::Io(_) => "io error reading "@ + path,
        PlistProblem::Schema(m) => "unexpected schema in "@ + path + ": "@ + m,
    }
}

/// `r` is what a scan without the live table gives: the plist's problem
/// as the error, or the merged plist and defaults with no warning.
pub open spec fn plist_only_result(path: Seq<char>, read: PlistRead, r: Result<SourceScan, ScanError>) -> bool {
    match spec_parse_overrides(read) {
        Err(p) => r is Err && problem_of(r->Err_0) == p && error_path(r->Err_0) == path,
        Ok(ov) => r is Ok && bindings_match(r->Ok_0.bindings@, spec_plist_entries(ov))
            && r->Ok_0.warnings@.len() == 0,
    }
}

/// `r` is what a scan with the live table gives: the live entries
/// labelled through the plist; a plist that yields nothing is a warning,
/// never an error.
pub open spec fn live_result(path: Seq<char>, rows: Seq<LiveHotkey>, read: PlistRead, r: Result<SourceScan, ScanError>) -> bool {
    &&& r is Ok
    &&& match spec_parse_overrides(read) {
        Ok(ov) => bindings_match(r->Ok_0.bindings@, spec_live_entries(rows, ov))
            && r->Ok_0.warnings@.len() == 0,
        Err(p) => {
            &&& bindings_match(r->Ok_0.bindings@, spec_live_entries(rows, Seq::empty()))
            &&& r->Ok_0.warnings@.len() == 1
            &&& r->Ok_0.warnings@[0] matches ScanWarning::Skipped { path: wp, message }
            &&& wp@ == path
            &&& message@ == problem_text(path, p)
        },
    }
}

impl SymbolicHotkeys {
    pub closed spec fn spec_plist_path(&self) -> Seq<char> {
        self.plist_path@
    }

    pub closed spec fn spec_live(&self) -> LiveTable {
        self.live
    }

    /// Read `plist_path` and merge it with the built-in defaults table.
    pub fn new(plist_path: String) -> (s: SymbolicHotkeys)
        ensures
            s.spec_plist_path() == plist_path@,
            s.spec_live() is PlistOnly,
    {
        SymbolicHotkeys { plist_path, live: LiveTable::PlistOnly }
    }

    /// Use the given table as the truth for combos and enabled state; the
    /// plist and defaults then only supply ids and labels.
    pub fn with_live_table(self, live: LiveTable) -> (s: SymbolicHotkeys)
        ensures
            s.spec_plist_path() == self.spec_plist_path(),
            s.spec_live() == live,
    {
        SymbolicHotkeys { plist_path: self.plist_path, live }
    }

    /// Where the plist is read from.
    pub fn plist_path(&self) -> (p: &str)
        ensures
            p@ == self.spec_plist_path(),
    {
        self.plist_path.as_str()
    }

    /// Whether the scan wants the table macOS itself reports.
    pub fn wants_system_table(&self) -> (b: bool)
        ensures
            b == (self.spec_live() is System),
    {
        match &self.live {
            LiveTable::System => true,
            _ => false,
        }
    }

    /// The stable source name.
    pub fn name(&self) -> (s: &'static str)
        ensures
            s@ == "symbolichotkeys"@,
    {
        "symbolichotkeys"
    }

    /// Scan given what could be read: the plist, and the system table
    /// when this source asks for it (`None` when it was not read). A
    /// system table that could not be read falls back to the plist and
    /// defaults alone.
    pub fn scan_with(&self, plist: &PlistRead, system: Option<Result<Vec<LiveHotkey>, String>>) -> (r: Result<SourceScan, ScanError>)
        ensures
            match self.spec_live() {
                LiveTable::PlistOnly => plist_only_result(self.spec_plist_path(), *plist, r),
                LiveTable::Snapshot(rows) => live_result(self.spec_plist_path(), rows@, *plist, r),
                LiveTable::System => match system {
                    Some(Ok(rows)) => live_result(self.spec_plist_path(), rows@, *plist, r),
                    _ => plist_only_result(self.spec_plist_path(), *plist, r),
                },
            },
    {
        let path = self.plist_path.as_str();
        match &self.live {
            LiveTable::PlistOnly => self.plist_only(plist),
            LiveTable::Snapshot(rows) => Ok(self.live_scan(rows, plist)),
            LiveTable::System => match system {
                Some(Ok(rows)) => Ok(self.live_scan(&rows, plist)),
                _ => self.plist_only(plist),
            },
        }
    }

    fn plist_only(&self, plist: &PlistRead) -> (r: Result<SourceScan, ScanError>)
        ensures
            plist_only_result(self.spec_plist_path(), *plist, r),
    {
        match parse_overrides(self.plist_path.as_str(), plist) {
            Ok(ov) => Ok(SourceScan::from_bindings(plist_bindings(&ov))),
            Err(e) => Err(e),
        }
    }

    fn live_scan(&self, rows: &Vec<LiveHotkey>, plist: &PlistRead) -> (r: SourceScan)
        ensures
            live_result(self.spec_plist_path(), rows@, *plist, Ok(r)),
    {
        match parse_overrides(self.plist_path.as_str(), plist) {
            Ok(ov) => SourceScan::from_bindings(merge_live(rows, &ov)),
            Err(e) => {
                let message = e.to_string();
                let none: Vec<(u32, Override)> = Vec::new();
                let bindings = merge_live(rows, &none);
                let mut warnings: Vec<ScanWarning> = Vec::new();
                warnings.push(ScanWarning::Skipped { path: owned(self.plist_path.as_str()), message });
                assert(none@ =~= Seq::<(u32, Override)>::empty());
                SourceScan { bindings, warnings }
            },
        }
    }
}

} // verus!
