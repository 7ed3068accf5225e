//! The scan engine: run every source, keep what they found, and answer
//! questions about it — who owns a combo, which binding actually fires,
//! and where bindings get in each other's way.

use vstd::prelude::*;

use crate::binding::{Binding, Layer, Scope};
use crate::combo::{spec_combo_text, KeyCombo};
use crate::error::{ScanError, ScanWarning};
use crate::order::{
    first_after, is_total_preorder, lemma_first_after_bound, lemma_first_after_is,
    lemma_sort_permutes, lemma_sort_sorted, lemma_sort_stable, sort_spec, sorted_by,
};
use crate::sources::SourceScan;
use crate::text::{chars_of, compare_chars, lemma_text_order_antisym, lemma_text_order_trans, text_order};

verus! {

/// Every binding every source could see, plus what went wrong on the way.
#[derive(Debug, Default)]
pub struct HotkeyIndex {
    bindings: Vec<Binding>,
    warnings: Vec<ScanWarning>,
    failures: Vec<SourceFailure>,
}

/// A source that could not run at all and therefore contributed nothing.
#[derive(Debug)]
pub struct SourceFailure {
    /// Name of the source that failed.
    pub source: String,
    pub error: ScanError,
}

/// Who gets a combo when it is pressed.
#[derive(Debug, Clone, Copy, PartialEq, Eq)]
pub enum Winner<'a> {
    /// No enabled binding claims the combo.
    Nobody,
    /// This global binding sees the key first and fires regardless of
    /// which app is frontmost.
    Global(&'a Binding),
    /// Several global bindings sit on the same first layer. Which one
    /// fires depends on registration order, which cannot be observed
    /// from outside.
    Contested(Layer),
    /// Only app menu items claim the combo; whichever app is frontmost
    /// handles it.
    FrontmostApp,
}

/// A `Winner` with the binding taken by value.
pub enum WinnerView {
    Nobody,
    Global(Binding),
    Contested(Layer),
    FrontmostApp,
}

pub open spec fn winner_view(w: Winner) -> WinnerView {
    match w {
        Winner::Nobody => WinnerView::Nobody,
        Winner::Global(b) => WinnerView::Global(*b),
        Winner::Contested(l) => WinnerView::Contested(l),
        Winner::FrontmostApp => WinnerView::FrontmostApp,
    }
}

/// Bindings behind references, by value.
pub open spec fn refs_view(s: Seq<&Binding>) -> Seq<Binding> {
    s.map_values(|b: &Binding| *b)
}

// ---------------------------------------------------------------------
// Who sees the key first
// ---------------------------------------------------------------------

/// The order bindings see a keystroke in: by layer, then by owner, then by
/// label (both as Rust orders `str`), as a three-way comparison.
pub open spec fn binding_order(a: Binding, b: Binding) -> int {
    let ra = a.source.spec_layer().spec_rank();
    let rb = b.source.spec_layer().spec_rank();
    if ra < rb {
        -1
    } else if ra > rb {
        1
    } else if text_order(a.source.spec_owner(), b.source.spec_owner()) != 0 {
        text_order(a.source.spec_owner(), b.source.spec_owner())
    } else {
        text_order(a.label@, b.label@)
    }
}

pub open spec fn binding_ord() -> spec_fn(Binding, Binding) -> int {
    |a: Binding, b: Binding| binding_order(a, b)
}

/// The binding order is a total preorder, so sorting by it is meaningful.
pub proof fn lemma_binding_order_total_preorder()
    ensures
        is_total_preorder(binding_ord()),
{
    assert forall|a: Binding, b: Binding| #[trigger] binding_ord()(a, b) == -binding_ord()(b, a) by {
        lemma_text_order_antisym(a.source.spec_owner(), b.source.spec_owner());
        lemma_text_order_antisym(a.label@, b.label@);
    }
    assert forall|a: Binding, b: Binding, c: Binding|
        #[trigger] binding_ord()(a, b) <= 0 && #[trigger] binding_ord()(b, c) <= 0
        implies binding_ord()(a, c) <= 0 by {
        let (oa, ob, oc) = (a.source.spec_owner(), b.source.spec_owner(), c.source.spec_owner());
        lemma_text_order_antisym(oa, ob);
        lemma_text_order_antisym(ob, oc);
        lemma_text_order_antisym(oa, oc);
        lemma_text_order_antisym(a.label@, b.label@);
        lemma_text_order_antisym(b.label@, c.label@);
        if text_order(oa, ob) <= 0 && text_order(ob, oc) <= 0 {
            lemma_text_order_trans(oa, ob, oc);
        }
        if text_order(a.label@, b.label@) <= 0 && text_order(b.label@, c.label@) <= 0 {
            lemma_text_order_trans(a.label@, b.label@, c.label@);
        }
    }
}

/// `binding_order` on two bindings.
pub fn compare_bindings(a: &Binding, b: &Binding) -> (r: i8)
    ensures
        r as int == binding_order(*a, *b),
{
    let ra = a.source.layer().rank();
    let rb = b.source.layer().rank();
    if ra < rb {
        return -1;
    }
    if ra > rb {
        return 1;
    }
    let oa = chars_of(a.source.owner());
    let ob = chars_of(b.source.owner());
    let o = compare_chars(oa.as_slice(), ob.as_slice());
    if o != 0 {
        return o;
    }
    let la = chars_of(a.label.as_str());
    let lb = chars_of(b.label.as_str());
    compare_chars(la.as_slice(), lb.as_slice())
}

/// Order bindings by who sees the keystroke first; ties broken by owner
/// and label so output is stable. Bindings that tie on all three keep
/// their order.
pub fn sort_by_layer(bindings: &mut Vec<&Binding>)
    ensures
        refs_view(final(bindings)@) == sort_spec(refs_view(old(bindings)@), binding_ord()),
{
    let ghost input = refs_view(bindings@);
    let mut out: Vec<&Binding> = Vec::new();
    let n = bindings.len();
    let mut i: usize = 0;
    while i < n
        invariant
            n == bindings@.len(),
            input == refs_view(bindings@),
            i <= n,
            refs_view(out@) == sort_spec(input.take(i as int), binding_ord()),
        decreases n - i,
    {
        let x: &Binding = bindings[i];
        let ghost sorted = refs_view(out@);
        let mut j: usize = 0;
        while j < out.len() && compare_bindings(out[j], x) <= 0
            invariant
                j <= out@.len(),
                sorted == refs_view(out@),
                forall|k: int| 0 <= k < j ==> binding_ord()(#[trigger] sorted[k], *x) <= 0,
            decreases out@.len() - j,
        {
            j = j + 1;
        }
        proof {
            lemma_first_after_is(sorted, *x, binding_ord(), j as int);
            assert(input.take(i + 1).drop_last() =~= input.take(i as int));
            assert(input.take(i + 1).last() == *x);
        }
        out.insert(j, x);
        assert(refs_view(out@) =~= sorted.insert(j as int, *x));
        i = i + 1;
    }
    assert(input.take(n as int) =~= input);
    *bindings = out;
}

// ---------------------------------------------------------------------
// Conflicts
// ---------------------------------------------------------------------

/// Enabled bindings on one combo that get in each other's way.
#[derive(Debug, Clone, PartialEq, Eq)]
pub struct Conflict<'a> {
    pub combo: KeyCombo,
    pub kind: ConflictKind,
    /// Who fires, as [`HotkeyIndex::winner`] would report.
    pub winner: Winner<'a>,
    /// Every enabled binding on the combo, ordered like [`HotkeyIndex::find`].
    pub bindings: Vec<&'a Binding>,
}

#[derive(Debug, Clone, Copy, PartialEq, Eq, Structural)]
pub enum ConflictKind {
    /// Two or more global bindings claim the combo. At most one of them
    /// can fire; the rest are dead.
    Contested,
    /// One global binding claims a combo that at least one app also uses
    /// for a menu item. That menu item never fires while the global
    /// binding is enabled.
    Shadowed,
}

/// How many bindings of `group` fire globally.
pub open spec fn global_count(group: Seq<Binding>) -> nat
    decreases group.len(),
{
    if group.len() == 0 {
        0
    } else {
        global_count(group.drop_last()) + if group.last().source.spec_scope() == Scope::Global {
            1nat
        } else {
            0nat
        }
    }
}

/// Whether the bindings on one combo conflict, and how: two or more global
/// bindings are contested; exactly one global binding beside at least one
/// app-scoped one shadows it; anything else (only app menus, or a lone
/// global binding) is no conflict.
pub open spec fn spec_conflict_kind(group: Seq<Binding>) -> Option<ConflictKind> {
    let globals = global_count(group);
    if globals >= 2 {
        Some(ConflictKind::Contested)
    } else if globals == 1 && group.len() > 1 {
        Some(ConflictKind::Shadowed)
    } else {
        None
    }
}

/// The combos of enabled bindings, each once, in order of first appearance.
pub open spec fn enabled_combos(bs: Seq<Binding>) -> Seq<KeyCombo>
    decreases bs.len(),
{
    if bs.len() == 0 {
        Seq::empty()
    } else {
        let prev = enabled_combos(bs.drop_last());
        if bs.last().enabled && !prev.contains(bs.last().combo) {
            prev.push(bs.last().combo)
        } else {
            prev
        }
    }
}

/// The combos among `combos` whose claimants conflict.
pub open spec fn conflicting(bs: Seq<Binding>, combos: Seq<KeyCombo>) -> Seq<KeyCombo>
    decreases combos.len(),
{
    if combos.len() == 0 {
        Seq::empty()
    } else {
        let prev = conflicting(bs, combos.drop_last());
        if spec_conflict_kind(spec_find(bs, combos.last())) is Some {
            prev.push(combos.last())
        } else {
            prev
        }
    }
}

/// Combos ordered by how they render, as Rust orders `str`.
pub open spec fn combo_text_ord() -> spec_fn(KeyCombo, KeyCombo) -> int {
    |a: KeyCombo, b: KeyCombo| text_order(spec_combo_text(a), spec_combo_text(b))
}

/// The combos `conflicts` reports, in the order it reports them.
pub open spec fn spec_conflict_combos(bs: Seq<Binding>) -> Seq<KeyCombo> {
    sort_spec(conflicting(bs, enabled_combos(bs)), combo_text_ord())
}

/// A conflict as `conflicts` describes the combo: its claimants ordered
/// like `find`, the kind of conflict, and the winner.
pub open spec fn describes(bs: Seq<Binding>, c: Conflict) -> bool {
    let group = spec_find(bs, c.combo);
    &&& refs_view(c.bindings@) == group
    &&& spec_conflict_kind(group) == Some(c.kind)
    &&& winner_view(c.winner) == spec_winner(group)
}

pub proof fn lemma_combo_text_total_preorder()
    ensures
        is_total_preorder(combo_text_ord()),
{
    assert forall|a: KeyCombo, b: KeyCombo| #[trigger] combo_text_ord()(a, b) == -combo_text_ord()(b, a) by {
        lemma_text_order_antisym(spec_combo_text(a), spec_combo_text(b));
    }
    assert forall|a: KeyCombo, b: KeyCombo, c: KeyCombo|
        #[trigger] combo_text_ord()(a, b) <= 0 && #[trigger] combo_text_ord()(b, c) <= 0
        implies combo_text_ord()(a, c) <= 0 by {
        lemma_text_order_trans(spec_combo_text(a), spec_combo_text(b), spec_combo_text(c));
    }
}

/// Counts the globally scoped bindings.
fn count_globals(group: &Vec<&Binding>) -> (n: usize)
    ensures
        n == global_count(refs_view(group@)),
{
    let ghost g = refs_view(group@);
    let mut n: usize = 0;
    let mut i: usize = 0;
    while i < group.len()
        invariant
            g == refs_view(group@),
            i <= g.len(),
            n == global_count(g.take(i as int)),
            n <= i,
        decreases g.len() - i,
    {
        assert(g.take(i + 1).drop_last() =~= g.take(i as int));
        match group[i].source.scope() {
            Scope::Global => {
                n = n + 1;
            },
            Scope::App => {},
        }
        i = i + 1;
    }
    assert(g.take(g.len() as int) =~= g);
    n
}

/// `combo_text_ord` on two combos.
fn compare_combo_text(a: &KeyCombo, b: &KeyCombo) -> (r: i8)
    ensures
        r as int == combo_text_ord()(*a, *b),
{
    let ta = a.to_string();
    let tb = b.to_string();
    let ca = chars_of(ta.as_str());
    let cb = chars_of(tb.as_str());
    compare_chars(ca.as_slice(), cb.as_slice())
}

pub open spec fn conflict_combos_of(cs: Seq<Conflict>) -> Seq<KeyCombo> {
    cs.map_values(|c: Conflict| c.combo)
}

/// Stable sort of conflicts by how their combos render.
fn sort_conflicts<'a>(items: Vec<Conflict<'a>>, bs: Ghost<Seq<Binding>>) -> (out: Vec<Conflict<'a>>)
    requires
        forall|i: int| 0 <= i < items@.len() ==> describes(bs@, #[trigger] items@[i]),
    ensures
        conflict_combos_of(out@) == sort_spec(conflict_combos_of(items@), combo_text_ord()),
        forall|i: int| 0 <= i < out@.len() ==> describes(bs@, #[trigger] out@[i]),
{
    let ghost input = conflict_combos_of(items@);
    let ghost all = items@;
    let mut pending = items;
    let mut out: Vec<Conflict<'a>> = Vec::new();
    let mut taken: usize = 0;
    let total = pending.len();
    while pending.len() > 0
        invariant
            all.len() == input.len(),
            all.len() == total,
            input == conflict_combos_of(all),
            taken <= all.len(),
            pending@ == all.skip(taken as int),
            conflict_combos_of(out@) == sort_spec(input.take(taken as int), combo_text_ord()),
            forall|i: int| 0 <= i < all.len() ==> describes(bs@, #[trigger] all[i]),
            forall|i: int| 0 <= i < out@.len() ==> describes(bs@, #[trigger] out@[i]),
        decreases pending@.len(),
    {
        assert(all.skip(taken as int).len() > 0);
        let x = pending.remove(0);
        assert(x == all[taken as int]);
        let ghost sorted = conflict_combos_of(out@);
        let mut j: usize = 0;
        while j < out.len() && compare_combo_text(&out[j].combo, &x.combo) <= 0
            invariant
                j <= out@.len(),
                sorted == conflict_combos_of(out@),
                forall|k: int| 0 <= k < j ==> combo_text_ord()(#[trigger] sorted[k], x.combo) <= 0,
            decreases out@.len() - j,
        {
            j = j + 1;
        }
        proof {
            lemma_first_after_is(sorted, x.combo, combo_text_ord(), j as int);
            assert(input.take(taken + 1).drop_last() =~= input.take(taken as int));
            assert(input.take(taken + 1).last() == x.combo);
            assert(all.skip(taken + 1) =~= all.skip(taken as int).drop_first());
        }
        let ghost before = out@;
        out.insert(j, x);
        assert(conflict_combos_of(out@) =~= sorted.insert(j as int, x.combo));
        assert forall|i: int| 0 <= i < out@.len() implies describes(bs@, #[trigger] out@[i]) by {
            if i < j {
                assert(out@[i] == before[i]);
            } else if i > j {
                assert(out@[i] == before[i - 1]);
            }
        }
        taken = taken + 1;
    }
    assert(input.take(taken as int) =~= input);
    out
}

// ---------------------------------------------------------------------
// Lookups
// ---------------------------------------------------------------------

/// The enabled bindings registered for exactly `combo`, in source order.
pub open spec fn claimants(bs: Seq<Binding>, combo: KeyCombo) -> Seq<Binding>
    decreases bs.len(),
{
    if bs.len() == 0 {
        Seq::empty()
    } else {
        let prev = claimants(bs.drop_last(), combo);
        if bs.last().enabled && bs.last().combo == combo {
            prev.push(bs.last())
        } else {
            prev
        }
    }
}

/// What `find` returns: the claimants in the order they see the key.
pub open spec fn spec_find(bs: Seq<Binding>, combo: KeyCombo) -> Seq<Binding> {
    sort_spec(claimants(bs, combo), binding_ord())
}

/// Who gets the key among bindings already ordered by `binding_order`.
pub open spec fn spec_winner(ordered: Seq<Binding>) -> WinnerView {
    if ordered.len() == 0 {
        WinnerView::Nobody
    } else if ordered[0].source.spec_scope() != Scope::Global {
        WinnerView::FrontmostApp
    } else if exists|i: int|
        1 <= i < ordered.len() && (#[trigger] ordered[i]).source.spec_layer()
            == ordered[0].source.spec_layer() {
        WinnerView::Contested(ordered[0].source.spec_layer())
    } else {
        WinnerView::Global(ordered[0])
    }
}

/// Decide the winner among bindings that share one combo and are already
/// ordered by [`sort_by_layer`].
pub fn winner_of<'a>(ordered: &Vec<&'a Binding>) -> (w: Winner<'a>)
    ensures
        winner_view(w) == spec_winner(refs_view(ordered@)),
        w matches Winner::Global(b) ==> b == ordered@[0],
{
    let ghost s = refs_view(ordered@);
    if ordered.len() == 0 {
        return Winner::Nobody;
    }
    let first: &'a Binding = ordered[0];
    match first.source.scope() {
        Scope::App => {
            return Winner::FrontmostApp;
        },
        Scope::Global => {},
    }
    let top = first.source.layer();
    let mut i: usize = 1;
    while i < ordered.len()
        invariant
            1 <= i <= ordered@.len(),
            s == refs_view(ordered@),
            top == s[0].source.spec_layer(),
            s[0].source.spec_scope() == Scope::Global,
            first == ordered@[0],
            forall|k: int| 1 <= k < i ==> (#[trigger] s[k]).source.spec_layer() != top,
        decreases ordered@.len() - i,
    {
        if ordered[i].source.layer() == top {
            assert(s[i as int].source.spec_layer() == top);
            return Winner::Contested(top);
        }
        i = i + 1;
    }
    Winner::Global(first)
}

/// What one source reported: its name and its scan.
pub type SourceResult = (String, Result<SourceScan, ScanError>);

/// Bindings of every source that ran, in source order.
pub open spec fn scanned_bindings(rs: Seq<SourceResult>) -> Seq<Binding>
    decreases rs.len(),
{
    if rs.len() == 0 {
        Seq::empty()
    } else {
        scanned_bindings(rs.drop_last()) + match rs.last().1 {
            Ok(found) => found.bindings@,
            Err(_) => Seq::empty(),
        }
    }
}

/// Warnings of every source that ran, in source order.
pub open spec fn scanned_warnings(rs: Seq<SourceResult>) -> Seq<ScanWarning>
    decreases rs.len(),
{
    if rs.len() == 0 {
        Seq::empty()
    } else {
        scanned_warnings(rs.drop_last()) + match rs.last().1 {
            Ok(found) => found.warnings@,
            Err(_) => Seq::empty(),
        }
    }
}

/// The name and error of every source that failed, in source order.
pub open spec fn scanned_failures(rs: Seq<SourceResult>) -> Seq<(Seq<char>, ScanError)>
    decreases rs.len(),
{
    if rs.len() == 0 {
        Seq::empty()
    } else {
        scanned_failures(rs.drop_last()) + match rs.last().1 {
            Ok(_) => Seq::empty(),
            Err(e) => seq![(rs.last().0@, e)],
        }
    }
}

pub open spec fn failure_views(fs: Seq<SourceFailure>) -> Seq<(Seq<char>, ScanError)> {
    fs.map_values(|f: SourceFailure| (f.source@, f.error))
}

impl HotkeyIndex {
    /// Collect what every source reported, in order. A source that failed
    /// outright is recorded in [`failures`](Self::failures) and contributes
    /// nothing; the others still contribute their bindings and warnings.
    pub fn scan(results: Vec<SourceResult>) -> (idx: HotkeyIndex)
        ensures
            idx.spec_bindings() == scanned_bindings(results@),
            idx.spec_warnings() == scanned_warnings(results@),
            failure_views(idx.spec_failures()) == scanned_failures(results@),
    {
        let ghost all = results@;
        let mut index = HotkeyIndex::new();
        let mut pending = results;
        let total = pending.len();
        let mut taken: usize = 0;
        while pending.len() > 0
            invariant
                all.len() == total,
                taken <= all.len(),
                pending@ == all.skip(taken as int),
                index.bindings@ == scanned_bindings(all.take(taken as int)),
                index.warnings@ == scanned_warnings(all.take(taken as int)),
                failure_views(index.failures@) == scanned_failures(all.take(taken as int)),
            decreases pending@.len(),
        {
            assert(all.skip(taken as int).len() > 0);
            let (name, result) = pending.remove(0);
            proof {
                assert(all.take(taken + 1).drop_last() =~= all.take(taken as int));
                assert(all.skip(taken + 1) =~= all.skip(taken as int).drop_first());
            }
            match result {
                Ok(found) => {
                    let SourceScan { bindings, warnings } = found;
                    let mut b = bindings;
                    let mut w = warnings;
                    index.bindings.append(&mut b);
                    index.warnings.append(&mut w);
                    assert(failure_views(index.failures@) =~= scanned_failures(all.take(taken as int)) + Seq::empty());
                },
                Err(error) => {
                    let ghost before = index.failures@;
                    let ghost e = error;
                    index.failures.push(SourceFailure { source: name, error });
                    assert(failure_views(index.failures@) =~= failure_views(before).push((all[taken as int].0@, e)));
                    assert(index.bindings@ =~= index.bindings@ + Seq::empty());
                    assert(index.warnings@ =~= index.warnings@ + Seq::empty());
                },
            }
            taken = taken + 1;
        }
        assert(all.take(taken as int) =~= all);
        index
    }

    pub closed spec fn spec_bindings(&self) -> Seq<Binding> {
        self.bindings@
    }

    pub closed spec fn spec_warnings(&self) -> Seq<ScanWarning> {
        self.warnings@
    }

    pub closed spec fn spec_failures(&self) -> Seq<SourceFailure> {
        self.failures@
    }

    /// An empty index.
    pub fn new() -> (idx: HotkeyIndex)
        ensures
            idx.spec_bindings().len() == 0,
            idx.spec_warnings().len() == 0,
            idx.spec_failures().len() == 0,
    {
        HotkeyIndex { bindings: Vec::new(), warnings: Vec::new(), failures: Vec::new() }
    }

    /// Add one binding after the others.
    pub fn push(&mut self, binding: Binding)
        ensures
            final(self).spec_bindings() == old(self).spec_bindings().push(binding),
            final(self).spec_warnings() == old(self).spec_warnings(),
            final(self).spec_failures() == old(self).spec_failures(),
    {
        self.bindings.push(binding);
    }

    /// Add bindings after the others, in order.
    pub fn extend(&mut self, bindings: Vec<Binding>)
        ensures
            final(self).spec_bindings() == old(self).spec_bindings() + bindings@,
            final(self).spec_warnings() == old(self).spec_warnings(),
            final(self).spec_failures() == old(self).spec_failures(),
    {
        let mut bindings = bindings;
        self.bindings.append(&mut bindings);
    }

    /// Every binding, enabled or not, in source order.
    pub fn iter(&self) -> (it: std::slice::Iter<'_, Binding>)
        ensures
            exists|s: &[Binding]| s@ == self.spec_bindings() && it == vstd::std_specs::slice::spec_slice_iter(s),
    {
        self.bindings.as_slice().iter()
    }

    /// Number of bindings, enabled or not.
    pub fn len(&self) -> (n: usize)
        ensures
            n == self.spec_bindings().len(),
    {
        self.bindings.len()
    }

    /// Whether the index holds no binding at all.
    pub fn is_empty(&self) -> (b: bool)
        ensures
            b == (self.spec_bindings().len() == 0),
    {
        self.bindings.len() == 0
    }

    /// Partial-result warnings from every source, in scan order.
    pub fn warnings(&self) -> (w: &[ScanWarning])
        ensures
            w@ == self.spec_warnings(),
    {
        self.warnings.as_slice()
    }

    /// Sources that produced nothing at all.
    pub fn failures(&self) -> (f: &[SourceFailure])
        ensures
            f@ == self.spec_failures(),
    {
        self.failures.as_slice()
    }

    /// Every enabled binding registered for exactly `combo`, ordered by
    /// layer (whoever sees the key first comes first), then owner, then
    /// label.
    pub fn find(&self, combo: &KeyCombo) -> (found: Vec<&Binding>)
        ensures
            refs_view(found@) == spec_find(self.spec_bindings(), *combo),
    {
        let ghost bs = self.bindings@;
        let mut found: Vec<&Binding> = Vec::new();
        let mut i: usize = 0;
        while i < self.bindings.len()
            invariant
                bs == self.bindings@,
                i <= bs.len(),
                refs_view(found@) == claimants(bs.take(i as int), *combo),
            decreases bs.len() - i,
        {
            let b = &self.bindings[i];
            assert(bs.take(i + 1).drop_last() =~= bs.take(i as int));
            if b.enabled && b.combo == *combo {
                found.push(b);
                assert(refs_view(found@) =~= claimants(bs.take(i as int), *combo).push(*b));
            }
            i = i + 1;
        }
        assert(bs.take(bs.len() as int) =~= bs);
        sort_by_layer(&mut found);
        found
    }

    /// Only the bindings that currently fire, in source order.
    pub fn enabled(&self) -> (on: Vec<&Binding>)
        ensures
            refs_view(on@) == self.spec_bindings().filter(|b: Binding| b.enabled),
    {
        let ghost bs = self.bindings@;
        let mut on: Vec<&Binding> = Vec::new();
        let mut i: usize = 0;
        while i < self.bindings.len()
            invariant
                bs == self.bindings@,
                i <= bs.len(),
                refs_view(on@) == bs.take(i as int).filter(|b: Binding| b.enabled),
            decreases bs.len() - i,
        {
            let b = &self.bindings[i];
            proof {
                assert(bs.take(i + 1).drop_last() =~= bs.take(i as int));
                reveal(Seq::filter);
            }
            if b.enabled {
                on.push(b);
                assert(refs_view(on@) =~= bs.take(i as int).filter(|b: Binding| b.enabled).push(*b));
            }
            i = i + 1;
        }
        assert(bs.take(bs.len() as int) =~= bs);
        on
    }

    /// Enabled bindings grouped by combo, each group ordered like
    /// [`find`](Self::find); groups in order of first appearance.
    fn by_combo(&self) -> (groups: Vec<(KeyCombo, Vec<&Binding>)>)
        ensures
            groups@.len() == enabled_combos(self.spec_bindings()).len(),
            forall|i: int|
                0 <= i < groups@.len() ==> (#[trigger] groups@[i]).0 == enabled_combos(
                    self.spec_bindings(),
                )[i] && refs_view(groups@[i].1@) == spec_find(self.spec_bindings(), groups@[i].0),
    {
        let ghost bs = self.bindings@;
        let mut combos: Vec<KeyCombo> = Vec::new();
        let mut i: usize = 0;
        while i < self.bindings.len()
            invariant
                bs == self.bindings@,
                i <= bs.len(),
                combos@ == enabled_combos(bs.take(i as int)),
            decreases bs.len() - i,
        {
            let b = &self.bindings[i];
            assert(bs.take(i + 1).drop_last() =~= bs.take(i as int));
            if b.enabled {
                let mut seen = false;
                let mut k: usize = 0;
                while k < combos.len()
                    invariant
                        k <= combos@.len(),
                        seen == exists|j: int| 0 <= j < k && combos@[j] == b.combo,
                    decreases combos@.len() - k,
                {
                    if combos[k] == b.combo {
                        seen = true;
                    }
                    k = k + 1;
                }
                if !seen {
                    assert(!combos@.contains(b.combo));
                    combos.push(b.combo);
                }
            }
            i = i + 1;
        }
        assert(bs.take(bs.len() as int) =~= bs);
        let mut groups: Vec<(KeyCombo, Vec<&Binding>)> = Vec::new();
        let mut g: usize = 0;
        while g < combos.len()
            invariant
                bs == self.bindings@,
                combos@ == enabled_combos(bs),
                g <= combos@.len(),
                groups@.len() == g,
                forall|j: int|
                    0 <= j < g ==> (#[trigger] groups@[j]).0 == combos@[j] && refs_view(
                        groups@[j].1@,
                    ) == spec_find(bs, groups@[j].0),
            decreases combos@.len() - g,
        {
            let c = combos[g];
            let found = self.find(&c);
            groups.push((c, found));
            g = g + 1;
        }
        groups
    }

    /// Every combo where bindings get in each other's way, sorted by how
    /// the combo renders.
    ///
    /// Several apps reusing one shortcut in their own menus is not a
    /// conflict: each only fires in its own app. A global binding on that
    /// same combo is, because it takes the key before any app sees it.
    pub fn conflicts(&self) -> (out: Vec<Conflict<'_>>)
        ensures
            conflict_combos_of(out@) == spec_conflict_combos(self.spec_bindings()),
            forall|i: int| 0 <= i < out@.len() ==> describes(self.spec_bindings(), #[trigger] out@[i]),
    {
        let ghost bs = self.bindings@;
        let ghost combos = enabled_combos(bs);
        let groups = self.by_combo();
        let mut found: Vec<Conflict<'_>> = Vec::new();
        let mut pending = groups;
        let ghost all = pending@;
        let mut taken: usize = 0;
        let total = pending.len();
        while pending.len() > 0
            invariant
                bs == self.bindings@,
                combos == enabled_combos(bs),
                all.len() == combos.len(),
                all.len() == total,
                forall|j: int|
                    0 <= j < all.len() ==> (#[trigger] all[j]).0 == combos[j] && refs_view(all[j].1@)
                        == spec_find(bs, all[j].0),
                taken <= all.len(),
                pending@ == all.skip(taken as int),
                conflict_combos_of(found@) == conflicting(bs, combos.take(taken as int)),
                forall|i: int| 0 <= i < found@.len() ==> describes(bs, #[trigger] found@[i]),
            decreases pending@.len(),
        {
            assert(all.skip(taken as int).len() > 0);
            let (combo, group) = pending.remove(0);
            assert(all[taken as int].0 == combo);
            assert(combos.take(taken + 1).drop_last() =~= combos.take(taken as int));
            assert(all.skip(taken + 1) =~= all.skip(taken as int).drop_first());
            let globals = count_globals(&group);
            let kind = if globals >= 2 {
                Some(ConflictKind::Contested)
            } else if globals == 1 && group.len() > 1 {
                Some(ConflictKind::Shadowed)
            } else {
                None
            };
            if let Some(kind) = kind {
                let winner = winner_of(&group);
                let ghost before = found@;
                found.push(Conflict { combo, kind, winner, bindings: group });
                assert(conflict_combos_of(found@) =~= conflict_combos_of(before).push(combo));
            }
            taken = taken + 1;
        }
        assert(combos.take(taken as int) =~= combos);
        sort_conflicts(found, Ghost(bs))
    }

    /// The switched-off bindings on `combo`, in index order. They explain
    /// a free combo ("⌃1 would switch desktops, but that shortcut is
    /// off"), so they are listed after the live claimants rather than
    /// hidden.
    pub fn switched_off(&self, combo: &KeyCombo) -> (off: Vec<&Binding>)
        ensures
            refs_view(off@) == self.spec_bindings().filter(|b: Binding| !b.enabled && b.combo == *combo),
    {
        let ghost bs = self.bindings@;
        let ghost pred = |b: Binding| !b.enabled && b.combo == *combo;
        let mut off: Vec<&Binding> = Vec::new();
        let mut i: usize = 0;
        while i < self.bindings.len()
            invariant
                bs == self.bindings@,
                i <= bs.len(),
                pred == (|b: Binding| !b.enabled && b.combo == *combo),
                refs_view(off@) == bs.take(i as int).filter(pred),
            decreases bs.len() - i,
        {
            let b = &self.bindings[i];
            let ghost before = off@;
            if !b.enabled && b.combo == *combo {
                off.push(b);
            }
            proof {
                reveal(Seq::filter);
                assert(bs.take(i + 1).drop_last() =~= bs.take(i as int));
                assert(bs.take(i + 1).last() == *b);
                assert(refs_view(off@) =~= (if pred(*b) {
                    refs_view(before).push(*b)
                } else {
                    refs_view(before)
                }));
            }
            i = i + 1;
        }
        assert(bs.take(bs.len() as int) =~= bs);
        off
    }

    /// Who gets `combo` when it is pressed.
    pub fn winner(&self, combo: &KeyCombo) -> (w: Winner<'_>)
        ensures
            winner_view(w) == spec_winner(spec_find(self.spec_bindings(), *combo)),
    {
        let found = self.find(combo);
        winner_of(&found)
    }
}

} // verus!

verus! {

// ---------------------------------------------------------------------
// Laws
// ---------------------------------------------------------------------

proof fn lemma_claimants_contains(bs: Seq<Binding>, combo: KeyCombo, b: Binding)
    ensures
        claimants(bs, combo).contains(b) <==> (bs.contains(b) && b.enabled && b.combo == combo),
    decreases bs.len(),
{
    if bs.len() > 0 {
        lemma_claimants_contains(bs.drop_last(), combo, b);
        let prev = claimants(bs.drop_last(), combo);
        assert(bs =~= bs.drop_last().push(bs.last()));
        if bs.contains(b) {
            let i = choose|i: int| 0 <= i < bs.len() && bs[i] == b;
            if i < bs.len() - 1 {
                assert(bs.drop_last()[i] == b);
            }
        }
        if bs.drop_last().contains(b) {
            let i = choose|i: int| 0 <= i < bs.drop_last().len() && bs.drop_last()[i] == b;
            assert(bs[i] == b);
        }
        if bs.last().enabled && bs.last().combo == combo {
            if prev.contains(b) {
                let i = choose|i: int| 0 <= i < prev.len() && prev[i] == b;
                assert(prev.push(bs.last())[i] == b);
            }
            if prev.push(bs.last()).contains(b) {
                let i = choose|i: int| 0 <= i < prev.len() + 1 && prev.push(bs.last())[i] == b;
                if i < prev.len() {
                    assert(prev[i] == b);
                }
            }
            assert(prev.push(bs.last())[prev.len() as int] == bs.last());
        }
    }
}

/// `find` lists exactly the enabled bindings on the combo, each as often
/// as the index holds it, ordered so that whoever sees the key first
/// comes first.
pub proof fn law_find_orders_exactly_the_claimants(bs: Seq<Binding>, combo: KeyCombo, b: Binding)
    ensures
        sorted_by(spec_find(bs, combo), binding_ord()),
        spec_find(bs, combo).to_multiset() == claimants(bs, combo).to_multiset(),
        spec_find(bs, combo).contains(b) <==> (bs.contains(b) && b.enabled && b.combo == combo),
{
    broadcast use vstd::seq_lib::group_to_multiset_ensures;
    lemma_binding_order_total_preorder();
    lemma_sort_sorted(claimants(bs, combo), binding_ord());
    lemma_sort_permutes(claimants(bs, combo), binding_ord());
    lemma_claimants_contains(bs, combo, b);
    let f = spec_find(bs, combo);
    let c = claimants(bs, combo);
    assert(f.contains(b) <==> f.to_multiset().contains(b));
    assert(c.contains(b) <==> c.to_multiset().contains(b));
}

/// The claimants are the index's enabled bindings on the combo, in index
/// order.
proof fn lemma_claimants_filter(bs: Seq<Binding>, combo: KeyCombo)
    ensures
        claimants(bs, combo) == bs.filter(|b: Binding| b.enabled && b.combo == combo),
    decreases bs.len(),
{
    if bs.len() > 0 {
        lemma_claimants_filter(bs.drop_last(), combo);
        assert(bs =~= bs.drop_last().push(bs.last()));
        bs.drop_last().lemma_filter_push(bs.last(), |b: Binding| b.enabled && b.combo == combo);
    }
}

/// Ties in `find` keep index order: the claimants that `find` cannot
/// tell apart from any `x` (same layer, owner and label) come out in the
/// order the index holds them.
pub proof fn law_find_keeps_ties_in_index_order(bs: Seq<Binding>, combo: KeyCombo, x: Binding)
    ensures
        spec_find(bs, combo).filter(|y: Binding| binding_order(y, x) == 0) == bs.filter(
            |b: Binding| b.enabled && b.combo == combo,
        ).filter(|y: Binding| binding_order(y, x) == 0),
{
    lemma_binding_order_total_preorder();
    lemma_claimants_filter(bs, combo);
    lemma_sort_stable(claimants(bs, combo), binding_ord(), x);
    assert((|y: Binding| binding_ord()(y, x) == 0) =~= (|y: Binding| binding_order(y, x) == 0));
}

/// `enabled_combos` lists each combo once.
proof fn lemma_enabled_combos_distinct(bs: Seq<Binding>)
    ensures
        enabled_combos(bs).no_duplicates(),
    decreases bs.len(),
{
    if bs.len() > 0 {
        lemma_enabled_combos_distinct(bs.drop_last());
        let prev = enabled_combos(bs.drop_last());
        if bs.last().enabled && !prev.contains(bs.last().combo) {
            let r = prev.push(bs.last().combo);
            assert forall|i: int, j: int| 0 <= i < r.len() && 0 <= j < r.len() && i != j implies r[i] != r[j] by {
                if i < prev.len() && j < prev.len() {
                    assert(r[i] == prev[i] && r[j] == prev[j]);
                } else if i < prev.len() {
                    assert(r[i] == prev[i]);
                } else {
                    assert(r[j] == prev[j]);
                }
            }
        }
    }
}

/// Picking the conflicting combos out of a list without repeats repeats
/// none.
proof fn lemma_conflicting_distinct(bs: Seq<Binding>, combos: Seq<KeyCombo>)
    requires
        combos.no_duplicates(),
    ensures
        conflicting(bs, combos).no_duplicates(),
    decreases combos.len(),
{
    if combos.len() > 0 {
        let d = combos.drop_last();
        assert(d.no_duplicates());
        lemma_conflicting_distinct(bs, d);
        let prev = conflicting(bs, d);
        if spec_conflict_kind(spec_find(bs, combos.last())) is Some {
            lemma_conflicting_contains(bs, d, combos.last());
            if d.contains(combos.last()) {
                let k = choose|k: int| 0 <= k < d.len() && d[k] == combos.last();
                assert(combos[k] == combos[combos.len() - 1]);
            }
            let r = prev.push(combos.last());
            assert forall|i: int, j: int| 0 <= i < r.len() && 0 <= j < r.len() && i != j implies r[i] != r[j] by {
                if i < prev.len() && j < prev.len() {
                    assert(r[i] == prev[i] && r[j] == prev[j]);
                } else if i < prev.len() {
                    assert(r[i] == prev[i]);
                } else {
                    assert(r[j] == prev[j]);
                }
            }
        }
    }
}

/// `conflicts` reports each combo once.
pub proof fn law_conflicts_name_each_combo_once(bs: Seq<Binding>)
    ensures
        spec_conflict_combos(bs).no_duplicates(),
{
    let c = conflicting(bs, enabled_combos(bs));
    lemma_enabled_combos_distinct(bs);
    lemma_conflicting_distinct(bs, enabled_combos(bs));
    lemma_sort_permutes(c, combo_text_ord());
    c.lemma_multiset_has_no_duplicates();
    spec_conflict_combos(bs).lemma_multiset_has_no_duplicates_conv();
}

/// In `find`, every globally firing binding comes before every binding
/// that fires only in its app: system shortcuts and global hotkeys see
/// the key before any app menu.
pub proof fn law_find_puts_global_before_app(bs: Seq<Binding>, combo: KeyCombo, i: int, j: int)
    requires
        0 <= i < j < spec_find(bs, combo).len(),
        spec_find(bs, combo)[j].source.spec_scope() == Scope::Global,
    ensures
        spec_find(bs, combo)[i].source.spec_scope() == Scope::Global,
{
    law_find_orders_exactly_the_claimants(bs, combo, spec_find(bs, combo)[i]);
    let f = spec_find(bs, combo);
    assert(binding_ord()(f[i], f[j]) <= 0);
}

proof fn lemma_global_count(group: Seq<Binding>)
    ensures
        global_count(group) <= group.len(),
        global_count(group) == 0 <==> forall|i: int|
            0 <= i < group.len() ==> (#[trigger] group[i]).source.spec_scope() == Scope::App,
    decreases group.len(),
{
    if group.len() > 0 {
        lemma_global_count(group.drop_last());
        if global_count(group) == 0 {
            assert forall|i: int| 0 <= i < group.len() implies (#[trigger] group[i]).source.spec_scope()
                == Scope::App by {
                if i < group.len() - 1 {
                    assert(group.drop_last()[i] == group[i]);
                }
            }
        }
        if forall|i: int|
            0 <= i < group.len() ==> (#[trigger] group[i]).source.spec_scope() == Scope::App {
            assert forall|i: int| 0 <= i < group.drop_last().len() implies (
            #[trigger] group.drop_last()[i]).source.spec_scope() == Scope::App by {
                assert(group.drop_last()[i] == group[i]);
            }
            assert(group.last().source.spec_scope() == Scope::App);
        }
    }
}

/// Who wins a combo, in every case: nobody exactly when no enabled
/// binding claims it; the frontmost app exactly when every claimant is
/// an app menu item; a global binding only when it sees the key first
/// and nothing else sits on its layer; contested when two or more share
/// the first layer.
pub proof fn law_winner_cases(bs: Seq<Binding>, combo: KeyCombo)
    ensures
        (spec_winner(spec_find(bs, combo)) == WinnerView::Nobody) <==> claimants(bs, combo).len() == 0,
        (spec_winner(spec_find(bs, combo)) == WinnerView::FrontmostApp) <==> (claimants(bs, combo).len() > 0
            && global_count(spec_find(bs, combo)) == 0),
        spec_winner(spec_find(bs, combo)) matches WinnerView::Global(b) ==> {
            &&& b == spec_find(bs, combo)[0]
            &&& b.enabled && b.combo == combo
            &&& b.source.spec_scope() == Scope::Global
            &&& forall|i: int|
                1 <= i < spec_find(bs, combo).len() ==> (#[trigger] spec_find(bs, combo)[i]).source.spec_layer()
                    != b.source.spec_layer()
        },
        spec_winner(spec_find(bs, combo)) matches WinnerView::Contested(l) ==> {
            &&& spec_find(bs, combo)[0].source.spec_layer() == l
            &&& l.spec_scope() == Scope::Global
            &&& exists|i: int|
                1 <= i < spec_find(bs, combo).len() && (#[trigger] spec_find(bs, combo)[i]).source.spec_layer()
                    == l
        },
{
    let f = spec_find(bs, combo);
    lemma_binding_order_total_preorder();
    lemma_sort_permutes(claimants(bs, combo), binding_ord());
    lemma_global_count(f);
    if f.len() > 0 {
        law_find_orders_exactly_the_claimants(bs, combo, f[0]);
        assert(f.contains(f[0]));
        if f[0].source.spec_scope() == Scope::App {
            assert forall|j: int| 0 <= j < f.len() implies (#[trigger] f[j]).source.spec_scope()
                == Scope::App by {
                if j > 0 && f[j].source.spec_scope() == Scope::Global {
                    law_find_puts_global_before_app(bs, combo, 0, j);
                }
            }
        }
    }
}

/// A combo is listed by `conflicts` exactly when its enabled claimants
/// conflict: two or more of them fire globally, or one does beside at
/// least one app menu item. In particular, apps reusing one shortcut in
/// their own menus are never a conflict, and every conflict has a global
/// binding and at least two claimants. The list is ordered by how the
/// combos render.
pub proof fn law_conflicts_are_exactly_the_clashing_combos(bs: Seq<Binding>, combo: KeyCombo)
    ensures
        spec_conflict_combos(bs).contains(combo) <==> spec_conflict_kind(spec_find(bs, combo)) is Some,
        spec_conflict_combos(bs).contains(combo) ==> global_count(spec_find(bs, combo)) >= 1
            && spec_find(bs, combo).len() >= 2,
        sorted_by(spec_conflict_combos(bs), combo_text_ord()),
{
    broadcast use vstd::seq_lib::group_to_multiset_ensures;
    lemma_combo_text_total_preorder();
    let ec = enabled_combos(bs);
    lemma_sort_sorted(conflicting(bs, ec), combo_text_ord());
    lemma_sort_permutes(conflicting(bs, ec), combo_text_ord());
    lemma_conflicting_contains(bs, ec, combo);
    lemma_enabled_combos_contains(bs, combo);
    let cc = spec_conflict_combos(bs);
    assert(cc.contains(combo) <==> cc.to_multiset().contains(combo));
    assert(conflicting(bs, ec).contains(combo) <==> conflicting(bs, ec).to_multiset().contains(combo));
    lemma_sort_permutes(claimants(bs, combo), binding_ord());
    lemma_global_count(spec_find(bs, combo));
    if claimants(bs, combo).len() == 0 {
        assert(spec_find(bs, combo).len() == 0);
    }
}

proof fn lemma_conflicting_contains(bs: Seq<Binding>, combos: Seq<KeyCombo>, combo: KeyCombo)
    ensures
        conflicting(bs, combos).contains(combo) <==> (combos.contains(combo) && spec_conflict_kind(
            spec_find(bs, combo),
        ) is Some),
    decreases combos.len(),
{
    if combos.len() > 0 {
        lemma_conflicting_contains(bs, combos.drop_last(), combo);
        let prev = conflicting(bs, combos.drop_last());
        assert(combos =~= combos.drop_last().push(combos.last()));
        lemma_push_contains(combos.drop_last(), combos.last(), combo);
        if spec_conflict_kind(spec_find(bs, combos.last())) is Some {
            lemma_push_contains(prev, combos.last(), combo);
        }
    }
}

proof fn lemma_push_contains<T>(s: Seq<T>, x: T, y: T)
    ensures
        s.push(x).contains(y) <==> (s.contains(y) || x == y),
{
    if s.contains(y) {
        let i = choose|i: int| 0 <= i < s.len() && s[i] == y;
        assert(s.push(x)[i] == y);
    }
    if s.push(x).contains(y) {
        let i = choose|i: int| 0 <= i < s.len() + 1 && s.push(x)[i] == y;
        if i < s.len() {
            assert(s[i] == y);
        }
    }
    assert(s.push(x)[s.len() as int] == x);
}

proof fn lemma_enabled_combos_contains(bs: Seq<Binding>, combo: KeyCombo)
    ensures
        enabled_combos(bs).contains(combo) <==> claimants(bs, combo).len() > 0,
    decreases bs.len(),
{
    if bs.len() > 0 {
        lemma_enabled_combos_contains(bs.drop_last(), combo);
        let prev = enabled_combos(bs.drop_last());
        if bs.last().enabled && !prev.contains(bs.last().combo) {
            lemma_push_contains(prev, bs.last().combo, combo);
        }
    }
}

} // verus!
