//! Conflicts for a person, one block per combo naming the binding that
//! `wins` and every binding that `never fires`; and for a program, one
//! tab-separated row per binding with combo, kind, role, layer, owner and
//! action.

use vstd::prelude::*;

use crate::binding::{Binding, Layer};
use crate::combo::spec_combo_text;
use crate::hotkey_index::{refs_view, winner_view, Conflict, ConflictKind, Winner, WinnerView};
use crate::text::{chars_of, owned, pad_right, push_padded, push_str};

verus! {

pub open spec fn spec_kind_label(kind: ConflictKind) -> Seq<char> {
    match kind {
        ConflictKind::Contested => "contested"@,
        ConflictKind::Shadowed => "shadowed"@,
    }
}

pub fn kind_label(kind: ConflictKind) -> (s: &'static str)
    ensures
        s@ == spec_kind_label(kind),
{
    match kind {
        ConflictKind::Contested => "contested",
        ConflictKind::Shadowed => "shadowed",
    }
}

/// The role of the binding at `i` in a conflict with these bindings and
/// this winner. The winner is the first binding; a binding owned by the
/// winner's owner is the same function reachable twice, not a loser, and
/// has no role.
pub open spec fn spec_role(winner: WinnerView, bindings: Seq<Binding>, i: int) -> Option<Seq<char>> {
    match winner {
        WinnerView::Global(w) => if i == 0 {
            Some("wins"@)
        } else if bindings[i].source.spec_owner() == w.source.spec_owner() {
            None
        } else {
            Some("never fires"@)
        },
        WinnerView::Contested(layer) => if bindings[i].source.spec_layer() == layer {
            Some("contested"@)
        } else {
            Some("never fires"@)
        },
        _ => Some("app"@),
    }
}

/// Role of the binding at `i` in conflict `c`, as the rows name it.
pub fn role(c: &Conflict<'_>, i: usize) -> (r: Option<&'static str>)
    requires
        i < c.bindings@.len(),
    ensures
        match r {
            Some(s) => spec_role(winner_view(c.winner), refs_view(c.bindings@), i as int) == Some(s@),
            None => spec_role(winner_view(c.winner), refs_view(c.bindings@), i as int) is None,
        },
{
    let b = c.bindings[i];
    match c.winner {
        Winner::Global(w) => {
            if i == 0 {
                Some("wins")
            } else if crate::text::str_eq(w.source.owner(), b.source.owner()) {
                None
            } else {
                Some("never fires")
            }
        },
        Winner::Contested(layer) => {
            if b.source.layer() == layer {
                Some("contested")
            } else {
                Some("never fires")
            }
        },
        _ => Some("app"),
    }
}

/// `owner: action  [layer]`.
pub open spec fn spec_describe(b: Binding) -> Seq<char> {
    b.source.spec_owner() + ": "@ + b.label@ + "  ["@ + b.source.spec_layer().spec_name() + "]"@
}

pub fn describe(b: &Binding) -> (s: String)
    ensures
        s@ == spec_describe(*b),
{
    let mut s = owned(b.source.owner());
    push_str(&mut s, ": ");
    push_str(&mut s, b.label.as_str());
    push_str(&mut s, "  [");
    push_str(&mut s, b.source.layer().name());
    push_str(&mut s, "]");
    s
}

/// One line of a block: the heading padded to twelve columns, then the
/// binding.
pub open spec fn block_line(head: Seq<char>, b: Binding) -> Seq<char> {
    "  "@ + pad_right(head, 12) + " "@ + spec_describe(b) + "\n"@
}

/// The lines of `items`, the first under `heading` and the rest under a
/// blank heading.
pub open spec fn spec_lines(heading: Seq<char>, items: Seq<Binding>) -> Seq<char>
    decreases items.len(),
{
    if items.len() == 0 {
        Seq::empty()
    } else {
        spec_lines(heading, items.drop_last()) + block_line(
            if items.len() == 1 {
                heading
            } else {
                Seq::empty()
            },
            items.last(),
        )
    }
}

/// Appends the lines of `items` under `heading`.
pub fn push_lines(out: &mut String, heading: &str, items: &Vec<&Binding>)
    ensures
        final(out)@ == old(out)@ + spec_lines(heading@, refs_view(items@)),
{
    let ghost start = out@;
    let head = chars_of(heading);
    let none: Vec<char> = Vec::new();
    let mut i: usize = 0;
    while i < items.len()
        invariant
            i <= items@.len(),
            head@ == heading@,
            none@ == Seq::<char>::empty(),
            out@ == start + spec_lines(heading@, refs_view(items@).take(i as int)),
        decreases items@.len() - i,
    {
        let ghost before = refs_view(items@).take(i as int);
        assert(refs_view(items@).take(i + 1).drop_last() =~= before);
        assert(refs_view(items@).take(i + 1).last() == *items@[i as int]);
        push_str(out, "  ");
        if i == 0 {
            push_padded(out, head.as_slice(), 12);
        } else {
            push_padded(out, none.as_slice(), 12);
        }
        push_str(out, " ");
        let d = describe(items[i]);
        push_str(out, d.as_str());
        push_str(out, "\n");
        i = i + 1;
    }
    assert(refs_view(items@).take(items@.len() as int) =~= refs_view(items@));
}

/// The bindings whose owner is not `owner`.
pub open spec fn others(bs: Seq<Binding>, owner: Seq<char>) -> Seq<Binding> {
    bs.filter(|b: Binding| b.source.spec_owner() != owner)
}

/// The bindings on `layer`, and the rest.
pub open spec fn on_layer(bs: Seq<Binding>, layer: Layer) -> Seq<Binding> {
    bs.filter(|b: Binding| b.source.spec_layer() == layer)
}

pub open spec fn off_layer(bs: Seq<Binding>, layer: Layer) -> Seq<Binding> {
    bs.filter(|b: Binding| b.source.spec_layer() != layer)
}

/// A conflict as a block: the combo and its kind, then who wins and who
/// never fires; bindings owned by the winner's owner are the same
/// function reachable twice and are not listed as losers.
pub open spec fn spec_render(combo_text: Seq<char>, kind: ConflictKind, winner: WinnerView, bs: Seq<Binding>) -> Seq<char> {
    let head = combo_text + "  "@ + spec_kind_label(kind) + "\n"@;
    match winner {
        WinnerView::Global(w) => head + "  wins         "@ + spec_describe(w) + "\n"@ + spec_lines(
            "never fires"@,
            others(bs, w.source.spec_owner()),
        ),
        WinnerView::Contested(layer) => head + spec_lines("contested"@, on_layer(bs, layer)) + spec_lines(
            "never fires"@,
            off_layer(bs, layer),
        ),
        _ => head + spec_lines("bindings"@, bs),
    }
}

/// The references of `items` whose binding satisfies `keep`.
fn select<'a>(items: &Vec<&'a Binding>, owner: Option<&str>, layer: Option<Layer>, on: bool) -> (r: Vec<&'a Binding>)
    ensures
        owner is Some ==> refs_view(r@) == others(refs_view(items@), owner->0@),
        owner is None && layer is Some && on ==> refs_view(r@) == on_layer(refs_view(items@), layer->0),
        owner is None && layer is Some && !on ==> refs_view(r@) == off_layer(refs_view(items@), layer->0),
{
    let ghost all = refs_view(items@);
    let mut r: Vec<&'a Binding> = Vec::new();
    let mut i: usize = 0;
    while i < items.len()
        invariant
            i <= items@.len(),
            all == refs_view(items@),
            owner is Some ==> refs_view(r@) == others(all.take(i as int), owner->0@),
            owner is None && layer is Some && on ==> refs_view(r@) == on_layer(all.take(i as int), layer->0),
            owner is None && layer is Some && !on ==> refs_view(r@) == off_layer(all.take(i as int), layer->0),
        decreases items@.len() - i,
    {
        let b = items[i];
        proof {
            reveal(Seq::filter);
            assert(all.take(i + 1).drop_last() =~= all.take(i as int));
            assert(all.take(i + 1).last() == *b);
        }
        let keep = match owner {
            Some(o) => !crate::text::str_eq(b.source.owner(), o),
            None => match layer {
                Some(l) => (b.source.layer() == l) == on,
                None => false,
            },
        };
        if keep {
            r.push(b);
        }
        proof {
            assert(refs_view(r@) =~= (if keep { refs_view(r@).drop_last().push(*b) } else { refs_view(r@) }));
        }
        i = i + 1;
    }
    assert(all.take(items@.len() as int) =~= all);
    r
}

/// Render conflict `c` as a block.
pub fn render(c: &Conflict<'_>) -> (s: String)
    ensures
        s@ == spec_render(spec_combo_text(c.combo), c.kind, winner_view(c.winner), refs_view(c.bindings@)),
{
    let mut out = c.combo.to_string();
    push_str(&mut out, "  ");
    push_str(&mut out, kind_label(c.kind));
    push_str(&mut out, "\n");
    match c.winner {
        Winner::Global(w) => {
            push_str(&mut out, "  wins         ");
            let d = describe(w);
            push_str(&mut out, d.as_str());
            push_str(&mut out, "\n");
            let losers = select(&c.bindings, Some(w.source.owner()), None, false);
            push_lines(&mut out, "never fires", &losers);
        },
        Winner::Contested(layer) => {
            let contenders = select(&c.bindings, None, Some(layer), true);
            let rest = select(&c.bindings, None, Some(layer), false);
            push_lines(&mut out, "contested", &contenders);
            push_lines(&mut out, "never fires", &rest);
        },
        _ => {
            push_lines(&mut out, "bindings", &c.bindings);
        },
    }
    out
}


/// Rows of text, by view.
pub open spec fn rows_view(rows: Seq<Vec<String>>) -> Seq<Seq<Seq<char>>> {
    rows.map_values(|r: Vec<String>| r@.map_values(|t: String| t@))
}

/// The rows of the first `n` bindings of a conflict: one per binding with
/// a role, holding combo, kind, role, layer, owner and action.
pub open spec fn spec_conflict_rows(combo_text: Seq<char>, kind: ConflictKind, winner: WinnerView, bs: Seq<Binding>, n: nat) -> Seq<Seq<Seq<char>>>
    decreases n,
{
    if n == 0 {
        Seq::empty()
    } else {
        let prev = spec_conflict_rows(combo_text, kind, winner, bs, (n - 1) as nat);
        let b = bs[n - 1];
        match spec_role(winner, bs, n - 1) {
            Some(r) => prev.push(
                seq![
                    combo_text,
                    spec_kind_label(kind),
                    r,
                    b.source.spec_layer().spec_name(),
                    b.source.spec_owner(),
                    b.label@,
                ],
            ),
            None => prev,
        }
    }
}

/// The rows of every conflict, in order.
pub open spec fn spec_all_rows(cs: Seq<Conflict>) -> Seq<Seq<Seq<char>>>
    decreases cs.len(),
{
    if cs.len() == 0 {
        Seq::empty()
    } else {
        let c = cs.last();
        spec_all_rows(cs.drop_last()) + spec_conflict_rows(
            spec_combo_text(c.combo),
            c.kind,
            winner_view(c.winner),
            refs_view(c.bindings@),
            c.bindings@.len(),
        )
    }
}

/// One row per binding that has a role in a conflict.
pub fn conflict_rows(found: &Vec<Conflict<'_>>) -> (rows: Vec<Vec<String>>)
    ensures
        rows_view(rows@) == spec_all_rows(found@),
{
    let mut rows: Vec<Vec<String>> = Vec::new();
    let mut k: usize = 0;
    while k < found.len()
        invariant
            k <= found@.len(),
            rows_view(rows@) == spec_all_rows(found@.take(k as int)),
        decreases found@.len() - k,
    {
        let c = &found[k];
        assert(found@.take(k + 1).drop_last() =~= found@.take(k as int));
        let ghost base = rows_view(rows@);
        let ghost text = spec_combo_text(c.combo);
        let ghost bs = refs_view(c.bindings@);
        let combo = c.combo.to_string();
        let mut i: usize = 0;
        while i < c.bindings.len()
            invariant
                i <= c.bindings@.len(),
                combo@ == text,
                bs == refs_view(c.bindings@),
                rows_view(rows@) == base + spec_conflict_rows(text, c.kind, winner_view(c.winner), bs, i as nat),
            decreases c.bindings@.len() - i,
        {
            let b = c.bindings[i];
            assert(bs[i as int] == *b);
            match role(c, i) {
                Some(r) => {
                    let mut row: Vec<String> = Vec::new();
                    row.push(owned(combo.as_str()));
                    row.push(owned(kind_label(c.kind)));
                    row.push(owned(r));
                    row.push(owned(b.source.layer().name()));
                    row.push(owned(b.source.owner()));
                    row.push(owned(b.label.as_str()));
                    let ghost want = seq![
                        text,
                        spec_kind_label(c.kind),
                        r@,
                        b.source.spec_layer().spec_name(),
                        b.source.spec_owner(),
                        b.label@,
                    ];
                    assert(row@.map_values(|t: String| t@) =~= want);
                    let ghost old_rows = rows@;
                    rows.push(row);
                    assert(rows_view(rows@) =~= rows_view(old_rows).push(want));
                },
                None => {},
            }
            i = i + 1;
        }
        k = k + 1;
    }
    assert(found@.take(found@.len() as int) =~= found@);
    rows
}

/// A row as a line: fields separated by tabs.
pub open spec fn tsv_line(row: Seq<Seq<char>>) -> Seq<char>
    decreases row.len(),
{
    if row.len() == 0 {
        Seq::empty()
    } else if row.len() == 1 {
        row[0]
    } else {
        tsv_line(row.drop_last()) + "\t"@ + row.last()
    }
}

/// Rows as tab-separated lines, each ended by a newline.
pub open spec fn spec_tsv(rows: Seq<Seq<Seq<char>>>) -> Seq<char>
    decreases rows.len(),
{
    if rows.len() == 0 {
        Seq::empty()
    } else {
        spec_tsv(rows.drop_last()) + tsv_line(rows.last()) + "\n"@
    }
}

pub fn tsv(rows: &Vec<Vec<String>>) -> (s: String)
    ensures
        s@ == spec_tsv(rows_view(rows@)),
{
    let mut s = String::new();
    let mut k: usize = 0;
    while k < rows.len()
        invariant
            k <= rows@.len(),
            s@ == spec_tsv(rows_view(rows@).take(k as int)),
        decreases rows@.len() - k,
    {
        assert(rows_view(rows@).take(k + 1).drop_last() =~= rows_view(rows@).take(k as int));
        let row = &rows[k];
        let ghost rv = row@.map_values(|t: String| t@);
        assert(rows_view(rows@).take(k + 1).last() == rv);
        let ghost start = s@;
        let mut j: usize = 0;
        while j < row.len()
            invariant
                j <= row@.len(),
                rv == row@.map_values(|t: String| t@),
                s@ == start + tsv_line(rv.take(j as int)),
            decreases row@.len() - j,
        {
            assert(rv.take(j + 1).drop_last() =~= rv.take(j as int));
            if j > 0 {
                push_str(&mut s, "\t");
            } else {
                assert(tsv_line(rv.take(0)) =~= Seq::<char>::empty());
            }
            push_str(&mut s, row[j].as_str());
            j = j + 1;
        }
        assert(rv.take(row@.len() as int) =~= rv);
        push_str(&mut s, "\n");
        k = k + 1;
    }
    assert(rows_view(rows@).take(rows@.len() as int) =~= rows_view(rows@));
    s
}

} // verus!
