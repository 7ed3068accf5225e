//! What the merge of the plist, the defaults table and the live table
//! promises for every input.

use vstd::prelude::*;

use super::known::{known_table, KnownHotkey};
use super::live::{spec_live_combo, LiveHotkey};
use super::overrides::{override_for, unique_ids, Override};
use super::{
    default_entries, extra_entries, id_ord, lookup_last, moved, override_pairs, resolve_default,
    spec_id_for, spec_live_entries, spec_plist_entries, stored_combo, table_pairs, SystemEntry,
};
use crate::combo::KeyCombo;
use crate::order::{is_total_preorder, lemma_sort_permutes, lemma_sort_sorted, sort_spec};

verus! {

/// Some entry of `es` has this combo and enabled state.
pub open spec fn has_pair(es: Seq<SystemEntry>, c: KeyCombo, en: bool) -> bool {
    exists|i: int| 0 <= i < es.len() && (#[trigger] es[i]).combo == c && es[i].enabled == en
}

/// Some row of the live table has a key giving this combo, in this state.
pub open spec fn row_gives(rows: Seq<LiveHotkey>, c: KeyCombo, en: bool) -> bool {
    exists|k: int| 0 <= k < rows.len() && spec_live_combo(#[trigger] rows[k]) == Some(c) && rows[k].enabled == en
}

/// The bindings of a live table are its distinct `(combo, enabled)`
/// pairs: rows without a key are skipped, a repeated pair collapses into
/// one binding, every row with a key is represented, and nothing comes
/// out that no row gave.
pub proof fn law_live_entries_are_the_distinct_keyed_rows(rows: Seq<LiveHotkey>, ov: Seq<(u32, Override)>)
    ensures
        forall|i: int, j: int|
            0 <= i < j < spec_live_entries(rows, ov).len() ==> !(
            (#[trigger] spec_live_entries(rows, ov)[i]).combo == (#[trigger] spec_live_entries(rows, ov)[j]).combo
                && spec_live_entries(rows, ov)[i].enabled == spec_live_entries(rows, ov)[j].enabled),
        forall|k: int|
            0 <= k < rows.len() && spec_live_combo(#[trigger] rows[k]) is Some ==> has_pair(
                spec_live_entries(rows, ov),
                spec_live_combo(rows[k])->0,
                rows[k].enabled,
            ),
        forall|i: int|
            0 <= i < spec_live_entries(rows, ov).len() ==> row_gives(
                rows,
                (#[trigger] spec_live_entries(rows, ov)[i]).combo,
                spec_live_entries(rows, ov)[i].enabled,
            ),
    decreases rows.len(),
{
    let es = spec_live_entries(rows, ov);
    if rows.len() > 0 {
        let prev_rows = rows.drop_last();
        law_live_entries_are_the_distinct_keyed_rows(prev_rows, ov);
        let prev = spec_live_entries(prev_rows, ov);
        let row = rows.last();
        assert(es.len() >= prev.len());
        assert forall|i: int| 0 <= i < prev.len() implies es[i] == prev[i] by {}
        assert forall|k: int| 0 <= k < rows.len() && spec_live_combo(#[trigger] rows[k]) is Some implies has_pair(
            es,
            spec_live_combo(rows[k])->0,
            rows[k].enabled,
        ) by {
            if k < prev_rows.len() {
                assert(prev_rows[k] == rows[k]);
                let i = choose|i: int|
                    0 <= i < prev.len() && (#[trigger] prev[i]).combo == spec_live_combo(rows[k])->0
                        && prev[i].enabled == rows[k].enabled;
                assert(es[i] == prev[i]);
            } else {
                let c = spec_live_combo(row)->0;
                if has_pair(prev, c, row.enabled) {
                    let i = choose|i: int|
                        0 <= i < prev.len() && (#[trigger] prev[i]).combo == c && prev[i].enabled == row.enabled;
                    assert(es[i] == prev[i]);
                } else {
                    assert(es[prev.len() as int].combo == c);
                }
            }
        }
        assert forall|i: int| 0 <= i < es.len() implies row_gives(rows, (#[trigger] es[i]).combo, es[i].enabled) by {
            if i < prev.len() {
                assert(es[i] == prev[i]);
                assert(row_gives(prev_rows, prev[i].combo, prev[i].enabled));
                let k = choose|k: int|
                    0 <= k < prev_rows.len() && spec_live_combo(#[trigger] prev_rows[k]) == Some(prev[i].combo)
                        && prev_rows[k].enabled == prev[i].enabled;
                assert(rows[k] == prev_rows[k]);
            } else {
                assert(rows[rows.len() - 1] == row);
            }
        }
    }
}

/// Every triple of the defaults comes from a default of the table, with
/// its combo and state resolved through the plist.
proof fn lemma_default_entries_resolve(t: Seq<KnownHotkey>, ov: Seq<(u32, Override)>, j: int)
    requires
        0 <= j < default_entries(t, ov).len(),
    ensures
        exists|k: int|
            0 <= k < t.len() && (#[trigger] t[k]).combo is Some && default_entries(t, ov)[j] == (
                t[k].id,
                resolve_default(t[k], t[k].combo->0, override_for(ov, t[k].id)).0,
                resolve_default(t[k], t[k].combo->0, override_for(ov, t[k].id)).1,
            ),
    decreases t.len(),
{
    let prev = default_entries(t.drop_last(), ov);
    if j < prev.len() {
        lemma_default_entries_resolve(t.drop_last(), ov, j);
        let k = choose|k: int|
            0 <= k < t.drop_last().len() && (#[trigger] t.drop_last()[k]).combo is Some
                && prev[j] == (
                t.drop_last()[k].id,
                resolve_default(t.drop_last()[k], t.drop_last()[k].combo->0, override_for(ov, t.drop_last()[k].id)).0,
                resolve_default(t.drop_last()[k], t.drop_last()[k].combo->0, override_for(ov, t.drop_last()[k].id)).1,
            );
        assert(t[k] == t.drop_last()[k]);
    } else {
        assert(t[t.len() - 1] == t.last());
    }
}

/// Every default of the table that has a combo yields its triple.
proof fn lemma_default_entries_cover(t: Seq<KnownHotkey>, ov: Seq<(u32, Override)>, k: int)
    requires
        0 <= k < t.len(),
        t[k].combo is Some,
    ensures
        default_entries(t, ov).contains(
            (
                t[k].id,
                resolve_default(t[k], t[k].combo->0, override_for(ov, t[k].id)).0,
                resolve_default(t[k], t[k].combo->0, override_for(ov, t[k].id)).1,
            ),
        ),
    decreases t.len(),
{
    let prev = default_entries(t.drop_last(), ov);
    let x = (
        t[k].id,
        resolve_default(t[k], t[k].combo->0, override_for(ov, t[k].id)).0,
        resolve_default(t[k], t[k].combo->0, override_for(ov, t[k].id)).1,
    );
    if k < t.len() - 1 {
        assert(t.drop_last()[k] == t[k]);
        lemma_default_entries_cover(t.drop_last(), ov, k);
        let i = choose|i: int| 0 <= i < prev.len() && prev[i] == x;
        assert(default_entries(t, ov)[i] == x);
    } else {
        assert(default_entries(t, ov)[prev.len() as int] == x);
    }
}

/// With ids unique, the override recorded for the id of an entry is that
/// entry's.
proof fn lemma_override_for_unique(ov: Seq<(u32, Override)>, k: int)
    requires
        unique_ids(ov),
        0 <= k < ov.len(),
    ensures
        override_for(ov, ov[k].0) == Some(ov[k].1),
    decreases ov.len(),
{
    if k < ov.len() - 1 {
        assert(ov[k].0 != ov[ov.len() - 1].0);
        assert(unique_ids(ov.drop_last()));
        assert(ov.drop_last()[k] == ov[k]);
        lemma_override_for_unique(ov.drop_last(), k);
    }
}

/// An entry of the extras that is on comes from a custom combo the plist
/// records for its id.
proof fn lemma_extra_entries_on(ov: Seq<(u32, Override)>, j: int)
    requires
        0 <= j < extra_entries(ov).len(),
        extra_entries(ov)[j].2,
    ensures
        exists|k: int|
            0 <= k < ov.len() && (#[trigger] ov[k]).0 == extra_entries(ov)[j].0 && ov[k].1
                == Override::Custom(extra_entries(ov)[j].1),
    decreases ov.len(),
{
    let prev = extra_entries(ov.drop_last());
    if j < prev.len() {
        lemma_extra_entries_on(ov.drop_last(), j);
        let k = choose|k: int|
            0 <= k < ov.drop_last().len() && (#[trigger] ov.drop_last()[k]).0 == prev[j].0
                && ov.drop_last()[k].1 == Override::Custom(prev[j].1);
        assert(ov[k] == ov.drop_last()[k]);
    } else {
        assert(ov[ov.len() - 1] == ov.last());
    }
}

proof fn lemma_id_ord_total()
    ensures
        is_total_preorder(id_ord()),
{
}

/// An id the plist switches off is never reported on: the entry keeps
/// the combo the plist stores for it, or the default, but is off.
pub proof fn law_switched_off_ids_stay_off(ov: Seq<(u32, Override)>, id: u32)
    requires
        unique_ids(ov),
        override_for(ov, id) matches Some(Override::Disabled(_)),
    ensures
        forall|i: int|
            0 <= i < spec_plist_entries(ov).len() && (#[trigger] spec_plist_entries(ov)[i]).id == Some(id)
                ==> !spec_plist_entries(ov)[i].enabled,
{
    broadcast use vstd::seq_lib::group_to_multiset_ensures;

    let d = default_entries(known_table(), ov);
    let e = extra_entries(ov);
    let all = d + e;
    let sorted = sort_spec(all, id_ord());
    lemma_sort_permutes(all, id_ord());
    assert forall|i: int| 0 <= i < spec_plist_entries(ov).len() && (#[trigger] spec_plist_entries(ov)[i]).id == Some(id)
        implies !spec_plist_entries(ov)[i].enabled by {
        let t = sorted[i];
        assert(sorted.contains(t));
        assert(sorted.to_multiset().count(t) > 0);
        assert(all.to_multiset().count(t) > 0);
        assert(all.contains(t));
        let j = choose|j: int| 0 <= j < all.len() && all[j] == t;
        assert(t.0 == id);
        if j < d.len() {
            lemma_default_entries_resolve(known_table(), ov, j);
        } else {
            assert(e[j - d.len()] == t);
            if t.2 {
                lemma_extra_entries_on(ov, j - d.len());
                let k = choose|k: int| 0 <= k < ov.len() && (#[trigger] ov[k]).0 == t.0 && ov[k].1 == Override::Custom(t.1);
                lemma_override_for_unique(ov, k);
            }
        }
    }
}

/// Every default with a combo is reported under its id, with the combo
/// and state the plist resolves for it, and the entries come in order of
/// id.
pub proof fn law_every_default_is_reported_in_id_order(ov: Seq<(u32, Override)>)
    ensures
        forall|k: int|
            0 <= k < known_table().len() && (#[trigger] known_table()[k]).combo is Some ==> exists|i: int|
                0 <= i < spec_plist_entries(ov).len() && (#[trigger] spec_plist_entries(ov)[i]).id == Some(
                    known_table()[k].id,
                ) && (spec_plist_entries(ov)[i].combo, spec_plist_entries(ov)[i].enabled) == resolve_default(
                    known_table()[k],
                    known_table()[k].combo->0,
                    override_for(ov, known_table()[k].id),
                ),
        forall|i: int, j: int|
            0 <= i < j < spec_plist_entries(ov).len() ==> (#[trigger] spec_plist_entries(ov)[i]).id->0
                <= (#[trigger] spec_plist_entries(ov)[j]).id->0,
{
    broadcast use vstd::seq_lib::group_to_multiset_ensures;

    let t = known_table();
    let d = default_entries(t, ov);
    let all = d + extra_entries(ov);
    let sorted = sort_spec(all, id_ord());
    let es = spec_plist_entries(ov);
    lemma_sort_permutes(all, id_ord());
    lemma_id_ord_total();
    lemma_sort_sorted(all, id_ord());
    assert forall|k: int| 0 <= k < t.len() && (#[trigger] t[k]).combo is Some implies exists|i: int|
        0 <= i < es.len() && (#[trigger] es[i]).id == Some(t[k].id) && (es[i].combo, es[i].enabled)
            == resolve_default(t[k], t[k].combo->0, override_for(ov, t[k].id)) by {
        let r = resolve_default(t[k], t[k].combo->0, override_for(ov, t[k].id));
        let x = (t[k].id, r.0, r.1);
        lemma_default_entries_cover(t, ov, k);
        let j = choose|j: int| 0 <= j < d.len() && d[j] == x;
        assert(all[j] == x);
        assert(all.contains(x));
        assert(all.to_multiset().count(x) > 0);
        assert(sorted.to_multiset().count(x) > 0);
        assert(sorted.contains(x));
        let i = choose|i: int| 0 <= i < sorted.len() && sorted[i] == x;
        assert(es[i].id == Some(t[k].id));
    }
    assert forall|i: int, j: int| 0 <= i < j < es.len() implies (#[trigger] es[i]).id->0 <= (#[trigger] es[j]).id->0 by {
        assert(id_ord()(sorted[i], sorted[j]) <= 0);
    }
}


/// A found id comes from a pair with that combo.
proof fn lemma_lookup_found(pairs: Seq<(KeyCombo, u32)>, combo: KeyCombo)
    ensures
        lookup_last(pairs, combo) matches Some(x) ==> exists|i: int|
            0 <= i < pairs.len() && #[trigger] pairs[i] == (combo, x),
    decreases pairs.len(),
{
    if pairs.len() > 0 {
        lemma_lookup_found(pairs.drop_last(), combo);
        if let Some(x) = lookup_last(pairs, combo) {
            if pairs.last().0 == combo {
                assert(pairs[pairs.len() - 1] == (combo, x));
            } else {
                let i = choose|i: int| 0 <= i < pairs.len() - 1 && #[trigger] pairs.drop_last()[i] == (combo, x);
                assert(pairs[i] == (combo, x));
            }
        }
    }
}

/// A hit in the later part of a sequence is the hit of the whole.
proof fn lemma_lookup_suffix(a: Seq<(KeyCombo, u32)>, b: Seq<(KeyCombo, u32)>, combo: KeyCombo)
    requires
        lookup_last(b, combo) is Some,
    ensures
        lookup_last(a + b, combo) == lookup_last(b, combo),
    decreases b.len(),
{
    assert(b.len() > 0);
    assert((a + b).last() == b.last());
    assert((a + b).drop_last() =~= a + b.drop_last());
    if b.last().0 != combo {
        lemma_lookup_suffix(a, b.drop_last(), combo);
    }
}

/// No default pair carries an id the plist gives a combo of its own.
proof fn lemma_table_pairs_skip_moved(t: Seq<KnownHotkey>, ov: Seq<(u32, Override)>, id: u32)
    requires
        moved(ov, id),
    ensures
        forall|i: int| 0 <= i < table_pairs(t, ov).len() ==> (#[trigger] table_pairs(t, ov)[i]).1 != id,
    decreases t.len(),
{
    if t.len() > 0 {
        let prev = table_pairs(t.drop_last(), ov);
        lemma_table_pairs_skip_moved(t.drop_last(), ov, id);
        if let Some(c) = t.last().combo {
            if !moved(ov, t.last().id) {
                let tp = prev.push((c, t.last().id));
                assert(table_pairs(t, ov) == tp);
                assert forall|i: int| 0 <= i < tp.len() implies (#[trigger] tp[i]).1 != id by {
                    if i < prev.len() {
                        assert(tp[i] == prev[i]);
                    }
                }
            }
        }
    }
}

/// Every plist pair is an entry's id with the combo the entry stores.
proof fn lemma_override_pairs_from(ov: Seq<(u32, Override)>)
    ensures
        forall|i: int| 0 <= i < override_pairs(ov).len() ==> exists|k: int|
            0 <= k < ov.len() && (#[trigger] ov[k]).0 == (#[trigger] override_pairs(ov)[i]).1
                && stored_combo(ov[k].1) == Some(override_pairs(ov)[i].0),
    decreases ov.len(),
{
    if ov.len() > 0 {
        let p = ov.drop_last();
        lemma_override_pairs_from(p);
        assert forall|i: int| 0 <= i < override_pairs(ov).len() implies exists|k: int|
            0 <= k < ov.len() && (#[trigger] ov[k]).0 == (#[trigger] override_pairs(ov)[i]).1
                && stored_combo(ov[k].1) == Some(override_pairs(ov)[i].0) by {
            if i < override_pairs(p).len() {
                let k = choose|k: int| 0 <= k < p.len() && (#[trigger] p[k]).0 == (#[trigger] override_pairs(p)[i]).1
                    && stored_combo(p[k].1) == Some(override_pairs(p)[i].0);
                assert(ov[k] == p[k]);
            } else {
                assert(ov[ov.len() - 1] == ov.last());
            }
        }
    }
}

/// The entry at `k` is the last one storing `c`, so `c` looks up to it.
proof fn lemma_override_pairs_last(ov: Seq<(u32, Override)>, k: int, c: KeyCombo)
    requires
        0 <= k < ov.len(),
        stored_combo(ov[k].1) == Some(c),
        forall|j: int| k < j < ov.len() ==> stored_combo((#[trigger] ov[j]).1) != Some(c),
    ensures
        lookup_last(override_pairs(ov), c) == Some(ov[k].0),
    decreases ov.len(),
{
    assert(ov.last() == ov[ov.len() - 1]);
    let p = ov.drop_last();
    let prev = override_pairs(p);
    if k == ov.len() - 1 {
        match ov.last().1 {
            Override::Custom(x) => assert(override_pairs(ov) == prev.push((x, ov.last().0))),
            Override::Disabled(Some(x)) => assert(override_pairs(ov) == prev.push((x, ov.last().0))),
            _ => {},
        }
    } else {
        match ov.last().1 {
            Override::Custom(x) => {
                assert(override_pairs(ov) == prev.push((x, ov.last().0)));
                assert(prev.push((x, ov.last().0)).drop_last() =~= prev);
            },
            Override::Disabled(Some(x)) => {
                assert(override_pairs(ov) == prev.push((x, ov.last().0)));
                assert(prev.push((x, ov.last().0)).drop_last() =~= prev);
            },
            _ => {},
        }
        assert forall|j: int| k < j < p.len() implies stored_combo((#[trigger] p[j]).1) != Some(c) by {
            assert(p[j] == ov[j]);
        }
        assert(p[k] == ov[k]);
        lemma_override_pairs_last(p, k, c);
    }
}

/// Moving an id to a combo of its own takes it off every other combo:
/// once the plist stores `c` for the id of entry `k` (ids unique), no
/// other combo looks up to that id, and `c` does unless a later entry
/// stores `c` too. If Spotlight (64) is moved to ⌥Space, ⌘Space is no
/// longer 64 and ⌥Space is.
pub proof fn law_moved_id_leaves_its_default(ov: Seq<(u32, Override)>, k: int, d: KeyCombo)
    requires
        unique_ids(ov),
        0 <= k < ov.len(),
        stored_combo(ov[k].1) is Some,
    ensures
        d != stored_combo(ov[k].1)->0 ==> spec_id_for(ov, d) != Some(ov[k].0),
        (forall|j: int| k < j < ov.len() ==> stored_combo((#[trigger] ov[j]).1) != stored_combo(ov[k].1))
            ==> spec_id_for(ov, stored_combo(ov[k].1)->0) == Some(ov[k].0),
{
    let id = ov[k].0;
    let c = stored_combo(ov[k].1)->0;
    let tp = table_pairs(known_table(), ov);
    let op = override_pairs(ov);
    let all = tp + op;
    assert(moved(ov, id));
    if d != c {
        lemma_lookup_found(all, d);
        if spec_id_for(ov, d) == Some(id) {
            let i = choose|i: int| 0 <= i < all.len() && #[trigger] all[i] == (d, id);
            lemma_table_pairs_skip_moved(known_table(), ov, id);
            if i < tp.len() {
                assert(tp[i] == all[i]);
            } else {
                lemma_override_pairs_from(ov);
                assert(op[i - tp.len()] == all[i]);
                let q = choose|q: int| 0 <= q < ov.len() && (#[trigger] ov[q]).0 == (#[trigger] op[i - tp.len()]).1
                    && stored_combo(ov[q].1) == Some(op[i - tp.len()].0);
                if q != k {
                    if q < k {
                        assert(ov[q].0 != ov[k].0);
                    } else {
                        assert(ov[k].0 != ov[q].0);
                    }
                }
            }
        }
    }
    if forall|j: int| k < j < ov.len() ==> stored_combo((#[trigger] ov[j]).1) != stored_combo(ov[k].1) {
        lemma_override_pairs_last(ov, k, c);
        lemma_lookup_suffix(tp, op, c);
    }
}

} // verus!
