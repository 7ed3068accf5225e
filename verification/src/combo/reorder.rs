//! The text of a combo may name its modifiers in any order, and in any
//! ASCII case: parsing reads the same combo from every such spelling.

use vstd::prelude::*;

use super::modifiers::join_plus;
use super::parse::{
    combo_tokens, spec_parse_combo, spec_parse_key, spec_parse_modifier, spec_parse_modifiers,
    ParseFailure,
};
use super::readback::{law_parse_ignores_ascii_case, lemma_modifiers_meaning, lemma_split_join, some_token_holds};
use super::{KeyCombo, Modifiers};
use crate::text::{
    all_white, free_of, is_white_space, lemma_split_append_plain, lemma_split_nonempty,
    lemma_split_pieces_free, lemma_split_prepend_plain, lemma_trim_end_shape, lemma_trim_start_shape,
    lemma_trim_white_prefix, lemma_trim_white_suffix, lower_seq, split_spec, trim_spec,
};

verus! {

/// The `+`-separated pieces of a text, each trimmed.
pub open spec fn text_tokens(s: Seq<char>) -> Seq<Seq<char>> {
    split_spec(s, '+').map_values(|t: Seq<char>| trim_spec(t))
}

/// What parse makes of a list of trimmed tokens: no token may be empty;
/// all but the last are modifier names, the last is the key.
pub open spec fn parse_tokens(tokens: Seq<Seq<char>>) -> Result<KeyCombo, ParseFailure> {
    if exists|i: int| 0 <= i < tokens.len() && #[trigger] tokens[i].len() == 0 {
        Err(ParseFailure::Empty)
    } else {
        match spec_parse_modifiers(tokens.drop_last()) {
            Err(e) => Err(e),
            Ok(m) => match spec_parse_key(tokens.last()) {
                Err(e) => Err(e),
                Ok(k) => Ok(KeyCombo { modifiers: m, key: k }),
            },
        }
    }
}

/// Two parse outcomes agree on success, and on the combo when they succeed.
pub open spec fn same_success(a: Result<KeyCombo, ParseFailure>, b: Result<KeyCombo, ParseFailure>) -> bool {
    &&& a is Ok == b is Ok
    &&& a is Ok ==> a == b
}

/// Parsing a text depends on its trimmed `+`-separated pieces alone:
/// trimming the whole text first only removes whitespace that trimming
/// each piece removes anyway.
pub proof fn lemma_parse_by_tokens(s: Seq<char>)
    ensures
        spec_parse_combo(s) == parse_tokens(text_tokens(s)),
{
    let a = lemma_trim_start_shape(s);
    let y = s.skip(a);
    let b = lemma_trim_end_shape(y);
    let raw = trim_spec(s);
    let w1 = s.take(a);
    let w2 = y.skip(b);
    assert(raw == y.take(b));
    assert(s =~= w1 + raw + w2);
    assert forall|k: int| 0 <= k < w1.len() implies #[trigger] w1[k] != '+' by {
        assert(is_white_space(w1[k]));
    }
    assert forall|k: int| 0 <= k < w2.len() implies #[trigger] w2[k] != '+' by {
        assert(is_white_space(w2[k]));
    }
    let tt = text_tokens(s);
    if raw.len() == 0 {
        assert(b == 0);
        assert(y.skip(0) =~= y);
        assert(s =~= w1 + y);
        assert forall|k: int| 0 <= k < s.len() implies #[trigger] s[k] != '+' by {
            if k < a {
                assert(s[k] == w1[k]);
                assert(is_white_space(w1[k]));
            } else {
                assert(s[k] == y[k - a]);
                assert(is_white_space(y[k - a]));
            }
        }
        let e = Seq::<char>::empty();
        lemma_split_append_plain(e, s, '+');
        assert(e + s =~= s);
        assert(split_spec(e, '+') =~= seq![e]);
        assert(split_spec(s, '+') =~= seq![s]);
        assert(tt[0] == trim_spec(s));
        assert(tt[0].len() == 0);
    } else {
        lemma_split_nonempty(raw, '+');
        lemma_split_prepend_plain(w1, raw, '+');
        lemma_split_append_plain(w1 + raw, w2, '+');
        let r = split_spec(raw, '+');
        let q = split_spec(w1 + raw, '+');
        assert(q == r.update(0, w1 + r[0]));
        assert(split_spec(s, '+') == q.update(q.len() - 1, q.last() + w2));
        let ct = combo_tokens(raw);
        assert forall|k: int| 0 <= k < r.len() implies #[trigger] tt[k] == ct[k] by {
            lemma_trim_white_prefix(w1, r[k]);
            lemma_trim_white_suffix(r[k], w2);
            lemma_trim_white_suffix(w1 + r[k], w2);
            if k == 0 && k == r.len() - 1 {
                assert(split_spec(s, '+')[k] == (w1 + r[k]) + w2);
            } else if k == 0 {
                assert(split_spec(s, '+')[k] == w1 + r[k]);
            } else if k == r.len() - 1 {
                assert(split_spec(s, '+')[k] == r[k] + w2);
            } else {
                assert(split_spec(s, '+')[k] == r[k]);
            }
        }
        assert(tt =~= ct);
    }
}

/// Some index of `perm` holds `k`.
pub open spec fn hits(perm: Seq<int>, k: int) -> bool {
    exists|i: int| 0 <= i < perm.len() && perm[i] == k
}

/// `perm` is a permutation of `0..n`.
pub open spec fn is_permutation(perm: Seq<int>, n: int) -> bool {
    &&& perm.len() == n
    &&& forall|i: int| 0 <= i < n ==> 0 <= #[trigger] perm[i] < n
    &&& forall|i: int, j: int| 0 <= i < j < n ==> #[trigger] perm[i] != #[trigger] perm[j]
    &&& forall|k: int| 0 <= k < n ==> #[trigger] hits(perm, k)
}

/// The pieces before the last one put in the order `perm` gives; the
/// last piece, the key, stays last.
pub open spec fn reordered(parts: Seq<Seq<char>>, perm: Seq<int>) -> Seq<Seq<char>> {
    Seq::new(perm.len() as nat, |i: int| parts[perm[i]]).push(parts.last())
}

proof fn lemma_permuted_tokens_agree(ms: Seq<Seq<char>>, perm: Seq<int>)
    requires
        is_permutation(perm, ms.len() as int),
    ensures
        ({
            let ns = Seq::new(perm.len() as nat, |i: int| ms[perm[i]]);
            &&& (forall|i: int| 0 <= i < ns.len() ==> (#[trigger] spec_parse_modifier(ns[i])) is Ok)
                == (forall|i: int| 0 <= i < ms.len() ==> (#[trigger] spec_parse_modifier(ms[i])) is Ok)
            &&& forall|p: spec_fn(Modifiers) -> bool| #[trigger] some_token_holds(ns, p) == some_token_holds(ms, p)
        }),
{
    let ns = Seq::new(perm.len() as nat, |i: int| ms[perm[i]]);
    if forall|i: int| 0 <= i < ms.len() ==> (#[trigger] spec_parse_modifier(ms[i])) is Ok {
        assert forall|i: int| 0 <= i < ns.len() implies (#[trigger] spec_parse_modifier(ns[i])) is Ok by {
            assert(0 <= perm[i] < ms.len());
            assert(spec_parse_modifier(ms[perm[i]]) is Ok);
        }
    }
    if forall|i: int| 0 <= i < ns.len() ==> (#[trigger] spec_parse_modifier(ns[i])) is Ok {
        assert forall|k: int| 0 <= k < ms.len() implies (#[trigger] spec_parse_modifier(ms[k])) is Ok by {
            assert(hits(perm, k));
            let i = choose|i: int| 0 <= i < perm.len() && perm[i] == k;
            assert(spec_parse_modifier(ns[i]) is Ok);
        }
    }
    assert forall|p: spec_fn(Modifiers) -> bool| #[trigger] some_token_holds(ns, p) == some_token_holds(ms, p) by {
        if some_token_holds(ns, p) {
            let i = choose|i: int|
                0 <= i < ns.len() && (#[trigger] spec_parse_modifier(ns[i])) is Ok && p(spec_parse_modifier(ns[i])->Ok_0);
            assert(0 <= perm[i] < ms.len());
            assert(spec_parse_modifier(ms[perm[i]]) is Ok);
        }
        if some_token_holds(ms, p) {
            let k = choose|k: int|
                0 <= k < ms.len() && (#[trigger] spec_parse_modifier(ms[k])) is Ok && p(spec_parse_modifier(ms[k])->Ok_0);
            assert(hits(perm, k));
            let i = choose|i: int| 0 <= i < perm.len() && perm[i] == k;
            assert(spec_parse_modifier(ns[i]) is Ok);
        }
    }
}

proof fn lemma_parse_tokens_reordered(ts: Seq<Seq<char>>, perm: Seq<int>)
    requires
        ts.len() >= 1,
        is_permutation(perm, ts.len() - 1),
    ensures
        same_success(parse_tokens(reordered(ts, perm)), parse_tokens(ts)),
{
    let us = reordered(ts, perm);
    let ms = ts.drop_last();
    let ns = Seq::new(perm.len() as nat, |i: int| ms[perm[i]]);
    assert(us.drop_last() =~= ns);
    assert(us.last() == ts.last());
    assert((exists|i: int| 0 <= i < us.len() && #[trigger] us[i].len() == 0) == (exists|i: int|
        0 <= i < ts.len() && #[trigger] ts[i].len() == 0)) by {
        if exists|i: int| 0 <= i < us.len() && #[trigger] us[i].len() == 0 {
            let i = choose|i: int| 0 <= i < us.len() && #[trigger] us[i].len() == 0;
            if i < perm.len() {
                assert(us[i] == ts[perm[i]]);
            } else {
                assert(us[i] == ts[ts.len() - 1]);
            }
        }
        if exists|i: int| 0 <= i < ts.len() && #[trigger] ts[i].len() == 0 {
            let k = choose|k: int| 0 <= k < ts.len() && #[trigger] ts[k].len() == 0;
            if k < ms.len() {
                assert(hits(perm, k));
                let i = choose|i: int| 0 <= i < perm.len() && perm[i] == k;
                assert(us[i] == ts[k]);
            } else {
                assert(us[us.len() - 1] == ts[k]);
            }
        }
    }
    lemma_permuted_tokens_agree(ms, perm);
    lemma_modifiers_meaning(ms);
    lemma_modifiers_meaning(ns);
    if spec_parse_modifiers(ms) is Ok {
        let a = spec_parse_modifiers(ms)->Ok_0;
        let b = spec_parse_modifiers(ns)->Ok_0;
        assert(some_token_holds(ns, |x: Modifiers| x.cmd) == some_token_holds(ms, |x: Modifiers| x.cmd));
        assert(some_token_holds(ns, |x: Modifiers| x.opt) == some_token_holds(ms, |x: Modifiers| x.opt));
        assert(some_token_holds(ns, |x: Modifiers| x.ctrl) == some_token_holds(ms, |x: Modifiers| x.ctrl));
        assert(some_token_holds(ns, |x: Modifiers| x.shift) == some_token_holds(ms, |x: Modifiers| x.shift));
        assert(some_token_holds(ns, |x: Modifiers| x.fn_key) == some_token_holds(ms, |x: Modifiers| x.fn_key));
        assert(a == b);
    }
}

/// The order of the modifier names in a text does not matter: putting
/// the `+`-separated pieces before the last one in any order leaves the
/// text parsing, or failing, as before, and to the same combo. This holds
/// for every text, surrounding whitespace included (`" shift + cmd+3"`
/// reads as `cmd+shift+3`); which error a failing text reports can
/// change, since the first unknown name is the one quoted.
pub proof fn law_parse_ignores_modifier_order_in_text(s: Seq<char>, perm: Seq<int>)
    requires
        is_permutation(perm, split_spec(s, '+').len() - 1),
    ensures
        same_success(spec_parse_combo(join_plus(reordered(split_spec(s, '+'), perm))), spec_parse_combo(s)),
{
    let ps = split_spec(s, '+');
    lemma_split_nonempty(s, '+');
    lemma_split_pieces_free(s, '+');
    let rp = reordered(ps, perm);
    assert forall|k: int| 0 <= k < rp.len() implies free_of(#[trigger] rp[k], '+') by {
        if k < perm.len() {
            assert(rp[k] == ps[perm[k]]);
        } else {
            assert(rp[k] == ps[ps.len() - 1]);
        }
    }
    lemma_split_join(rp);
    let t = join_plus(rp);
    lemma_parse_by_tokens(s);
    lemma_parse_by_tokens(t);
    let ts = text_tokens(s);
    assert(text_tokens(t) =~= reordered(ts, perm));
    lemma_parse_tokens_reordered(ts, perm);
}

/// ASCII case and the order of the modifier names together: a text that
/// differs from another only in the ASCII case of its characters and in
/// the order of its modifier pieces (`SHIFT+cmd+F1` against
/// `cmd+shift+f1`) parses, or fails, alike, and to the same combo.
pub proof fn law_parse_ignores_case_and_modifier_order(s: Seq<char>, perm: Seq<int>, t: Seq<char>)
    requires
        is_permutation(perm, split_spec(s, '+').len() - 1),
        lower_seq(t) == lower_seq(join_plus(reordered(split_spec(s, '+'), perm))),
    ensures
        same_success(spec_parse_combo(t), spec_parse_combo(s)),
{
    let u = join_plus(reordered(split_spec(s, '+'), perm));
    law_parse_ignores_modifier_order_in_text(s, perm);
    law_parse_ignores_ascii_case(t);
    law_parse_ignores_ascii_case(u);
}


/// A modifier name, in lower case, names Command.
pub open spec fn names_cmd(l: Seq<char>) -> bool {
    l == "cmd"@ || l == "command"@
}

/// A modifier name, in lower case, names Option.
pub open spec fn names_opt(l: Seq<char>) -> bool {
    l == "opt"@ || l == "alt"@ || l == "option"@
}

/// A modifier name, in lower case, names Control.
pub open spec fn names_ctrl(l: Seq<char>) -> bool {
    l == "ctrl"@ || l == "control"@
}

/// A modifier name, in lower case, names Shift.
pub open spec fn names_shift(l: Seq<char>) -> bool {
    l == "shift"@
}

/// A modifier name, in lower case, names fn.
pub open spec fn names_fn(l: Seq<char>) -> bool {
    l == "fn"@ || l == "globe"@
}

proof fn lemma_modifier_name_flags(t: Seq<char>)
    ensures
        spec_parse_modifier(t) is Ok <==> {
            let l = lower_seq(t);
            names_cmd(l) || names_opt(l) || names_ctrl(l) || names_shift(l) || names_fn(l)
        },
        spec_parse_modifier(t) is Ok ==> {
            let l = lower_seq(t);
            let m = spec_parse_modifier(t)->Ok_0;
            &&& m.cmd == names_cmd(l)
            &&& m.opt == names_opt(l)
            &&& m.ctrl == names_ctrl(l)
            &&& m.shift == names_shift(l)
            &&& m.fn_key == names_fn(l)
        },
{
    reveal_strlit("cmd");
    reveal_strlit("command");
    reveal_strlit("opt");
    reveal_strlit("alt");
    reveal_strlit("option");
    reveal_strlit("ctrl");
    reveal_strlit("control");
    reveal_strlit("shift");
    reveal_strlit("fn");
    reveal_strlit("globe");
    assert("cmd"@.len() == 3 && "opt"@.len() == 3 && "alt"@.len() == 3 && "fn"@.len() == 2);
    assert("ctrl"@.len() == 4 && "shift"@.len() == 5 && "globe"@.len() == 5);
    assert("option"@.len() == 6 && "command"@.len() == 7 && "control"@.len() == 7);
    assert("cmd"@[0] != "opt"@[0] && "cmd"@[0] != "alt"@[0] && "opt"@[0] != "alt"@[0]);
    assert("shift"@[0] != "globe"@[0]);
    assert("command"@[2] != "control"@[2]);
    assert("cmd"@ != "opt"@ && "cmd"@ != "alt"@ && "opt"@ != "alt"@);
    assert("shift"@ != "globe"@);
    assert("command"@ != "control"@);
    let l = lower_seq(t);
    if names_cmd(l) {
        assert(!names_opt(l) && !names_ctrl(l) && !names_shift(l) && !names_fn(l));
    } else if names_opt(l) {
        assert(!names_ctrl(l) && !names_shift(l) && !names_fn(l));
    } else if names_ctrl(l) {
        assert(!names_shift(l) && !names_fn(l));
    } else if names_shift(l) {
        assert(!names_fn(l));
    }
}

/// A token parses to a modifier whose flags are those its name gives.
pub open spec fn flags_named(t: Seq<char>) -> bool {
    spec_parse_modifier(t) is Ok ==> {
        let l = lower_seq(t);
        let m = spec_parse_modifier(t)->Ok_0;
        &&& m.cmd == names_cmd(l)
        &&& m.opt == names_opt(l)
        &&& m.ctrl == names_ctrl(l)
        &&& m.shift == names_shift(l)
        &&& m.fn_key == names_fn(l)
    }
}

proof fn lemma_holds_by_name(ms: Seq<Seq<char>>, p: spec_fn(Modifiers) -> bool, q: spec_fn(Seq<char>) -> bool)
    requires
        forall|i: int| 0 <= i < ms.len() ==> (#[trigger] spec_parse_modifier(ms[i])) is Ok,
        forall|i: int| 0 <= i < ms.len() ==> p(spec_parse_modifier(#[trigger] ms[i])->Ok_0) == q(lower_seq(ms[i])),
    ensures
        some_token_holds(ms, p) == (exists|i: int| 0 <= i < ms.len() && q(lower_seq(#[trigger] ms[i]))),
{
    if some_token_holds(ms, p) {
        let i = choose|i: int|
            0 <= i < ms.len() && (#[trigger] spec_parse_modifier(ms[i])) is Ok && p(spec_parse_modifier(ms[i])->Ok_0);
        assert(q(lower_seq(ms[i])));
    }
    if exists|i: int| 0 <= i < ms.len() && q(lower_seq(#[trigger] ms[i])) {
        let i = choose|i: int| 0 <= i < ms.len() && q(lower_seq(#[trigger] ms[i]));
        assert(spec_parse_modifier(ms[i]) is Ok);
        assert(p(spec_parse_modifier(ms[i])->Ok_0));
    }
}

/// The modifiers a parsed combo holds are exactly the ones its modifier
/// pieces name, whatever their case and aliases: Command for `cmd` or
/// `command`, Option for `opt`, `alt` or `option`, Control for `ctrl`
/// or `control`, Shift for `shift`, fn for `fn` or `globe`; and a text
/// parses only if every piece before the key is one of these names. So
/// `control+k` and `ctrl+k` are the same combo, and so are the other
/// aliases and their canonical names.
pub proof fn law_parsed_modifiers_are_the_named_ones(s: Seq<char>)
    ensures
        spec_parse_combo(s) is Ok <==> {
            let ts = text_tokens(s);
            &&& forall|i: int| 0 <= i < ts.len() ==> (#[trigger] ts[i]).len() > 0
            &&& forall|i: int| 0 <= i < ts.len() - 1 ==> {
                let l = lower_seq(#[trigger] ts[i]);
                names_cmd(l) || names_opt(l) || names_ctrl(l) || names_shift(l) || names_fn(l)
            }
            &&& spec_parse_key(ts.last()) is Ok
        },
        spec_parse_combo(s) is Ok ==> {
            let ms = text_tokens(s).drop_last();
            let m = spec_parse_combo(s)->Ok_0.modifiers;
            &&& forall|i: int| 0 <= i < ms.len() ==> {
                let l = lower_seq(#[trigger] ms[i]);
                names_cmd(l) || names_opt(l) || names_ctrl(l) || names_shift(l) || names_fn(l)
            }
            &&& m.cmd == exists|i: int| 0 <= i < ms.len() && names_cmd(lower_seq(#[trigger] ms[i]))
            &&& m.opt == exists|i: int| 0 <= i < ms.len() && names_opt(lower_seq(#[trigger] ms[i]))
            &&& m.ctrl == exists|i: int| 0 <= i < ms.len() && names_ctrl(lower_seq(#[trigger] ms[i]))
            &&& m.shift == exists|i: int| 0 <= i < ms.len() && names_shift(lower_seq(#[trigger] ms[i]))
            &&& m.fn_key == exists|i: int| 0 <= i < ms.len() && names_fn(lower_seq(#[trigger] ms[i]))
        },
{
    lemma_parse_by_tokens(s);
    let ts = text_tokens(s);
    let ms = ts.drop_last();
    lemma_split_nonempty(s, '+');
    lemma_modifiers_meaning(ms);
    assert forall|i: int| 0 <= i < ms.len() implies flags_named(#[trigger] ms[i]) && (spec_parse_modifier(ms[i]) is Ok <==> {
        let l = lower_seq(ms[i]);
        names_cmd(l) || names_opt(l) || names_ctrl(l) || names_shift(l) || names_fn(l)
    }) by {
        lemma_modifier_name_flags(ms[i]);
    }
    assert forall|i: int| 0 <= i < ts.len() - 1 implies #[trigger] ts[i] == ms[i] by {}
    if spec_parse_combo(s) is Ok {
        assert(!(exists|i: int| 0 <= i < ts.len() && #[trigger] ts[i].len() == 0));
        assert(spec_parse_modifiers(ms) is Ok);
        lemma_modifiers_meaning(ms);
        let m = spec_parse_modifiers(ms)->Ok_0;
        assert(spec_parse_combo(s)->Ok_0.modifiers == m);
        assert forall|i: int| 0 <= i < ms.len() implies {
            let l = lower_seq(#[trigger] ms[i]);
            names_cmd(l) || names_opt(l) || names_ctrl(l) || names_shift(l) || names_fn(l)
        } by {
            assert(spec_parse_modifier(ms[i]) is Ok);
            lemma_modifier_name_flags(ms[i]);
        }
        assert forall|i: int| 0 <= i < ms.len() implies #[trigger] spec_parse_modifier(ms[i]) is Ok by {}
        assert forall|i: int| 0 <= i < ms.len() implies flags_named(#[trigger] ms[i]) by {
            lemma_modifier_name_flags(ms[i]);
        }
        lemma_holds_by_name(ms, |x: Modifiers| x.cmd, |l: Seq<char>| names_cmd(l));
        lemma_holds_by_name(ms, |x: Modifiers| x.opt, |l: Seq<char>| names_opt(l));
        lemma_holds_by_name(ms, |x: Modifiers| x.ctrl, |l: Seq<char>| names_ctrl(l));
        lemma_holds_by_name(ms, |x: Modifiers| x.shift, |l: Seq<char>| names_shift(l));
        lemma_holds_by_name(ms, |x: Modifiers| x.fn_key, |l: Seq<char>| names_fn(l));
    }
}

} // verus!
