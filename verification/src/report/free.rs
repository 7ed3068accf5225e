//! Which combos with a given set of modifiers are unused: `free` when
//! nothing is bound, `app-menu` when only app menu items use it (free as
//! a global hotkey, at the cost of those items), `taken` when a global
//! binding owns it.

use vstd::prelude::*;

use crate::binding::{Binding, Scope};
use crate::combo::{spec_combo_text, spec_parse_combo, ComboParseError, Key, KeyCombo, Modifiers, NamedKey, ParseFailure};
use crate::hotkey_index::{claimants, law_find_orders_exactly_the_claimants, refs_view, spec_find, HotkeyIndex};
use crate::text::{chars_of, compare_chars, lemma_text_order_antisym, lemma_text_order_trans, owned, push_str, text_order};

verus! {

pub open spec fn spec_candidate_keys() -> Seq<Key> {
    seq![
        Key::Char('a'),
        Key::Char('b'),
        Key::Char('c'),
        Key::Char('d'),
        Key::Char('e'),
        Key::Char('f'),
        Key::Char('g'),
        Key::Char('h'),
        Key::Char('i'),
        Key::Char('j'),
        Key::Char('k'),
        Key::Char('l'),
        Key::Char('m'),
        Key::Char('n'),
        Key::Char('o'),
        Key::Char('p'),
        Key::Char('q'),
        Key::Char('r'),
        Key::Char('s'),
        Key::Char('t'),
        Key::Char('u'),
        Key::Char('v'),
        Key::Char('w'),
        Key::Char('x'),
        Key::Char('y'),
        Key::Char('z'),
        Key::Char('0'),
        Key::Char('1'),
        Key::Char('2'),
        Key::Char('3'),
        Key::Char('4'),
        Key::Char('5'),
        Key::Char('6'),
        Key::Char('7'),
        Key::Char('8'),
        Key::Char('9'),
        Key::Char('`'),
        Key::Char('-'),
        Key::Char('='),
        Key::Char('['),
        Key::Char(']'),
        Key::Char('\\'),
        Key::Char(';'),
        Key::Char('\''),
        Key::Char(','),
        Key::Char('.'),
        Key::Char('/'),
        Key::Named(NamedKey::Space),
        Key::Named(NamedKey::Return),
        Key::Named(NamedKey::Tab),
        Key::Named(NamedKey::Escape),
        Key::Named(NamedKey::Up),
        Key::Named(NamedKey::Down),
        Key::Named(NamedKey::Left),
        Key::Named(NamedKey::Right),
        Key::Named(NamedKey::F1),
        Key::Named(NamedKey::F2),
        Key::Named(NamedKey::F3),
        Key::Named(NamedKey::F4),
        Key::Named(NamedKey::F5),
        Key::Named(NamedKey::F6),
        Key::Named(NamedKey::F7),
        Key::Named(NamedKey::F8),
        Key::Named(NamedKey::F9),
        Key::Named(NamedKey::F10),
        Key::Named(NamedKey::F11),
        Key::Named(NamedKey::F12),
    ]
}

/// Where a key stands in the list `free` tries: letters from 0, digits
/// from 26, punctuation from 36, named keys from 47; `-1` for any other.
spec fn rank(k: Key) -> int {
    match k {
        Key::Char(c) => if 'a' <= c && c <= 'z' {
            c as int - 97
        } else if '0' <= c && c <= '9' {
            c as int - 48 + 26
        } else if c == '`' {
            36
        } else if c == '-' {
            37
        } else if c == '=' {
            38
        } else if c == '[' {
            39
        } else if c == ']' {
            40
        } else if c == '\\' {
            41
        } else if c == ';' {
            42
        } else if c == '\'' {
            43
        } else if c == ',' {
            44
        } else if c == '.' {
            45
        } else if c == '/' {
            46
        } else {
            -1
        },
        Key::Named(n) => match n {
            NamedKey::Space => 47,
            NamedKey::Return => 48,
            NamedKey::Tab => 49,
            NamedKey::Escape => 50,
            NamedKey::Up => 51,
            NamedKey::Down => 52,
            NamedKey::Left => 53,
            NamedKey::Right => 54,
            NamedKey::F1 => 55,
            NamedKey::F2 => 56,
            NamedKey::F3 => 57,
            NamedKey::F4 => 58,
            NamedKey::F5 => 59,
            NamedKey::F6 => 60,
            NamedKey::F7 => 61,
            NamedKey::F8 => 62,
            NamedKey::F9 => 63,
            NamedKey::F10 => 64,
            NamedKey::F11 => 65,
            NamedKey::F12 => 66,
            _ => -1,
        },
        Key::Virtual(_) => -1,
    }
}

/// The punctuation keys offered: `` ` - = [ ] \\ ; ' , . / ``.
pub open spec fn offered_punctuation(c: char) -> bool {
    c == '`' || c == '-' || c == '=' || c == '[' || c == ']' || c == '\\' || c == ';' || c == '\''
        || c == ',' || c == '.' || c == '/'
}

/// The named keys offered: Space, Return, Tab, Escape, the arrows and
/// F1–F12.
pub open spec fn offered_named(n: NamedKey) -> bool {
    match n {
        NamedKey::Space | NamedKey::Return | NamedKey::Tab | NamedKey::Escape | NamedKey::Up
        | NamedKey::Down | NamedKey::Left | NamedKey::Right | NamedKey::F1 | NamedKey::F2
        | NamedKey::F3 | NamedKey::F4 | NamedKey::F5 | NamedKey::F6 | NamedKey::F7 | NamedKey::F8
        | NamedKey::F9 | NamedKey::F10 | NamedKey::F11 | NamedKey::F12 => true,
        _ => false,
    }
}

/// A key `free` offers: a letter `a`–`z`, a digit, one of the
/// punctuation keys, or one of the named keys.
pub open spec fn offered(k: Key) -> bool {
    match k {
        Key::Char(c) => ('a' <= c && c <= 'z') || ('0' <= c && c <= '9') || offered_punctuation(c),
        Key::Named(n) => offered_named(n),
        Key::Virtual(_) => false,
    }
}

#[verifier::rlimit(50)]
proof fn lemma_candidate_positions()
    ensures
        spec_candidate_keys().len() == 67,
        forall|i: int| 0 <= i < spec_candidate_keys().len() ==> rank(#[trigger] spec_candidate_keys()[i]) == i
            && offered(spec_candidate_keys()[i]),
        forall|k: Key| offered(k) ==> 0 <= rank(k) < spec_candidate_keys().len() && #[trigger] spec_candidate_keys()[rank(k)] == k,
{
    let ks = spec_candidate_keys();
    assert(ks[0] == Key::Char('a'));
    assert(ks[1] == Key::Char('b'));
    assert(ks[2] == Key::Char('c'));
    assert(ks[3] == Key::Char('d'));
    assert(ks[4] == Key::Char('e'));
    assert(ks[5] == Key::Char('f'));
    assert(ks[6] == Key::Char('g'));
    assert(ks[7] == Key::Char('h'));
    assert(ks[8] == Key::Char('i'));
    assert(ks[9] == Key::Char('j'));
    assert(ks[10] == Key::Char('k'));
    assert(ks[11] == Key::Char('l'));
    assert(ks[12] == Key::Char('m'));
    assert(ks[13] == Key::Char('n'));
    assert(ks[14] == Key::Char('o'));
    assert(ks[15] == Key::Char('p'));
    assert(ks[16] == Key::Char('q'));
    assert(ks[17] == Key::Char('r'));
    assert(ks[18] == Key::Char('s'));
    assert(ks[19] == Key::Char('t'));
    assert(ks[20] == Key::Char('u'));
    assert(ks[21] == Key::Char('v'));
    assert(ks[22] == Key::Char('w'));
    assert(ks[23] == Key::Char('x'));
    assert(ks[24] == Key::Char('y'));
    assert(ks[25] == Key::Char('z'));
    assert(ks[26] == Key::Char('0'));
    assert(ks[27] == Key::Char('1'));
    assert(ks[28] == Key::Char('2'));
    assert(ks[29] == Key::Char('3'));
    assert(ks[30] == Key::Char('4'));
    assert(ks[31] == Key::Char('5'));
    assert(ks[32] == Key::Char('6'));
    assert(ks[33] == Key::Char('7'));
    assert(ks[34] == Key::Char('8'));
    assert(ks[35] == Key::Char('9'));
    assert(ks[36] == Key::Char('`'));
    assert(ks[37] == Key::Char('-'));
    assert(ks[38] == Key::Char('='));
    assert(ks[39] == Key::Char('['));
    assert(ks[40] == Key::Char(']'));
    assert(ks[41] == Key::Char('\\'));
    assert(ks[42] == Key::Char(';'));
    assert(ks[43] == Key::Char('\''));
    assert(ks[44] == Key::Char(','));
    assert(ks[45] == Key::Char('.'));
    assert(ks[46] == Key::Char('/'));
    assert(ks[47] == Key::Named(NamedKey::Space));
    assert(ks[48] == Key::Named(NamedKey::Return));
    assert(ks[49] == Key::Named(NamedKey::Tab));
    assert(ks[50] == Key::Named(NamedKey::Escape));
    assert(ks[51] == Key::Named(NamedKey::Up));
    assert(ks[52] == Key::Named(NamedKey::Down));
    assert(ks[53] == Key::Named(NamedKey::Left));
    assert(ks[54] == Key::Named(NamedKey::Right));
    assert(ks[55] == Key::Named(NamedKey::F1));
    assert(ks[56] == Key::Named(NamedKey::F2));
    assert(ks[57] == Key::Named(NamedKey::F3));
    assert(ks[58] == Key::Named(NamedKey::F4));
    assert(ks[59] == Key::Named(NamedKey::F5));
    assert(ks[60] == Key::Named(NamedKey::F6));
    assert(ks[61] == Key::Named(NamedKey::F7));
    assert(ks[62] == Key::Named(NamedKey::F8));
    assert(ks[63] == Key::Named(NamedKey::F9));
    assert(ks[64] == Key::Named(NamedKey::F10));
    assert(ks[65] == Key::Named(NamedKey::F11));
    assert(ks[66] == Key::Named(NamedKey::F12));
    assert forall|i: int| 0 <= i < ks.len() implies rank(#[trigger] ks[i]) == i && offered(ks[i]) by {
        if i == 0 {
            assert(rank(ks[0]) == 0 && offered(ks[0]));
        } else if i == 1 {
            assert(rank(ks[1]) == 1 && offered(ks[1]));
        } else if i == 2 {
            assert(rank(ks[2]) == 2 && offered(ks[2]));
        } else if i == 3 {
            assert(rank(ks[3]) == 3 && offered(ks[3]));
        } else if i == 4 {
            assert(rank(ks[4]) == 4 && offered(ks[4]));
        } else if i == 5 {
            assert(rank(ks[5]) == 5 && offered(ks[5]));
        } else if i == 6 {
            assert(rank(ks[6]) == 6 && offered(ks[6]));
        } else if i == 7 {
            assert(rank(ks[7]) == 7 && offered(ks[7]));
        } else if i == 8 {
            assert(rank(ks[8]) == 8 && offered(ks[8]));
        } else if i == 9 {
            assert(rank(ks[9]) == 9 && offered(ks[9]));
        } else if i == 10 {
            assert(rank(ks[10]) == 10 && offered(ks[10]));
        } else if i == 11 {
            assert(rank(ks[11]) == 11 && offered(ks[11]));
        } else if i == 12 {
            assert(rank(ks[12]) == 12 && offered(ks[12]));
        } else if i == 13 {
            assert(rank(ks[13]) == 13 && offered(ks[13]));
        } else if i == 14 {
            assert(rank(ks[14]) == 14 && offered(ks[14]));
        } else if i == 15 {
            assert(rank(ks[15]) == 15 && offered(ks[15]));
        } else if i == 16 {
            assert(rank(ks[16]) == 16 && offered(ks[16]));
        } else if i == 17 {
            assert(rank(ks[17]) == 17 && offered(ks[17]));
        } else if i == 18 {
            assert(rank(ks[18]) == 18 && offered(ks[18]));
        } else if i == 19 {
            assert(rank(ks[19]) == 19 && offered(ks[19]));
        } else if i == 20 {
            assert(rank(ks[20]) == 20 && offered(ks[20]));
        } else if i == 21 {
            assert(rank(ks[21]) == 21 && offered(ks[21]));
        } else if i == 22 {
            assert(rank(ks[22]) == 22 && offered(ks[22]));
        } else if i == 23 {
            assert(rank(ks[23]) == 23 && offered(ks[23]));
        } else if i == 24 {
            assert(rank(ks[24]) == 24 && offered(ks[24]));
        } else if i == 25 {
            assert(rank(ks[25]) == 25 && offered(ks[25]));
        } else if i == 26 {
            assert(rank(ks[26]) == 26 && offered(ks[26]));
        } else if i == 27 {
            assert(rank(ks[27]) == 27 && offered(ks[27]));
        } else if i == 28 {
            assert(rank(ks[28]) == 28 && offered(ks[28]));
        } else if i == 29 {
            assert(rank(ks[29]) == 29 && offered(ks[29]));
        } else if i == 30 {
            assert(rank(ks[30]) == 30 && offered(ks[30]));
        } else if i == 31 {
            assert(rank(ks[31]) == 31 && offered(ks[31]));
        } else if i == 32 {
            assert(rank(ks[32]) == 32 && offered(ks[32]));
        } else if i == 33 {
            assert(rank(ks[33]) == 33 && offered(ks[33]));
        } else if i == 34 {
            assert(rank(ks[34]) == 34 && offered(ks[34]));
        } else if i == 35 {
            assert(rank(ks[35]) == 35 && offered(ks[35]));
        } else if i == 36 {
            assert(rank(ks[36]) == 36 && offered(ks[36]));
        } else if i == 37 {
            assert(rank(ks[37]) == 37 && offered(ks[37]));
        } else if i == 38 {
            assert(rank(ks[38]) == 38 && offered(ks[38]));
        } else if i == 39 {
            assert(rank(ks[39]) == 39 && offered(ks[39]));
        } else if i == 40 {
            assert(rank(ks[40]) == 40 && offered(ks[40]));
        } else if i == 41 {
            assert(rank(ks[41]) == 41 && offered(ks[41]));
        } else if i == 42 {
            assert(rank(ks[42]) == 42 && offered(ks[42]));
        } else if i == 43 {
            assert(rank(ks[43]) == 43 && offered(ks[43]));
        } else if i == 44 {
            assert(rank(ks[44]) == 44 && offered(ks[44]));
        } else if i == 45 {
            assert(rank(ks[45]) == 45 && offered(ks[45]));
        } else if i == 46 {
            assert(rank(ks[46]) == 46 && offered(ks[46]));
        } else if i == 47 {
            assert(rank(ks[47]) == 47 && offered(ks[47]));
        } else if i == 48 {
            assert(rank(ks[48]) == 48 && offered(ks[48]));
        } else if i == 49 {
            assert(rank(ks[49]) == 49 && offered(ks[49]));
        } else if i == 50 {
            assert(rank(ks[50]) == 50 && offered(ks[50]));
        } else if i == 51 {
            assert(rank(ks[51]) == 51 && offered(ks[51]));
        } else if i == 52 {
            assert(rank(ks[52]) == 52 && offered(ks[52]));
        } else if i == 53 {
            assert(rank(ks[53]) == 53 && offered(ks[53]));
        } else if i == 54 {
            assert(rank(ks[54]) == 54 && offered(ks[54]));
        } else if i == 55 {
            assert(rank(ks[55]) == 55 && offered(ks[55]));
        } else if i == 56 {
            assert(rank(ks[56]) == 56 && offered(ks[56]));
        } else if i == 57 {
            assert(rank(ks[57]) == 57 && offered(ks[57]));
        } else if i == 58 {
            assert(rank(ks[58]) == 58 && offered(ks[58]));
        } else if i == 59 {
            assert(rank(ks[59]) == 59 && offered(ks[59]));
        } else if i == 60 {
            assert(rank(ks[60]) == 60 && offered(ks[60]));
        } else if i == 61 {
            assert(rank(ks[61]) == 61 && offered(ks[61]));
        } else if i == 62 {
            assert(rank(ks[62]) == 62 && offered(ks[62]));
        } else if i == 63 {
            assert(rank(ks[63]) == 63 && offered(ks[63]));
        } else if i == 64 {
            assert(rank(ks[64]) == 64 && offered(ks[64]));
        } else if i == 65 {
            assert(rank(ks[65]) == 65 && offered(ks[65]));
        } else {
            assert(i == 66);
            assert(rank(ks[66]) == 66 && offered(ks[66]));
        }
    }
    assert forall|k: Key| offered(k) implies 0 <= rank(k) < ks.len() && #[trigger] ks[rank(k)] == k by {
        let i = rank(k);
        assert(0 <= i < ks.len());
        assert(rank(ks[i]) == i);
    }
}

/// `free` tries every letter `a`–`z`, every digit, the punctuation keys
/// and the named keys that commonly carry shortcuts, each exactly once,
/// and nothing else.
pub proof fn law_candidate_keys_offer_each_key_once(k: Key)
    ensures
        spec_candidate_keys().no_duplicates(),
        spec_candidate_keys().contains(k) <==> offered(k),
{
    let ks = spec_candidate_keys();
    lemma_candidate_positions();
    assert forall|i: int, j: int| 0 <= i < ks.len() && 0 <= j < ks.len() && i != j implies ks[i] != ks[j] by {
        assert(rank(ks[i]) == i && rank(ks[j]) == j);
    }
    if ks.contains(k) {
        let i = choose|i: int| 0 <= i < ks.len() && ks[i] == k;
        assert(offered(ks[i]));
    }
    if offered(k) {
        assert(ks[rank(k)] == k);
    }
}

/// Keys worth offering: every printable ANSI key plus the named keys that
/// commonly carry shortcuts.
pub fn candidate_keys() -> (keys: Vec<Key>)
    ensures
        keys@ == spec_candidate_keys(),
{
    let keys = vec![
        Key::Char('a'),
        Key::Char('b'),
        Key::Char('c'),
        Key::Char('d'),
        Key::Char('e'),
        Key::Char('f'),
        Key::Char('g'),
        Key::Char('h'),
        Key::Char('i'),
        Key::Char('j'),
        Key::Char('k'),
        Key::Char('l'),
        Key::Char('m'),
        Key::Char('n'),
        Key::Char('o'),
        Key::Char('p'),
        Key::Char('q'),
        Key::Char('r'),
        Key::Char('s'),
        Key::Char('t'),
        Key::Char('u'),
        Key::Char('v'),
        Key::Char('w'),
        Key::Char('x'),
        Key::Char('y'),
        Key::Char('z'),
        Key::Char('0'),
        Key::Char('1'),
        Key::Char('2'),
        Key::Char('3'),
        Key::Char('4'),
        Key::Char('5'),
        Key::Char('6'),
        Key::Char('7'),
        Key::Char('8'),
        Key::Char('9'),
        Key::Char('`'),
        Key::Char('-'),
        Key::Char('='),
        Key::Char('['),
        Key::Char(']'),
        Key::Char('\\'),
        Key::Char(';'),
        Key::Char('\''),
        Key::Char(','),
        Key::Char('.'),
        Key::Char('/'),
        Key::Named(NamedKey::Space),
        Key::Named(NamedKey::Return),
        Key::Named(NamedKey::Tab),
        Key::Named(NamedKey::Escape),
        Key::Named(NamedKey::Up),
        Key::Named(NamedKey::Down),
        Key::Named(NamedKey::Left),
        Key::Named(NamedKey::Right),
        Key::Named(NamedKey::F1),
        Key::Named(NamedKey::F2),
        Key::Named(NamedKey::F3),
        Key::Named(NamedKey::F4),
        Key::Named(NamedKey::F5),
        Key::Named(NamedKey::F6),
        Key::Named(NamedKey::F7),
        Key::Named(NamedKey::F8),
        Key::Named(NamedKey::F9),
        Key::Named(NamedKey::F10),
        Key::Named(NamedKey::F11),
        Key::Named(NamedKey::F12),
    ];
    assert(keys@ =~= spec_candidate_keys());
    keys
}

/// Where a combo stands.
#[derive(Debug, Clone, Copy, PartialEq, Eq, Structural)]
pub enum FreeStatus {
    /// Nothing enabled is bound to it.
    Free,
    /// Only app menu items use it.
    AppMenusOnly,
    /// A global binding owns it.
    Taken,
}

/// The status of a combo given its claimants.
pub open spec fn spec_free_status(group: Seq<Binding>) -> FreeStatus {
    if group.len() == 0 {
        FreeStatus::Free
    } else if forall|i: int| 0 <= i < group.len() ==> (#[trigger] group[i]).source.spec_scope() == Scope::App {
        FreeStatus::AppMenusOnly
    } else {
        FreeStatus::Taken
    }
}

/// The stable name of a status, as the JSON rows carry it.
pub open spec fn spec_status_name(s: FreeStatus) -> Seq<char> {
    match s {
        FreeStatus::Free => "free"@,
        FreeStatus::AppMenusOnly => "app_menus_only"@,
        FreeStatus::Taken => "taken"@,
    }
}

impl FreeStatus {
    pub fn name(self) -> (s: &'static str)
        ensures
            s@ == spec_status_name(self),
    {
        match self {
            FreeStatus::Free => "free",
            FreeStatus::AppMenusOnly => "app_menus_only",
            FreeStatus::Taken => "taken",
        }
    }
}

/// Decide the status of a combo from its claimants.
pub fn free_status(group: &Vec<&Binding>) -> (s: FreeStatus)
    ensures
        s == spec_free_status(refs_view(group@)),
{
    if group.len() == 0 {
        return FreeStatus::Free;
    }
    let ghost g = refs_view(group@);
    let mut i: usize = 0;
    while i < group.len()
        invariant
            i <= group@.len(),
            g == refs_view(group@),
            forall|q: int| 0 <= q < i ==> (#[trigger] g[q]).source.spec_scope() == Scope::App,
        decreases group@.len() - i,
    {
        match group[i].source.scope() {
            Scope::App => {},
            Scope::Global => {
                assert(g[i as int].source.spec_scope() == Scope::Global);
                return FreeStatus::Taken;
            },
        }
        i = i + 1;
    }
    FreeStatus::AppMenusOnly
}

/// A free combo means nothing enabled is bound to it; app-menu-only
/// means something is, and all of it are app menu items; taken means an
/// enabled global binding claims it.
pub proof fn law_free_status_meaning(bs: Seq<Binding>, combo: KeyCombo)
    ensures
        spec_free_status(spec_find(bs, combo)) == FreeStatus::Free <==> !exists|i: int|
            0 <= i < bs.len() && (#[trigger] bs[i]).enabled && bs[i].combo == combo,
        spec_free_status(spec_find(bs, combo)) == FreeStatus::Taken <==> exists|i: int|
            0 <= i < bs.len() && (#[trigger] bs[i]).enabled && bs[i].combo == combo
                && bs[i].source.spec_scope() == Scope::Global,
{
    let f = spec_find(bs, combo);
    if exists|i: int| 0 <= i < bs.len() && (#[trigger] bs[i]).enabled && bs[i].combo == combo {
        let i = choose|i: int| 0 <= i < bs.len() && (#[trigger] bs[i]).enabled && bs[i].combo == combo;
        law_find_orders_exactly_the_claimants(bs, combo, bs[i]);
        assert(bs.contains(bs[i]));
    }
    if f.len() > 0 {
        law_find_orders_exactly_the_claimants(bs, combo, f[0]);
        assert(f.contains(f[0]));
    }
    if spec_free_status(f) == FreeStatus::Taken {
        let q = choose|q: int| 0 <= q < f.len() && !((#[trigger] f[q]).source.spec_scope() == Scope::App);
        law_find_orders_exactly_the_claimants(bs, combo, f[q]);
        assert(f.contains(f[q]));
        let i = choose|i: int| 0 <= i < bs.len() && bs[i] == f[q];
        assert(bs[i].source.spec_scope() == Scope::Global);
    }
    if exists|i: int|
        0 <= i < bs.len() && (#[trigger] bs[i]).enabled && bs[i].combo == combo && bs[i].source.spec_scope()
            == Scope::Global {
        let i = choose|i: int|
            0 <= i < bs.len() && (#[trigger] bs[i]).enabled && bs[i].combo == combo && bs[i].source.spec_scope()
                == Scope::Global;
        law_find_orders_exactly_the_claimants(bs, combo, bs[i]);
        assert(bs.contains(bs[i]));
        let q = choose|q: int| 0 <= q < f.len() && f[q] == bs[i];
        assert(f[q].source.spec_scope() == Scope::Global);
    }
}

/// The candidate combos with these modifiers, in candidate order.
pub open spec fn candidate_combos(m: Modifiers) -> Seq<KeyCombo> {
    spec_candidate_keys().map_values(|k: Key| KeyCombo { modifiers: m, key: k })
}

/// The candidate combos with status `st` among `bs`.
pub open spec fn with_status(bs: Seq<Binding>, m: Modifiers, st: FreeStatus) -> Seq<KeyCombo> {
    candidate_combos(m).filter(|c: KeyCombo| spec_free_status(spec_find(bs, c)) == st)
}

proof fn lemma_filter_keeps_distinct(s: Seq<KeyCombo>, p: spec_fn(KeyCombo) -> bool)
    requires
        s.no_duplicates(),
    ensures
        s.filter(p).no_duplicates(),
    decreases s.len(),
{
    if s.len() > 0 {
        let d = s.drop_last();
        let x = s.last();
        assert(s =~= d.push(x));
        assert(d.no_duplicates());
        lemma_filter_keeps_distinct(d, p);
        d.lemma_filter_push(x, p);
        if p(x) {
            if d.filter(p).contains(x) {
                d.lemma_filter_contains_rev(p, x);
                let i = choose|i: int| 0 <= i < d.len() && d[i] == x;
                assert(s[i] == s[s.len() - 1]);
            }
            let f = d.filter(p);
            assert forall|i: int, j: int| 0 <= i < f.push(x).len() && 0 <= j < f.push(x).len() && i != j
                implies f.push(x)[i] != f.push(x)[j] by {
                if i < f.len() && j < f.len() {
                } else if i < f.len() {
                    assert(f.push(x)[i] == f[i]);
                } else {
                    assert(f.push(x)[j] == f[j]);
                }
            }
        }
    }
}

/// `free` lists every offered key with the given modifiers exactly once:
/// the combo stands in the list of its own status and in no other, no
/// list repeats a combo, and nothing else is listed.
pub proof fn law_free_report_lists_each_offered_combo_once(bs: Seq<Binding>, m: Modifiers, k: Key, st: FreeStatus)
    ensures
        with_status(bs, m, st).no_duplicates(),
        with_status(bs, m, st).contains(KeyCombo { modifiers: m, key: k }) <==> (offered(k)
            && spec_free_status(spec_find(bs, KeyCombo { modifiers: m, key: k })) == st),
{
    broadcast use vstd::seq_lib::group_filter_ensures;

    let ks = spec_candidate_keys();
    let cc = candidate_combos(m);
    let c = KeyCombo { modifiers: m, key: k };
    let p = |x: KeyCombo| spec_free_status(spec_find(bs, x)) == st;
    lemma_candidate_positions();
    law_candidate_keys_offer_each_key_once(k);
    assert forall|i: int, j: int| 0 <= i < cc.len() && 0 <= j < cc.len() && i != j implies cc[i] != cc[j] by {
        assert(cc[i].key == ks[i] && cc[j].key == ks[j]);
    }
    lemma_filter_keeps_distinct(cc, p);
    assert(with_status(bs, m, st) == cc.filter(p));
    if cc.filter(p).contains(c) {
        cc.lemma_filter_contains_rev(p, c);
        let i = choose|i: int| 0 <= i < cc.len() && cc[i] == c;
        assert(cc[i].key == ks[i]);
        assert(ks.contains(k));
        assert(p(cc[i])) by {
            let f = cc.filter(p);
            let j = choose|j: int| 0 <= j < f.len() && f[j] == c;
            assert(p(f[j]));
        }
    }
    if offered(k) && p(c) {
        let i = rank(k);
        assert(cc[i] == c);
        assert(cc.filter(p).contains(cc[i]));
    }
}

/// The candidate combos sorted by where they stand; the used ones carry
/// their claimants, ordered like `find`.
pub struct FreeReport<'a> {
    pub free: Vec<KeyCombo>,
    pub app_only: Vec<(KeyCombo, Vec<&'a Binding>)>,
    pub taken: Vec<(KeyCombo, Vec<&'a Binding>)>,
}

pub open spec fn firsts<'a>(v: Seq<(KeyCombo, Vec<&'a Binding>)>) -> Seq<KeyCombo> {
    v.map_values(|p: (KeyCombo, Vec<&'a Binding>)| p.0)
}

pub open spec fn claims_listed<'a>(bs: Seq<Binding>, v: Seq<(KeyCombo, Vec<&'a Binding>)>) -> bool {
    forall|i: int| 0 <= i < v.len() ==> refs_view((#[trigger] v[i]).1@) == spec_find(bs, v[i].0)
}

/// Where every candidate combo with `modifiers` stands in `index`.
pub fn free_report<'a>(index: &'a HotkeyIndex, modifiers: Modifiers) -> (r: FreeReport<'a>)
    ensures
        r.free@ == with_status(index.spec_bindings(), modifiers, FreeStatus::Free),
        firsts(r.app_only@) == with_status(index.spec_bindings(), modifiers, FreeStatus::AppMenusOnly),
        firsts(r.taken@) == with_status(index.spec_bindings(), modifiers, FreeStatus::Taken),
        claims_listed(index.spec_bindings(), r.app_only@),
        claims_listed(index.spec_bindings(), r.taken@),
{
    let ghost bs = index.spec_bindings();
    let keys = candidate_keys();
    let ghost cands = candidate_combos(modifiers);
    let ghost p_free = |c: KeyCombo| spec_free_status(spec_find(bs, c)) == FreeStatus::Free;
    let ghost p_app = |c: KeyCombo| spec_free_status(spec_find(bs, c)) == FreeStatus::AppMenusOnly;
    let ghost p_taken = |c: KeyCombo| spec_free_status(spec_find(bs, c)) == FreeStatus::Taken;
    let mut free: Vec<KeyCombo> = Vec::new();
    let mut app_only: Vec<(KeyCombo, Vec<&'a Binding>)> = Vec::new();
    let mut taken: Vec<(KeyCombo, Vec<&'a Binding>)> = Vec::new();
    let mut i: usize = 0;
    while i < keys.len()
        invariant
            i <= keys@.len(),
            keys@ == spec_candidate_keys(),
            cands == candidate_combos(modifiers),
            bs == index.spec_bindings(),
            p_free == (|c: KeyCombo| spec_free_status(spec_find(bs, c)) == FreeStatus::Free),
            p_app == (|c: KeyCombo| spec_free_status(spec_find(bs, c)) == FreeStatus::AppMenusOnly),
            p_taken == (|c: KeyCombo| spec_free_status(spec_find(bs, c)) == FreeStatus::Taken),
            free@ == cands.take(i as int).filter(p_free),
            firsts(app_only@) == cands.take(i as int).filter(p_app),
            firsts(taken@) == cands.take(i as int).filter(p_taken),
            claims_listed(bs, app_only@),
            claims_listed(bs, taken@),
        decreases keys@.len() - i,
    {
        let combo = KeyCombo { modifiers, key: keys[i] };
        assert(cands[i as int] == combo);
        let found = index.find(&combo);
        let st = free_status(&found);
        let ghost fa = app_only@;
        let ghost ft = taken@;
        match st {
            FreeStatus::Free => {
                free.push(combo);
            },
            FreeStatus::AppMenusOnly => {
                app_only.push((combo, found));
                assert(firsts(app_only@) =~= firsts(fa).push(combo));
            },
            FreeStatus::Taken => {
                taken.push((combo, found));
                assert(firsts(taken@) =~= firsts(ft).push(combo));
            },
        }
        proof {
            reveal(Seq::filter);
            assert(cands.take(i + 1).drop_last() =~= cands.take(i as int));
            assert(cands.take(i + 1).last() == combo);
        }
        i = i + 1;
    }
    assert(cands.take(keys@.len() as int) =~= cands);
    FreeReport { free, app_only, taken }
}

/// The owners of `bs`, sorted and each once.
pub open spec fn owners_exactly(r: Seq<Seq<char>>, bs: Seq<Binding>) -> bool {
    &&& forall|i: int, j: int| 0 <= i < j < r.len() ==> text_order(#[trigger] r[i], #[trigger] r[j]) < 0
    &&& forall|i: int| 0 <= i < r.len() ==> owned_by_some(bs, #[trigger] r[i])
    &&& forall|k: int| 0 <= k < bs.len() ==> listed(r, (#[trigger] bs[k]).source.spec_owner())
}

pub open spec fn owned_by_some(bs: Seq<Binding>, x: Seq<char>) -> bool {
    exists|k: int| 0 <= k < bs.len() && (#[trigger] bs[k]).source.spec_owner() == x
}

pub open spec fn listed(r: Seq<Seq<char>>, x: Seq<char>) -> bool {
    exists|i: int| 0 <= i < r.len() && #[trigger] r[i] == x
}

fn text_less(a: &str, b: &[char]) -> (r: bool)
    ensures
        r == (text_order(a@, b@) < 0),
{
    let t = chars_of(a);
    compare_chars(t.as_slice(), b) < 0
}

/// The distinct owners of `bs`, sorted.
pub fn owners(bs: &Vec<&Binding>) -> (r: Vec<String>)
    ensures
        owners_exactly(r@.map_values(|s: String| s@), refs_view(bs@)),
{
    let ghost all = refs_view(bs@);
    let mut r: Vec<String> = Vec::new();
    let mut k: usize = 0;
    while k < bs.len()
        invariant
            k <= bs@.len(),
            all == refs_view(bs@),
            owners_exactly(r@.map_values(|s: String| s@), all.take(k as int)),
        decreases bs@.len() - k,
    {
        let ghost rv = r@.map_values(|s: String| s@);
        let ghost pre = all.take(k as int);
        let ghost cur = all.take(k + 1);
        let o = chars_of(bs[k].source.owner());
        let ghost ov = o@;
        proof {
            assert(cur.drop_last() =~= pre);
            assert(cur[k as int] == all[k as int]);
            assert(ov == cur[k as int].source.spec_owner());
            assert forall|m: int| 0 <= m < pre.len() implies #[trigger] cur[m] == pre[m] by {}
        }
        let mut j: usize = 0;
        while j < r.len() && text_less(r[j].as_str(), o.as_slice())
            invariant
                j <= r@.len(),
                rv == r@.map_values(|s: String| s@),
                o@ == ov,
                forall|q: int| 0 <= q < j ==> text_order(#[trigger] rv[q], ov) < 0,
            decreases r@.len() - j,
        {
            j = j + 1;
        }
        let mut present = false;
        if j < r.len() {
            let t = chars_of(r[j].as_str());
            present = compare_chars(t.as_slice(), o.as_slice()) == 0;
        }
        proof {
            if j < rv.len() {
                lemma_text_order_antisym(rv[j as int], ov);
            }
        }
        if !present {
            let s = owned(bs[k].source.owner());
            r.insert(j, s);
            let ghost nv = r@.map_values(|s: String| s@);
            proof {
                assert(nv =~= rv.insert(j as int, ov));
                assert forall|p: int, q: int| 0 <= p < q < nv.len() implies text_order(#[trigger] nv[p], #[trigger] nv[q]) < 0 by {
                    if q < j {
                        assert(nv[p] == rv[p] && nv[q] == rv[q]);
                    } else if q == j {
                        assert(nv[p] == rv[p]);
                    } else if p == j {
                        assert(nv[q] == rv[q - 1]);
                        lemma_text_order_antisym(rv[j as int], ov);
                        if q - 1 > j {
                            lemma_text_order_trans(ov, rv[j as int], rv[q - 1]);
                        }
                    } else if p < j {
                        assert(nv[p] == rv[p] && nv[q] == rv[q - 1]);
                        lemma_text_order_antisym(rv[j as int], ov);
                        if q - 1 > j {
                            lemma_text_order_trans(ov, rv[j as int], rv[q - 1]);
                        }
                        lemma_text_order_trans(rv[p], ov, rv[q - 1]);
                    } else {
                        assert(nv[p] == rv[p - 1] && nv[q] == rv[q - 1]);
                    }
                }
                assert forall|i: int| 0 <= i < nv.len() implies owned_by_some(cur, #[trigger] nv[i]) by {
                    if i == j {
                        assert(cur[k as int].source.spec_owner() == nv[i]);
                    } else {
                        let i0 = if i < j { i } else { i - 1 };
                        assert(nv[i] == rv[i0]);
                        assert(owned_by_some(pre, rv[i0]));
                        let m = choose|m: int| 0 <= m < pre.len() && (#[trigger] pre[m]).source.spec_owner() == rv[i0];
                        assert(cur[m] == pre[m]);
                    }
                }
                assert forall|m: int| 0 <= m < cur.len() implies listed(nv, (#[trigger] cur[m]).source.spec_owner()) by {
                    if m == k {
                        assert(nv[j as int] == ov);
                    } else {
                        assert(cur[m] == pre[m]);
                        assert(listed(rv, pre[m].source.spec_owner()));
                        let i = choose|i: int| 0 <= i < rv.len() && #[trigger] rv[i] == pre[m].source.spec_owner();
                        if i < j {
                            assert(nv[i] == rv[i]);
                        } else {
                            assert(nv[i + 1] == rv[i]);
                        }
                    }
                }
            }
        } else {
            proof {
                assert(rv[j as int] == ov);
                assert forall|i: int| 0 <= i < rv.len() implies owned_by_some(cur, #[trigger] rv[i]) by {
                    assert(owned_by_some(pre, rv[i]));
                    let m = choose|m: int| 0 <= m < pre.len() && (#[trigger] pre[m]).source.spec_owner() == rv[i];
                    assert(cur[m] == pre[m]);
                }
                assert forall|m: int| 0 <= m < cur.len() implies listed(rv, (#[trigger] cur[m]).source.spec_owner()) by {
                    if m < k {
                        assert(cur[m] == pre[m]);
                    } else {
                        assert(rv[j as int] == ov);
                    }
                }
            }
        }
        k = k + 1;
    }
    assert(all.take(bs@.len() as int) =~= all);
    r
}

/// `owner: action` for each binding that fires globally.
pub open spec fn spec_owners_with_labels(bs: Seq<Binding>) -> Seq<Seq<char>>
    decreases bs.len(),
{
    if bs.len() == 0 {
        Seq::empty()
    } else {
        let prev = spec_owners_with_labels(bs.drop_last());
        let b = bs.last();
        if b.source.spec_scope() == Scope::Global {
            prev.push(b.source.spec_owner() + ": "@ + b.label@)
        } else {
            prev
        }
    }
}

pub fn owners_with_labels(bs: &Vec<&Binding>) -> (r: Vec<String>)
    ensures
        r@.map_values(|s: String| s@) == spec_owners_with_labels(refs_view(bs@)),
{
    let ghost all = refs_view(bs@);
    let mut r: Vec<String> = Vec::new();
    let mut k: usize = 0;
    while k < bs.len()
        invariant
            k <= bs@.len(),
            all == refs_view(bs@),
            r@.map_values(|s: String| s@) == spec_owners_with_labels(all.take(k as int)),
        decreases bs@.len() - k,
    {
        assert(all.take(k + 1).drop_last() =~= all.take(k as int));
        assert(all.take(k + 1).last() == *bs@[k as int]);
        let b = bs[k];
        match b.source.scope() {
            Scope::Global => {
                let mut s = owned(b.source.owner());
                push_str(&mut s, ": ");
                push_str(&mut s, b.label.as_str());
                let ghost before = r@;
                r.push(s);
                assert(r@.map_values(|s: String| s@) =~= before.map_values(|s: String| s@).push(s@));
            },
            Scope::App => {},
        }
        k = k + 1;
    }
    assert(all.take(bs@.len() as int) =~= all);
    r
}

/// The modifiers argument of `free` was not usable.
#[derive(Debug, Clone, PartialEq, Eq)]
pub enum FreeArgError {
    /// The modifiers did not parse.
    Parse(ComboParseError),
    /// No modifier was given.
    NoModifier,
}

/// Read the modifiers argument of `free` through the combo parser, by
/// appending a placeholder key; at least one modifier must be held.
pub fn parse_free_modifiers(arg: &str) -> (r: Result<Modifiers, FreeArgError>)
    ensures
        match spec_parse_combo(arg@ + "+a"@) {
            Ok(c) => if c.modifiers == Modifiers::none() {
                r == Err::<Modifiers, FreeArgError>(FreeArgError::NoModifier)
            } else {
                r == Ok::<Modifiers, FreeArgError>(c.modifiers)
            },
            Err(_) => r matches Err(FreeArgError::Parse(_)),
        },
{
    let mut text = owned(arg);
    push_str(&mut text, "+a");
    match KeyCombo::parse(text.as_str()) {
        Ok(c) => {
            if c.modifiers.is_empty() {
                Err(FreeArgError::NoModifier)
            } else {
                Ok(c.modifiers)
            }
        },
        Err(e) => Err(FreeArgError::Parse(e)),
    }
}


/// The room items take with their separators: each item's characters
/// plus two.
pub open spec fn total_width(items: Seq<Seq<char>>) -> nat
    decreases items.len(),
{
    if items.len() == 0 {
        0
    } else {
        total_width(items.drop_last()) + items.last().len() + 2
    }
}

/// The text of `items` joined with `", "` and broken into lines of about
/// `width` columns, and the column it ends at: an item that would run
/// past `width` starts a new line, indented by two, unless it is the
/// first on its line.
pub open spec fn wrap_state(items: Seq<Seq<char>>, width: nat) -> (Seq<char>, nat)
    decreases items.len(),
{
    if items.len() == 0 {
        (Seq::empty(), 0)
    } else {
        let (out, col) = wrap_state(items.drop_last(), width);
        let item = items.last();
        let sep: Seq<char> = if items.len() == 1 {
            Seq::empty()
        } else {
            ", "@
        };
        if col > 0 && col + sep.len() + item.len() > width {
            (out + ",\n  "@ + item, item.len())
        } else {
            (out + sep + item, col + sep.len() + item.len())
        }
    }
}

proof fn lemma_wrap_col(items: Seq<Seq<char>>, width: nat)
    ensures
        wrap_state(items, width).1 <= total_width(items),
    decreases items.len(),
{
    reveal_strlit(", ");
    if items.len() > 0 {
        lemma_wrap_col(items.drop_last(), width);
    }
}

/// Join items with `", "`, breaking lines at about `width` columns.
pub fn wrap(items: &Vec<String>, width: usize) -> (s: String)
    requires
        total_width(items@.map_values(|t: String| t@)) <= usize::MAX,
    ensures
        s@ == wrap_state(items@.map_values(|t: String| t@), width as nat).0,
{
    let ghost iv = items@.map_values(|t: String| t@);
    let mut out = String::new();
    let mut col: usize = 0;
    let mut i: usize = 0;
    proof {
        reveal_strlit(", ");
    }
    while i < items.len()
        invariant
            i <= items@.len(),
            iv == items@.map_values(|t: String| t@),
            total_width(iv) <= usize::MAX,
            ", "@.len() == 2,
            (out@, col as nat) == wrap_state(iv.take(i as int), width as nat),
        decreases items@.len() - i,
    {
        proof {
            assert(iv.take(i + 1).drop_last() =~= iv.take(i as int));
            assert(iv.take(i + 1).last() == items@[i as int]@);
            lemma_wrap_col(iv.take(i as int), width as nat);
            lemma_total_width_prefix(iv, i + 1);
        }
        let item = chars_of(items[i].as_str());
        let sep: &str = if i == 0 {
            ""
        } else {
            ", "
        };
        let sep_len: usize = if i == 0 {
            0
        } else {
            2
        };
        proof {
            reveal_strlit("");
        }
        if col > 0 && col + sep_len + item.len() > width {
            push_str(&mut out, ",\n  ");
            col = 0;
        } else {
            push_str(&mut out, sep);
            col = col + sep_len;
        }
        col = col + item.len();
        push_str(&mut out, items[i].as_str());
        i = i + 1;
    }
    assert(iv.take(items@.len() as int) =~= iv);
    out
}

proof fn lemma_total_width_prefix(items: Seq<Seq<char>>, n: int)
    requires
        0 <= n <= items.len(),
    ensures
        total_width(items.take(n)) <= total_width(items),
    decreases items.len(),
{
    if n < items.len() {
        assert(items.drop_last().take(n) =~= items.take(n));
        lemma_total_width_prefix(items.drop_last(), n);
    } else {
        assert(items.take(n) =~= items);
    }
}

} // verus!
