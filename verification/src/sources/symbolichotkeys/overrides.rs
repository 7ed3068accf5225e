//! What the user's `com.apple.symbolichotkeys.plist` says about each
//! symbolic hotkey id: switched off, on with the default combo, or bound
//! to a combo of their own.

use vstd::prelude::*;

use crate::combo::{vk_to_named, spec_vk_to_named, Key, KeyCombo, Modifiers};
use crate::error::ScanError;
use crate::sources::plist::{
    dict_get, dict_lookup, spec_as_boolean, spec_as_dictionary, spec_as_signed_integer,
    PlistRead, PlistValue,
};
use crate::text::{chars_of, owned, push_str};

verus! {

/// What the plist says about one id.
#[derive(Debug, Clone, Copy, PartialEq, Eq, Structural)]
pub enum Override {
    /// Switched off. Carries the combo the plist still stores for it, if
    /// any, so the entry can be reported as present-but-off.
    Disabled(Option<KeyCombo>),
    /// On, with macOS's built-in combo.
    EnabledWithDefault,
    /// Bound to this combo.
    Custom(KeyCombo),
}

/// `parameters` slot Apple writes when it is unset.
pub const UNSET: i64 = 65535;

// NSEvent modifier flag bits, from `AppKit/NSEvent.h`: Shift = 1 << 17,
// Control = 1 << 18, Option = 1 << 19, Command = 1 << 20,
// Function = 1 << 23.
pub const NS_SHIFT: u64 = 0x2_0000;
pub const NS_CTRL: u64 = 0x4_0000;
pub const NS_OPT: u64 = 0x8_0000;
pub const NS_CMD: u64 = 0x10_0000;
pub const NS_FN: u64 = 0x80_0000;

/// The modifiers of an NSEvent modifier mask.
pub open spec fn spec_decode_modifiers(mask: u64) -> Modifiers {
    Modifiers {
        cmd: mask & NS_CMD != 0,
        opt: mask & NS_OPT != 0,
        ctrl: mask & NS_CTRL != 0,
        shift: mask & NS_SHIFT != 0,
        fn_key: mask & NS_FN != 0,
    }
}

/// Decode an NSEvent modifier mask.
pub fn decode_modifiers(mask: u64) -> (m: Modifiers)
    ensures
        m == spec_decode_modifiers(mask),
{
    Modifiers {
        cmd: mask & NS_CMD != 0,
        opt: mask & NS_OPT != 0,
        ctrl: mask & NS_CTRL != 0,
        shift: mask & NS_SHIFT != 0,
        fn_key: mask & NS_FN != 0,
    }
}

/// `char::from_u32`: the scalar value `x`, unless it is above U+10FFFF
/// or a surrogate.
pub open spec fn spec_char_from_u32(x: u32) -> Option<char> {
    if x <= 0x10FFFF && !(0xD800 <= x && x <= 0xDFFF) {
        Some(x as char)
    } else {
        None
    }
}

/// `char::from_u32`.
#[verifier::external_body]
fn char_from_u32(x: u32) -> (r: Option<char>)
    ensures
        r == spec_char_from_u32(x),
{
    char::from_u32(x)
}

/// General category Cc: U+0000–U+001F and U+007F–U+009F.
pub open spec fn spec_is_control(c: char) -> bool {
    c <= '\u{1F}' || ('\u{7F}' <= c && c <= '\u{9F}')
}

/// `char::is_control`: whether `c` is in general category Cc.
fn is_control(c: char) -> (b: bool)
    ensures
        b == spec_is_control(c),
{
    c <= '\u{1F}' || ('\u{7F}' <= c && c <= '\u{9F}')
}

/// The key of a plist entry: the keycode when it names a key (it does not
/// depend on the keyboard layout), else the printable character, else the
/// raw keycode, else keycode 0.
pub open spec fn spec_decode_key(char_code: i64, vk: i64) -> Key {
    if vk != UNSET && 0 <= vk <= 0xFFFF && spec_vk_to_named(vk as u16) is Some {
        Key::Named(spec_vk_to_named(vk as u16)->0)
    } else if char_code != UNSET && 0 <= char_code <= 0xFFFF_FFFF && spec_char_from_u32(
        char_code as u32,
    ) is Some && !spec_is_control(spec_char_from_u32(char_code as u32)->0) {
        Key::Char(spec_char_from_u32(char_code as u32)->0)
    } else if vk != UNSET && 0 <= vk <= 0xFFFF {
        Key::Virtual(vk as u16)
    } else {
        Key::Virtual(0)
    }
}

/// Decode the key of a plist entry.
pub fn decode_key(char_code: i64, vk: i64) -> (k: Key)
    ensures
        k == spec_decode_key(char_code, vk),
{
    if vk != UNSET && 0 <= vk && vk <= 0xFFFF {
        if let Some(named) = vk_to_named(vk as u16) {
            return Key::Named(named);
        }
    }
    if char_code != UNSET && 0 <= char_code && char_code <= 0xFFFF_FFFF {
        if let Some(c) = char_from_u32(char_code as u32) {
            if !is_control(c) {
                return Key::Char(c);
            }
        }
    }
    if vk != UNSET && 0 <= vk && vk <= 0xFFFF {
        return Key::Virtual(vk as u16);
    }
    Key::Virtual(0)
}

/// `Value::as_array`.
pub open spec fn spec_as_array(v: PlistValue) -> Option<Seq<PlistValue>> {
    match v {
        PlistValue::Array(a) => Some(a@),
        _ => None,
    }
}

/// A parameter slot as an integer, or `default` when it is not one.
pub open spec fn param_or(v: PlistValue, default: i64) -> i64 {
    match spec_as_signed_integer(v) {
        Some(i) => i,
        None => default,
    }
}

/// The combo stored under `value.parameters` (character code, keycode,
/// modifier mask), or `None` when the entry has no value, fewer than three
/// parameters, or Apple's `(65535, 65535, *)` "no override" placeholder.
pub open spec fn spec_custom_combo(entry: Seq<(String, PlistValue)>) -> Option<KeyCombo> {
    match dict_lookup(entry, "value"@) {
        Some(value) => match spec_as_dictionary(value) {
            Some(vd) => match dict_lookup(vd, "parameters"@) {
                Some(p) => match spec_as_array(p) {
                    Some(params) => if params.len() < 3 {
                        None
                    } else {
                        let char_code = param_or(params[0], UNSET);
                        let vk = param_or(params[1], UNSET);
                        let mask = param_or(params[2], 0);
                        if char_code == UNSET && vk == UNSET {
                            None
                        } else {
                            Some(
                                KeyCombo {
                                    modifiers: spec_decode_modifiers(mask as u64),
                                    key: spec_decode_key(char_code, vk),
                                },
                            )
                        }
                    },
                    None => None,
                },
                None => None,
            },
            None => None,
        },
        None => None,
    }
}

fn int_or(v: &PlistValue, default: i64) -> (r: i64)
    ensures
        r == param_or(*v, default),
{
    match v {
        PlistValue::Integer(Some(i)) => *i,
        _ => default,
    }
}

/// Read the custom combo of one plist entry.
pub fn custom_combo(entry: &Vec<(String, PlistValue)>) -> (c: Option<KeyCombo>)
    ensures
        c == spec_custom_combo(entry@),
{
    let value = match dict_get(entry, "value") {
        Some(v) => v,
        None => return None,
    };
    let vd = match value {
        PlistValue::Dictionary(d) => d,
        _ => return None,
    };
    let p = match dict_get(vd, "parameters") {
        Some(p) => p,
        None => return None,
    };
    let params = match p {
        PlistValue::Array(a) => a,
        _ => return None,
    };
    if params.len() < 3 {
        return None;
    }
    let char_code = int_or(&params[0], UNSET);
    let vk = int_or(&params[1], UNSET);
    let mask = int_or(&params[2], 0);
    if char_code == UNSET && vk == UNSET {
        return None;
    }
    Some(KeyCombo { modifiers: decode_modifiers(mask as u64), key: decode_key(char_code, vk) })
}

/// What one plist entry says: off (keeping any stored combo) when
/// `enabled` is false, a custom combo when one is stored, else on with the
/// default. A missing or non-boolean `enabled` counts as on.
pub open spec fn spec_entry_override(entry: Seq<(String, PlistValue)>) -> Override {
    let enabled = match dict_lookup(entry, "enabled"@) {
        Some(v) => match spec_as_boolean(v) {
            Some(b) => b,
            None => true,
        },
        None => true,
    };
    let custom = spec_custom_combo(entry);
    if !enabled {
        Override::Disabled(custom)
    } else {
        match custom {
            Some(c) => Override::Custom(c),
            None => Override::EnabledWithDefault,
        }
    }
}

fn entry_override(entry: &Vec<(String, PlistValue)>) -> (o: Override)
    ensures
        o == spec_entry_override(entry@),
{
    let enabled = match dict_get(entry, "enabled") {
        Some(PlistValue::Boolean(b)) => *b,
        _ => true,
    };
    let custom = custom_combo(entry);
    if !enabled {
        Override::Disabled(custom)
    } else {
        match custom {
            Some(c) => Override::Custom(c),
            None => Override::EnabledWithDefault,
        }
    }
}

/// Value of an ASCII digit.
pub open spec fn digit_value(c: char) -> int {
    (c as int) - ('0' as int)
}

pub open spec fn is_digit(c: char) -> bool {
    '0' <= c && c <= '9'
}

/// The number the decimal digits `s` spell.
pub open spec fn digits_value(s: Seq<char>) -> int
    decreases s.len(),
{
    if s.len() == 0 {
        0
    } else {
        digits_value(s.drop_last()) * 10 + digit_value(s.last())
    }
}

/// `str::parse::<u32>`: an optional `+`, then one or more ASCII digits
/// whose value fits in a `u32`.
pub open spec fn spec_parse_u32(s: Seq<char>) -> Option<u32> {
    let digits = unsigned_part(s);
    if digits.len() > 0 && all_digits(digits) && digits_value(digits) <= u32::MAX {
        Some(digits_value(digits) as u32)
    } else {
        None
    }
}

/// `s` without one leading `+`.
pub open spec fn unsigned_part(s: Seq<char>) -> Seq<char> {
    if s.len() > 0 && s[0] == '+' {
        s.drop_first()
    } else {
        s
    }
}

pub open spec fn all_digits(s: Seq<char>) -> bool {
    forall|i: int| 0 <= i < s.len() ==> is_digit(#[trigger] s[i])
}

proof fn lemma_digits_value_nonneg(s: Seq<char>)
    requires
        forall|i: int| 0 <= i < s.len() ==> is_digit(#[trigger] s[i]),
    ensures
        digits_value(s) >= 0,
    decreases s.len(),
{
    if s.len() > 0 {
        assert forall|i: int| 0 <= i < s.drop_last().len() implies is_digit(#[trigger] s.drop_last()[i]) by {
            assert(s.drop_last()[i] == s[i]);
        }
        lemma_digits_value_nonneg(s.drop_last());
    }
}

/// Parse a decimal id.
pub fn parse_u32(s: &[char]) -> (r: Option<u32>)
    ensures
        r == spec_parse_u32(s@),
{
    let start: usize = if s.len() > 0 && s[0] == '+' { 1 } else { 0 };
    let ghost digits = unsigned_part(s@);
    assert(digits =~= s@.skip(start as int));
    if start >= s.len() {
        return None;
    }
    let mut value: u64 = 0;
    let mut i: usize = start;
    while i < s.len()
        invariant
            start <= i <= s@.len(),
            digits == s@.skip(start as int),
            digits == unsigned_part(s@),
            digits.len() > 0,
            forall|k: int| 0 <= k < i - start ==> is_digit(#[trigger] digits[k]),
            value as int == digits_value(digits.take(i - start)),
            value <= u32::MAX,
        decreases s@.len() - i,
    {
        let c = s[i];
        assert(digits.take(i - start + 1).drop_last() =~= digits.take(i - start));
        assert(digits.take(i - start + 1).last() == digits[i - start]);
        assert(digits[i - start] == c);
        if !('0' <= c && c <= '9') {
            assert(!is_digit(digits[i - start]));
            assert(!all_digits(digits));
            return None;
        }
        let d: u64 = (c as u32 - '0' as u32) as u64;
        assert(d as int == digit_value(c));
        let next: u64 = value * 10 + d;
        proof {
            assert forall|k: int| 0 <= k < i - start + 1 implies is_digit(#[trigger] digits.take(i - start + 1)[k]) by {
                assert(digits.take(i - start + 1)[k] == digits[k]);
            }
        }
        if next > 0xFFFF_FFFF {
            proof {
                if all_digits(digits) {
                    lemma_prefix_value_bound(digits, i - start + 1);
                }
            }
            return None;
        }
        value = next;
        i = i + 1;
    }
    assert(digits.take(i - start) =~= digits);
    Some(value as u32)
}

/// A longer run of digits is worth at least as much as its prefix.
proof fn lemma_prefix_value_bound(s: Seq<char>, k: int)
    requires
        0 <= k <= s.len(),
        forall|i: int| 0 <= i < s.len() ==> is_digit(#[trigger] s[i]),
    ensures
        digits_value(s) >= digits_value(s.take(k)),
    decreases s.len() - k,
{
    if k < s.len() {
        lemma_prefix_value_bound(s, k + 1);
        assert(s.take(k + 1).drop_last() =~= s.take(k));
        assert forall|i: int| 0 <= i < s.take(k).len() implies is_digit(#[trigger] s.take(k)[i]) by {
            assert(s.take(k)[i] == s[i]);
        }
        lemma_digits_value_nonneg(s.take(k));
    } else {
        assert(s.take(k) =~= s);
    }
}

/// Record `o` for `id`, replacing an earlier entry for the same id.
pub open spec fn set_override(list: Seq<(u32, Override)>, id: u32, o: Override) -> Seq<(u32, Override)> {
    if exists|i: int| 0 <= i < list.len() && (#[trigger] list[i]).0 == id {
        let i = choose|i: int| 0 <= i < list.len() && (#[trigger] list[i]).0 == id;
        list.update(i, (id, o))
    } else {
        list.push((id, o))
    }
}

/// The overrides of `AppleSymbolicHotKeys`, one per id, in the order the
/// ids first appear. Keys that are not decimal ids and entries that are not
/// dictionaries are skipped; a later entry for an id replaces an earlier.
pub open spec fn spec_overrides(entries: Seq<(String, PlistValue)>) -> Seq<(u32, Override)>
    decreases entries.len(),
{
    if entries.len() == 0 {
        Seq::empty()
    } else {
        let prev = spec_overrides(entries.drop_last());
        match spec_parse_u32(entries.last().0@) {
            None => prev,
            Some(id) => match spec_as_dictionary(entries.last().1) {
                None => prev,
                Some(d) => set_override(prev, id, spec_entry_override(d)),
            },
        }
    }
}

/// Ids appear at most once.
pub open spec fn unique_ids(list: Seq<(u32, Override)>) -> bool {
    forall|i: int, j: int| 0 <= i < j < list.len() ==> (#[trigger] list[i]).0 != (#[trigger] list[j]).0
}

proof fn lemma_overrides_unique(entries: Seq<(String, PlistValue)>)
    ensures
        unique_ids(spec_overrides(entries)),
    decreases entries.len(),
{
    if entries.len() > 0 {
        lemma_overrides_unique(entries.drop_last());
    }
}

/// The override recorded for `id`.
pub open spec fn override_for(list: Seq<(u32, Override)>, id: u32) -> Option<Override>
    decreases list.len(),
{
    if list.len() == 0 {
        None
    } else if list.last().0 == id {
        Some(list.last().1)
    } else {
        override_for(list.drop_last(), id)
    }
}

/// Looks up the override for `id`.
pub fn find_override(list: &Vec<(u32, Override)>, id: u32) -> (r: Option<Override>)
    ensures
        r == override_for(list@, id),
{
    let mut i: usize = list.len();
    assert(list@.take(i as int) =~= list@);
    while i > 0
        invariant
            i <= list@.len(),
            override_for(list@, id) == override_for(list@.take(i as int), id),
        decreases i,
    {
        assert(list@.take(i as int).drop_last() =~= list@.take(i - 1));
        if list[i - 1].0 == id {
            return Some(list[i - 1].1);
        }
        i = i - 1;
    }
    None
}

/// Why the plist yielded no overrides: it could not be read, it is not a
/// property list, its root is not a dictionary, or it has no
/// `AppleSymbolicHotKeys` dictionary.
pub enum PlistProblem {
    Io(Seq<char>),
    Schema(Seq<char>),
}

pub open spec fn problem_of(e: ScanError) -> PlistProblem {
    match e {
        ScanError::Io { message, .. } => PlistProblem::Io(message@),
        ScanError::Schema { message, .. } => PlistProblem::Schema(message@),
    }
}

pub open spec fn error_path(e: ScanError) -> Seq<char> {
    match e {
        ScanError::Io { path, .. } => path@,
        ScanError::Schema { path, .. } => path@,
    }
}

/// What `parse_overrides` yields for what was read.
pub open spec fn spec_parse_overrides(read: PlistRead) -> Result<Seq<(u32, Override)>, PlistProblem> {
    match read {
        PlistRead::Unreadable(m) => Err(PlistProblem::Io(m@)),
        PlistRead::Malformed(m) => Err(PlistProblem::Schema("plist parse: "@ + m@)),
        PlistRead::Parsed(root) => match spec_as_dictionary(root) {
            None => Err(PlistProblem::Schema("root is not a dictionary"@)),
            Some(r) => match dict_lookup(r, "AppleSymbolicHotKeys"@) {
                Some(v) => match spec_as_dictionary(v) {
                    Some(entries) => Ok(spec_overrides(entries)),
                    None => Err(PlistProblem::Schema("missing AppleSymbolicHotKeys dict"@)),
                },
                None => Err(PlistProblem::Schema("missing AppleSymbolicHotKeys dict"@)),
            },
        },
    }
}

fn schema(path: &str, message: &str) -> (e: ScanError)
    ensures
        e == (ScanError::Schema { path: e->Schema_path, message: e->Schema_message }),
        error_path(e) == path@,
        problem_of(e) == PlistProblem::Schema(message@),
{
    ScanError::Schema { path: owned(path), message: owned(message) }
}

/// The overrides the plist records, or why it yields none. Errors carry
/// `path`.
pub fn parse_overrides(path: &str, read: &PlistRead) -> (r: Result<Vec<(u32, Override)>, ScanError>)
    ensures
        match r {
            Ok(list) => spec_parse_overrides(*read) == Ok::<_, PlistProblem>(list@) && unique_ids(list@),
            Err(e) => spec_parse_overrides(*read) == Err::<Seq<(u32, Override)>, _>(problem_of(e))
                && error_path(e) == path@,
        },
{
    let root = match read {
        PlistRead::Unreadable(m) => {
            return Err(ScanError::Io { path: owned(path), message: owned(m.as_str()) });
        },
        PlistRead::Malformed(m) => {
            let mut message = owned("plist parse: ");
            push_str(&mut message, m.as_str());
            return Err(ScanError::Schema { path: owned(path), message });
        },
        PlistRead::Parsed(root) => root,
    };
    let r = match root {
        PlistValue::Dictionary(r) => r,
        _ => return Err(schema(path, "root is not a dictionary")),
    };
    let entries = match dict_get(r, "AppleSymbolicHotKeys") {
        Some(PlistValue::Dictionary(entries)) => entries,
        _ => return Err(schema(path, "missing AppleSymbolicHotKeys dict")),
    };
    let mut list: Vec<(u32, Override)> = Vec::new();
    let mut i: usize = 0;
    while i < entries.len()
        invariant
            i <= entries@.len(),
            list@ == spec_overrides(entries@.take(i as int)),
        decreases entries@.len() - i,
    {
        assert(entries@.take(i + 1).drop_last() =~= entries@.take(i as int));
        assert(entries@.take(i + 1).last() == entries@[i as int]);
        let key = chars_of(entries[i].0.as_str());
        if let Some(id) = parse_u32(key.as_slice()) {
            if let PlistValue::Dictionary(d) = &entries[i].1 {
                let o = entry_override(d);
                let mut k: usize = 0;
                while k < list.len() && list[k].0 != id
                    invariant
                        k <= list@.len(),
                        forall|q: int| 0 <= q < k ==> (#[trigger] list@[q]).0 != id,
                    decreases list@.len() - k,
                {
                    k = k + 1;
                }
                let ghost prev = list@;
                if k < list.len() {
                    proof {
                        lemma_overrides_unique(entries@.take(i as int));
                        assert(prev[k as int].0 == id);
                        let c = choose|q: int| 0 <= q < prev.len() && (#[trigger] prev[q]).0 == id;
                        if c != k as int {
                            assert(prev[c].0 == prev[k as int].0);
                        }
                        assert(set_override(prev, id, o) == prev.update(k as int, (id, o)));
                    }
                    list.set(k, (id, o));
                } else {
                    assert(set_override(prev, id, o) == prev.push((id, o)));
                    list.push((id, o));
                }
            }
        }
        i = i + 1;
    }
    assert(entries@.take(entries@.len() as int) =~= entries@);
    proof {
        lemma_overrides_unique(entries@);
    }
    Ok(list)
}

} // verus!
