//! Textual parser for `KeyCombo`: `cmd+opt+b`, `shift+f1`, `escape`, ...

use vstd::prelude::*;

use super::key::{parse_named, spec_parse_named, Key};
use super::{ComboParseError, KeyCombo, Modifiers};
use crate::text::{
    ascii_lower, chars_eq_str, chars_of, lower_chars, lower_char, lower_seq, split, split_spec,
    string_of, trim, trim_spec, views_of, lemma_split_nonempty,
};

verus! {

/// What went wrong while parsing, as the contracts speak of it.
pub enum ParseFailure {
    Empty,
    UnknownModifier(Seq<char>),
    MissingKey,
    UnknownKey(Seq<char>),
}

/// A parse result with its error taken by view.
pub open spec fn err_view<T>(r: Result<T, ComboParseError>) -> Result<T, ParseFailure> {
    match r {
        Ok(x) => Ok(x),
        Err(e) => Err(e@),
    }
}

/// One modifier name, case-insensitive: `cmd`/`command`,
/// `opt`/`alt`/`option`, `ctrl`/`control`, `shift`, `fn`/`globe`. An
/// unknown name is reported as written.
pub open spec fn spec_parse_modifier(token: Seq<char>) -> Result<Modifiers, ParseFailure> {
    let lower = lower_seq(token);
    if lower == "cmd"@ || lower == "command"@ {
        Ok(Modifiers { cmd: true, ..Modifiers::none() })
    } else if lower == "opt"@ || lower == "alt"@ || lower == "option"@ {
        Ok(Modifiers { opt: true, ..Modifiers::none() })
    } else if lower == "ctrl"@ || lower == "control"@ {
        Ok(Modifiers { ctrl: true, ..Modifiers::none() })
    } else if lower == "shift"@ {
        Ok(Modifiers { shift: true, ..Modifiers::none() })
    } else if lower == "fn"@ || lower == "globe"@ {
        Ok(Modifiers { fn_key: true, ..Modifiers::none() })
    } else {
        Err(ParseFailure::UnknownModifier(token))
    }
}

/// The key token: a named key (case-insensitive, with aliases), or else a
/// single character, lowercased when ASCII.
pub open spec fn spec_parse_key(token: Seq<char>) -> Result<Key, ParseFailure> {
    match spec_parse_named(lower_seq(token)) {
        Some(n) => Ok(Key::Named(n)),
        None => if token.len() == 0 {
            Err(ParseFailure::MissingKey)
        } else if token.len() > 1 {
            Err(ParseFailure::UnknownKey(token))
        } else {
            Ok(Key::Char(ascii_lower(token[0])))
        },
    }
}

/// Every token a modifier name, left to right; the first that is not
/// stops the parse.
pub open spec fn spec_parse_modifiers(tokens: Seq<Seq<char>>) -> Result<Modifiers, ParseFailure>
    decreases tokens.len(),
{
    if tokens.len() == 0 {
        Ok(Modifiers::none())
    } else {
        match spec_parse_modifiers(tokens.drop_last()) {
            Err(e) => Err(e),
            Ok(m) => match spec_parse_modifier(tokens.last()) {
                Err(e) => Err(e),
                Ok(x) => Ok(m.spec_union(x)),
            },
        }
    }
}

/// The `+`-separated tokens of a combo, each trimmed.
pub open spec fn combo_tokens(raw: Seq<char>) -> Seq<Seq<char>> {
    split_spec(raw, '+').map_values(|t: Seq<char>| trim_spec(t))
}

/// `KeyCombo::parse`: the text trimmed; tokens separated by `+`, each
/// trimmed; no token may be empty; all but the last are modifier names,
/// the last is the key.
pub open spec fn spec_parse_combo(s: Seq<char>) -> Result<KeyCombo, ParseFailure> {
    let raw = trim_spec(s);
    let tokens = combo_tokens(raw);
    if raw.len() == 0 {
        Err(ParseFailure::Empty)
    } else if exists|i: int| 0 <= i < tokens.len() && #[trigger] tokens[i].len() == 0 {
        Err(ParseFailure::Empty)
    } else {
        match spec_parse_modifiers(tokens.drop_last()) {
            Err(e) => Err(e),
            Ok(m) => match spec_parse_key(tokens.last()) {
                Err(e) => Err(e),
                Ok(k) => Ok(KeyCombo { modifiers: m, key: k }),
            },
        }
    }
}

/// Parse one modifier token.
pub fn parse_modifier(token: &[char]) -> (r: Result<Modifiers, ComboParseError>)
    ensures
        err_view(r) == spec_parse_modifier(token@),
{
    let lower = lower_chars(token);
    let l = lower.as_slice();
    if chars_eq_str(l, "cmd") || chars_eq_str(l, "command") {
        Ok(Modifiers::cmd())
    } else if chars_eq_str(l, "opt") || chars_eq_str(l, "alt") || chars_eq_str(l, "option") {
        Ok(Modifiers::opt())
    } else if chars_eq_str(l, "ctrl") || chars_eq_str(l, "control") {
        Ok(Modifiers::ctrl())
    } else if chars_eq_str(l, "shift") {
        Ok(Modifiers::shift())
    } else if chars_eq_str(l, "fn") || chars_eq_str(l, "globe") {
        Ok(Modifiers::fn_key())
    } else {
        Err(ComboParseError::UnknownModifier(string_of(token)))
    }
}

/// Parse the key token.
pub fn parse_key(token: &[char]) -> (r: Result<Key, ComboParseError>)
    ensures
        err_view(r) == spec_parse_key(token@),
{
    let lower = lower_chars(token);
    if let Some(named) = parse_named(lower.as_slice()) {
        return Ok(Key::Named(named));
    }
    if token.len() == 0 {
        return Err(ComboParseError::MissingKey);
    }
    if token.len() > 1 {
        return Err(ComboParseError::UnknownKey(string_of(token)));
    }
    Ok(Key::Char(lower_char(token[0])))
}

impl KeyCombo {
    /// Parse a textual combo such as `cmd+opt+b`, `shift+f1`, or `escape`.
    ///
    /// Tokens are separated by `+` and are case-insensitive; all but the
    /// last must be modifier names, the last is the key. Single-character
    /// keys become `Key::Char` (lowercased); longer ones must name a
    /// `NamedKey` (`space`, `return`, `f1`, `pageup`, `escape`/`esc`, ...).
    pub fn parse(s: &str) -> (r: Result<KeyCombo, ComboParseError>)
        ensures
            err_view(r) == spec_parse_combo(s@),
    {
        let chars = chars_of(s);
        let raw = trim(chars.as_slice());
        if raw.len() == 0 {
            return Err(ComboParseError::Empty);
        }
        let pieces = split(raw.as_slice(), '+');
        let ghost want = combo_tokens(raw@);
        proof {
            lemma_split_nonempty(raw@, '+');
        }
        let mut tokens: Vec<Vec<char>> = Vec::new();
        let mut i: usize = 0;
        while i < pieces.len()
            invariant
                i <= pieces@.len(),
                views_of(pieces@) == split_spec(raw@, '+'),
                want == combo_tokens(raw@),
                want.len() == pieces@.len(),
                views_of(tokens@) == want.take(i as int),
            decreases pieces@.len() - i,
        {
            let t = trim(pieces[i].as_slice());
            assert(want[i as int] == trim_spec(views_of(pieces@)[i as int]));
            let ghost tv = t@;
            assert(tv == want[i as int]);
            let ghost old_tokens = tokens@;
            tokens.push(t);
            assert(tokens@ == old_tokens.push(t));
            assert(views_of(tokens@) =~= views_of(old_tokens).push(tv));
            i = i + 1;
            assert(views_of(tokens@) =~= want.take(i as int));
        }
        assert(views_of(tokens@) =~= want);
        let n = tokens.len();
        let mut j: usize = 0;
        while j < n
            invariant
                n == tokens@.len(),
                views_of(tokens@) == want,
                want == combo_tokens(raw@),
                raw@ == trim_spec(s@),
                raw@.len() > 0,
                j <= n,
                forall|k: int| 0 <= k < j ==> #[trigger] want[k].len() > 0,
            decreases n - j,
        {
            if tokens[j].len() == 0 {
                assert(want[j as int].len() == 0);
                assert(exists|i: int| 0 <= i < want.len() && #[trigger] want[i].len() == 0);
                return Err(ComboParseError::Empty);
            }
            j = j + 1;
        }
        let mut modifiers = Modifiers::empty();
        let mut k: usize = 0;
        while k + 1 < n
            invariant
                n == tokens@.len(),
                n >= 1,
                views_of(tokens@) == want,
                want == combo_tokens(raw@),
                raw@ == trim_spec(s@),
                raw@.len() > 0,
                forall|q: int| 0 <= q < want.len() ==> #[trigger] want[q].len() > 0,
                k + 1 <= n,
                spec_parse_modifiers(want.take(k as int)) == Ok::<Modifiers, ParseFailure>(modifiers),
            decreases n - k,
        {
            assert(want.take(k + 1).drop_last() =~= want.take(k as int));
            assert(want[k as int] == tokens@[k as int]@);
            match parse_modifier(tokens[k].as_slice()) {
                Ok(m) => {
                    modifiers = modifiers.union(m);
                },
                Err(e) => {
                    proof {
                        assert(want.take(k + 1).last() == want[k as int]);
                        assert(want[k as int] == tokens@[k as int]@);
                        assert(want.drop_last().take(k + 1) =~= want.take(k + 1));
                        lemma_modifiers_error_persists(want.drop_last(), k as int + 1);
                    }
                    return Err(e);
                },
            }
            k = k + 1;
        }
        assert(want.take(k as int) =~= want.drop_last());
        let key = parse_key(tokens[n - 1].as_slice());
        match key {
            Ok(key) => Ok(KeyCombo { modifiers, key }),
            Err(e) => Err(e),
        }
    }
}

/// An error in a prefix of the modifier tokens is the error of the whole.
proof fn lemma_modifiers_error_persists(tokens: Seq<Seq<char>>, k: int)
    requires
        0 <= k <= tokens.len(),
        spec_parse_modifiers(tokens.take(k)) is Err,
    ensures
        spec_parse_modifiers(tokens) == spec_parse_modifiers(tokens.take(k)),
    decreases tokens.len() - k,
{
    if k < tokens.len() {
        assert(tokens.take(k + 1).drop_last() =~= tokens.take(k));
        lemma_modifiers_error_persists(tokens, k + 1);
    } else {
        assert(tokens.take(k) =~= tokens);
    }
}

/// A single combo "token" for partial-match queries: either a modifier
/// (`cmd`, `shift`, …) or a key (`space`, `f1`, `a`).
#[derive(Debug, Clone, Copy, PartialEq, Eq, Hash, Structural)]
pub enum ComboToken {
    Modifier(Modifiers),
    Key(Key),
}

/// `ComboToken::parse`: the trimmed text as a modifier name if it is one,
/// else as a key.
pub open spec fn spec_parse_token(s: Seq<char>) -> Result<ComboToken, ParseFailure> {
    let trimmed = trim_spec(s);
    if trimmed.len() == 0 {
        Err(ParseFailure::Empty)
    } else {
        match spec_parse_modifier(lower_seq(trimmed)) {
            Ok(m) => Ok(ComboToken::Modifier(m)),
            Err(_) => match spec_parse_key(trimmed) {
                Ok(k) => Ok(ComboToken::Key(k)),
                Err(e) => Err(e),
            },
        }
    }
}

impl ComboToken {
    /// Parse a single token. Tries modifier aliases first, then the key
    /// parser (named keys, then single-character).
    pub fn parse(s: &str) -> (r: Result<ComboToken, ComboParseError>)
        ensures
            err_view(r) == spec_parse_token(s@),
    {
        let chars = chars_of(s);
        let trimmed = trim(chars.as_slice());
        if trimmed.len() == 0 {
            return Err(ComboParseError::Empty);
        }
        let lower = lower_chars(trimmed.as_slice());
        if let Ok(m) = parse_modifier(lower.as_slice()) {
            return Ok(ComboToken::Modifier(m));
        }
        match parse_key(trimmed.as_slice()) {
            Ok(k) => Ok(ComboToken::Key(k)),
            Err(e) => Err(e),
        }
    }

    pub open spec fn spec_matches(self, combo: KeyCombo) -> bool {
        match self {
            ComboToken::Modifier(m) => combo.modifiers.spec_contains(m),
            ComboToken::Key(k) => combo.key == k,
        }
    }

    /// Whether `combo` includes this token: the modifiers for a modifier
    /// token, the key for a key token.
    pub fn matches(&self, combo: &KeyCombo) -> (b: bool)
        ensures
            b == self.spec_matches(*combo),
    {
        match self {
            ComboToken::Modifier(m) => combo.modifiers.contains(*m),
            ComboToken::Key(k) => combo.key == *k,
        }
    }
}

} // verus!
