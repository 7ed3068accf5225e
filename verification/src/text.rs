//! Character-level string helpers shared by the parsers and the
//! renderers, each with an exact contract over `Seq<char>`.

use vstd::prelude::*;

verus! {

broadcast use vstd::string::group_string_axioms;

/// The characters of `s`, in order.
pub fn chars_of(s: &str) -> (v: Vec<char>)
    ensures
        v@ == s@,
{
    let mut v: Vec<char> = Vec::new();
    for c in it: s.chars()
        invariant
            it.seq() == s@,
            v@ == it.seq().take(it.index()),
    {
        v.push(c);
    }
    v
}

/// `String::push`: appends one character.
#[verifier::external_body]
fn push_char(s: &mut String, c: char)
    ensures
        final(s)@ == old(s)@.push(c),
{
    s.push(c);
}

/// A `String` holding exactly the given characters.
pub fn string_of(v: &[char]) -> (s: String)
    ensures
        s@ == v@,
{
    let mut s = String::new();
    let mut i: usize = 0;
    while i < v.len()
        invariant
            i <= v@.len(),
            s@ == v@.take(i as int),
        decreases v@.len() - i,
    {
        push_char(&mut s, v[i]);
        i = i + 1;
        assert(v@.take(i as int) == v@.take(i - 1).push(v@[i - 1]));
    }
    assert(v@.take(v@.len() as int) == v@);
    s
}

/// Appends the characters of `v` to `s`.
pub fn push_chars(s: &mut String, v: &[char])
    ensures
        final(s)@ == old(s)@ + v@,
{
    let mut i: usize = 0;
    while i < v.len()
        invariant
            i <= v@.len(),
            s@ == old(s)@ + v@.take(i as int),
        decreases v@.len() - i,
    {
        push_char(s, v[i]);
        i = i + 1;
        assert(v@.take(i as int) == v@.take(i - 1).push(v@[i - 1]));
    }
    assert(v@.take(v@.len() as int) == v@);
}

/// Appends `t` to `s`.
pub fn push_str(s: &mut String, t: &str)
    ensures
        final(s)@ == old(s)@ + t@,
{
    let v = chars_of(t);
    push_chars(s, v.as_slice());
}

/// An owned copy of `t`.
pub fn owned(t: &str) -> (s: String)
    ensures
        s@ == t@,
{
    t.to_owned()
}

// ---------------------------------------------------------------------
// ASCII case folding
// ---------------------------------------------------------------------

/// `char::to_ascii_lowercase`: `A`–`Z` become `a`–`z`, everything else is
/// unchanged.
pub open spec fn ascii_lower(c: char) -> char {
    if 'A' <= c && c <= 'Z' {
        ((c as u32) + 32) as char
    } else {
        c
    }
}

pub open spec fn lower_seq(s: Seq<char>) -> Seq<char> {
    s.map_values(|c: char| ascii_lower(c))
}

pub fn lower_char(c: char) -> (r: char)
    ensures
        r == ascii_lower(c),
{
    if 'A' <= c && c <= 'Z' {
        let b: u8 = c as u8;
        let r: char = (b + 32) as char;
        assert(r == ((c as u32) + 32) as char);
        r
    } else {
        c
    }
}

/// `str::to_ascii_lowercase` on a character sequence.
pub fn lower_chars(v: &[char]) -> (r: Vec<char>)
    ensures
        r@ == lower_seq(v@),
{
    let mut r: Vec<char> = Vec::new();
    let mut i: usize = 0;
    while i < v.len()
        invariant
            i <= v@.len(),
            r@ == lower_seq(v@.take(i as int)),
        decreases v@.len() - i,
    {
        r.push(lower_char(v[i]));
        i = i + 1;
        assert(lower_seq(v@.take(i as int)) =~= lower_seq(v@.take(i - 1)).push(ascii_lower(v@[i - 1])));
    }
    assert(v@.take(v@.len() as int) == v@);
    r
}


// ---------------------------------------------------------------------
// Whitespace trimming
// ---------------------------------------------------------------------

/// The Unicode `White_Space` property that `char::is_whitespace` tests:
/// U+0009 to U+000D, the space, U+0085, the no-break space, the Ogham
/// space mark, U+2000 to U+200A, the line and paragraph separators, the
/// narrow no-break space, the medium mathematical space and the
/// ideographic space.
pub open spec fn is_white_space(c: char) -> bool {
    ||| ('\u{9}' <= c && c <= '\u{d}')
    ||| c == ' '
    ||| c == '\u{85}'
    ||| c == '\u{a0}'
    ||| c == '\u{1680}'
    ||| ('\u{2000}' <= c && c <= '\u{200a}')
    ||| c == '\u{2028}'
    ||| c == '\u{2029}'
    ||| c == '\u{202f}'
    ||| c == '\u{205f}'
    ||| c == '\u{3000}'
}

/// `char::is_whitespace`.
pub fn white_space(c: char) -> (b: bool)
    ensures
        b == is_white_space(c),
{
    ('\u{9}' <= c && c <= '\u{d}') || c == ' ' || c == '\u{85}' || c == '\u{a0}' || c == '\u{1680}'
        || ('\u{2000}' <= c && c <= '\u{200a}') || c == '\u{2028}' || c == '\u{2029}' || c == '\u{202f}'
        || c == '\u{205f}' || c == '\u{3000}'
}

/// `s` without its leading whitespace.
pub open spec fn trim_start(s: Seq<char>) -> Seq<char>
    decreases s.len(),
{
    if s.len() > 0 && is_white_space(s[0]) {
        trim_start(s.drop_first())
    } else {
        s
    }
}

/// `s` without its trailing whitespace.
pub open spec fn trim_end(s: Seq<char>) -> Seq<char>
    decreases s.len(),
{
    if s.len() > 0 && is_white_space(s.last()) {
        trim_end(s.drop_last())
    } else {
        s
    }
}

/// `str::trim`: leading and trailing whitespace removed.
pub open spec fn trim_spec(s: Seq<char>) -> Seq<char> {
    trim_end(trim_start(s))
}

proof fn lemma_trim_start_skip(s: Seq<char>, i: int)
    requires
        0 <= i <= s.len(),
        forall|k: int| 0 <= k < i ==> is_white_space(#[trigger] s[k]),
    ensures
        trim_start(s) == trim_start(s.skip(i)),
    decreases i,
{
    if i > 0 {
        assert(is_white_space(s[0]));
        assert(s.drop_first().skip(i - 1) =~= s.skip(i));
        assert forall|k: int| 0 <= k < i - 1 implies is_white_space(#[trigger] s.drop_first()[k]) by {
            assert(s.drop_first()[k] == s[k + 1]);
        }
        lemma_trim_start_skip(s.drop_first(), i - 1);
    } else {
        assert(s.skip(0) =~= s);
    }
}

proof fn lemma_trim_end_take(s: Seq<char>, j: int)
    requires
        0 <= j <= s.len(),
        forall|k: int| j <= k < s.len() ==> is_white_space(#[trigger] s[k]),
    ensures
        trim_end(s) == trim_end(s.take(j)),
    decreases s.len() - j,
{
    if j < s.len() {
        assert(is_white_space(s.last()));
        assert(s.drop_last().take(j) =~= s.take(j));
        lemma_trim_end_take(s.drop_last(), j);
    } else {
        assert(s.take(j) =~= s);
    }
}

/// The characters of `v` with leading and trailing whitespace removed.
pub fn trim(v: &[char]) -> (r: Vec<char>)
    ensures
        r@ == trim_spec(v@),
{
    let mut i: usize = 0;
    while i < v.len() && white_space(v[i])
        invariant
            i <= v@.len(),
            forall|k: int| 0 <= k < i ==> is_white_space(#[trigger] v@[k]),
        decreases v@.len() - i,
    {
        i = i + 1;
    }
    proof {
        lemma_trim_start_skip(v@, i as int);
    }
    let ghost rest = v@.skip(i as int);
    let mut j: usize = v.len();
    while j > i && white_space(v[j - 1])
        invariant
            i <= j <= v@.len(),
            rest == v@.skip(i as int),
            forall|k: int| j - i <= k < rest.len() ==> is_white_space(#[trigger] rest[k]),
        decreases j,
    {
        j = j - 1;
    }
    proof {
        lemma_trim_end_take(rest, j - i);
        if i < v@.len() {
            assert(!is_white_space(rest[0]));
        }
    }
    let mut r: Vec<char> = Vec::new();
    let mut k: usize = i;
    while k < j
        invariant
            i <= k <= j <= v@.len(),
            r@ == v@.subrange(i as int, k as int),
        decreases j - k,
    {
        r.push(v[k]);
        k = k + 1;
        assert(v@.subrange(i as int, k as int) == v@.subrange(i as int, k - 1).push(v@[k - 1]));
    }
    assert(rest.take(j - i) =~= v@.subrange(i as int, j as int));
    assert(trim_start(v@) == rest) by {
        if i < v@.len() {
            assert(!is_white_space(rest[0]));
        }
    }
    r
}


// ---------------------------------------------------------------------
// Splitting on a separator
// ---------------------------------------------------------------------

/// `str::split(sep)` on a single character: the pieces between
/// separators, including empty ones (`"a+"` gives `["a", ""]`).
pub open spec fn split_spec(s: Seq<char>, sep: char) -> Seq<Seq<char>>
    decreases s.len(),
{
    if s.len() == 0 {
        seq![Seq::<char>::empty()]
    } else {
        let prev = split_spec(s.drop_last(), sep);
        if s.last() == sep {
            prev.push(Seq::<char>::empty())
        } else {
            prev.update(prev.len() - 1, prev.last().push(s.last()))
        }
    }
}

pub proof fn lemma_split_nonempty(s: Seq<char>, sep: char)
    ensures
        split_spec(s, sep).len() >= 1,
    decreases s.len(),
{
    if s.len() > 0 {
        lemma_split_nonempty(s.drop_last(), sep);
    }
}

/// Every character of `s` is whitespace.
pub open spec fn all_white(s: Seq<char>) -> bool {
    forall|k: int| 0 <= k < s.len() ==> is_white_space(#[trigger] s[k])
}

/// `s` holds no `sep`.
pub open spec fn free_of(s: Seq<char>, sep: char) -> bool {
    forall|k: int| 0 <= k < s.len() ==> #[trigger] s[k] != sep
}

/// `trim_start` drops a whitespace prefix of some length `a`, stopping
/// at the first other character.
pub proof fn lemma_trim_start_shape(s: Seq<char>) -> (a: int)
    ensures
        0 <= a <= s.len(),
        all_white(s.take(a)),
        trim_start(s) == s.skip(a),
        a < s.len() ==> !is_white_space(s[a]),
    decreases s.len(),
{
    if s.len() > 0 && is_white_space(s[0]) {
        let d = s.drop_first();
        let a1 = lemma_trim_start_shape(d);
        assert forall|k: int| 0 <= k < a1 + 1 implies is_white_space(#[trigger] s.take(a1 + 1)[k]) by {
            if k > 0 {
                assert(s[k] == d[k - 1]);
                assert(d.take(a1)[k - 1] == d[k - 1]);
            }
        }
        assert(d.skip(a1) =~= s.skip(a1 + 1));
        if a1 + 1 < s.len() {
            assert(s[a1 + 1] == d[a1]);
        }
        a1 + 1
    } else {
        assert(s.skip(0) =~= s);
        assert(s.take(0) =~= Seq::<char>::empty());
        0
    }
}

/// `trim_end` drops a whitespace suffix, keeping some prefix of length `b`.
pub proof fn lemma_trim_end_shape(s: Seq<char>) -> (b: int)
    ensures
        0 <= b <= s.len(),
        all_white(s.skip(b)),
        trim_end(s) == s.take(b),
    decreases s.len(),
{
    if s.len() > 0 && is_white_space(s.last()) {
        let d = s.drop_last();
        let b1 = lemma_trim_end_shape(d);
        assert forall|k: int| 0 <= k < s.len() - b1 implies is_white_space(#[trigger] s.skip(b1)[k]) by {
            if b1 + k < s.len() - 1 {
                assert(s[b1 + k] == d[b1 + k]);
                assert(d.skip(b1)[k] == d[b1 + k]);
            }
        }
        assert(d.take(b1) =~= s.take(b1));
        b1
    } else {
        assert(s.take(s.len() as int) =~= s);
        assert(s.skip(s.len() as int) =~= Seq::<char>::empty());
        s.len() as int
    }
}

proof fn lemma_all_white_trims_away(y: Seq<char>)
    requires
        all_white(y),
    ensures
        trim_start(y) == Seq::<char>::empty(),
{
    lemma_trim_start_skip(y, y.len() as int);
    assert(y.skip(y.len() as int) =~= Seq::<char>::empty());
}

proof fn lemma_trim_start_push(y: Seq<char>, c: char)
    ensures
        trim_start(y.push(c)) == (if all_white(y) {
            trim_start(seq![c])
        } else {
            trim_start(y).push(c)
        }),
    decreases y.len(),
{
    if y.len() == 0 {
        assert(y.push(c) =~= seq![c]);
    } else if is_white_space(y[0]) {
        let d = y.drop_first();
        assert(y.push(c).drop_first() =~= d.push(c));
        assert(y.push(c)[0] == y[0]);
        lemma_trim_start_push(d, c);
        if all_white(d) {
            assert forall|k: int| 0 <= k < y.len() implies is_white_space(#[trigger] y[k]) by {
                if k > 0 {
                    assert(y[k] == d[k - 1]);
                }
            }
        }
        if all_white(y) {
            assert forall|k: int| 0 <= k < d.len() implies is_white_space(#[trigger] d[k]) by {
                assert(d[k] == y[k + 1]);
            }
        }
    } else {
        assert(y.push(c)[0] == y[0]);
        assert(!is_white_space(y[0]));
    }
}

proof fn lemma_trim_push_white(y: Seq<char>, w: char)
    requires
        is_white_space(w),
    ensures
        trim_spec(y.push(w)) == trim_spec(y),
{
    lemma_trim_start_push(y, w);
    if all_white(y) {
        let e = Seq::<char>::empty();
        assert(seq![w].drop_first() =~= e);
        assert(seq![w][0] == w);
        assert(trim_start(seq![w]) == trim_start(e));
        assert(trim_start(e) == e);
        lemma_all_white_trims_away(y);
        assert forall|k: int| 0 <= k < y.push(w).len() implies is_white_space(#[trigger] y.push(w)[k]) by {
            if k < y.len() {
                assert(y.push(w)[k] == y[k]);
            }
        }
        lemma_all_white_trims_away(y.push(w));
    } else {
        let t = trim_start(y);
        assert(t.push(w).drop_last() =~= t);
        assert(t.push(w).last() == w);
        assert(trim_end(t.push(w)) == trim_end(t));
    }
}

/// Whitespace appended to a text does not survive trimming.
pub proof fn lemma_trim_white_suffix(x: Seq<char>, w: Seq<char>)
    requires
        all_white(w),
    ensures
        trim_spec(x + w) == trim_spec(x),
    decreases w.len(),
{
    if w.len() == 0 {
        assert(x + w =~= x);
    } else {
        let d = w.drop_last();
        assert(x + w =~= (x + d).push(w.last()));
        assert(is_white_space(w[w.len() - 1]));
        lemma_trim_push_white(x + d, w.last());
        assert forall|k: int| 0 <= k < d.len() implies is_white_space(#[trigger] d[k]) by {
            assert(d[k] == w[k]);
        }
        lemma_trim_white_suffix(x, d);
    }
}

/// Whitespace prepended to a text does not survive trimming.
pub proof fn lemma_trim_white_prefix(w: Seq<char>, x: Seq<char>)
    requires
        all_white(w),
    ensures
        trim_spec(w + x) == trim_spec(x),
{
    assert forall|k: int| 0 <= k < w.len() implies is_white_space(#[trigger] (w + x)[k]) by {
        assert((w + x)[k] == w[k]);
    }
    lemma_trim_start_skip(w + x, w.len() as int);
    assert((w + x).skip(w.len() as int) =~= x);
}

/// Appending text free of `sep` extends the last piece.
pub proof fn lemma_split_append_plain(s: Seq<char>, t: Seq<char>, sep: char)
    requires
        free_of(t, sep),
    ensures
        split_spec(s + t, sep) == split_spec(s, sep).update(
            split_spec(s, sep).len() - 1,
            split_spec(s, sep).last() + t,
        ),
    decreases t.len(),
{
    lemma_split_nonempty(s, sep);
    if t.len() == 0 {
        assert(s + t =~= s);
        assert(split_spec(s, sep).last() + t =~= split_spec(s, sep).last());
        assert(split_spec(s, sep).update(split_spec(s, sep).len() - 1, split_spec(s, sep).last())
            =~= split_spec(s, sep));
    } else {
        let u = t.drop_last();
        assert forall|i: int| 0 <= i < u.len() implies #[trigger] u[i] != sep by {
            assert(u[i] == t[i]);
        }
        assert(t[t.len() - 1] != sep);
        lemma_split_append_plain(s, u, sep);
        assert((s + t).drop_last() =~= s + u);
        assert((s + t).last() == t.last());
        let prev = split_spec(s + u, sep);
        lemma_split_nonempty(s + u, sep);
        assert(split_spec(s + t, sep) == prev.update(prev.len() - 1, prev.last().push(t.last())));
        assert((split_spec(s, sep).last() + u).push(t.last()) =~= split_spec(s, sep).last() + t);
        assert(split_spec(s + t, sep) =~= split_spec(s, sep).update(
            split_spec(s, sep).len() - 1,
            split_spec(s, sep).last() + t,
        ));
    }
}

/// Prepending text free of `sep` extends the first piece.
pub proof fn lemma_split_prepend_plain(p: Seq<char>, t: Seq<char>, sep: char)
    requires
        free_of(p, sep),
    ensures
        split_spec(p + t, sep) == split_spec(t, sep).update(0, p + split_spec(t, sep)[0]),
    decreases t.len(),
{
    lemma_split_nonempty(t, sep);
    if t.len() == 0 {
        let e = Seq::<char>::empty();
        lemma_split_append_plain(e, p, sep);
        assert(e + p =~= p);
        assert(p + t =~= p);
        assert(split_spec(e, sep) =~= seq![e]);
        assert(p + e =~= p);
        assert(split_spec(p + t, sep) =~= split_spec(t, sep).update(0, p + split_spec(t, sep)[0]));
    } else {
        let t1 = t.drop_last();
        let c = t.last();
        lemma_split_prepend_plain(p, t1, sep);
        lemma_split_nonempty(t1, sep);
        assert((p + t).drop_last() =~= p + t1);
        assert((p + t).last() == c);
        let pp = split_spec(t1, sep);
        let q = pp.update(0, p + pp[0]);
        if c == sep {
            assert(split_spec(p + t, sep) == q.push(Seq::<char>::empty()));
            assert(split_spec(t, sep) == pp.push(Seq::<char>::empty()));
            assert(split_spec(p + t, sep) =~= split_spec(t, sep).update(0, p + split_spec(t, sep)[0]));
        } else {
            let r = pp.update(pp.len() - 1, pp.last().push(c));
            assert(split_spec(t, sep) == r);
            assert(split_spec(p + t, sep) == q.update(q.len() - 1, q.last().push(c)));
            if pp.len() == 1 {
                assert((p + pp[0]).push(c) =~= p + pp[0].push(c));
            }
            assert(split_spec(p + t, sep) =~= r.update(0, p + r[0]));
        }
    }
}

/// No piece of a split holds the separator.
pub proof fn lemma_split_pieces_free(s: Seq<char>, sep: char)
    ensures
        forall|k: int| 0 <= k < split_spec(s, sep).len() ==> free_of(#[trigger] split_spec(s, sep)[k], sep),
    decreases s.len(),
{
    if s.len() > 0 {
        let prev = split_spec(s.drop_last(), sep);
        lemma_split_pieces_free(s.drop_last(), sep);
        lemma_split_nonempty(s.drop_last(), sep);
        let r = split_spec(s, sep);
        assert forall|k: int| 0 <= k < r.len() implies free_of(#[trigger] r[k], sep) by {
            if s.last() == sep {
                if k < prev.len() {
                    assert(r[k] == prev[k]);
                } else {
                    assert(r[k] =~= Seq::<char>::empty());
                }
            } else if k < prev.len() - 1 {
                assert(r[k] == prev[k]);
            } else {
                let l = prev.last().push(s.last());
                assert(r[k] == l);
                assert(free_of(prev[prev.len() - 1], sep));
                assert forall|i: int| 0 <= i < l.len() implies #[trigger] l[i] != sep by {
                    if i < l.len() - 1 {
                        assert(l[i] == prev.last()[i]);
                    }
                }
            }
        }
    }
}

pub open spec fn views_of(v: Seq<Vec<char>>) -> Seq<Seq<char>> {
    v.map_values(|t: Vec<char>| t@)
}

/// The pieces of `v` between occurrences of `sep`.
pub fn split(v: &[char], sep: char) -> (r: Vec<Vec<char>>)
    ensures
        views_of(r@) == split_spec(v@, sep),
{
    let mut done: Vec<Vec<char>> = Vec::new();
    let mut cur: Vec<char> = Vec::new();
    let mut i: usize = 0;
    while i < v.len()
        invariant
            i <= v@.len(),
            views_of(done@).push(cur@) == split_spec(v@.take(i as int), sep),
        decreases v@.len() - i,
    {
        let c = v[i];
        let ghost before = v@.take(i as int);
        proof {
            assert(v@.take(i + 1).drop_last() =~= before);
        }
        if c == sep {
            let piece = cur;
            done.push(piece);
            cur = Vec::new();
            assert(views_of(done@).push(cur@) =~= split_spec(before, sep).push(Seq::<char>::empty()));
        } else {
            let ghost prev = split_spec(before, sep);
            cur.push(c);
            assert(views_of(done@).push(cur@) =~= prev.update(prev.len() - 1, prev.last().push(c)));
        }
        i = i + 1;
    }
    assert(v@.take(v@.len() as int) =~= v@);
    done.push(cur);
    assert(views_of(done@) =~= split_spec(v@, sep));
    done
}

// ---------------------------------------------------------------------
// Comparing text
// ---------------------------------------------------------------------

/// Whether two character sequences are equal.
pub fn chars_eq(a: &[char], b: &[char]) -> (r: bool)
    ensures
        r == (a@ == b@),
{
    if a.len() != b.len() {
        return false;
    }
    let mut i: usize = 0;
    while i < a.len()
        invariant
            i <= a@.len(),
            a@.len() == b@.len(),
            forall|k: int| 0 <= k < i ==> a@[k] == b@[k],
        decreases a@.len() - i,
    {
        if a[i] != b[i] {
            return false;
        }
        i = i + 1;
    }
    assert(a@ =~= b@);
    true
}

/// Whether `a` equals the string `t`.
pub fn chars_eq_str(a: &[char], t: &str) -> (r: bool)
    ensures
        r == (a@ == t@),
{
    let tv = chars_of(t);
    chars_eq(a, tv.as_slice())
}

/// Whether two strings hold the same characters.
pub fn str_eq(a: &str, b: &str) -> (r: bool)
    ensures
        r == (a@ == b@),
{
    let x = chars_of(a);
    chars_eq_str(x.as_slice(), b)
}

/// Rust's `str` ordering: lexicographic by code point, a proper prefix
/// coming first. `-1`, `0`, `1` for less, equal, greater.
pub open spec fn text_order(a: Seq<char>, b: Seq<char>) -> int
    decreases a.len(),
{
    if a.len() == 0 {
        if b.len() == 0 { 0 } else { -1 }
    } else if b.len() == 0 {
        1
    } else if a[0] < b[0] {
        -1
    } else if a[0] > b[0] {
        1
    } else {
        text_order(a.drop_first(), b.drop_first())
    }
}

pub proof fn lemma_text_order_antisym(a: Seq<char>, b: Seq<char>)
    ensures
        text_order(a, b) == -text_order(b, a),
        -1 <= text_order(a, b) <= 1,
        text_order(a, b) == 0 <==> a == b,
    decreases a.len(),
{
    if a.len() == 0 && b.len() == 0 {
        assert(a =~= b);
    }
    if a.len() > 0 && b.len() > 0 {
        lemma_text_order_antisym(a.drop_first(), b.drop_first());
        if a[0] == b[0] && a.drop_first() == b.drop_first() {
            assert(a =~= seq![a[0]] + a.drop_first());
            assert(b =~= seq![b[0]] + b.drop_first());
        }
        if a == b {
            assert(a.drop_first() == b.drop_first());
        }
    }
}

pub proof fn lemma_text_order_trans(a: Seq<char>, b: Seq<char>, c: Seq<char>)
    requires
        text_order(a, b) <= 0,
        text_order(b, c) <= 0,
    ensures
        text_order(a, c) <= 0,
        text_order(a, b) < 0 || text_order(b, c) < 0 ==> text_order(a, c) < 0,
    decreases a.len(),
{
    lemma_text_order_antisym(a, b);
    lemma_text_order_antisym(b, c);
    lemma_text_order_antisym(a, c);
    if a.len() > 0 && b.len() > 0 && c.len() > 0 {
        if a[0] == b[0] && b[0] == c[0] {
            lemma_text_order_trans(a.drop_first(), b.drop_first(), c.drop_first());
        }
    }
}

/// `a.cmp(b)` on `str`, as `-1`, `0` or `1`.
pub fn compare_chars(a: &[char], b: &[char]) -> (r: i8)
    ensures
        r as int == text_order(a@, b@),
{
    let mut i: usize = 0;
    assert(a@.skip(0) =~= a@ && b@.skip(0) =~= b@);
    while i < a.len() && i < b.len() && a[i] == b[i]
        invariant
            i <= a@.len(),
            i <= b@.len(),
            a@.take(i as int) == b@.take(i as int),
            text_order(a@, b@) == text_order(a@.skip(i as int), b@.skip(i as int)),
        decreases a@.len() - i,
    {
        let ghost ai = a@.skip(i as int);
        let ghost bi = b@.skip(i as int);
        assert(ai.drop_first() =~= a@.skip(i + 1));
        assert(bi.drop_first() =~= b@.skip(i + 1));
        assert(a@.take(i + 1) =~= a@.take(i as int).push(a@[i as int]));
        assert(b@.take(i + 1) =~= b@.take(i as int).push(b@[i as int]));
        i = i + 1;
    }
    let ghost ai = a@.skip(i as int);
    let ghost bi = b@.skip(i as int);
    if i == a.len() {
        if i == b.len() { 0 } else { -1 }
    } else if i == b.len() {
        1
    } else if a[i] < b[i] {
        assert(ai[0] == a@[i as int] && bi[0] == b@[i as int]);
        -1
    } else {
        assert(ai[0] == a@[i as int] && bi[0] == b@[i as int]);
        1
    }
}

// ---------------------------------------------------------------------
// Numbers as text
// ---------------------------------------------------------------------

pub open spec fn digit_char(d: nat) -> char {
    (('0' as u32) + d) as char
}

/// Decimal digits of `n`, as `{n}` formats an unsigned integer.
pub open spec fn decimal(n: nat) -> Seq<char>
    decreases n,
{
    if n < 10 {
        seq![digit_char(n)]
    } else {
        decimal(n / 10).push(digit_char(n % 10))
    }
}

/// Decimal text of `n`.
pub fn decimal_chars(n: u64) -> (r: Vec<char>)
    ensures
        r@ == decimal(n as nat),
    decreases n,
{
    if n < 10 {
        let d: u8 = n as u8;
        let c: char = (48u8 + d) as char;
        assert(c == digit_char(n as nat));
        let mut r: Vec<char> = Vec::new();
        r.push(c);
        assert(r@ =~= seq![digit_char(n as nat)]);
        r
    } else {
        let mut r = decimal_chars(n / 10);
        let d: u8 = (n % 10) as u8;
        let c: char = (48u8 + d) as char;
        assert(c == digit_char((n % 10) as nat));
        r.push(c);
        r
    }
}

/// `{n}` for a signed integer: a `-` before the digits when negative.
pub open spec fn signed_decimal(n: int) -> Seq<char> {
    if n < 0 {
        seq!['-'] + decimal((-n) as nat)
    } else {
        decimal(n as nat)
    }
}

pub fn signed_decimal_chars(n: i64) -> (r: Vec<char>)
    ensures
        r@ == signed_decimal(n as int),
{
    if n < 0 {
        let m: u64 = if n == i64::MIN { 9223372036854775808u64 } else { (-n) as u64 };
        let digits = decimal_chars(m);
        let mut r: Vec<char> = Vec::new();
        r.push('-');
        let mut i: usize = 0;
        while i < digits.len()
            invariant
                i <= digits@.len(),
                r@ == seq!['-'] + digits@.take(i as int),
            decreases digits@.len() - i,
        {
            r.push(digits[i]);
            i = i + 1;
            assert(digits@.take(i as int) =~= digits@.take(i - 1).push(digits@[i - 1]));
        }
        assert(digits@.take(digits@.len() as int) =~= digits@);
        r
    } else {
        decimal_chars(n as u64)
    }
}

// ---------------------------------------------------------------------
// Padding
// ---------------------------------------------------------------------

/// `{s:<width}`: `s` followed by spaces up to `width` characters.
pub open spec fn pad_right(s: Seq<char>, width: nat) -> Seq<char> {
    if s.len() >= width {
        s
    } else {
        s + Seq::new((width - s.len()) as nat, |i: int| ' ')
    }
}

pub fn push_padded(out: &mut String, s: &[char], width: usize)
    ensures
        final(out)@ == old(out)@ + pad_right(s@, width as nat),
{
    push_chars(out, s);
    let mut n: usize = s.len();
    let ghost pad = Seq::new((width - s@.len()) as nat, |i: int| ' ');
    while n < width
        invariant
            n <= width || n == s@.len(),
            n >= s@.len(),
            out@ == old(out)@ + s@ + Seq::new((n - s@.len()) as nat, |i: int| ' '),
        decreases width - n,
    {
        push_char(out, ' ');
        proof {
            assert(Seq::new((n + 1 - s@.len()) as nat, |i: int| ' ') =~= Seq::new((n - s@.len()) as nat, |i: int| ' ').push(' '));
        }
        n = n + 1;
    }
    if s.len() >= width {
        assert(n == s@.len());
        assert(Seq::new((n - s@.len()) as nat, |i: int| ' ') =~= Seq::<char>::empty());
        assert(out@ =~= old(out)@ + s@);
    } else {
        assert(n == width);
        assert(out@ =~= old(out)@ + (s@ + Seq::new((width - s@.len()) as nat, |i: int| ' ')));
    }
}


// ---------------------------------------------------------------------
// Debug quoting
// ---------------------------------------------------------------------

/// What `{:?}` prints for a string: the text in double quotes with
/// `char::escape_debug` applied to each character.
pub uninterp spec fn debug_quoted(s: Seq<char>) -> Seq<char>;

/// `format!("{:?}", s)` for a string slice.
#[verifier::external_body]
pub fn debug_text(s: &str) -> (r: String)
    ensures
        r@ == debug_quoted(s@),
{
    format!("{:?}", s)
}

} // verus!
