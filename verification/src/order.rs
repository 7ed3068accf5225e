//! Stable insertion sort as a specification, with the facts every sort in
//! the library relies on: the result is ordered and holds the same items.

use vstd::prelude::*;

verus! {

/// `ord` is a total preorder given as a three-way comparison.
pub open spec fn is_total_preorder<T>(ord: spec_fn(T, T) -> int) -> bool {
    &&& forall|a: T, b: T| #[trigger] ord(a, b) == -ord(b, a)
    &&& forall|a: T, b: T, c: T|
        #[trigger] ord(a, b) <= 0 && #[trigger] ord(b, c) <= 0 ==> ord(a, c) <= 0
}

/// Where a stable insertion puts `x`: before the first element that comes
/// strictly after it.
pub open spec fn first_after<T>(s: Seq<T>, x: T, ord: spec_fn(T, T) -> int) -> nat
    decreases s.len(),
{
    if s.len() == 0 {
        0
    } else if ord(s[0], x) > 0 {
        0
    } else {
        1 + first_after(s.drop_first(), x, ord)
    }
}

pub open spec fn insert_sorted<T>(s: Seq<T>, x: T, ord: spec_fn(T, T) -> int) -> Seq<T> {
    s.insert(first_after(s, x, ord) as int, x)
}

/// Stable sort: elements inserted one by one in input order, each after
/// every element placed so far that does not come after it. Equal
/// elements keep their input order.
pub open spec fn sort_spec<T>(s: Seq<T>, ord: spec_fn(T, T) -> int) -> Seq<T>
    decreases s.len(),
{
    if s.len() == 0 {
        s
    } else {
        insert_sorted(sort_spec(s.drop_last(), ord), s.last(), ord)
    }
}

/// Every element comes no later than each one after it.
pub open spec fn sorted_by<T>(s: Seq<T>, ord: spec_fn(T, T) -> int) -> bool {
    forall|i: int, j: int| 0 <= i < j < s.len() ==> ord(#[trigger] s[i], #[trigger] s[j]) <= 0
}

pub proof fn lemma_first_after_bound<T>(s: Seq<T>, x: T, ord: spec_fn(T, T) -> int)
    ensures
        first_after(s, x, ord) <= s.len(),
        forall|k: int| 0 <= k < first_after(s, x, ord) ==> ord(#[trigger] s[k], x) <= 0,
        first_after(s, x, ord) < s.len() ==> ord(s[first_after(s, x, ord) as int], x) > 0,
    decreases s.len(),
{
    if s.len() > 0 && ord(s[0], x) <= 0 {
        lemma_first_after_bound(s.drop_first(), x, ord);
        assert forall|k: int| 0 <= k < first_after(s, x, ord) implies ord(#[trigger] s[k], x) <= 0 by {
            if k > 0 {
                assert(s[k] == s.drop_first()[k - 1]);
            }
        }
    }
}

/// The position found by a left-to-right scan is `first_after`.
pub proof fn lemma_first_after_is<T>(s: Seq<T>, x: T, ord: spec_fn(T, T) -> int, j: int)
    requires
        0 <= j <= s.len(),
        forall|k: int| 0 <= k < j ==> ord(#[trigger] s[k], x) <= 0,
        j == s.len() || ord(s[j], x) > 0,
    ensures
        first_after(s, x, ord) == j,
    decreases j,
{
    if j > 0 {
        assert(ord(s[0], x) <= 0);
        assert forall|k: int| 0 <= k < j - 1 implies ord(#[trigger] s.drop_first()[k], x) <= 0 by {
            assert(s.drop_first()[k] == s[k + 1]);
        }
        if j < s.len() {
            assert(s.drop_first()[j - 1] == s[j]);
        }
        lemma_first_after_is(s.drop_first(), x, ord, j - 1);
    }
}

/// Inserting at `first_after` keeps a sorted sequence sorted.
pub proof fn lemma_insert_sorted<T>(s: Seq<T>, x: T, ord: spec_fn(T, T) -> int)
    requires
        is_total_preorder(ord),
        sorted_by(s, ord),
    ensures
        sorted_by(insert_sorted(s, x, ord), ord),
{
    lemma_first_after_bound(s, x, ord);
    let p = first_after(s, x, ord) as int;
    let r = insert_sorted(s, x, ord);
    assert forall|i: int, j: int| 0 <= i < j < r.len() implies ord(#[trigger] r[i], #[trigger] r[j]) <= 0 by {
        if j < p {
            assert(r[i] == s[i] && r[j] == s[j]);
        } else if j == p {
            assert(r[i] == s[i] && r[j] == x);
        } else if i == p {
            // x, then s[j - 1] which is at or after s[p] > x
            assert(r[j] == s[j - 1]);
            assert(ord(s[p], x) > 0);
            assert(ord(x, s[p]) < 0);
            if j - 1 > p {
                assert(ord(s[p], s[j - 1]) <= 0);
            }
            assert(ord(x, s[j - 1]) <= 0);
        } else if i < p {
            assert(r[i] == s[i] && r[j] == s[j - 1]);
        } else {
            assert(r[i] == s[i - 1] && r[j] == s[j - 1]);
        }
    }
}

/// A stable sort is ordered.
pub proof fn lemma_sort_sorted<T>(s: Seq<T>, ord: spec_fn(T, T) -> int)
    requires
        is_total_preorder(ord),
    ensures
        sorted_by(sort_spec(s, ord), ord),
    decreases s.len(),
{
    if s.len() > 0 {
        lemma_sort_sorted(s.drop_last(), ord);
        lemma_insert_sorted(sort_spec(s.drop_last(), ord), s.last(), ord);
    }
}

/// A stable sort holds exactly the items it was given.
pub proof fn lemma_sort_permutes<T>(s: Seq<T>, ord: spec_fn(T, T) -> int)
    ensures
        sort_spec(s, ord).to_multiset() == s.to_multiset(),
        sort_spec(s, ord).len() == s.len(),
    decreases s.len(),
{
    broadcast use vstd::seq_lib::group_to_multiset_ensures;
    if s.len() > 0 {
        lemma_sort_permutes(s.drop_last(), ord);
        let r = sort_spec(s.drop_last(), ord);
        lemma_first_after_bound(r, s.last(), ord);
        let p = first_after(r, s.last(), ord) as int;
        vstd::seq_lib::to_multiset_insert(r, p, s.last());
        vstd::seq_lib::to_multiset_build(s.drop_last(), s.last());
        assert(s =~= s.drop_last().push(s.last()));
    }
}


/// A stable sort keeps ties in input order: the elements tied with any
/// `x` come out in the order they went in.
pub proof fn lemma_sort_stable<T>(s: Seq<T>, ord: spec_fn(T, T) -> int, x: T)
    requires
        is_total_preorder(ord),
    ensures
        sort_spec(s, ord).filter(|y: T| ord(y, x) == 0) == s.filter(|y: T| ord(y, x) == 0),
    decreases s.len(),
{
    let pred = |y: T| ord(y, x) == 0;
    if s.len() > 0 {
        let r = sort_spec(s.drop_last(), ord);
        let e = s.last();
        lemma_sort_stable(s.drop_last(), ord, x);
        lemma_sort_sorted(s.drop_last(), ord);
        lemma_first_after_bound(r, e, ord);
        let p = first_after(r, e, ord) as int;
        let a = r.take(p);
        let b = r.skip(p);
        assert(r =~= a + b);
        assert(r.insert(p, e) =~= a.push(e) + b);
        Seq::filter_distributes_over_add(a, b, pred);
        Seq::filter_distributes_over_add(a.push(e), b, pred);
        a.lemma_filter_push(e, pred);
        assert(s =~= s.drop_last().push(e));
        s.drop_last().lemma_filter_push(e, pred);
        if pred(e) {
            assert forall|k: int| 0 <= k < b.len() implies !pred(#[trigger] b[k]) by {
                assert(b[k] == r[p + k]);
                assert(ord(r[p], e) > 0);
                if k > 0 {
                    assert(ord(r[p], r[p + k]) <= 0);
                }
                if ord(b[k], x) == 0 {
                    assert(ord(x, e) == 0);
                    assert(ord(b[k], e) <= 0);
                    assert(ord(r[p], e) <= 0);
                }
            }
            assert(b.all(|y: T| !pred(y)));
            b.lemma_all_neg_filter_empty(pred);
            assert(b.filter(pred) =~= Seq::<T>::empty());
        }
    }
}

} // verus!
