//! Facts about sequences that the table operations rest on.
use vstd::prelude::*;

verus! {

/// Whether `i` is the first position of `s` whose element satisfies `p`.
pub open spec fn is_first_match<T>(s: Seq<T>, p: spec_fn(T) -> bool, i: int) -> bool {
    &&& 0 <= i < s.len()
    &&& p(s[i])
    &&& forall|j: int| 0 <= j < i ==> !p(#[trigger] s[j])
}

/// The first element of `s` that satisfies `p`, if there is one.
pub open spec fn first_match<T>(s: Seq<T>, p: spec_fn(T) -> bool) -> Option<T> {
    if exists|i: int| is_first_match(s, p, i) {
        Some(s[choose|i: int| is_first_match(s, p, i)])
    } else {
        None
    }
}

/// Whether some element of `s` satisfies `p`.
pub open spec fn any_match<T>(s: Seq<T>, p: spec_fn(T) -> bool) -> bool {
    exists|i: int| 0 <= i < s.len() && p(#[trigger] s[i])
}

/// The first match is the element at the first matching position.
pub proof fn lemma_first_match_at<T>(s: Seq<T>, p: spec_fn(T) -> bool, i: int)
    requires
        is_first_match(s, p, i),
    ensures
        first_match(s, p) == Some(s[i]),
{
    let k = choose|k: int| is_first_match(s, p, k);
    if k < i {
        assert(!p(s[k]));
    } else if i < k {
        assert(!p(s[i]));
    }
}

/// Where no element matches, there is no first match.
pub proof fn lemma_first_match_none<T>(s: Seq<T>, p: spec_fn(T) -> bool)
    requires
        forall|j: int| 0 <= j < s.len() ==> !p(#[trigger] s[j]),
    ensures
        first_match(s, p) is None,
{
}

/// A first match is an element of the sequence and satisfies the predicate.
pub proof fn lemma_first_match_is_member<T>(s: Seq<T>, p: spec_fn(T) -> bool)
    ensures
        first_match(s, p) matches Some(x) ==> s.contains(x) && p(x),
        first_match(s, p) is None ==> !any_match(s, p),
{
    if exists|i: int| is_first_match(s, p, i) {
        let k = choose|k: int| is_first_match(s, p, k);
        assert(s[k] == first_match(s, p)->0);
    } else {
        if any_match(s, p) {
            let i = choose|i: int| 0 <= i < s.len() && p(#[trigger] s[i]);
            lemma_least_match(s, p, i);
        }
    }
}

/// Below any matching position lies a first one.
pub proof fn lemma_least_match<T>(s: Seq<T>, p: spec_fn(T) -> bool, i: int)
    requires
        0 <= i < s.len(),
        p(s[i]),
    ensures
        exists|k: int| is_first_match(s, p, k),
    decreases i,
{
    if forall|j: int| 0 <= j < i ==> !p(#[trigger] s[j]) {
        assert(is_first_match(s, p, i));
    } else {
        let j = choose|j: int| 0 <= j < i && p(#[trigger] s[j]);
        lemma_least_match(s, p, j);
    }
}

/// The elements of a sequence with one more at its end.
pub proof fn lemma_push_members<T>(s: Seq<T>, x: T)
    ensures
        forall|y: T| #[trigger] s.push(x).contains(y) <==> s.contains(y) || y == x,
{
    assert forall|y: T| #[trigger] s.push(x).contains(y) <==> s.contains(y) || y == x by {
        if s.push(x).contains(y) {
            let i = choose|i: int| 0 <= i < s.push(x).len() && s.push(x)[i] == y;
            if i < s.len() {
                assert(s[i] == y);
            }
        }
        if s.contains(y) {
            let i = choose|i: int| 0 <= i < s.len() && s[i] == y;
            assert(s.push(x)[i] == y);
        }
        if y == x {
            assert(s.push(x)[s.len() as int] == y);
        }
    }
}

/// Every element of a mapped sequence is the image of an element of the
/// sequence that was mapped, and the image of each of its elements is in it.
pub proof fn lemma_map_members<T, U>(s: Seq<T>, f: spec_fn(T) -> U)
    ensures
        forall|y: U| #[trigger]
            s.map_values(f).contains(y) ==> exists|x: T| #[trigger] s.contains(x) && f(x) == y,
        forall|x: T| #[trigger] s.contains(x) ==> s.map_values(f).contains(f(x)),
{
    assert forall|y: U| #[trigger] s.map_values(f).contains(y) implies exists|x: T| #[trigger]
        s.contains(x) && f(x) == y by {
        let i = choose|i: int| 0 <= i < s.map_values(f).len() && s.map_values(f)[i] == y;
        assert(s.contains(s[i]));
        assert(f(s[i]) == y);
    }
    assert forall|x: T| #[trigger] s.contains(x) implies s.map_values(f).contains(f(x)) by {
        let i = choose|i: int| 0 <= i < s.len() && s[i] == x;
        assert(s.map_values(f)[i] == f(x));
    }
}

/// Whether some element matches is a question of membership.
pub proof fn lemma_any_match_members<T>(s: Seq<T>, p: spec_fn(T) -> bool)
    ensures
        any_match(s, p) <==> exists|x: T| #[trigger] s.contains(x) && p(x),
{
    if any_match(s, p) {
        let i = choose|i: int| 0 <= i < s.len() && p(#[trigger] s[i]);
        assert(s.contains(s[i]));
    }
    if exists|x: T| #[trigger] s.contains(x) && p(x) {
        let x = choose|x: T| #[trigger] s.contains(x) && p(x);
        let i = choose|i: int| 0 <= i < s.len() && s[i] == x;
        assert(p(s[i]));
    }
}

/// Whether `cur` is `before` with `f` applied to the elements below `i`.
pub open spec fn mapped_below<T>(cur: Seq<T>, before: Seq<T>, f: spec_fn(T) -> T, i: int) -> bool {
    &&& cur.len() == before.len()
    &&& forall|j: int|
        0 <= j < cur.len() ==> #[trigger] cur[j] == if j < i {
            f(before[j])
        } else {
            before[j]
        }
}

/// Applying `f` at position `i` extends the mapped part by one.
pub proof fn lemma_mapped_below_step<T>(
    prev: Seq<T>,
    cur: Seq<T>,
    before: Seq<T>,
    f: spec_fn(T) -> T,
    i: int,
)
    requires
        mapped_below(prev, before, f, i),
        0 <= i < prev.len(),
        cur == prev.update(i, f(prev[i])),
    ensures
        mapped_below(cur, before, f, i + 1),
{
    assert forall|j: int| 0 <= j < cur.len() implies #[trigger] cur[j] == if j < i + 1 {
        f(before[j])
    } else {
        before[j]
    } by {
        assert(prev[j] == if j < i {
            f(before[j])
        } else {
            before[j]
        });
    }
}

/// A sequence mapped over its whole length is the mapped sequence.
pub proof fn lemma_mapped_below_all<T>(cur: Seq<T>, before: Seq<T>, f: spec_fn(T) -> T)
    requires
        mapped_below(cur, before, f, before.len() as int),
    ensures
        cur == before.map_values(f),
{
    assert(cur =~= before.map_values(f));
}

/// Where no element satisfies `p`, a function that changes only elements that
/// satisfy `p` changes nothing.
pub proof fn lemma_filter_none_is_identity<T>(s: Seq<T>, p: spec_fn(T) -> bool, f: spec_fn(T) -> T)
    requires
        s.filter(p).len() == 0,
        forall|x: T| !p(x) ==> #[trigger] f(x) == x,
    ensures
        s.map_values(f) == s,
{
    lemma_filter_members(s, p);
    assert forall|i: int| 0 <= i < s.len() implies #[trigger] s.map_values(f)[i] == s[i] by {
        if p(s[i]) {
            assert(s.contains(s[i]));
            assert(s.filter(p).contains(s[i]));
        }
    }
    assert(s.map_values(f) =~= s);
}

/// Filtering a sequence that ends in `x` filters what comes before and keeps
/// `x` where it satisfies the predicate.
pub proof fn lemma_filter_push<T>(s: Seq<T>, p: spec_fn(T) -> bool, x: T)
    ensures
        s.push(x).filter(p) == if p(x) {
            s.filter(p).push(x)
        } else {
            s.filter(p)
        },
{
    reveal(Seq::filter);
    assert(s.push(x).drop_last() =~= s);
}

/// A sequence filtered over its whole length.
pub proof fn lemma_subrange_all<T>(s: Seq<T>)
    ensures
        s.subrange(0, s.len() as int) == s,
{
    assert(s.subrange(0, s.len() as int) =~= s);
}

/// Every element that a filter keeps is an element of the filtered sequence
/// and satisfies the predicate; every element that satisfies it is kept.
pub proof fn lemma_filter_members<T>(s: Seq<T>, p: spec_fn(T) -> bool)
    ensures
        forall|x: T| #[trigger] s.filter(p).contains(x) <==> s.contains(x) && p(x),
{
    assert forall|x: T| #[trigger] s.filter(p).contains(x) <==> s.contains(x) && p(x) by {
        if s.filter(p).contains(x) {
            s.lemma_filter_contains_rev(p, x);
            let i = choose|i: int| 0 <= i < s.filter(p).len() && s.filter(p)[i] == x;
            s.lemma_filter_pred(p, i);
        }
        if s.contains(x) && p(x) {
            let i = choose|i: int| 0 <= i < s.len() && s[i] == x;
            s.lemma_filter_contains(p, i);
        }
    }
}

} // verus!
