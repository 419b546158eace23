//! "First element that satisfies a predicate", the search order that every lookup
//! of the rule tables follows.
use vstd::prelude::*;

verus! {

/// `i` is the position of the first element of `s` that satisfies `p`.
pub open spec fn is_first<T>(s: Seq<T>, p: spec_fn(T) -> bool, i: int) -> bool {
    &&& 0 <= i < s.len()
    &&& p(s[i])
    &&& forall|j: int| 0 <= j < i ==> !p(#[trigger] s[j])
}

/// The position of the first element of `s` that satisfies `p`, if any does.
pub open spec fn first_index<T>(s: Seq<T>, p: spec_fn(T) -> bool) -> Option<int> {
    if exists|i: int| 0 <= i < s.len() && p(#[trigger] s[i]) {
        Some(choose|i: int| is_first(s, p, i))
    } else {
        None
    }
}

/// A position that satisfies `p` with no earlier one that does is what
/// `first_index` names.
pub proof fn lemma_first_index_at<T>(s: Seq<T>, p: spec_fn(T) -> bool, i: int)
    requires
        is_first(s, p, i),
    ensures
        first_index(s, p) == Some(i),
{
    assert(0 <= i < s.len() && p(s[i]));
    let k = choose|k: int| is_first(s, p, k);
    assert(is_first(s, p, k));
    if k < i {
        assert(!p(s[k]));
    } else if k > i {
        assert(!p(s[i]));
    }
}

/// When no element satisfies `p`, `first_index` is `None`.
pub proof fn lemma_first_index_none<T>(s: Seq<T>, p: spec_fn(T) -> bool)
    requires
        forall|j: int| 0 <= j < s.len() ==> !p(#[trigger] s[j]),
    ensures
        first_index(s, p) == None::<int>,
{
}

/// Whatever `first_index` returns is the first satisfying position.
pub proof fn lemma_first_index_is_first<T>(s: Seq<T>, p: spec_fn(T) -> bool)
    ensures
        match first_index(s, p) {
            Some(i) => is_first(s, p, i),
            None => forall|j: int| 0 <= j < s.len() ==> !p(#[trigger] s[j]),
        },
    decreases s.len(),
{
    if exists|i: int| 0 <= i < s.len() && p(#[trigger] s[i]) {
        let w = choose|i: int| 0 <= i < s.len() && p(#[trigger] s[i]);
        lemma_least_exists(s, p, w);
    }
}

/// `first_index` only looks at which elements satisfy the predicate.
pub proof fn lemma_first_index_same_hits<T>(s1: Seq<T>, s2: Seq<T>, p: spec_fn(T) -> bool)
    requires
        s1.len() == s2.len(),
        forall|j: int| 0 <= j < s1.len() ==> p(#[trigger] s1[j]) == p(s2[j]),
    ensures
        first_index(s1, p) == first_index(s2, p),
{
    lemma_first_index_is_first(s1, p);
    lemma_first_index_is_first(s2, p);
    match first_index(s1, p) {
        Some(i) => {
            assert(p(s2[i]));
            assert forall|j: int| 0 <= j < i implies !p(#[trigger] s2[j]) by {
                assert(!p(s1[j]));
            }
            lemma_first_index_at(s2, p, i);
        },
        None => {
            assert forall|j: int| 0 <= j < s2.len() implies !p(#[trigger] s2[j]) by {
                assert(!p(s1[j]));
            }
            lemma_first_index_none(s2, p);
        },
    }
}

/// Appending an element that does not satisfy `p` leaves `first_index` unchanged;
/// appending one that does makes it the answer when nothing earlier satisfied `p`.
pub proof fn lemma_first_index_push<T>(s: Seq<T>, x: T, p: spec_fn(T) -> bool)
    ensures
        first_index(s.push(x), p) == (match first_index(s, p) {
            Some(i) => Some(i),
            None => if p(x) {
                Some(s.len() as int)
            } else {
                None::<int>
            },
        }),
{
    lemma_first_index_is_first(s, p);
    let t = s.push(x);
    assert forall|j: int| 0 <= j < s.len() implies #[trigger] t[j] == s[j] by {}
    match first_index(s, p) {
        Some(i) => {
            assert(t[i] == s[i]);
            assert forall|j: int| 0 <= j < i implies !p(#[trigger] t[j]) by {
                assert(t[j] == s[j]);
            }
            lemma_first_index_at(t, p, i);
        },
        None => {
            if p(x) {
                assert forall|j: int| 0 <= j < s.len() implies !p(#[trigger] t[j]) by {
                    assert(t[j] == s[j]);
                }
                lemma_first_index_at(t, p, s.len() as int);
            } else {
                assert forall|j: int| 0 <= j < t.len() implies !p(#[trigger] t[j]) by {
                    if j < s.len() {
                        assert(t[j] == s[j]);
                    }
                }
                lemma_first_index_none(t, p);
            }
        },
    }
}

proof fn lemma_least_exists<T>(s: Seq<T>, p: spec_fn(T) -> bool, w: int)
    requires
        0 <= w < s.len(),
        p(s[w]),
    ensures
        exists|i: int| is_first(s, p, i),
    decreases w,
{
    if exists|j: int| 0 <= j < w && p(#[trigger] s[j]) {
        let j = choose|j: int| 0 <= j < w && p(#[trigger] s[j]);
        lemma_least_exists(s, p, j);
    } else {
        assert(is_first(s, p, w));
    }
}

} // verus!
