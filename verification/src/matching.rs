//! First-match semantics of a generated `match` expression.
//!
//! The generated code tests its arms from top to bottom; the first arm whose
//! pattern or guard accepts the scrutinee decides the result. `first_match`
//! gives the index of that arm.

use vstd::prelude::*;

verus! {

/// The index of the first element of `s` satisfying `p`, if any.
pub open spec fn first_match<A>(s: Seq<A>, p: spec_fn(A) -> bool) -> Option<int>
    decreases s.len(),
{
    if s.len() == 0 {
        None
    } else if p(s[0]) {
        Some(0)
    } else {
        match first_match(s.drop_first(), p) {
            Some(i) => Some(i + 1),
            None => None,
        }
    }
}

/// When `k` is the first index satisfying `p`, the first match is `k`.
pub proof fn lemma_first_match_hit<A>(s: Seq<A>, p: spec_fn(A) -> bool, k: int)
    requires
        0 <= k < s.len(),
        p(s[k]),
        forall|j: int| 0 <= j < k ==> !p(s[j]),
    ensures
        first_match(s, p) == Some(k),
    decreases k,
{
    if k == 0 {
    } else {
        assert(!p(s[0]));
        assert(forall|j: int| 0 <= j < k - 1 ==> s.drop_first()[j] == s[j + 1]);
        assert(s.drop_first()[k - 1] == s[k]);
        lemma_first_match_hit(s.drop_first(), p, k - 1);
    }
}

/// When no element satisfies `p`, there is no match.
pub proof fn lemma_first_match_none<A>(s: Seq<A>, p: spec_fn(A) -> bool)
    requires
        forall|j: int| 0 <= j < s.len() ==> !p(s[j]),
    ensures
        first_match(s, p) is None,
    decreases s.len(),
{
    if s.len() == 0 {
    } else {
        assert(!p(s[0]));
        assert(forall|j: int| 0 <= j < s.len() - 1 ==> s.drop_first()[j] == s[j + 1]);
        lemma_first_match_none(s.drop_first(), p);
    }
}

/// A match over concatenated arms: the left arms decide first; a match in
/// the right arms is shifted by the left length.
pub proof fn lemma_first_match_concat<A>(s: Seq<A>, t: Seq<A>, p: spec_fn(A) -> bool)
    ensures
        first_match(s + t, p) == (match first_match(s, p) {
            Some(k) => Some(k),
            None => match first_match(t, p) {
                Some(k) => Some(k + s.len()),
                None => None::<int>,
            },
        }),
    decreases s.len(),
{
    if s.len() == 0 {
        assert(s + t =~= t);
    } else {
        assert((s + t)[0] == s[0]);
        if p(s[0]) {
        } else {
            assert((s + t).drop_first() =~= s.drop_first() + t);
            lemma_first_match_concat(s.drop_first(), t, p);
        }
    }
}

/// What a match tells about its result: the matched element satisfies `p`
/// and no earlier element does; no match means no element satisfies `p`.
pub proof fn lemma_first_match_props<A>(s: Seq<A>, p: spec_fn(A) -> bool)
    ensures
        match first_match(s, p) {
            Some(k) => 0 <= k < s.len() && p(s[k]) && (forall|j: int| 0 <= j < k ==> !p(s[j])),
            None => forall|j: int| 0 <= j < s.len() ==> !p(s[j]),
        },
    decreases s.len(),
{
    if s.len() == 0 {
    } else if p(s[0]) {
    } else {
        lemma_first_match_props(s.drop_first(), p);
        match first_match(s.drop_first(), p) {
            Some(k) => {
                assert(s.drop_first()[k] == s[k + 1]);
                assert forall|j: int| 0 <= j < k + 1 implies !p(s[j]) by {
                    if j > 0 {
                        assert(s[j] == s.drop_first()[j - 1]);
                    }
                }
            },
            None => {
                assert forall|j: int| 0 <= j < s.len() implies !p(s[j]) by {
                    if j > 0 {
                        assert(s[j] == s.drop_first()[j - 1]);
                    }
                }
            },
        }
    }
}

} // verus!
