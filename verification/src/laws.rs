//! The laws the generated code obeys, proved from the emitters' contracts
//! and the first-match semantics of the generated matches.

use vstd::prelude::*;
use crate::decl::EnumDecl;
use crate::emit::{
    spec_from_index_arms, spec_next_arms, spec_prev_arms, spec_tag_arms, spec_to_index_arms,
    spec_variant_name_arms,
};
use crate::eval::{
    adjacency_arm_pred, eval_iter_next, from_index_arm_pred, index_arm_pred, name_arm_pred,
    spec_position_of, tag_arm_pred, variant_name_pred,
};
use crate::fragment::IterFragment;
use crate::matching::{first_match, lemma_first_match_hit, lemma_first_match_none};

verus! {

/// A variant's declaration position is found under its own name.
pub proof fn lemma_position_of_declared(d: EnumDecl, v: int)
    requires
        d.distinct_names(),
        0 <= v < d.variants@.len(),
    ensures
        spec_position_of(d, d.variants@[v].name@) == Some(v),
{
    lemma_first_match_hit(d.variants@, variant_name_pred(d.variants@[v].name@), v);
}

/// The index order strictly matches declaration order, whatever the shapes:
/// the generated index match maps the value holding variant `v` to `v`.
pub proof fn lemma_to_index_declaration_order(d: EnumDecl, v: int)
    requires
        d.distinct_names(),
        0 <= v < d.variants@.len(),
    ensures
        first_match(spec_to_index_arms(d), index_arm_pred(d.variants@[v].name@)) == Some(v),
        spec_to_index_arms(d)[v].value == v as u64,
{
    lemma_first_match_hit(spec_to_index_arms(d), index_arm_pred(d.variants@[v].name@), v);
}

/// Reconstruction from a valid index yields the variant declared there.
pub proof fn lemma_from_index_on_valid(d: EnumDecl, v: int)
    requires
        0 <= v < d.variants@.len(),
        d.variants@.len() <= u64::MAX,
    ensures
        first_match(spec_from_index_arms(d), from_index_arm_pred(v as u64)) == Some(v),
        spec_from_index_arms(d)[v].variant == d.variants@[v].name,
{
    lemma_first_match_hit(spec_from_index_arms(d), from_index_arm_pred(v as u64), v);
}

/// Reconstruction from an index at or above the variant count yields
/// absence.
pub proof fn lemma_from_index_out_of_range(d: EnumDecl, q: u64)
    requires
        q >= d.variants@.len(),
    ensures
        first_match(spec_from_index_arms(d), from_index_arm_pred(q)) is None,
{
    lemma_first_match_none(spec_from_index_arms(d), from_index_arm_pred(q));
}

/// Round trip: on a unit-only enum, reconstructing from index `v` yields the
/// variant declared at `v`, and the generated index of that variant is `v`
/// again.
pub proof fn lemma_index_round_trip(d: EnumDecl, v: int)
    requires
        d.distinct_names(),
        d.all_unit(),
        0 <= v < d.variants@.len(),
        d.variants@.len() <= u64::MAX,
    ensures
        first_match(spec_from_index_arms(d), from_index_arm_pred(v as u64)) == Some(v),
        first_match(
            spec_to_index_arms(d),
            index_arm_pred(spec_from_index_arms(d)[v].variant@),
        ) == Some(v),
        spec_to_index_arms(d)[v].value == v as u64,
{
    lemma_from_index_on_valid(d, v);
    lemma_to_index_declaration_order(d, v);
}

/// The generated name match maps the value holding variant `v` to that
/// variant's declared identifier.
pub proof fn lemma_variant_name_lookup(d: EnumDecl, v: int)
    requires
        d.distinct_names(),
        0 <= v < d.variants@.len(),
    ensures
        first_match(spec_variant_name_arms(d), name_arm_pred(d.variants@[v].name@)) == Some(v),
        spec_variant_name_arms(d)[v].text == d.variants@[v].name,
{
    lemma_first_match_hit(spec_variant_name_arms(d), name_arm_pred(d.variants@[v].name@), v);
}

/// The generated tag accessor maps the value holding variant `v` to the tag
/// variant of the same name.
pub proof fn lemma_tag_lookup(d: EnumDecl, v: int)
    requires
        d.distinct_names(),
        0 <= v < d.variants@.len(),
    ensures
        first_match(spec_tag_arms(d), tag_arm_pred(d.variants@[v].name@)) == Some(v),
        spec_tag_arms(d)[v].tag_variant == d.variants@[v].name,
{
    lemma_first_match_hit(spec_tag_arms(d), tag_arm_pred(d.variants@[v].name@), v);
}

/// One forward step: from variant `v` the adjacency arms advance to variant
/// `v + 1`, and from the last variant they signal exhaustion.
pub proof fn lemma_next_step(d: EnumDecl, v: int)
    requires
        d.distinct_names(),
        0 <= v < d.variants@.len(),
    ensures
        v < d.variants@.len() - 1 ==> first_match(
            spec_next_arms(d),
            adjacency_arm_pred(d.variants@[v].name@),
        ) == Some(v) && spec_next_arms(d)[v].to == d.variants@[v + 1].name,
        v == d.variants@.len() - 1 ==> first_match(
            spec_next_arms(d),
            adjacency_arm_pred(d.variants@[v].name@),
        ) is None,
{
    if v < d.variants@.len() - 1 {
        lemma_first_match_hit(spec_next_arms(d), adjacency_arm_pred(d.variants@[v].name@), v);
    } else {
        lemma_first_match_none(spec_next_arms(d), adjacency_arm_pred(d.variants@[v].name@));
    }
}

/// One backward step: from variant `v` the reversed arms step to variant
/// `v - 1`, and from the first variant they signal exhaustion.
pub proof fn lemma_prev_step(d: EnumDecl, v: int)
    requires
        d.distinct_names(),
        0 <= v < d.variants@.len(),
    ensures
        v > 0 ==> first_match(spec_prev_arms(d), adjacency_arm_pred(d.variants@[v].name@)) == Some(
            d.variants@.len() - 1 - v,
        ) && spec_prev_arms(d)[d.variants@.len() - 1 - v].to == d.variants@[v - 1].name,
        v == 0 ==> first_match(spec_prev_arms(d), adjacency_arm_pred(d.variants@[v].name@)) is None,
{
    let n = d.variants@.len() as int;
    if v > 0 {
        assert(spec_prev_arms(d)[n - 1 - v].from == d.variants@[v].name);
        lemma_first_match_hit(spec_prev_arms(d), adjacency_arm_pred(d.variants@[v].name@), n - 1 - v);
    } else {
        lemma_first_match_none(spec_prev_arms(d), adjacency_arm_pred(d.variants@[v].name@));
    }
}

/// Runs the generated wrapper iterator from its unset state to exhaustion:
/// it visits every declared variant exactly once, in declaration order.
pub fn iter_collect(d: &EnumDecl, f: &IterFragment) -> (r: Vec<String>)
    requires
        d.distinct_names(),
        d.variants@.len() > 0,
        f.first == d.variants@[0].name,
        f.next_arms@ == spec_next_arms(*d),
    ensures
        r@.len() == d.variants@.len(),
        forall|k: int| 0 <= k < r@.len() ==> r@[k] == d.variants@[k].name,
{
    let n = d.variants.len();
    let mut out: Vec<String> = Vec::new();
    let mut state: Option<String> = None;
    loop
        invariant
            n == d.variants@.len(),
            n > 0,
            d.distinct_names(),
            f.first == d.variants@[0].name,
            f.next_arms@ == spec_next_arms(*d),
            out@.len() <= n,
            forall|k: int| 0 <= k < out@.len() ==> out@[k] == d.variants@[k].name,
            state == (if out@.len() == 0 {
                None::<String>
            } else {
                Some(d.variants@[out@.len() - 1].name)
            }),
        decreases n - out@.len(),
    {
        proof {
            if out@.len() > 0 {
                lemma_next_step(*d, out@.len() - 1);
            }
        }
        let yielded = eval_iter_next(f, state.as_ref());
        match yielded {
            Some(nm) => {
                let again = nm.clone();
                out.push(nm);
                state = Some(again);
            },
            None => {
                return out;
            },
        }
    }
}

/// Runs the generated wrapper iterator backwards from its unset state to
/// exhaustion: it visits every declared variant exactly once, in reverse
/// declaration order.
pub fn iter_collect_back(d: &EnumDecl, f: &IterFragment) -> (r: Vec<String>)
    requires
        d.distinct_names(),
        d.variants@.len() > 0,
        f.last == d.variants@[d.variants@.len() - 1].name,
        f.prev_arms@ == spec_prev_arms(*d),
    ensures
        r@.len() == d.variants@.len(),
        forall|k: int|
            0 <= k < r@.len() ==> r@[k] == d.variants@[d.variants@.len() - 1 - k].name,
{
    let n = d.variants.len();
    let mut out: Vec<String> = Vec::new();
    let mut state: Option<String> = None;
    loop
        invariant
            n == d.variants@.len(),
            n > 0,
            d.distinct_names(),
            f.last == d.variants@[n - 1].name,
            f.prev_arms@ == spec_prev_arms(*d),
            out@.len() <= n,
            forall|k: int| 0 <= k < out@.len() ==> out@[k] == d.variants@[n - 1 - k].name,
            state == (if out@.len() == 0 {
                None::<String>
            } else {
                Some(d.variants@[n - out@.len()].name)
            }),
        decreases n - out@.len(),
    {
        proof {
            if out@.len() > 0 {
                crate::laws::lemma_prev_step(*d, n - out@.len());
            }
        }
        let yielded = crate::eval::eval_iter_next_back(f, state.as_ref());
        match yielded {
            Some(nm) => {
                let again = nm.clone();
                out.push(nm);
                state = Some(again);
            },
            None => {
                return out;
            },
        }
    }
}

/// Runs the generated self-mutating iteration starting from the first
/// variant: together with that starting value it visits every declared
/// variant exactly once, in declaration order, then signals exhaustion.
pub fn iterator_collect(d: &EnumDecl, f: &crate::fragment::IteratorFragment) -> (r: Vec<String>)
    requires
        d.distinct_names(),
        d.variants@.len() > 0,
        f.next_arms@ == spec_next_arms(*d),
    ensures
        r@.len() == d.variants@.len(),
        forall|k: int| 0 <= k < r@.len() ==> r@[k] == d.variants@[k].name,
{
    let n = d.variants.len();
    let mut out: Vec<String> = Vec::new();
    out.push(d.variants[0].name.clone());
    let mut current: String = d.variants[0].name.clone();
    loop
        invariant
            n == d.variants@.len(),
            n > 0,
            d.distinct_names(),
            f.next_arms@ == spec_next_arms(*d),
            0 < out@.len() <= n,
            forall|k: int| 0 <= k < out@.len() ==> out@[k] == d.variants@[k].name,
            current == d.variants@[out@.len() - 1].name,
        decreases n - out@.len(),
    {
        proof {
            lemma_next_step(*d, out@.len() - 1);
        }
        let yielded = crate::eval::eval_iterator_next(f, &current);
        match yielded {
            Some(nm) => {
                let again = nm.clone();
                out.push(nm);
                current = again;
            },
            None => {
                return out;
            },
        }
    }
}

/// Whether an inverse-name arm stems from a unit variant declared before
/// `bound`, carrying that variant's name as both its literal and its target.
pub open spec fn from_name_arm_origin(d: EnumDecl, bound: int, a: crate::fragment::FromNameArm) -> bool {
    exists|j: int|
        0 <= j < bound && (#[trigger] d.variants@[j]).shape is Unit
            && a.text == d.variants@[j].name && a.variant == d.variants@[j].name
}

/// Every arm of the inverse name mapping over the first `m` variants stems
/// from a unit variant among them.
pub proof fn lemma_from_name_arms_origins(d: EnumDecl, m: int)
    requires
        0 <= m <= d.variants@.len(),
    ensures
        forall|k: int|
            0 <= k < crate::emit::spec_from_name_arms_upto(d, m).len()
                ==> from_name_arm_origin(
                d,
                m,
                #[trigger] crate::emit::spec_from_name_arms_upto(d, m)[k],
            ),
    decreases m,
{
    if m > 0 {
        lemma_from_name_arms_origins(d, m - 1);
        let prev = crate::emit::spec_from_name_arms_upto(d, m - 1);
        let cur = crate::emit::spec_from_name_arms_upto(d, m);
        assert forall|k: int| 0 <= k < cur.len() implies from_name_arm_origin(d, m, cur[k]) by {
            if k < prev.len() {
                assert(cur[k] == prev[k]);
                assert(from_name_arm_origin(d, m - 1, prev[k]));
                let j = choose|j: int|
                    0 <= j < m - 1 && (#[trigger] d.variants@[j]).shape
                        is Unit && prev[k].text == d.variants@[j].name
                        && prev[k].variant == d.variants@[j].name;
                assert(0 <= j < m && d.variants@[j].shape is Unit
                    && cur[k].text == d.variants@[j].name && cur[k].variant == d.variants@[j].name);
            } else {
                assert(d.variants@[m - 1].shape is Unit);
                assert(cur[k].text == d.variants@[m - 1].name);
                assert(cur[k].variant == d.variants@[m - 1].name);
            }
        }
    }
}

/// The inverse name mapping finds a unit variant under its own name and
/// reconstructs that same variant: the round trip of the name mapping.
pub proof fn lemma_from_name_round_trip(d: EnumDecl, v: int)
    requires
        d.distinct_names(),
        0 <= v < d.variants@.len(),
        d.variants@[v].shape is Unit,
    ensures
        crate::matching::first_match(
            crate::emit::spec_from_name_arms(d),
            crate::eval::from_name_arm_pred(d.variants@[v].name@),
        ) matches Some(k) && crate::emit::spec_from_name_arms(d)[k].variant == d.variants@[v].name,
{
    lemma_from_name_hit_upto(d, v, d.variants@.len() as int);
}

/// As `lemma_from_name_round_trip`, over the arms of the first `m` variants.
proof fn lemma_from_name_hit_upto(d: EnumDecl, v: int, m: int)
    requires
        d.distinct_names(),
        0 <= v < m <= d.variants@.len(),
        d.variants@[v].shape is Unit,
    ensures
        crate::matching::first_match(
            crate::emit::spec_from_name_arms_upto(d, m),
            crate::eval::from_name_arm_pred(d.variants@[v].name@),
        ) matches Some(k) && crate::emit::spec_from_name_arms_upto(d, m)[k].variant
            == d.variants@[v].name,
    decreases m,
{
    let pred = crate::eval::from_name_arm_pred(d.variants@[v].name@);
    let prev = crate::emit::spec_from_name_arms_upto(d, m - 1);
    let cur = crate::emit::spec_from_name_arms_upto(d, m);
    let tail = crate::emit::spec_from_name_arm_of(d, m - 1);
    crate::matching::lemma_first_match_concat(prev, tail, pred);
    if v == m - 1 {
        lemma_from_name_arms_origins(d, m - 1);
        assert forall|k: int| 0 <= k < prev.len() implies !pred(prev[k]) by {
            assert(from_name_arm_origin(d, m - 1, prev[k]));
            let j = choose|j: int|
                0 <= j < m - 1 && (#[trigger] d.variants@[j]).shape
                    is Unit && prev[k].text == d.variants@[j].name
                    && prev[k].variant == d.variants@[j].name;
            assert(d.variants@[j].name@ != d.variants@[v].name@);
        }
        crate::matching::lemma_first_match_none(prev, pred);
        assert(tail.len() == 1 && pred(tail[0]));
        crate::matching::lemma_first_match_hit(tail, pred, 0);
        assert(cur[prev.len() as int] == tail[0]);
    } else {
        lemma_from_name_hit_upto(d, v, m - 1);
        crate::matching::lemma_first_match_props(prev, pred);
        let k = crate::matching::first_match(prev, pred)->Some_0;
        assert(0 <= k < prev.len());
        assert(cur[k] == prev[k]);
    }
}

/// A string that names no unit variant is a parse failure of the inverse
/// name mapping: non-unit variants are excluded, unmatched strings yield
/// absence.
pub proof fn lemma_from_name_unmatched(d: EnumDecl, q: Seq<char>)
    requires
        forall|j: int|
            0 <= j < d.variants@.len() && (#[trigger] d.variants@[j]).shape
                is Unit ==> d.variants@[j].name@ != q,
    ensures
        crate::matching::first_match(
            crate::emit::spec_from_name_arms(d),
            crate::eval::from_name_arm_pred(q),
        ) is None,
{
    let pred = crate::eval::from_name_arm_pred(q);
    let arms = crate::emit::spec_from_name_arms(d);
    lemma_from_name_arms_origins(d, d.variants@.len() as int);
    assert forall|k: int| 0 <= k < arms.len() implies !pred(arms[k]) by {
        assert(from_name_arm_origin(d, d.variants@.len() as int, arms[k]));
    }
    crate::matching::lemma_first_match_none(arms, pred);
}

/// On a unit-only enum the discriminant arms line up with the variants: one
/// arm per variant, a literal arm where an explicit discriminant stands and
/// an implicit guard otherwise.
pub proof fn lemma_disc_arms_unit_index(d: EnumDecl, m: int)
    requires
        d.all_unit(),
        0 <= m <= d.variants@.len(),
    ensures
        crate::emit::spec_discriminant_arms_upto(d, m).len() == m,
        forall|k: int|
            0 <= k < m ==> #[trigger] crate::emit::spec_discriminant_arms_upto(d, m)[k] == (
            match d.variants@[k].discriminant {
                Some(val) => crate::fragment::DiscriminantArm::Literal {
                    value: val,
                    variant: d.variants@[k].name,
                },
                None => crate::fragment::DiscriminantArm::Implicit { variant: d.variants@[k].name },
            }),
    decreases m,
{
    if m > 0 {
        lemma_disc_arms_unit_index(d, m - 1);
    }
}

/// Discriminant round trip, the reconstructing direction: on a unit-only
/// well-formed enum, querying the discriminant value the host language
/// assigns to variant `v` reconstructs exactly variant `v`.
pub proof fn lemma_from_discriminant_hit(d: EnumDecl, v: int, q: u64)
    requires
        d.wf(),
        d.all_unit(),
        0 <= v < d.variants@.len(),
        q == crate::decl::spec_discriminant_value(d, v),
    ensures
        crate::matching::first_match(
            crate::emit::spec_discriminant_arms(d),
            crate::eval::disc_arm_pred(d, q),
        ) == Some(v),
        crate::eval::disc_arm_variant(crate::emit::spec_discriminant_arms(d)[v])
            == d.variants@[v].name,
{
    let pred = crate::eval::disc_arm_pred(d, q);
    let arms = crate::emit::spec_discriminant_arms(d);
    let n = d.variants@.len() as int;
    lemma_disc_arms_unit_index(d, n);
    assert forall|j: int| 0 <= j < n implies crate::eval::disc_arm_pred(d, q)(arms[j]) == (
        crate::decl::spec_discriminant_value(d, j) == q) by {
        lemma_position_of_declared(d, j);
    }
    assert(pred(arms[v]));
    assert forall|j: int| 0 <= j < v implies !pred(arms[j]) by {
        assert(crate::decl::spec_discriminant_value(d, j) != crate::decl::spec_discriminant_value(
            d,
            v,
        ));
    }
    lemma_first_match_hit(arms, pred, v);
}

/// Discriminant round trip, the absent direction: a query that is no
/// variant's discriminant value reconstructs nothing.
pub proof fn lemma_from_discriminant_unmatched(d: EnumDecl, q: u64)
    requires
        d.wf(),
        d.all_unit(),
        forall|i: int|
            0 <= i < d.variants@.len() ==> #[trigger] crate::decl::spec_discriminant_value(d, i)
                != q,
    ensures
        crate::matching::first_match(
            crate::emit::spec_discriminant_arms(d),
            crate::eval::disc_arm_pred(d, q),
        ) is None,
{
    let pred = crate::eval::disc_arm_pred(d, q);
    let arms = crate::emit::spec_discriminant_arms(d);
    let n = d.variants@.len() as int;
    lemma_disc_arms_unit_index(d, n);
    assert forall|j: int| 0 <= j < n implies !pred(arms[j]) by {
        assert(crate::emit::spec_discriminant_arms_upto(d, n)[j] == (
        match d.variants@[j].discriminant {
            Some(val) => crate::fragment::DiscriminantArm::Literal {
                value: val,
                variant: d.variants@[j].name,
            },
            None => crate::fragment::DiscriminantArm::Implicit { variant: d.variants@[j].name },
        }));
        lemma_position_of_declared(d, j);
        assert(crate::decl::spec_discriminant_value(d, j) != q);
    }
    crate::matching::lemma_first_match_none(arms, pred);
}

} // verus!
