//! The derivations: one function per capability, from a declaration to the
//! generated source text or the precondition diagnostic.
//!
//! Each function classifies the variants, checks the capability's structural
//! precondition, emits the fragment and serializes it. Expansion is
//! all-or-nothing per capability: a diagnostic leaves the other derivations
//! of the same declaration untouched.

use vstd::prelude::*;
use crate::capability::{Capability, DeriveError};
use crate::decl::EnumDecl;
use crate::emit::{
    emit_bit_pattern, emit_discriminant, emit_ends, emit_from_index, emit_from_variant_name,
    emit_index, emit_is_variant_fns, emit_iter, emit_iterator, emit_len, emit_tag, emit_to_index,
    emit_variant_name, spec_bit_pattern_bytes, spec_bit_pattern_rev_bytes, spec_discriminant_arms,
    spec_discriminant_type_ident, spec_from_index_arms, spec_from_name_arms, spec_n_bytes,
    spec_next_arms, spec_prev_arms, spec_tag_arms, spec_tag_variants, spec_to_index_arms,
    spec_variant_name_arms,
};
use crate::fragment::{BitPatternArm, MatchPattern, PredicateFn};
use crate::render::{
    render_bit_pattern, render_discriminant, render_ends, render_from_index,
    render_from_variant_name, render_index, render_is_variant_fns, render_iter, render_iterator,
    render_len, render_tag, render_to_index, render_variant_name, spec_bytes_text,
    spec_pattern_text, spec_render_bit_pattern, spec_render_discriminant, spec_render_ends,
    spec_render_from_index, spec_render_from_variant_name, spec_render_index,
    spec_render_is_variant_fns, spec_render_iter, spec_render_iterator, spec_render_len,
    spec_render_tag, spec_render_to_index, spec_render_variant_name,
};
use crate::width::spec_index_type_ident;

verus! {

/// The bit-pattern arms of `d`, as text: one row per variant, with the byte
/// array of the chosen bit order.
pub open spec fn spec_bp_canonical_text(d: EnumDecl, rev: bool, n: int) -> Seq<char>
    decreases n,
{
    if n <= 0 {
        Seq::empty()
    } else {
        spec_bp_canonical_text(d, rev, n - 1) + "            "@ + d.name@ + "::"@ + d.variants@[n
            - 1].name@ + " => ["@ + spec_bytes_text(
            if rev {
                spec_bit_pattern_rev_bytes(d.variants@.len(), n - 1)
            } else {
                spec_bit_pattern_bytes(d.variants@.len(), n - 1)
            },
        ) + "],\n"@
    }
}

/// Arms whose views agree with the canonical bit patterns render the
/// canonical text.
proof fn lemma_bp_text_congruence(d: EnumDecl, rev: bool, arms: Seq<BitPatternArm>, n: int)
    requires
        0 <= n <= arms.len(),
        arms.len() == d.variants@.len(),
        forall|i: int|
            0 <= i < arms.len() ==> (#[trigger] arms[i]).variant@ == d.variants@[i].name@
                && arms[i].bytes@ == (if rev {
                spec_bit_pattern_rev_bytes(d.variants@.len(), i)
            } else {
                spec_bit_pattern_bytes(d.variants@.len(), i)
            }),
    ensures
        crate::render::spec_bp_arms_text(d.name@, arms.take(n)) == spec_bp_canonical_text(
            d,
            rev,
            n,
        ),
    decreases n,
{
    if n > 0 {
        lemma_bp_text_congruence(d, rev, arms, n - 1);
        assert(arms.take(n).drop_last() =~= arms.take(n - 1));
        assert(arms.take(n).last() == arms[n - 1]);
    }
}

/// The predicate methods of `d`, as text: one method per variant, named by
/// the lower-cased prefix convention.
pub open spec fn spec_pred_canonical_text(d: EnumDecl, n: int) -> Seq<char>
    decreases n,
{
    if n <= 0 {
        Seq::empty()
    } else {
        spec_pred_canonical_text(d, n - 1) + "    pub fn "@ + "is_"@ + crate::textutil::spec_lower(
            d.variants@[n - 1].name@,
        ) + "(&self) -> bool {\n        if let &"@ + spec_pattern_text(
            d.name@,
            crate::emit::spec_pattern(d, n - 1),
            false,
        ) + " = self { true } else { false }\n    }\n"@
    }
}

/// Predicate methods whose views agree with the convention render the
/// canonical text.
proof fn lemma_pred_text_congruence(d: EnumDecl, fns: Seq<PredicateFn>, n: int)
    requires
        0 <= n <= fns.len(),
        fns.len() == d.variants@.len(),
        forall|i: int|
            0 <= i < fns.len() ==> (#[trigger] fns[i]).pattern == crate::emit::spec_pattern(d, i),
        forall|i: int|
            0 <= i < fns.len() ==> (#[trigger] fns[i]).fn_name@ == "is_"@
                + crate::textutil::spec_lower(d.variants@[i].name@),
    ensures
        crate::render::spec_pred_fns_text(d.name@, fns.take(n)) == spec_pred_canonical_text(d, n),
    decreases n,
{
    if n > 0 {
        lemma_pred_text_congruence(d, fns, n - 1);
        assert(fns.take(n).drop_last() =~= fns.take(n - 1));
        assert(fns.take(n).last() == fns[n - 1]);
        assert(crate::render::spec_pred_fn_text(d.name@, fns[n - 1]) == "    pub fn "@ + "is_"@
            + crate::textutil::spec_lower(d.variants@[n - 1].name@)
            + "(&self) -> bool {\n        if let &"@ + spec_pattern_text(
            d.name@,
            crate::emit::spec_pattern(d, n - 1),
            false,
        ) + " = self { true } else { false }\n    }\n"@) by {
            assert(fns[n - 1].fn_name@ == "is_"@ + crate::textutil::spec_lower(
                d.variants@[n - 1].name@,
            ));
        }
    }
}

/// Whether the capability's structural precondition holds of `d`.
pub open spec fn spec_derive_ok(d: EnumDecl, c: Capability) -> bool {
    match c {
        Capability::Ends => d.variants@.len() > 0,
        Capability::FromIndex => d.all_unit(),
        Capability::Iter => d.variants@.len() > 0 && d.all_unit(),
        Capability::Iterator => d.all_unit(),
        Capability::BitPattern => d.all_unit(),
        _ => true,
    }
}

/// The diagnostic a failing derivation reports.
pub open spec fn spec_derive_err(d: EnumDecl, c: Capability) -> DeriveError {
    match c {
        Capability::Ends => DeriveError::EmptyEnum(Capability::Ends),
        Capability::FromIndex => DeriveError::NoFields(Capability::FromIndex),
        Capability::Iter => if d.variants@.len() == 0 {
            DeriveError::EmptyEnum(Capability::Iter)
        } else {
            DeriveError::NoFields(Capability::Iter)
        },
        Capability::Iterator => DeriveError::NoFields(Capability::Iterator),
        Capability::BitPattern => DeriveError::NoFields(Capability::BitPattern),
        _ => DeriveError::NotAnEnum,
    }
}

/// The text a successful derivation of `c` emits for `d`.
pub open spec fn spec_derived_text(d: EnumDecl, c: Capability) -> Seq<char> {
    match c {
        Capability::Len => spec_render_len(d, d.variants@.len()),
        Capability::Ends => spec_render_ends(
            d,
            d.variants@[0].name@,
            d.variants@[d.variants@.len() - 1].name@,
        ),
        Capability::ToIndex => spec_render_to_index(d, spec_to_index_arms(d)),
        Capability::FromIndex => spec_render_from_index(d, spec_from_index_arms(d)),
        Capability::Index => spec_render_index(d, spec_index_type_ident(d)),
        Capability::Iter => spec_render_iter(
            d,
            d.name@ + "Iter"@,
            d.variants@[0].name@,
            d.variants@[d.variants@.len() - 1].name@,
            d.variants@.len(),
            spec_next_arms(d),
            spec_prev_arms(d),
            spec_to_index_arms(d),
        ),
        Capability::Iterator => spec_render_iterator(
            d,
            d.variants@.len(),
            if d.variants@.len() == 0 {
                None
            } else {
                Some(d.variants@[d.variants@.len() - 1].name)
            },
            spec_next_arms(d),
            spec_to_index_arms(d),
        ),
        Capability::Discriminant => spec_render_discriminant(
            d,
            spec_discriminant_type_ident(d),
            spec_discriminant_arms(d),
        ),
        Capability::VariantName => spec_render_variant_name(d, spec_variant_name_arms(d)),
        Capability::FromVariantName => spec_render_from_variant_name(d, spec_from_name_arms(d)),
        Capability::BitPattern => crate::render::spec_impl_header(
            d,
            "::enum_traits::BitPattern"@,
            d.name@,
        ) + "    type ByteArray = [u8; "@ + crate::render::spec_dec(
            spec_n_bytes(d.variants@.len()),
        ) + "];\n\n    fn bit_pattern(self) -> Self::ByteArray {\n        match self {\n"@
            + spec_bp_canonical_text(d, false, d.variants@.len() as int)
            + "        }\n    }\n\n    fn bit_pattern_rev(self) -> Self::ByteArray {\n        match self {\n"@
            + spec_bp_canonical_text(d, true, d.variants@.len() as int) + "        }\n    }\n}\n"@,
        Capability::Tag => spec_render_tag(
            d,
            d.name@ + "Tag"@,
            spec_tag_variants(d),
            spec_tag_arms(d),
        ),
        Capability::IsVariantFns => crate::render::spec_inherent_header(d)
            + spec_pred_canonical_text(d, d.variants@.len() as int) + "}\n"@,
    }
}

/// Runs one derivation: the capability's precondition is checked, the
/// fragment emitted and serialized, or the diagnostic returned.
pub fn derive_capability(d: &EnumDecl, c: Capability) -> (r: Result<String, DeriveError>)
    requires
        d.variants@.len() <= u64::MAX,
        c is Discriminant ==> d.explicit_discriminants_on_units(),
    ensures
        r is Ok <==> spec_derive_ok(*d, c),
        r matches Ok(s) ==> s@ == spec_derived_text(*d, c),
        r matches Err(e) ==> e == spec_derive_err(*d, c),
{
    match c {
        Capability::Len => Ok(derive_EnumLen(d)),
        Capability::Ends => derive_EnumEnds(d),
        Capability::ToIndex => Ok(derive_EnumToIndex(d)),
        Capability::FromIndex => derive_EnumFromIndex(d),
        Capability::Index => Ok(derive_EnumIndex(d)),
        Capability::Iter => derive_EnumIter(d),
        Capability::Iterator => {
            let r = derive_EnumIterator(d);
            proof {
                if r is Ok {
                    let last = choose|last: Option<String>|
                        {
                            &&& (match last {
                                Some(v) => d.variants@.len() > 0 && v == d.variants@[
                                    d.variants@.len() - 1].name,
                                None => d.variants@.len() == 0,
                            })
                            &&& r->Ok_0@ == spec_render_iterator(
                                *d,
                                d.variants@.len(),
                                last,
                                spec_next_arms(*d),
                                spec_to_index_arms(*d),
                            )
                        };
                    match last {
                        Some(v) => {
                            assert(last == Some(d.variants@[d.variants@.len() - 1].name));
                        },
                        None => {
                            assert(d.variants@.len() == 0);
                        },
                    }
                }
            }
            r
        },
        Capability::Discriminant => Ok(derive_EnumDiscriminant(d)),
        Capability::VariantName => Ok(derive_EnumVariantName(d)),
        Capability::FromVariantName => Ok(derive_EnumFromVariantName(d)),
        Capability::BitPattern => derive_EnumBitPattern(d),
        Capability::Tag => Ok(derive_EnumTag(d)),
        Capability::IsVariantFns => Ok(derive_EnumIsVariantFns(d)),
    }
}

/// Derives the variant-count constant; the count of an empty enum is zero.
#[allow(non_snake_case)]
pub fn derive_EnumLen(d: &EnumDecl) -> (r: String)
    ensures
        r@ == spec_render_len(*d, d.variants@.len()),
{
    let f = emit_len(d);
    render_len(d, &f)
}

/// Derives the first/last constructors; the enum must be non-empty,
/// whatever the variants' shapes.
#[allow(non_snake_case)]
pub fn derive_EnumEnds(d: &EnumDecl) -> (r: Result<String, DeriveError>)
    ensures
        r is Ok <==> d.variants@.len() > 0,
        r matches Ok(s) ==> s@ == spec_render_ends(
            *d,
            d.variants@[0].name@,
            d.variants@[d.variants@.len() - 1].name@,
        ),
        r is Err ==> r == Err::<String, DeriveError>(DeriveError::EmptyEnum(Capability::Ends)),
{
    match emit_ends(d) {
        Ok(f) => Ok(render_ends(d, &f)),
        Err(e) => Err(e),
    }
}

/// Derives the variant-to-index mapping: one arm per variant, the arm value
/// its zero-based declaration order. Works for every shape.
#[allow(non_snake_case)]
pub fn derive_EnumToIndex(d: &EnumDecl) -> (r: String)
    ensures
        r@ == spec_render_to_index(*d, spec_to_index_arms(*d)),
{
    let f = emit_to_index(d);
    render_to_index(d, &f)
}

/// Derives the index-to-variant mapping; every variant must be a unit
/// variant, and out-of-range indices reconstruct nothing.
#[allow(non_snake_case)]
pub fn derive_EnumFromIndex(d: &EnumDecl) -> (r: Result<String, DeriveError>)
    ensures
        r is Ok <==> d.all_unit(),
        r matches Ok(s) ==> s@ == spec_render_from_index(*d, spec_from_index_arms(*d)),
        r is Err ==> r == Err::<String, DeriveError>(DeriveError::NoFields(Capability::FromIndex)),
{
    match emit_from_index(d) {
        Ok(f) => Ok(render_from_index(d, &f)),
        Err(e) => Err(e),
    }
}

/// Derives the index type: the explicit representation width when one is
/// given, otherwise the smallest width covering the variant count and any
/// explicit discriminant.
#[allow(non_snake_case)]
pub fn derive_EnumIndex(d: &EnumDecl) -> (r: String)
    requires
        d.variants@.len() <= u64::MAX,
    ensures
        r@ == spec_render_index(*d, spec_index_type_ident(*d)),
{
    let f = emit_index(d);
    render_index(d, &f)
}

/// Derives the auxiliary wrapper iterator; the enum must be non-empty and
/// every variant a unit variant.
#[allow(non_snake_case)]
pub fn derive_EnumIter(d: &EnumDecl) -> (r: Result<String, DeriveError>)
    ensures
        r is Ok <==> d.variants@.len() > 0 && d.all_unit(),
        d.variants@.len() == 0 ==> r == Err::<String, DeriveError>(
            DeriveError::EmptyEnum(Capability::Iter),
        ),
        d.variants@.len() > 0 && !d.all_unit() ==> r == Err::<String, DeriveError>(
            DeriveError::NoFields(Capability::Iter),
        ),
        r matches Ok(s) ==> s@ == spec_render_iter(
            *d,
            d.name@ + "Iter"@,
            d.variants@[0].name@,
            d.variants@[d.variants@.len() - 1].name@,
            d.variants@.len(),
            spec_next_arms(*d),
            spec_prev_arms(*d),
            spec_to_index_arms(*d),
        ),
{
    match emit_iter(d) {
        Ok(f) => Ok(render_iter(d, &f)),
        Err(e) => Err(e),
    }
}

/// Derives the self-mutating iteration; every variant must be a unit
/// variant, and an empty enum iterates over nothing.
#[allow(non_snake_case)]
pub fn derive_EnumIterator(d: &EnumDecl) -> (r: Result<String, DeriveError>)
    ensures
        r is Ok <==> d.all_unit(),
        r is Err ==> r == Err::<String, DeriveError>(DeriveError::NoFields(Capability::Iterator)),
        r matches Ok(s) ==> exists|last: Option<String>|
            {
                &&& (match last {
                    Some(v) => d.variants@.len() > 0 && v == d.variants@[d.variants@.len()
                        - 1].name,
                    None => d.variants@.len() == 0,
                })
                &&& s@ == spec_render_iterator(
                    *d,
                    d.variants@.len(),
                    last,
                    spec_next_arms(*d),
                    spec_to_index_arms(*d),
                )
            },
{
    match emit_iterator(d) {
        Ok(f) => {
            let s = render_iterator(d, &f);
            proof {
                let last = f.last;
                assert((match last {
                    Some(v) => d.variants@.len() > 0 && v == d.variants@[d.variants@.len()
                        - 1].name,
                    None => d.variants@.len() == 0,
                }) && s@ == spec_render_iterator(
                    *d,
                    d.variants@.len(),
                    last,
                    spec_next_arms(*d),
                    spec_to_index_arms(*d),
                ));
            }
            Ok(s)
        },
        Err(e) => Err(e),
    }
}

/// Derives the discriminant mapping: explicit literals map back to their
/// variants; on a unit-only enum the remaining variants are matched through
/// their implicit discriminant values.
#[allow(non_snake_case)]
pub fn derive_EnumDiscriminant(d: &EnumDecl) -> (r: String)
    requires
        d.explicit_discriminants_on_units(),
    ensures
        r@ == spec_render_discriminant(
            *d,
            spec_discriminant_type_ident(*d),
            spec_discriminant_arms(*d),
        ),
{
    let f = emit_discriminant(d);
    render_discriminant(d, &f)
}

/// Derives the variant-name mapping. Works for every shape.
#[allow(non_snake_case)]
pub fn derive_EnumVariantName(d: &EnumDecl) -> (r: String)
    ensures
        r@ == spec_render_variant_name(*d, spec_variant_name_arms(*d)),
{
    let f = emit_variant_name(d);
    render_variant_name(d, &f)
}

/// Derives the name-to-variant mapping over the unit variants; unmatched
/// strings are a parse failure.
#[allow(non_snake_case)]
pub fn derive_EnumFromVariantName(d: &EnumDecl) -> (r: String)
    ensures
        r@ == spec_render_from_variant_name(*d, spec_from_name_arms(*d)),
{
    let f = emit_from_variant_name(d);
    render_from_variant_name(d, &f)
}

/// Derives the bit patterns; every variant must be a unit variant.
#[allow(non_snake_case)]
pub fn derive_EnumBitPattern(d: &EnumDecl) -> (r: Result<String, DeriveError>)
    ensures
        r is Ok <==> d.all_unit(),
        r is Err ==> r == Err::<String, DeriveError>(
            DeriveError::NoFields(Capability::BitPattern),
        ),
        r matches Ok(s) ==> s@ == crate::render::spec_impl_header(
            *d,
            "::enum_traits::BitPattern"@,
            d.name@,
        ) + "    type ByteArray = [u8; "@ + crate::render::spec_dec(
            spec_n_bytes(d.variants@.len()),
        ) + "];\n\n    fn bit_pattern(self) -> Self::ByteArray {\n        match self {\n"@
            + spec_bp_canonical_text(*d, false, d.variants@.len() as int)
            + "        }\n    }\n\n    fn bit_pattern_rev(self) -> Self::ByteArray {\n        match self {\n"@
            + spec_bp_canonical_text(*d, true, d.variants@.len() as int)
            + "        }\n    }\n}\n"@,
{
    match emit_bit_pattern(d) {
        Ok(f) => {
            let s = render_bit_pattern(d, &f);
            proof {
                let n = d.variants@.len() as int;
                lemma_bp_text_congruence(*d, false, f.arms@, n);
                lemma_bp_text_congruence(*d, true, f.rev_arms@, n);
                assert(f.arms@.take(n) =~= f.arms@);
                assert(f.rev_arms@.take(n) =~= f.rev_arms@);
            }
            Ok(s)
        },
        Err(e) => Err(e),
    }
}

/// Derives the companion tag enum and its accessor. Works for every shape.
#[allow(non_snake_case)]
pub fn derive_EnumTag(d: &EnumDecl) -> (r: String)
    ensures
        r@ == spec_render_tag(*d, d.name@ + "Tag"@, spec_tag_variants(*d), spec_tag_arms(*d)),
{
    let f = emit_tag(d);
    render_tag(d, &f)
}

/// Derives one boolean predicate method per variant, true exactly on that
/// variant. Works for every shape.
#[allow(non_snake_case)]
pub fn derive_EnumIsVariantFns(d: &EnumDecl) -> (r: String)
    ensures
        r@ == crate::render::spec_inherent_header(*d) + spec_pred_canonical_text(
            *d,
            d.variants@.len() as int,
        ) + "}\n"@,
{
    let f = emit_is_variant_fns(d);
    let s = render_is_variant_fns(d, &f);
    proof {
        let n = d.variants@.len() as int;
        lemma_pred_text_congruence(*d, f.fns@, n);
        assert(f.fns@.take(n) =~= f.fns@);
    }
    s
}

/// Whether a capability's precondition fails on `d`.
pub open spec fn derive_fails_pred(d: EnumDecl) -> spec_fn(Capability) -> bool {
    |c: Capability| !spec_derive_ok(d, c)
}

/// The concatenated text of the first `n` derivations, one fragment per
/// line group.
pub open spec fn spec_batch_text(d: EnumDecl, caps: Seq<Capability>, n: int) -> Seq<char>
    decreases n,
{
    if n <= 0 {
        Seq::empty()
    } else {
        spec_batch_text(d, caps, n - 1) + spec_derived_text(d, caps[n - 1]) + "\n"@
    }
}

/// Runs a batch of derivations for one declaration and concatenates the
/// fragments; the first violated precondition aborts the batch with its
/// diagnostic, exactly as a failing derive leaves its siblings unexpanded.
pub fn derive_batch(d: &EnumDecl, caps: &Vec<Capability>) -> (r: Result<String, DeriveError>)
    requires
        d.variants@.len() <= u64::MAX,
        (exists|k: int|
            0 <= k < caps@.len() && caps@[k] is Discriminant)
            ==> d.explicit_discriminants_on_units(),
    ensures
        r is Err <==> crate::matching::first_match(caps@, derive_fails_pred(*d)) is Some,
        r matches Err(e) ==> e == spec_derive_err(
            *d,
            caps@[crate::matching::first_match(caps@, derive_fails_pred(*d))->Some_0],
        ),
        r matches Ok(s) ==> s@ == spec_batch_text(*d, caps@, caps@.len() as int),
{
    let n = caps.len();
    let mut out = String::new();
    for i in 0..n
        invariant
            n == caps@.len(),
            d.variants@.len() <= u64::MAX,
            (exists|k: int|
                0 <= k < caps@.len() && caps@[k] is Discriminant)
                ==> d.explicit_discriminants_on_units(),
            out@ == spec_batch_text(*d, caps@, i as int),
            forall|j: int| 0 <= j < i ==> !(derive_fails_pred(*d)(#[trigger] caps@[j])),
    {
        match derive_capability(d, caps[i]) {
            Ok(s) => {
                out.append(s.as_str());
                out.append("\n");
                proof {
                    assert(out@ =~= spec_batch_text(*d, caps@, i + 1));
                }
            },
            Err(e) => {
                proof {
                    crate::matching::lemma_first_match_hit(caps@, derive_fails_pred(*d), i as int);
                }
                return Err(e);
            },
        }
    }
    proof {
        crate::matching::lemma_first_match_none(caps@, derive_fails_pred(*d));
    }
    Ok(out)
}

} // verus!
