//! The per-capability emitters.
//!
//! Each emitter is a pure function from an enum declaration to a generated
//! fragment. It classifies the variants, checks the capability's structural
//! precondition, and either returns the fragment or the precondition
//! diagnostic; a diagnostic for one derivation leaves every other derivation
//! of the same declaration unaffected.

use vstd::prelude::*;
use crate::capability::{Capability, DeriveError};
use crate::decl::{EnumDecl, VariantShape};
use crate::fragment::{
    AdjacencyArm, BitPatternArm, BitPatternFragment, DiscriminantArm, DiscriminantFragment,
    EndsFragment, FromIndexArm, FromIndexFragment, FromNameArm, FromVariantNameFragment, IndexArm,
    IndexFragment, IsVariantFragment, IterFragment, IteratorFragment, LenFragment, MatchPattern,
    NameArm, PredicateFn, TagArm, TagFragment, ToIndexFragment, VariantNameFragment,
};
use crate::width::{minimum_type_containing_enum, spec_index_type_ident, spec_repr_override};

verus! {

/// The shape-erasing pattern of variant `i`.
pub open spec fn spec_pattern(d: EnumDecl, i: int) -> MatchPattern {
    MatchPattern { variant: d.variants@[i].name, shape: d.variants@[i].shape }
}

/// The arms of the variant-to-index match, one per variant in declaration
/// order, mapping variant `i` to `i`.
pub open spec fn spec_to_index_arms(d: EnumDecl) -> Seq<IndexArm> {
    Seq::new(d.variants@.len(), |i: int| IndexArm { pattern: spec_pattern(d, i), value: i as u64 })
}

/// The arms of the index-to-variant match, one per variant in declaration
/// order, mapping `i` to variant `i`.
pub open spec fn spec_from_index_arms(d: EnumDecl) -> Seq<FromIndexArm> {
    Seq::new(
        d.variants@.len(),
        |i: int| FromIndexArm { value: i as u64, variant: d.variants@[i].name },
    )
}

/// Emits the variant-count constant; the count of an empty enum is zero.
pub fn emit_len(d: &EnumDecl) -> (r: LenFragment)
    ensures
        r.len == d.variants@.len(),
{
    LenFragment { len: d.variants.len() }
}

/// Emits the constructors of the first and the last declared variant; the
/// declaration must be non-empty, whatever the variants' shapes.
pub fn emit_ends(d: &EnumDecl) -> (r: Result<EndsFragment, DeriveError>)
    ensures
        r is Ok <==> d.variants@.len() > 0,
        r matches Ok(f) ==> f.first == d.variants@[0].name && f.last == d.variants@[d.variants@.len()
            - 1].name,
        r is Err ==> r == Err::<EndsFragment, DeriveError>(
            DeriveError::EmptyEnum(Capability::Ends),
        ),
{
    let n = d.variants.len();
    if n == 0 {
        return Err(DeriveError::EmptyEnum(Capability::Ends));
    }
    Ok(
        EndsFragment {
            first: d.variants[0].name.clone(),
            last: d.variants[n - 1].name.clone(),
        },
    )
}

/// Emits the variant-to-index match: one arm per variant, the arm pattern
/// ignoring any payload, the arm value the variant's zero-based declaration
/// order. Works for every shape.
pub fn emit_to_index(d: &EnumDecl) -> (r: ToIndexFragment)
    ensures
        r.arms@ == spec_to_index_arms(*d),
{
    let n = d.variants.len();
    let mut arms: Vec<IndexArm> = Vec::new();
    for i in 0..n
        invariant
            n == d.variants@.len(),
            arms@.len() == i,
            forall|j: int| 0 <= j < i ==> arms@[j] == spec_to_index_arms(*d)[j],
    {
        arms.push(
            IndexArm {
                pattern: MatchPattern {
                    variant: d.variants[i].name.clone(),
                    shape: d.variants[i].shape,
                },
                value: i as u64,
            },
        );
    }
    proof {
        assert(arms@ =~= spec_to_index_arms(*d));
    }
    ToIndexFragment { arms }
}

/// Emits the index-to-variant match, the inverse of the index assignment;
/// every variant must be a unit variant. Indices at or above the variant
/// count are left to the fallthrough arm, which maps them to no result.
pub fn emit_from_index(d: &EnumDecl) -> (r: Result<FromIndexFragment, DeriveError>)
    ensures
        r is Ok <==> d.all_unit(),
        r matches Ok(f) ==> f.arms@ == spec_from_index_arms(*d),
        r is Err ==> r == Err::<FromIndexFragment, DeriveError>(
            DeriveError::NoFields(Capability::FromIndex),
        ),
{
    if !crate::decl::variants_all_unit(d) {
        return Err(DeriveError::NoFields(Capability::FromIndex));
    }
    let n = d.variants.len();
    let mut arms: Vec<FromIndexArm> = Vec::new();
    for i in 0..n
        invariant
            n == d.variants@.len(),
            arms@.len() == i,
            forall|j: int| 0 <= j < i ==> arms@[j] == spec_from_index_arms(*d)[j],
    {
        arms.push(FromIndexArm { value: i as u64, variant: d.variants[i].name.clone() });
    }
    proof {
        assert(arms@ =~= spec_from_index_arms(*d));
    }
    Ok(FromIndexFragment { arms })
}

/// The discriminant arm contributed by variant `i`: a literal arm for an
/// explicit discriminant; for a unit variant of a unit-only enum without
/// one, a guard against the variant's implicit discriminant value; nothing
/// otherwise.
pub open spec fn spec_discriminant_arm_of(d: EnumDecl, i: int) -> Seq<DiscriminantArm> {
    match d.variants@[i].discriminant {
        Some(v) => seq![DiscriminantArm::Literal { value: v, variant: d.variants@[i].name }],
        None => if d.all_unit() {
            seq![DiscriminantArm::Implicit { variant: d.variants@[i].name }]
        } else {
            Seq::empty()
        },
    }
}

/// The discriminant arms contributed by the first `n` variants, in order.
pub open spec fn spec_discriminant_arms_upto(d: EnumDecl, n: int) -> Seq<DiscriminantArm>
    decreases n,
{
    if n <= 0 {
        Seq::empty()
    } else {
        spec_discriminant_arms_upto(d, n - 1) + spec_discriminant_arm_of(d, n - 1)
    }
}

/// All discriminant arms of the declaration.
pub open spec fn spec_discriminant_arms(d: EnumDecl) -> Seq<DiscriminantArm> {
    spec_discriminant_arms_upto(d, d.variants@.len() as int)
}

/// The discriminant type: the explicit representation width when one is
/// given, otherwise the pointer-sized unsigned integer.
pub open spec fn spec_discriminant_type_ident(d: EnumDecl) -> Seq<char> {
    match spec_repr_override(d.attrs@) {
        Some(s) => s,
        None => "usize"@,
    }
}

/// Emits the discriminant-to-variant mapping: variants with an explicit
/// discriminant literal map that literal back to the variant; when every
/// variant is unit-shaped, variants without one are matched through their
/// implicit discriminant value; in a mixed enum they are excluded.
pub fn emit_discriminant(d: &EnumDecl) -> (r: DiscriminantFragment)
    requires
        d.explicit_discriminants_on_units(),
    ensures
        r.ty@ == spec_discriminant_type_ident(*d),
        r.arms@ == spec_discriminant_arms(*d),
{
    let ty: String = match crate::width::type_from_repr_attr(&d.attrs) {
        Some(s) => s,
        None => String::from_str("usize"),
    };
    let only_units = crate::decl::variants_all_unit(d);
    let n = d.variants.len();
    let mut arms: Vec<DiscriminantArm> = Vec::new();
    for i in 0..n
        invariant
            n == d.variants@.len(),
            only_units == d.all_unit(),
            arms@ == spec_discriminant_arms_upto(*d, i as int),
    {
        match d.variants[i].discriminant {
            Some(v) => {
                arms.push(
                    DiscriminantArm::Literal { value: v, variant: d.variants[i].name.clone() },
                );
            },
            None => {
                if only_units {
                    arms.push(DiscriminantArm::Implicit { variant: d.variants[i].name.clone() });
                }
            },
        }
        proof {
            assert(arms@ =~= spec_discriminant_arms_upto(*d, i + 1));
        }
    }
    DiscriminantFragment { ty, arms }
}

/// The arms of the variant-name match, one per variant, each mapping the
/// shape-erasing pattern to the variant's declared identifier.
pub open spec fn spec_variant_name_arms(d: EnumDecl) -> Seq<NameArm> {
    Seq::new(
        d.variants@.len(),
        |i: int| NameArm { pattern: spec_pattern(d, i), text: d.variants@[i].name },
    )
}

/// Emits the variant-name mapping. Works for every shape.
pub fn emit_variant_name(d: &EnumDecl) -> (r: VariantNameFragment)
    ensures
        r.arms@ == spec_variant_name_arms(*d),
{
    let n = d.variants.len();
    let mut arms: Vec<NameArm> = Vec::new();
    for i in 0..n
        invariant
            n == d.variants@.len(),
            arms@.len() == i,
            forall|j: int| 0 <= j < i ==> arms@[j] == spec_variant_name_arms(*d)[j],
    {
        arms.push(
            NameArm {
                pattern: MatchPattern {
                    variant: d.variants[i].name.clone(),
                    shape: d.variants[i].shape,
                },
                text: d.variants[i].name.clone(),
            },
        );
    }
    proof {
        assert(arms@ =~= spec_variant_name_arms(*d));
    }
    VariantNameFragment { arms }
}

/// The name arm contributed by variant `i` to the inverse mapping: unit
/// variants map their name back to themselves, other variants are excluded.
pub open spec fn spec_from_name_arm_of(d: EnumDecl, i: int) -> Seq<FromNameArm> {
    if d.variants@[i].shape is Unit {
        seq![FromNameArm { text: d.variants@[i].name, variant: d.variants@[i].name }]
    } else {
        Seq::empty()
    }
}

/// The name arms contributed by the first `n` variants, in order.
pub open spec fn spec_from_name_arms_upto(d: EnumDecl, n: int) -> Seq<FromNameArm>
    decreases n,
{
    if n <= 0 {
        Seq::empty()
    } else {
        spec_from_name_arms_upto(d, n - 1) + spec_from_name_arm_of(d, n - 1)
    }
}

/// All name arms of the inverse mapping.
pub open spec fn spec_from_name_arms(d: EnumDecl) -> Seq<FromNameArm> {
    spec_from_name_arms_upto(d, d.variants@.len() as int)
}

/// Emits the name-to-variant mapping, restricted to unit variants; every
/// unmatched string is left to the fallthrough arm, a parse failure.
pub fn emit_from_variant_name(d: &EnumDecl) -> (r: FromVariantNameFragment)
    ensures
        r.arms@ == spec_from_name_arms(*d),
{
    let n = d.variants.len();
    let mut arms: Vec<FromNameArm> = Vec::new();
    for i in 0..n
        invariant
            n == d.variants@.len(),
            arms@ == spec_from_name_arms_upto(*d, i as int),
    {
        match d.variants[i].shape {
            VariantShape::Unit => {
                arms.push(
                    FromNameArm {
                        text: d.variants[i].name.clone(),
                        variant: d.variants[i].name.clone(),
                    },
                );
            },
            _ => {},
        }
        proof {
            assert(arms@ =~= spec_from_name_arms_upto(*d, i + 1));
        }
    }
    FromVariantNameFragment { arms }
}

/// The arms of the tag accessor, one per variant, each mapping the
/// shape-erasing pattern to the tag enum's variant of the same name.
pub open spec fn spec_tag_arms(d: EnumDecl) -> Seq<TagArm> {
    Seq::new(
        d.variants@.len(),
        |i: int| TagArm { pattern: spec_pattern(d, i), tag_variant: d.variants@[i].name },
    )
}

/// The variant names of the companion tag enum, in declaration order.
pub open spec fn spec_tag_variants(d: EnumDecl) -> Seq<String> {
    Seq::new(d.variants@.len(), |i: int| d.variants@[i].name)
}

/// Emits the companion tag enum, one unit variant per original variant with
/// names preserved and payloads stripped, and the accessor mapping each
/// variant to its tag. Works for every shape.
pub fn emit_tag(d: &EnumDecl) -> (r: TagFragment)
    ensures
        r.tag_enum_name@ == d.name@ + "Tag"@,
        r.variants@ == spec_tag_variants(*d),
        r.arms@ == spec_tag_arms(*d),
{
    let mut tag_enum_name = d.name.clone();
    tag_enum_name.append("Tag");
    let n = d.variants.len();
    let mut variants: Vec<String> = Vec::new();
    let mut arms: Vec<TagArm> = Vec::new();
    for i in 0..n
        invariant
            n == d.variants@.len(),
            variants@.len() == i,
            arms@.len() == i,
            forall|j: int| 0 <= j < i ==> variants@[j] == spec_tag_variants(*d)[j],
            forall|j: int| 0 <= j < i ==> arms@[j] == spec_tag_arms(*d)[j],
    {
        variants.push(d.variants[i].name.clone());
        arms.push(
            TagArm {
                pattern: MatchPattern {
                    variant: d.variants[i].name.clone(),
                    shape: d.variants[i].shape,
                },
                tag_variant: d.variants[i].name.clone(),
            },
        );
    }
    proof {
        assert(variants@ =~= spec_tag_variants(*d));
        assert(arms@ =~= spec_tag_arms(*d));
    }
    TagFragment { tag_enum_name, variants, arms }
}

/// The number of bytes a bit pattern needs: one bit per variant, rounded
/// up to whole bytes.
pub open spec fn spec_n_bytes(len: nat) -> nat {
    len / 8 + if len % 8 == 0 {
        0nat
    } else {
        1nat
    }
}

/// The byte with only bit `k` set, counting from the least significant bit.
pub open spec fn spec_low_bit(k: int) -> u8 {
    if k == 0 {
        1u8
    } else if k == 1 {
        2u8
    } else if k == 2 {
        4u8
    } else if k == 3 {
        8u8
    } else if k == 4 {
        16u8
    } else if k == 5 {
        32u8
    } else if k == 6 {
        64u8
    } else {
        128u8
    }
}

/// The byte with only bit `k` set, counting from the most significant bit.
pub open spec fn spec_high_bit(k: int) -> u8 {
    if k == 0 {
        128u8
    } else if k == 1 {
        64u8
    } else if k == 2 {
        32u8
    } else if k == 3 {
        16u8
    } else if k == 4 {
        8u8
    } else if k == 5 {
        4u8
    } else if k == 6 {
        2u8
    } else {
        1u8
    }
}

/// The most-significant-bit-first pattern of variant `i`: all bytes zero
/// but the one holding the variant's bit, bytes ordered so that variant 0
/// takes the lowest bit of the last byte.
pub open spec fn spec_bit_pattern_bytes(len: nat, i: int) -> Seq<u8> {
    Seq::new(
        spec_n_bytes(len),
        |j: int|
            if j == spec_n_bytes(len) - 1 - i / 8 {
                spec_low_bit(i % 8)
            } else {
                0u8
            },
    )
}

/// The least-significant-bit-first pattern of variant `i`: variant 0 takes
/// the highest bit of the first byte.
pub open spec fn spec_bit_pattern_rev_bytes(len: nat, i: int) -> Seq<u8> {
    Seq::new(
        spec_n_bytes(len),
        |j: int|
            if j == i / 8 {
                spec_high_bit(i % 8)
            } else {
                0u8
            },
    )
}

/// A byte row that is zero everywhere but at `target`, which holds `bit`.
fn bit_row(n_bytes: usize, target: usize, bit: u8) -> (r: Vec<u8>)
    requires
        target < n_bytes,
    ensures
        r@ == Seq::new(
            n_bytes as nat,
            |j: int|
                if j == target {
                    bit
                } else {
                    0u8
                },
        ),
{
    let mut row: Vec<u8> = Vec::new();
    for j in 0..n_bytes
        invariant
            row@.len() == j,
            forall|m: int|
                0 <= m < j ==> row@[m] == (if m == target {
                    bit
                } else {
                    0u8
                }),
    {
        if j == target {
            row.push(bit);
        } else {
            row.push(0u8);
        }
    }
    proof {
        assert(row@ =~= Seq::new(
            n_bytes as nat,
            |j: int|
                if j == target {
                    bit
                } else {
                    0u8
                },
        ));
    }
    row
}

/// The byte with only bit `k` of eight set, from the least significant end.
fn low_bit(k: usize) -> (r: u8)
    requires
        k < 8,
    ensures
        r == spec_low_bit(k as int),
{
    match k {
        0 => 1u8,
        1 => 2u8,
        2 => 4u8,
        3 => 8u8,
        4 => 16u8,
        5 => 32u8,
        6 => 64u8,
        _ => 128u8,
    }
}

/// The byte with only bit `k` of eight set, from the most significant end.
fn high_bit(k: usize) -> (r: u8)
    requires
        k < 8,
    ensures
        r == spec_high_bit(k as int),
{
    match k {
        0 => 128u8,
        1 => 64u8,
        2 => 32u8,
        3 => 16u8,
        4 => 8u8,
        5 => 4u8,
        6 => 2u8,
        _ => 1u8,
    }
}

/// Emits the bit patterns: an all-zero byte array sized to the variant
/// count rounded up to whole bytes, with exactly one bit set per variant,
/// in both global bit orders. Every variant must be a unit variant.
pub fn emit_bit_pattern(d: &EnumDecl) -> (r: Result<BitPatternFragment, DeriveError>)
    ensures
        r is Ok <==> d.all_unit(),
        r matches Ok(f) ==> {
            &&& f.n_bytes == spec_n_bytes(d.variants@.len())
            &&& f.arms@.len() == d.variants@.len()
            &&& f.rev_arms@.len() == d.variants@.len()
            &&& (forall|i: int|
                0 <= i < d.variants@.len() ==> #[trigger] f.arms@[i].variant@
                    == d.variants@[i].name@)
            &&& (forall|i: int|
                0 <= i < d.variants@.len() ==> #[trigger] f.arms@[i].bytes@
                    == spec_bit_pattern_bytes(d.variants@.len(), i))
            &&& (forall|i: int|
                0 <= i < d.variants@.len() ==> #[trigger] f.rev_arms@[i].variant@
                    == d.variants@[i].name@)
            &&& (forall|i: int|
                0 <= i < d.variants@.len() ==> #[trigger] f.rev_arms@[i].bytes@
                    == spec_bit_pattern_rev_bytes(d.variants@.len(), i))
        },
        r is Err ==> r == Err::<BitPatternFragment, DeriveError>(
            DeriveError::NoFields(Capability::BitPattern),
        ),
{
    if !crate::decl::variants_all_unit(d) {
        return Err(DeriveError::NoFields(Capability::BitPattern));
    }
    let n = d.variants.len();
    let n_bytes = n / 8 + if n % 8 == 0 {
        0
    } else {
        1
    };
    let mut arms: Vec<BitPatternArm> = Vec::new();
    let mut rev_arms: Vec<BitPatternArm> = Vec::new();
    for i in 0..n
        invariant
            n == d.variants@.len(),
            n_bytes == spec_n_bytes(n as nat),
            arms@.len() == i,
            rev_arms@.len() == i,
            forall|m: int| 0 <= m < i ==> #[trigger] arms@[m].variant@ == d.variants@[m].name@,
            forall|m: int|
                0 <= m < i ==> #[trigger] arms@[m].bytes@ == spec_bit_pattern_bytes(n as nat, m),
            forall|m: int|
                0 <= m < i ==> #[trigger] rev_arms@[m].variant@ == d.variants@[m].name@,
            forall|m: int|
                0 <= m < i ==> #[trigger] rev_arms@[m].bytes@ == spec_bit_pattern_rev_bytes(
                    n as nat,
                    m,
                ),
    {
        let q = i / 8;
        let k = i % 8;
        proof {
            assert(i / 8 < spec_n_bytes(n as nat)) by {
                assert(8 * (i / 8) <= i < n) by {
                    vstd::arithmetic::div_mod::lemma_fundamental_div_mod(i as int, 8);
                };
                assert(n <= 8 * spec_n_bytes(n as nat)) by {
                    vstd::arithmetic::div_mod::lemma_fundamental_div_mod(n as int, 8);
                };
            };
        }
        let row = bit_row(n_bytes, n_bytes - 1 - q, low_bit(k));
        proof {
            assert(row@ =~= spec_bit_pattern_bytes(n as nat, i as int));
        }
        arms.push(BitPatternArm { variant: d.variants[i].name.clone(), bytes: row });
        let rev_row = bit_row(n_bytes, q, high_bit(k));
        proof {
            assert(rev_row@ =~= spec_bit_pattern_rev_bytes(n as nat, i as int));
        }
        rev_arms.push(BitPatternArm { variant: d.variants[i].name.clone(), bytes: rev_row });
        proof {
            assert(arms@[i as int].variant@ == d.variants@[i as int].name@);
            assert(arms@[i as int].bytes@ == spec_bit_pattern_bytes(n as nat, i as int));
            assert(rev_arms@[i as int].variant@ == d.variants@[i as int].name@);
            assert(rev_arms@[i as int].bytes@ == spec_bit_pattern_rev_bytes(n as nat, i as int));
        }
    }
    Ok(BitPatternFragment { n_bytes, arms, rev_arms })
}

/// Emits the index type assignment: the explicit representation width when
/// one is given, otherwise the smallest width covering the variant count
/// and any explicit discriminant.
pub fn emit_index(d: &EnumDecl) -> (r: IndexFragment)
    requires
        d.variants@.len() <= u64::MAX,
    ensures
        r.ty@ == spec_index_type_ident(*d),
{
    IndexFragment { ty: minimum_type_containing_enum(d) }
}

/// The forward adjacency arms: one per neighbouring pair of variants in
/// declaration order, advancing from each variant to its successor.
pub open spec fn spec_next_arms(d: EnumDecl) -> Seq<AdjacencyArm> {
    Seq::new(
        if d.variants@.len() == 0 {
            0
        } else {
            (d.variants@.len() - 1) as nat
        },
        |k: int| AdjacencyArm { from: d.variants@[k].name, to: d.variants@[k + 1].name },
    )
}

/// The backward adjacency arms: the reversed pairs, stepping from each
/// variant to its predecessor, last variant first.
pub open spec fn spec_prev_arms(d: EnumDecl) -> Seq<AdjacencyArm> {
    let n = d.variants@.len() as int;
    Seq::new(
        if n == 0 {
            0nat
        } else {
            (n - 1) as nat
        },
        |k: int| AdjacencyArm { from: d.variants@[n - 1 - k].name, to: d.variants@[n - 2 - k].name },
    )
}

/// Builds the forward adjacency arms of `d`.
fn build_next_arms(d: &EnumDecl) -> (r: Vec<AdjacencyArm>)
    requires
        d.variants@.len() > 0,
    ensures
        r@ == spec_next_arms(*d),
{
    let n = d.variants.len();
    let mut arms: Vec<AdjacencyArm> = Vec::new();
    for k in 0..n - 1
        invariant
            n == d.variants@.len(),
            n > 0,
            arms@.len() == k,
            forall|j: int| 0 <= j < k ==> arms@[j] == spec_next_arms(*d)[j],
    {
        arms.push(
            AdjacencyArm {
                from: d.variants[k].name.clone(),
                to: d.variants[k + 1].name.clone(),
            },
        );
    }
    proof {
        assert(arms@ =~= spec_next_arms(*d));
    }
    arms
}

/// Builds the backward adjacency arms of `d`.
fn build_prev_arms(d: &EnumDecl) -> (r: Vec<AdjacencyArm>)
    requires
        d.variants@.len() > 0,
    ensures
        r@ == spec_prev_arms(*d),
{
    let n = d.variants.len();
    let mut arms: Vec<AdjacencyArm> = Vec::new();
    for k in 0..n - 1
        invariant
            n == d.variants@.len(),
            n > 0,
            arms@.len() == k,
            forall|j: int| 0 <= j < k ==> arms@[j] == spec_prev_arms(*d)[j],
    {
        arms.push(
            AdjacencyArm {
                from: d.variants[n - 1 - k].name.clone(),
                to: d.variants[n - 2 - k].name.clone(),
            },
        );
    }
    proof {
        assert(arms@ =~= spec_prev_arms(*d));
    }
    arms
}

/// Builds the position arms mapping each variant to its index, used by the
/// generated length and count methods.
fn build_position_arms(d: &EnumDecl) -> (r: Vec<IndexArm>)
    ensures
        r@ == spec_to_index_arms(*d),
{
    let f = emit_to_index(d);
    let ToIndexFragment { arms } = f;
    arms
}

/// Emits the auxiliary iterator type: a wrapper holding an optional current
/// variant, where an unset state advances to the first declared variant,
/// each variant advances to its successor in declaration order, and the
/// last variant signals exhaustion; the mirrored backward traversal comes
/// from the reversed pairs. The declaration must be non-empty and every
/// variant a unit variant.
pub fn emit_iter(d: &EnumDecl) -> (r: Result<IterFragment, DeriveError>)
    ensures
        r is Ok <==> d.variants@.len() > 0 && d.all_unit(),
        d.variants@.len() == 0 ==> r == Err::<IterFragment, DeriveError>(
            DeriveError::EmptyEnum(Capability::Iter),
        ),
        d.variants@.len() > 0 && !d.all_unit() ==> r == Err::<IterFragment, DeriveError>(
            DeriveError::NoFields(Capability::Iter),
        ),
        r matches Ok(f) ==> {
            &&& f.struct_name@ == d.name@ + "Iter"@
            &&& f.len == d.variants@.len()
            &&& f.first == d.variants@[0].name
            &&& f.last == d.variants@[d.variants@.len() - 1].name
            &&& f.next_arms@ == spec_next_arms(*d)
            &&& f.prev_arms@ == spec_prev_arms(*d)
            &&& f.position_arms@ == spec_to_index_arms(*d)
        },
{
    let n = d.variants.len();
    if n == 0 {
        return Err(DeriveError::EmptyEnum(Capability::Iter));
    }
    if !crate::decl::variants_all_unit(d) {
        return Err(DeriveError::NoFields(Capability::Iter));
    }
    let mut struct_name = d.name.clone();
    struct_name.append("Iter");
    Ok(
        IterFragment {
            struct_name,
            len: n,
            first: d.variants[0].name.clone(),
            last: d.variants[n - 1].name.clone(),
            next_arms: build_next_arms(d),
            prev_arms: build_prev_arms(d),
            position_arms: build_position_arms(d),
        },
    )
}

/// Emits the self-mutating iteration: the same successor adjacency arms,
/// threading the current variant through the enum value itself. Every
/// variant must be a unit variant; an empty enum is accepted and iterates
/// over nothing.
pub fn emit_iterator(d: &EnumDecl) -> (r: Result<IteratorFragment, DeriveError>)
    ensures
        r is Ok <==> d.all_unit(),
        r is Err ==> r == Err::<IteratorFragment, DeriveError>(
            DeriveError::NoFields(Capability::Iterator),
        ),
        r matches Ok(f) ==> {
            &&& f.len == d.variants@.len()
            &&& (match f.last {
                Some(v) => d.variants@.len() > 0 && v == d.variants@[d.variants@.len() - 1].name,
                None => d.variants@.len() == 0,
            })
            &&& f.next_arms@ == spec_next_arms(*d)
            &&& f.position_arms@ == spec_to_index_arms(*d)
        },
{
    if !crate::decl::variants_all_unit(d) {
        return Err(DeriveError::NoFields(Capability::Iterator));
    }
    let n = d.variants.len();
    let last: Option<String> = if n == 0 {
        None
    } else {
        Some(d.variants[n - 1].name.clone())
    };
    let next_arms: Vec<AdjacencyArm> = if n == 0 {
        let empty: Vec<AdjacencyArm> = Vec::new();
        proof {
            assert(empty@ =~= spec_next_arms(*d));
        }
        empty
    } else {
        build_next_arms(d)
    };
    Ok(IteratorFragment { len: n, last, next_arms, position_arms: build_position_arms(d) })
}

/// Emits one boolean predicate method per variant, named by the fixed
/// lower-cased prefix convention, true exactly when the receiver matches
/// that variant's shape-erasing pattern. Works for every shape.
pub fn emit_is_variant_fns(d: &EnumDecl) -> (r: IsVariantFragment)
    ensures
        r.fns@.len() == d.variants@.len(),
        forall|i: int|
            0 <= i < d.variants@.len() ==> #[trigger] r.fns@[i].pattern == spec_pattern(*d, i),
        forall|i: int|
            0 <= i < d.variants@.len() ==> #[trigger] r.fns@[i].fn_name@ == "is_"@
                + crate::textutil::spec_lower(d.variants@[i].name@),
{
    let n = d.variants.len();
    let mut fns: Vec<PredicateFn> = Vec::new();
    for i in 0..n
        invariant
            n == d.variants@.len(),
            fns@.len() == i,
            forall|j: int| 0 <= j < i ==> #[trigger] fns@[j].pattern == spec_pattern(*d, j),
            forall|j: int|
                0 <= j < i ==> #[trigger] fns@[j].fn_name@ == "is_"@ + crate::textutil::spec_lower(
                    d.variants@[j].name@,
                ),
    {
        let mut fn_name = String::from_str("is_");
        let lowered = crate::textutil::ascii_lowercase(d.variants[i].name.as_str());
        fn_name.append(lowered.as_str());
        fns.push(
            PredicateFn {
                fn_name,
                pattern: MatchPattern {
                    variant: d.variants[i].name.clone(),
                    shape: d.variants[i].shape,
                },
            },
        );
        proof {
            assert(fns@[i as int].pattern == spec_pattern(*d, i as int));
            assert(fns@[i as int].fn_name@ == "is_"@ + crate::textutil::spec_lower(
                d.variants@[i as int].name@,
            ));
        }
    }
    IsVariantFragment { fns }
}

} // verus!
