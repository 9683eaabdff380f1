//! Structured code fragments, the output of the capability emitters.
//!
//! A fragment models the syntax a derivation adds to the compilation unit:
//! which match arms it contains and in which order, which auxiliary items it
//! declares, and which constants it embeds. A fragment is built fresh for
//! one derivation and handed on to rendering; nothing is retained across
//! derivations.

use vstd::prelude::*;
use crate::decl::VariantShape;

verus! {

/// A shape-erasing match pattern: it binds a variant by name and ignores
/// any field payload.
pub struct MatchPattern {
    pub variant: String,
    pub shape: VariantShape,
}

/// One arm mapping a variant pattern to its declaration-order index.
pub struct IndexArm {
    pub pattern: MatchPattern,
    pub value: u64,
}

/// One arm mapping an index literal back to a variant.
pub struct FromIndexArm {
    pub value: u64,
    pub variant: String,
}

/// One arm of the discriminant lookup: either a literal taken from an
/// explicit discriminant, or a guard comparing against the variant's
/// implicit discriminant value.
pub enum DiscriminantArm {
    Literal { value: u64, variant: String },
    Implicit { variant: String },
}

/// One arm advancing an iterator from a variant to its neighbour in
/// declaration order.
pub struct AdjacencyArm {
    pub from: String,
    pub to: String,
}

/// One arm mapping a variant pattern to its name as a string literal.
pub struct NameArm {
    pub pattern: MatchPattern,
    pub text: String,
}

/// One arm mapping a name literal back to a unit variant.
pub struct FromNameArm {
    pub text: String,
    pub variant: String,
}

/// One arm mapping a variant to its bit-pattern byte array.
pub struct BitPatternArm {
    pub variant: String,
    pub bytes: Vec<u8>,
}

/// One arm mapping a variant pattern to the tag enum's variant of the same
/// name.
pub struct TagArm {
    pub pattern: MatchPattern,
    pub tag_variant: String,
}

/// One generated predicate method, true exactly on one variant.
pub struct PredicateFn {
    pub fn_name: String,
    pub pattern: MatchPattern,
}

/// The variant-count constant.
pub struct LenFragment {
    pub len: usize,
}

/// The first and last declared variant.
pub struct EndsFragment {
    pub first: String,
    pub last: String,
}

/// The variant-to-index mapping, one arm per variant in declaration order.
pub struct ToIndexFragment {
    pub arms: Vec<IndexArm>,
}

/// The index-to-variant mapping over the unit variants; unmatched indices
/// map to no result.
pub struct FromIndexFragment {
    pub arms: Vec<FromIndexArm>,
}

/// The index type assignment.
pub struct IndexFragment {
    pub ty: String,
}

/// The discriminant-to-variant mapping and the discriminant type.
pub struct DiscriminantFragment {
    pub ty: String,
    pub arms: Vec<DiscriminantArm>,
}

/// The auxiliary iterator type over a unit-only enum, with its forward and
/// backward adjacency arms and the position arms its length method uses.
pub struct IterFragment {
    pub struct_name: String,
    pub len: usize,
    pub first: String,
    pub last: String,
    pub next_arms: Vec<AdjacencyArm>,
    pub prev_arms: Vec<AdjacencyArm>,
    pub position_arms: Vec<IndexArm>,
}

/// The self-mutating iteration over a unit-only enum.
pub struct IteratorFragment {
    pub len: usize,
    pub last: Option<String>,
    pub next_arms: Vec<AdjacencyArm>,
    pub position_arms: Vec<IndexArm>,
}

/// The variant-name mapping, one arm per variant.
pub struct VariantNameFragment {
    pub arms: Vec<NameArm>,
}

/// The name-to-variant mapping over the unit variants.
pub struct FromVariantNameFragment {
    pub arms: Vec<FromNameArm>,
}

/// The per-variant bit patterns, in both global bit orders.
pub struct BitPatternFragment {
    pub n_bytes: usize,
    pub arms: Vec<BitPatternArm>,
    pub rev_arms: Vec<BitPatternArm>,
}

/// The companion tag enum and the accessor mapping each variant to its tag.
pub struct TagFragment {
    pub tag_enum_name: String,
    pub variants: Vec<String>,
    pub arms: Vec<TagArm>,
}

/// The per-variant predicate methods.
pub struct IsVariantFragment {
    pub fns: Vec<PredicateFn>,
}

} // verus!
