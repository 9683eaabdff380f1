//! The runtime trait surface the generated implementations satisfy.
//!
//! These traits are what a derivation implements for the subject enum; the
//! library itself implements them for no type, exactly as the engine's users
//! see them. No unchecked reconstruction variant is offered: a reconstruction
//! that produced an undefined value for an out-of-range input would be a
//! soundness hazard, not a contract.

use vstd::prelude::*;

verus! {

/// The type used for indexing the variants of the enum: a primitive integer
/// type with at least as many values as the enum has variants.
pub trait Index {
    /// Type used as an index for the enum.
    type Type;
}

/// Constructors for an enum type from indices based on the variants'
/// defined order.
pub trait FromIndex: Index + Sized {
    /// Tries to construct `Self` from an index based on the variants'
    /// defined order.
    fn from_index(index: <Self as Index>::Type) -> Option<Self>;
}

/// Indices for an enum type based on the variants' defined order.
pub trait ToIndex: Index {
    /// Index in the defined order of an enum, consuming the value.
    fn into_index(self) -> <Self as Index>::Type where Self: Sized;

    /// Index in the defined order of an enum.
    fn index(&self) -> <Self as Index>::Type;
}

/// Number of variants in an enum type.
pub trait Len {
    /// Number of variants in an enum.
    fn len() -> usize;
}

/// Constructors for an enum type from its endpoints based on the variants'
/// defined order.
pub trait Ends: Sized {
    /// The first variant in the defined order of an enum.
    fn first() -> Self;

    /// The last variant in the defined order of an enum.
    fn last() -> Self;
}

/// Reconstruction of an enum from the discriminant values of its variants;
/// variants without a usable discriminant reconstruct nothing.
pub trait Discriminant: Sized {
    /// The type of the discriminant.
    type Type;

    /// Tries to construct an enum from the discriminant of the variants.
    fn from_discriminant(discriminant: <Self as Discriminant>::Type) -> Option<Self>;
}

/// An iterator over every variant in the defined order.
pub trait Iterable {
    /// The type of the iterator.
    type Iter;

    /// Constructs an iterator that iterates over every variant in the
    /// defined order.
    fn variants() -> Self::Iter;
}

/// The name of the currently instantiated variant.
pub trait VariantName {
    /// The name of the currently instantiated variant.
    fn variant_name(&self) -> &'static str;
}

/// Bit patterns with exactly one bit set per variant, in the defined order.
pub trait BitPattern {
    /// The byte array holding the pattern.
    type ByteArray;

    /// Bit pattern of the currently instantiated variant, most significant
    /// bit first; the byte order of the array follows the bit order.
    fn bit_pattern(self) -> Self::ByteArray where Self: Sized;

    /// Bit pattern of the currently instantiated variant, least significant
    /// bit first; the byte order of the array follows the bit order.
    fn bit_pattern_rev(self) -> Self::ByteArray where Self: Sized;
}

/// The tag of the currently instantiated variant: the unit variant of the
/// same name in the companion enum.
pub trait Tag {
    /// The companion enum of unit variants.
    type Enum;

    /// The tag of the currently instantiated variant.
    fn tag(&self) -> Self::Enum;
}

} // verus!
