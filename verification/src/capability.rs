//! The derivable capabilities and their precondition diagnostics.
//!
//! A violated structural precondition is a fatal, compile-time-only
//! diagnostic naming the offending capability and the requirement it
//! places on the declaration.

use vstd::prelude::*;

verus! {

/// One derivable capability.
#[derive(Clone, Copy, PartialEq, Eq, Structural, Debug)]
pub enum Capability {
    Len,
    Ends,
    ToIndex,
    FromIndex,
    Index,
    Iter,
    Iterator,
    Discriminant,
    VariantName,
    FromVariantName,
    BitPattern,
    Tag,
    IsVariantFns,
}

/// The derive name of a capability.
pub open spec fn spec_capability_name(c: Capability) -> Seq<char> {
    match c {
        Capability::Len => "EnumLen"@,
        Capability::Ends => "EnumEnds"@,
        Capability::ToIndex => "EnumToIndex"@,
        Capability::FromIndex => "EnumFromIndex"@,
        Capability::Index => "EnumIndex"@,
        Capability::Iter => "EnumIter"@,
        Capability::Iterator => "EnumIterator"@,
        Capability::Discriminant => "EnumDiscriminant"@,
        Capability::VariantName => "EnumVariantName"@,
        Capability::FromVariantName => "EnumFromVariantName"@,
        Capability::BitPattern => "EnumBitPattern"@,
        Capability::Tag => "EnumTag"@,
        Capability::IsVariantFns => "EnumIsVariantFns"@,
    }
}

impl Capability {
    /// The derive name of this capability.
    pub fn name(&self) -> (r: &'static str)
        ensures
            r@ == spec_capability_name(*self),
    {
        match self {
            Capability::Len => "EnumLen",
            Capability::Ends => "EnumEnds",
            Capability::ToIndex => "EnumToIndex",
            Capability::FromIndex => "EnumFromIndex",
            Capability::Index => "EnumIndex",
            Capability::Iter => "EnumIter",
            Capability::Iterator => "EnumIterator",
            Capability::Discriminant => "EnumDiscriminant",
            Capability::VariantName => "EnumVariantName",
            Capability::FromVariantName => "EnumFromVariantName",
            Capability::BitPattern => "EnumBitPattern",
            Capability::Tag => "EnumTag",
            Capability::IsVariantFns => "EnumIsVariantFns",
        }
    }
}

/// A violated structural precondition of a derivation.
#[derive(Clone, Copy, PartialEq, Eq, Structural, Debug)]
pub enum DeriveError {
    /// The item under the derive is not an enum at all.
    NotAnEnum,
    /// The capability requires every variant to carry no fields.
    NoFields(Capability),
    /// The capability requires at least one variant.
    EmptyEnum(Capability),
}

/// The diagnostic text of an error.
pub open spec fn spec_error_message(e: DeriveError) -> Seq<char> {
    match e {
        DeriveError::NotAnEnum => "`derive(Enum*)` may only be applied to enum items"@,
        DeriveError::NoFields(c) => "`derive("@ + spec_capability_name(c)
            + ")` may only be applied to enum items with no fields"@,
        DeriveError::EmptyEnum(c) => "`derive("@ + spec_capability_name(c)
            + ")` may only be applied to non-empty enums"@,
    }
}

impl DeriveError {
    /// Renders the diagnostic reported for this error.
    pub fn message(&self) -> (r: String)
        ensures
            r@ == spec_error_message(*self),
    {
        match self {
            DeriveError::NotAnEnum => String::from_str(
                "`derive(Enum*)` may only be applied to enum items",
            ),
            DeriveError::NoFields(c) => {
                let mut s = String::from_str("`derive(");
                s.append(c.name());
                s.append(")` may only be applied to enum items with no fields");
                s
            },
            DeriveError::EmptyEnum(c) => {
                let mut s = String::from_str("`derive(");
                s.append(c.name());
                s.append(")` may only be applied to non-empty enums");
                s
            },
        }
    }
}

} // verus!
