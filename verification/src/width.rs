//! Selection of the integer type that indexes an enum's variants.
//!
//! The width is taken from an explicit representation attribute when one is
//! present; otherwise it is the smallest unsigned width whose range covers
//! the greatest value the generated code must represent.

use vstd::prelude::*;
use crate::decl::{Attr, EnumDecl};

verus! {

/// A primitive unsigned integer width.
#[derive(Clone, Copy, PartialEq, Eq, Structural, Debug)]
pub enum IntWidth {
    W8,
    W16,
    W32,
    W64,
    WSize,
}

/// The identifier text of a width.
pub open spec fn spec_width_ident(w: IntWidth) -> Seq<char> {
    match w {
        IntWidth::W8 => "u8"@,
        IntWidth::W16 => "u16"@,
        IntWidth::W32 => "u32"@,
        IntWidth::W64 => "u64"@,
        IntWidth::WSize => "usize"@,
    }
}

impl IntWidth {
    /// The identifier this width is written as.
    pub fn ident(&self) -> (r: &'static str)
        ensures
            r@ == spec_width_ident(*self),
    {
        match self {
            IntWidth::W8 => "u8",
            IntWidth::W16 => "u16",
            IntWidth::W32 => "u32",
            IntWidth::W64 => "u64",
            IntWidth::WSize => "usize",
        }
    }
}

/// The smallest width whose unsigned range covers `value`.
pub open spec fn spec_min_width(value: nat) -> IntWidth {
    if value <= u8::MAX {
        IntWidth::W8
    } else if value <= u16::MAX {
        IntWidth::W16
    } else if value <= u32::MAX {
        IntWidth::W32
    } else if value <= u64::MAX {
        IntWidth::W64
    } else {
        IntWidth::WSize
    }
}

/// The smallest width whose unsigned range covers `value`.
pub fn minimum_type_from_value(value: usize) -> (r: IntWidth)
    ensures
        r == spec_min_width(value as nat),
{
    if value <= u8::MAX as usize {
        IntWidth::W8
    } else if value <= u16::MAX as usize {
        IntWidth::W16
    } else if value <= u32::MAX as usize {
        IntWidth::W32
    } else {
        IntWidth::W64
    }
}

/// As `minimum_type_from_value`, for a value already held as 64 bits.
pub fn minimum_type_from_u64(value: u64) -> (r: IntWidth)
    ensures
        r == spec_min_width(value as nat),
{
    if value <= u8::MAX as u64 {
        IntWidth::W8
    } else if value <= u16::MAX as u64 {
        IntWidth::W16
    } else if value <= u32::MAX as u64 {
        IntWidth::W32
    } else {
        IntWidth::W64
    }
}

/// The width named by the first representation attribute that carries one:
/// an attribute named `repr` whose first argument is a word other than the
/// `C` layout marker, which names no width.
pub open spec fn spec_repr_override(attrs: Seq<Attr>) -> Option<Seq<char>>
    decreases attrs.len(),
{
    if attrs.len() == 0 {
        None
    } else if attrs[0].name@ == "repr"@ && attrs[0].args@.len() > 0 && attrs[0].args@[0]@
        != "C"@ {
        Some(attrs[0].args@[0]@)
    } else {
        spec_repr_override(attrs.drop_first())
    }
}

/// Looks up an explicit representation width among the attributes.
pub fn type_from_repr_attr(attrs: &Vec<Attr>) -> (r: Option<String>)
    ensures
        match r {
            Some(s) => spec_repr_override(attrs@) == Some(s@),
            None => spec_repr_override(attrs@) is None,
        },
{
    let n = attrs.len();
    let c_marker: String = String::from_str("C");
    let repr_name: String = String::from_str("repr");
    proof {
        assert(attrs@.skip(0) =~= attrs@);
    }
    for i in 0..n
        invariant
            n == attrs@.len(),
            spec_repr_override(attrs@) == spec_repr_override(attrs@.skip(i as int)),
            c_marker@ == "C"@,
            repr_name@ == "repr"@,
    {
        proof {
            assert(attrs@.skip(i as int)[0] == attrs@[i as int]);
            assert(attrs@.skip(i as int).drop_first() =~= attrs@.skip(i + 1));
        }
        if attrs[i].name == repr_name && attrs[i].args.len() > 0 {
            if !(attrs[i].args[0] == c_marker) {
                return Some(attrs[i].args[0].clone());
            }
        }
    }
    None
}

/// The greatest explicit discriminant literal among the variants, when any
/// variant carries one.
pub open spec fn spec_max_explicit_discriminant(d: EnumDecl) -> Option<u64> {
    spec_max_disc_of(d.variants@.map_values(|v: crate::decl::VariantDecl| v.discriminant))
}

/// The greatest `Some` value in a sequence of optional discriminants.
pub open spec fn spec_max_disc_of(s: Seq<Option<u64>>) -> Option<u64>
    decreases s.len(),
{
    if s.len() == 0 {
        None
    } else {
        let rest = spec_max_disc_of(s.drop_last());
        match (s.last(), rest) {
            (Some(v), Some(m)) => if v >= m {
                Some(v)
            } else {
                Some(m)
            },
            (Some(v), None) => Some(v),
            (None, m) => m,
        }
    }
}

/// The greatest explicit discriminant literal among the variants.
pub fn max_explicit_discriminant(d: &EnumDecl) -> (r: Option<u64>)
    ensures
        r == spec_max_explicit_discriminant(*d),
{
    let n = d.variants.len();
    let mut best: Option<u64> = None;
    for i in 0..n
        invariant
            n == d.variants@.len(),
            best == spec_max_disc_of(
                d.variants@.take(i as int).map_values(
                    |v: crate::decl::VariantDecl| v.discriminant,
                ),
            ),
    {
        proof {
            let taken = d.variants@.take(i + 1).map_values(
                |v: crate::decl::VariantDecl| v.discriminant,
            );
            assert(taken.drop_last() =~= d.variants@.take(i as int).map_values(
                |v: crate::decl::VariantDecl| v.discriminant,
            ));
            assert(taken.last() == d.variants@[i as int].discriminant);
        }
        best = match (d.variants[i].discriminant, best) {
            (Some(v), Some(m)) => if v >= m {
                Some(v)
            } else {
                Some(m)
            },
            (Some(v), None) => Some(v),
            (None, m) => m,
        };
    }
    proof {
        assert(d.variants@.take(n as int) =~= d.variants@);
    }
    best
}

/// The greatest value the index type must represent: the larger of the last
/// index and the greatest explicit discriminant, zero for an empty enum.
pub open spec fn spec_enum_value_bound(d: EnumDecl) -> nat {
    let last_index: nat = if d.variants@.len() == 0 {
        0
    } else {
        (d.variants@.len() - 1) as nat
    };
    match spec_max_explicit_discriminant(d) {
        Some(m) => if m >= last_index {
            m as nat
        } else {
            last_index
        },
        None => last_index,
    }
}

/// The identifier of the index type for `d`: the explicit representation
/// width when one is given, otherwise the smallest width covering
/// `spec_enum_value_bound`.
pub open spec fn spec_index_type_ident(d: EnumDecl) -> Seq<char> {
    match spec_repr_override(d.attrs@) {
        Some(s) => s,
        None => spec_width_ident(spec_min_width(spec_enum_value_bound(d))),
    }
}

/// Selects the index type for an enum declaration.
pub fn minimum_type_containing_enum(d: &EnumDecl) -> (r: String)
    requires
        d.variants@.len() <= u64::MAX,
    ensures
        r@ == spec_index_type_ident(*d),
{
    match type_from_repr_attr(&d.attrs) {
        Some(s) => s,
        None => {
            let last_index: u64 = if d.variants.len() == 0 {
                0
            } else {
                (d.variants.len() - 1) as u64
            };
            let bound: u64 = match max_explicit_discriminant(d) {
                Some(m) => if m >= last_index {
                    m
                } else {
                    last_index
                },
                None => last_index,
            };
            let w = minimum_type_from_u64(bound);
            let mut s = String::new();
            s.append(w.ident());
            s
        },
    }
}

} // verus!
