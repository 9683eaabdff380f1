//! The data model of an enum declaration.
//!
//! Every capability emitter works on this model: a declaration has a name, a
//! generic parameter list, an attribute list and an ordered list of variants.
//! Variant order is significant and stable; it defines the indices 0..N-1.

use vstd::prelude::*;

verus! {

/// The shape of one variant: no fields, positional fields, or named fields.
#[derive(Clone, Copy, PartialEq, Eq, Structural, Debug)]
pub enum VariantShape {
    Unit,
    Tuple,
    Struct,
}

/// One named alternative of the enum, with its shape and, for unit variants,
/// an optional explicit discriminant literal.
#[derive(Clone)]
pub struct VariantDecl {
    pub name: String,
    pub shape: VariantShape,
    pub discriminant: Option<u64>,
}

/// One attribute on the declaration: a name and the list of nested words,
/// so that `#[repr(u8)]` has name `repr` and arguments `["u8"]`.
pub struct Attr {
    pub name: String,
    pub args: Vec<String>,
}

/// One generic parameter: the text of its declaration (with bounds) and the
/// bare name used when the type is mentioned.
pub struct GenericParam {
    pub decl: String,
    pub name: String,
}

/// An enum declaration as the engine sees it. The visibility and the where
/// clause are carried as text and handed through to the generated items;
/// either may be empty.
pub struct EnumDecl {
    pub name: String,
    pub vis: String,
    pub generics: Vec<GenericParam>,
    pub where_clause: String,
    pub attrs: Vec<Attr>,
    pub variants: Vec<VariantDecl>,
}

impl EnumDecl {
    /// Every variant has no fields.
    pub open spec fn all_unit(self) -> bool {
        forall|i: int| 0 <= i < self.variants@.len() ==> self.variants@[i].shape is Unit
    }

    /// Variant names are pairwise distinct, as the host language requires.
    pub open spec fn distinct_names(self) -> bool {
        forall|i: int, j: int|
            0 <= i < j < self.variants@.len() ==> self.variants@[i].name@
                != self.variants@[j].name@
    }

    /// Explicit discriminant literals stand on unit variants only, as the
    /// host language requires.
    pub open spec fn explicit_discriminants_on_units(self) -> bool {
        forall|i: int|
            0 <= i < self.variants@.len() && !(self.variants@[i].shape is Unit)
                ==> self.variants@[i].discriminant is None
    }

    /// Well-formedness of a declaration the host language would accept:
    /// distinct variant names, explicit discriminants only on unit variants,
    /// and discriminant values that fit their integer type and are pairwise
    /// distinct.
    pub open spec fn wf(self) -> bool {
        &&& self.distinct_names()
        &&& self.explicit_discriminants_on_units()
        &&& (forall|i: int|
            0 <= i < self.variants@.len() ==> #[trigger] spec_discriminant_value(self, i)
                <= u64::MAX)
        &&& (forall|i: int, j: int|
            0 <= i < j < self.variants@.len() ==> spec_discriminant_value(self, i)
                != spec_discriminant_value(self, j))
    }
}

/// The discriminant value the host language assigns to variant `i`: its
/// explicit literal when present, otherwise one more than its predecessor's
/// value, starting from zero.
pub open spec fn spec_discriminant_value(d: EnumDecl, i: int) -> int
    recommends
        0 <= i < d.variants@.len(),
    decreases i,
{
    match d.variants@[i].discriminant {
        Some(v) => v as int,
        None => if i <= 0 {
            0
        } else {
            spec_discriminant_value(d, i - 1) + 1
        },
    }
}

/// Whether every variant of `d` is a unit variant.
pub fn variants_all_unit(d: &EnumDecl) -> (r: bool)
    ensures
        r == d.all_unit(),
{
    let n = d.variants.len();
    for i in 0..n
        invariant
            n == d.variants@.len(),
            forall|j: int| 0 <= j < i ==> d.variants@[j].shape is Unit,
    {
        match d.variants[i].shape {
            VariantShape::Unit => {},
            _ => {
                return false;
            },
        }
    }
    true
}

/// The discriminant value of variant `i`, computed by the host language's
/// assignment rule.
pub fn discriminant_value(d: &EnumDecl, i: usize) -> (r: u64)
    requires
        i < d.variants@.len(),
        forall|k: int| 0 <= k <= i ==> #[trigger] spec_discriminant_value(*d, k) <= u64::MAX,
    ensures
        r == spec_discriminant_value(*d, i as int),
{
    let mut k: usize = 0;
    let mut value: u64 = match d.variants[0].discriminant {
        Some(v) => v,
        None => 0,
    };
    while k < i
        invariant
            k <= i < d.variants@.len(),
            forall|m: int| 0 <= m <= i ==> #[trigger] spec_discriminant_value(*d, m) <= u64::MAX,
            value == spec_discriminant_value(*d, k as int),
        decreases i - k,
    {
        k = k + 1;
        proof {
            assert(spec_discriminant_value(*d, k as int) <= u64::MAX);
        }
        value = match d.variants[k].discriminant {
            Some(v) => v,
            None => value + 1,
        };
    }
    value
}

} // verus!
