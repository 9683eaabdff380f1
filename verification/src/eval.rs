//! Runtime semantics of the generated code.
//!
//! A runtime value of the subject enum is identified by the name of its
//! variant; the generated patterns erase any payload, so the name is all a
//! generated match inspects. Each function here evaluates one generated
//! method against a fragment, exactly as the emitted match would.

use vstd::prelude::*;
use crate::decl::{EnumDecl, VariantDecl};
use crate::fragment::{
    AdjacencyArm, BitPatternFragment, DiscriminantArm, DiscriminantFragment, FromIndexArm,
    FromIndexFragment, FromNameArm, FromVariantNameFragment, IndexArm, IsVariantFragment,
    IterFragment, IteratorFragment, NameArm, TagArm, TagFragment, ToIndexFragment,
    VariantNameFragment,
};
use crate::matching::{first_match, lemma_first_match_hit, lemma_first_match_none};

verus! {

/// Whether an index arm's pattern binds the variant named `name`.
pub open spec fn index_arm_pred(name: Seq<char>) -> spec_fn(IndexArm) -> bool {
    |a: IndexArm| a.pattern.variant@ == name
}

/// Whether a reconstruction arm carries the index literal `index`.
pub open spec fn from_index_arm_pred(index: u64) -> spec_fn(FromIndexArm) -> bool {
    |a: FromIndexArm| a.value == index
}

/// Whether a name arm's pattern binds the variant named `name`.
pub open spec fn name_arm_pred(name: Seq<char>) -> spec_fn(NameArm) -> bool {
    |a: NameArm| a.pattern.variant@ == name
}

/// Whether an inverse name arm carries the string literal `text`.
pub open spec fn from_name_arm_pred(text: Seq<char>) -> spec_fn(FromNameArm) -> bool {
    |a: FromNameArm| a.text@ == text
}

/// Whether a tag arm's pattern binds the variant named `name`.
pub open spec fn tag_arm_pred(name: Seq<char>) -> spec_fn(TagArm) -> bool {
    |a: TagArm| a.pattern.variant@ == name
}

/// Whether an adjacency arm steps away from the variant named `name`.
pub open spec fn adjacency_arm_pred(name: Seq<char>) -> spec_fn(AdjacencyArm) -> bool {
    |a: AdjacencyArm| a.from@ == name
}

/// The position of the variant named `name` in the declaration.
pub open spec fn spec_position_of(d: EnumDecl, name: Seq<char>) -> Option<int> {
    first_match(d.variants@, variant_name_pred(name))
}

/// Whether a declared variant is named `name`.
pub open spec fn variant_name_pred(name: Seq<char>) -> spec_fn(VariantDecl) -> bool {
    |v: VariantDecl| v.name@ == name
}

/// Finds the declaration position of the variant named `name`.
pub fn find_position(d: &EnumDecl, name: &String) -> (r: Option<usize>)
    ensures
        match r {
            Some(u) => u < d.variants@.len() && spec_position_of(*d, name@) == Some(u as int),
            None => spec_position_of(*d, name@) is None,
        },
{
    let n = d.variants.len();
    for i in 0..n
        invariant
            n == d.variants@.len(),
            forall|j: int| 0 <= j < i ==> !(variant_name_pred(name@)(#[trigger] d.variants@[j])),
    {
        if d.variants[i].name == *name {
            proof {
                lemma_first_match_hit(d.variants@, variant_name_pred(name@), i as int);
            }
            return Some(i);
        }
    }
    proof {
        lemma_first_match_none(d.variants@, variant_name_pred(name@));
    }
    None
}

/// Evaluates the generated index method on the value whose variant is named
/// `value`: the first arm binding that variant decides. The same arm table
/// serves the by-reference and the by-value form.
pub fn eval_to_index(f: &ToIndexFragment, value: &String) -> (r: Option<u64>)
    ensures
        r == (match first_match(f.arms@, index_arm_pred(value@)) {
            Some(k) => Some(f.arms@[k].value),
            None => None::<u64>,
        }),
{
    let n = f.arms.len();
    for i in 0..n
        invariant
            n == f.arms@.len(),
            forall|j: int| 0 <= j < i ==> !(index_arm_pred(value@)(#[trigger] f.arms@[j])),
    {
        if f.arms[i].pattern.variant == *value {
            proof {
                lemma_first_match_hit(f.arms@, index_arm_pred(value@), i as int);
            }
            return Some(f.arms[i].value);
        }
    }
    proof {
        lemma_first_match_none(f.arms@, index_arm_pred(value@));
    }
    None
}

/// Evaluates the generated reconstruction on an index: the first arm whose
/// literal equals it names the variant; otherwise the fallthrough arm gives
/// no result.
pub fn eval_from_index(f: &FromIndexFragment, index: u64) -> (r: Option<String>)
    ensures
        r == (match first_match(f.arms@, from_index_arm_pred(index)) {
            Some(k) => Some(f.arms@[k].variant),
            None => None::<String>,
        }),
{
    let n = f.arms.len();
    for i in 0..n
        invariant
            n == f.arms@.len(),
            forall|j: int| 0 <= j < i ==> !(from_index_arm_pred(index)(#[trigger] f.arms@[j])),
    {
        if f.arms[i].value == index {
            proof {
                lemma_first_match_hit(f.arms@, from_index_arm_pred(index), i as int);
            }
            return Some(f.arms[i].variant.clone());
        }
    }
    proof {
        lemma_first_match_none(f.arms@, from_index_arm_pred(index));
    }
    None
}

/// Evaluates the generated name method on the value whose variant is named
/// `value`.
pub fn eval_variant_name(f: &VariantNameFragment, value: &String) -> (r: Option<String>)
    ensures
        r == (match first_match(f.arms@, name_arm_pred(value@)) {
            Some(k) => Some(f.arms@[k].text),
            None => None::<String>,
        }),
{
    let n = f.arms.len();
    for i in 0..n
        invariant
            n == f.arms@.len(),
            forall|j: int| 0 <= j < i ==> !(name_arm_pred(value@)(#[trigger] f.arms@[j])),
    {
        if f.arms[i].pattern.variant == *value {
            proof {
                lemma_first_match_hit(f.arms@, name_arm_pred(value@), i as int);
            }
            return Some(f.arms[i].text.clone());
        }
    }
    proof {
        lemma_first_match_none(f.arms@, name_arm_pred(value@));
    }
    None
}

/// Evaluates the generated inverse name mapping on a string: the first arm
/// whose literal equals it names the variant; any unmatched string is a
/// parse failure.
pub fn eval_from_variant_name(f: &FromVariantNameFragment, query: &String) -> (r: Option<String>)
    ensures
        r == (match first_match(f.arms@, from_name_arm_pred(query@)) {
            Some(k) => Some(f.arms@[k].variant),
            None => None::<String>,
        }),
{
    let n = f.arms.len();
    for i in 0..n
        invariant
            n == f.arms@.len(),
            forall|j: int| 0 <= j < i ==> !(from_name_arm_pred(query@)(#[trigger] f.arms@[j])),
    {
        if f.arms[i].text == *query {
            proof {
                lemma_first_match_hit(f.arms@, from_name_arm_pred(query@), i as int);
            }
            return Some(f.arms[i].variant.clone());
        }
    }
    proof {
        lemma_first_match_none(f.arms@, from_name_arm_pred(query@));
    }
    None
}

/// Evaluates the generated tag accessor on the value whose variant is named
/// `value`.
pub fn eval_tag(f: &TagFragment, value: &String) -> (r: Option<String>)
    ensures
        r == (match first_match(f.arms@, tag_arm_pred(value@)) {
            Some(k) => Some(f.arms@[k].tag_variant),
            None => None::<String>,
        }),
{
    let n = f.arms.len();
    for i in 0..n
        invariant
            n == f.arms@.len(),
            forall|j: int| 0 <= j < i ==> !(tag_arm_pred(value@)(#[trigger] f.arms@[j])),
    {
        if f.arms[i].pattern.variant == *value {
            proof {
                lemma_first_match_hit(f.arms@, tag_arm_pred(value@), i as int);
            }
            return Some(f.arms[i].tag_variant.clone());
        }
    }
    proof {
        lemma_first_match_none(f.arms@, tag_arm_pred(value@));
    }
    None
}

/// Evaluates the generated predicate method numbered `k` on the value whose
/// variant is named `value`: true exactly when the pattern binds that
/// variant.
pub fn eval_is_variant(f: &IsVariantFragment, k: usize, value: &String) -> (r: bool)
    requires
        k < f.fns@.len(),
    ensures
        r == (f.fns@[k as int].pattern.variant@ == value@),
{
    f.fns[k].pattern.variant == *value
}

/// A copy of a byte row.
fn copy_bytes(src: &Vec<u8>) -> (r: Vec<u8>)
    ensures
        r@ == src@,
{
    let n = src.len();
    let mut out: Vec<u8> = Vec::new();
    for i in 0..n
        invariant
            n == src@.len(),
            out@.len() == i,
            forall|j: int| 0 <= j < i ==> out@[j] == src@[j],
    {
        out.push(src[i]);
    }
    proof {
        assert(out@ =~= src@);
    }
    out
}

/// Whether a bit-pattern arm binds the variant named `name`.
pub open spec fn bit_arm_pred(name: Seq<char>) -> spec_fn(crate::fragment::BitPatternArm) -> bool {
    |a: crate::fragment::BitPatternArm| a.variant@ == name
}

/// Evaluates the generated most-significant-bit-first pattern method.
pub fn eval_bit_pattern(f: &BitPatternFragment, value: &String) -> (r: Option<Vec<u8>>)
    ensures
        match r {
            Some(bytes) => {
                &&& first_match(f.arms@, bit_arm_pred(value@)) matches Some(k)
                &&& bytes@ == f.arms@[first_match(f.arms@, bit_arm_pred(value@))->Some_0].bytes@
            },
            None => first_match(f.arms@, bit_arm_pred(value@)) is None,
        },
{
    let n = f.arms.len();
    for i in 0..n
        invariant
            n == f.arms@.len(),
            forall|j: int| 0 <= j < i ==> !(bit_arm_pred(value@)(#[trigger] f.arms@[j])),
    {
        if f.arms[i].variant == *value {
            proof {
                lemma_first_match_hit(f.arms@, bit_arm_pred(value@), i as int);
            }
            return Some(copy_bytes(&f.arms[i].bytes));
        }
    }
    proof {
        lemma_first_match_none(f.arms@, bit_arm_pred(value@));
    }
    None
}

/// Evaluates the generated least-significant-bit-first pattern method.
pub fn eval_bit_pattern_rev(f: &BitPatternFragment, value: &String) -> (r: Option<Vec<u8>>)
    ensures
        match r {
            Some(bytes) => {
                &&& first_match(f.rev_arms@, bit_arm_pred(value@)) matches Some(k)
                &&& bytes@ == f.rev_arms@[first_match(f.rev_arms@, bit_arm_pred(value@))->Some_0].bytes@
            },
            None => first_match(f.rev_arms@, bit_arm_pred(value@)) is None,
        },
{
    let n = f.rev_arms.len();
    for i in 0..n
        invariant
            n == f.rev_arms@.len(),
            forall|j: int| 0 <= j < i ==> !(bit_arm_pred(value@)(#[trigger] f.rev_arms@[j])),
    {
        if f.rev_arms[i].variant == *value {
            proof {
                lemma_first_match_hit(f.rev_arms@, bit_arm_pred(value@), i as int);
            }
            return Some(copy_bytes(&f.rev_arms[i].bytes));
        }
    }
    proof {
        lemma_first_match_none(f.rev_arms@, bit_arm_pred(value@));
    }
    None
}

/// Advances the generated wrapper iterator: an unset state yields the first
/// variant; a held variant yields the target of its adjacency arm; a
/// variant with no arm signals exhaustion.
pub fn eval_iter_next(f: &IterFragment, state: Option<&String>) -> (r: Option<String>)
    ensures
        state is None ==> r == Some(f.first),
        state matches Some(nm) ==> r == (match first_match(f.next_arms@, adjacency_arm_pred(nm@)) {
            Some(k) => Some(f.next_arms@[k].to),
            None => None::<String>,
        }),
{
    match state {
        None => Some(f.first.clone()),
        Some(nm) => {
            let n = f.next_arms.len();
            for i in 0..n
                invariant
                    n == f.next_arms@.len(),
                    state == Some(nm),
                    forall|j: int|
                        0 <= j < i ==> !(adjacency_arm_pred(nm@)(#[trigger] f.next_arms@[j])),
            {
                if f.next_arms[i].from == *nm {
                    proof {
                        lemma_first_match_hit(f.next_arms@, adjacency_arm_pred(nm@), i as int);
                    }
                    return Some(f.next_arms[i].to.clone());
                }
            }
            proof {
                lemma_first_match_none(f.next_arms@, adjacency_arm_pred(nm@));
            }
            None
        },
    }
}

/// Steps the generated wrapper iterator backwards: an unset state yields the
/// last variant; a held variant yields the target of its reversed arm.
pub fn eval_iter_next_back(f: &IterFragment, state: Option<&String>) -> (r: Option<String>)
    ensures
        state is None ==> r == Some(f.last),
        state matches Some(nm) ==> r == (match first_match(f.prev_arms@, adjacency_arm_pred(nm@)) {
            Some(k) => Some(f.prev_arms@[k].to),
            None => None::<String>,
        }),
{
    match state {
        None => Some(f.last.clone()),
        Some(nm) => {
            let n = f.prev_arms.len();
            for i in 0..n
                invariant
                    n == f.prev_arms@.len(),
                    state == Some(nm),
                    forall|j: int|
                        0 <= j < i ==> !(adjacency_arm_pred(nm@)(#[trigger] f.prev_arms@[j])),
            {
                if f.prev_arms[i].from == *nm {
                    proof {
                        lemma_first_match_hit(f.prev_arms@, adjacency_arm_pred(nm@), i as int);
                    }
                    return Some(f.prev_arms[i].to.clone());
                }
            }
            proof {
                lemma_first_match_none(f.prev_arms@, adjacency_arm_pred(nm@));
            }
            None
        },
    }
}

/// Looks up the position arm of the variant named `value`.
fn position_value(arms: &Vec<IndexArm>, value: &String) -> (r: Option<u64>)
    ensures
        r == (match first_match(arms@, index_arm_pred(value@)) {
            Some(k) => Some(arms@[k].value),
            None => None::<u64>,
        }),
{
    let n = arms.len();
    for i in 0..n
        invariant
            n == arms@.len(),
            forall|j: int| 0 <= j < i ==> !(index_arm_pred(value@)(#[trigger] arms@[j])),
    {
        if arms[i].pattern.variant == *value {
            proof {
                lemma_first_match_hit(arms@, index_arm_pred(value@), i as int);
            }
            return Some(arms[i].value);
        }
    }
    proof {
        lemma_first_match_none(arms@, index_arm_pred(value@));
    }
    None
}

/// Evaluates the generated length method of the wrapper iterator: the full
/// count when the state is unset, otherwise the count minus one minus the
/// held variant's position. The generated count method computes the same
/// value.
pub fn eval_iter_len(f: &IterFragment, state: Option<&String>) -> (r: usize)
    requires
        forall|k: int|
            0 <= k < f.position_arms@.len() ==> (#[trigger] f.position_arms@[k]).value < f.len,
        state matches Some(nm) ==> first_match(f.position_arms@, index_arm_pred(nm@)) is Some,
    ensures
        r == (match state {
            None => f.len as int,
            Some(nm) => f.len - 1 - f.position_arms@[first_match(
                f.position_arms@,
                index_arm_pred(nm@),
            )->Some_0].value,
        }),
{
    match state {
        None => f.len,
        Some(nm) => {
            let v = position_value(&f.position_arms, nm);
            match v {
                Some(value) => {
                    proof {
                        crate::matching::lemma_first_match_props(
                            f.position_arms@,
                            index_arm_pred(nm@),
                        );
                    }
                    f.len - 1 - (value as usize)
                },
                None => f.len,  // unreachable under the precondition
            }
        },
    }
}

/// Advances the generated self-mutating iteration from the held variant.
pub fn eval_iterator_next(f: &IteratorFragment, current: &String) -> (r: Option<String>)
    ensures
        r == (match first_match(f.next_arms@, adjacency_arm_pred(current@)) {
            Some(k) => Some(f.next_arms@[k].to),
            None => None::<String>,
        }),
{
    let n = f.next_arms.len();
    for i in 0..n
        invariant
            n == f.next_arms@.len(),
            forall|j: int|
                0 <= j < i ==> !(adjacency_arm_pred(current@)(#[trigger] f.next_arms@[j])),
    {
        if f.next_arms[i].from == *current {
            proof {
                lemma_first_match_hit(f.next_arms@, adjacency_arm_pred(current@), i as int);
            }
            return Some(f.next_arms[i].to.clone());
        }
    }
    proof {
        lemma_first_match_none(f.next_arms@, adjacency_arm_pred(current@));
    }
    None
}

/// Evaluates the generated length method of the self-mutating iteration:
/// the count minus one minus the held variant's position.
pub fn eval_iterator_len(f: &IteratorFragment, current: &String) -> (r: usize)
    requires
        forall|k: int|
            0 <= k < f.position_arms@.len() ==> (#[trigger] f.position_arms@[k]).value < f.len,
        first_match(f.position_arms@, index_arm_pred(current@)) is Some,
    ensures
        r == f.len - 1 - f.position_arms@[first_match(
            f.position_arms@,
            index_arm_pred(current@),
        )->Some_0].value,
{
    let v = position_value(&f.position_arms, current);
    match v {
        Some(value) => {
            proof {
                crate::matching::lemma_first_match_props(f.position_arms@, index_arm_pred(current@));
            }
            f.len - 1 - (value as usize)
        },
        None => f.len,  // unreachable under the precondition
    }
}

/// Whether a discriminant arm accepts the queried value: a literal arm by
/// equality, an implicit arm when the query equals the discriminant value
/// the host language assigns to its variant.
pub open spec fn disc_arm_pred(d: EnumDecl, q: u64) -> spec_fn(DiscriminantArm) -> bool {
    |a: DiscriminantArm|
        match a {
            DiscriminantArm::Literal { value, variant } => value == q,
            DiscriminantArm::Implicit { variant } => match spec_position_of(d, variant@) {
                Some(i) => crate::decl::spec_discriminant_value(d, i) == q,
                None => false,
            },
        }
}

/// The variant a discriminant arm reconstructs.
pub open spec fn disc_arm_variant(a: DiscriminantArm) -> String {
    match a {
        DiscriminantArm::Literal { value, variant } => variant,
        DiscriminantArm::Implicit { variant } => variant,
    }
}

/// Evaluates the generated discriminant reconstruction on a queried value:
/// the first arm accepting it names the variant; otherwise the fallthrough
/// arm gives no result.
pub fn eval_from_discriminant(d: &EnumDecl, f: &DiscriminantFragment, q: u64) -> (r: Option<
    String,
>)
    requires
        forall|k: int|
            0 <= k < d.variants@.len() ==> #[trigger] crate::decl::spec_discriminant_value(*d, k)
                <= u64::MAX,
    ensures
        r == (match first_match(f.arms@, disc_arm_pred(*d, q)) {
            Some(k) => Some(disc_arm_variant(f.arms@[k])),
            None => None::<String>,
        }),
{
    let n = f.arms.len();
    for i in 0..n
        invariant
            n == f.arms@.len(),
            forall|j: int| 0 <= j < i ==> !(disc_arm_pred(*d, q)(#[trigger] f.arms@[j])),
            forall|k: int|
                0 <= k < d.variants@.len() ==> #[trigger] crate::decl::spec_discriminant_value(
                    *d,
                    k,
                ) <= u64::MAX,
    {
        let hit: bool = match &f.arms[i] {
            DiscriminantArm::Literal { value, variant } => *value == q,
            DiscriminantArm::Implicit { variant } => {
                match find_position(d, variant) {
                    Some(p) => crate::decl::discriminant_value(d, p) == q,
                    None => false,
                }
            },
        };
        if hit {
            proof {
                lemma_first_match_hit(f.arms@, disc_arm_pred(*d, q), i as int);
            }
            let name: String = match &f.arms[i] {
                DiscriminantArm::Literal { value, variant } => variant.clone(),
                DiscriminantArm::Implicit { variant } => variant.clone(),
            };
            return Some(name);
        }
    }
    proof {
        lemma_first_match_none(f.arms@, disc_arm_pred(*d, q));
    }
    None
}

} // verus!
