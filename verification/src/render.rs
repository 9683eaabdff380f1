//! Serialization of fragments to Rust source text.
//!
//! The assembler's last step: each fragment is written out as the trait
//! implementation or auxiliary declaration it models, ready to be handed
//! back to the host compiler. Every rendering function is pinned to a
//! specification function giving the exact text.

use vstd::prelude::*;
use crate::decl::{EnumDecl, GenericParam};
use crate::fragment::MatchPattern;

verus! {

/// The decimal digit `k` as text.
pub open spec fn spec_digit(k: int) -> Seq<char> {
    if k == 0 {
        "0"@
    } else if k == 1 {
        "1"@
    } else if k == 2 {
        "2"@
    } else if k == 3 {
        "3"@
    } else if k == 4 {
        "4"@
    } else if k == 5 {
        "5"@
    } else if k == 6 {
        "6"@
    } else if k == 7 {
        "7"@
    } else if k == 8 {
        "8"@
    } else {
        "9"@
    }
}

/// The decimal representation of `n`, most significant digit first.
pub open spec fn spec_dec(n: nat) -> Seq<char>
    decreases n,
{
    if n < 10 {
        spec_digit(n as int)
    } else {
        spec_dec(n / 10) + spec_digit((n % 10) as int)
    }
}

/// One decimal digit as a string literal.
fn digit_str(k: u64) -> (r: &'static str)
    requires
        k < 10,
    ensures
        r@ == spec_digit(k as int),
{
    match k {
        0 => "0",
        1 => "1",
        2 => "2",
        3 => "3",
        4 => "4",
        5 => "5",
        6 => "6",
        7 => "7",
        8 => "8",
        _ => "9",
    }
}

/// Appends the decimal representation of `n`.
pub fn push_dec(s: &mut String, n: u64)
    ensures
        final(s)@ == old(s)@ + spec_dec(n as nat),
    decreases n,
{
    if n >= 10 {
        push_dec(s, n / 10);
        s.append(digit_str(n % 10));
        proof {
            assert(final(s)@ =~= old(s)@ + spec_dec(n as nat));
        }
    } else {
        s.append(digit_str(n));
    }
}

/// The generic parameter declarations joined by commas.
pub open spec fn spec_join_decls(ps: Seq<GenericParam>) -> Seq<char>
    decreases ps.len(),
{
    if ps.len() == 0 {
        Seq::empty()
    } else if ps.len() == 1 {
        ps[0].decl@
    } else {
        spec_join_decls(ps.drop_last()) + ", "@ + ps.last().decl@
    }
}

/// The generic parameter names joined by commas.
pub open spec fn spec_join_names(ps: Seq<GenericParam>) -> Seq<char>
    decreases ps.len(),
{
    if ps.len() == 0 {
        Seq::empty()
    } else if ps.len() == 1 {
        ps[0].name@
    } else {
        spec_join_names(ps.drop_last()) + ", "@ + ps.last().name@
    }
}

/// The generics of the implementation header: empty, or the bracketed
/// parameter declarations.
pub open spec fn spec_impl_generics(d: EnumDecl) -> Seq<char> {
    if d.generics@.len() == 0 {
        Seq::empty()
    } else {
        "<"@ + spec_join_decls(d.generics@) + ">"@
    }
}

/// The generics of a mention of the type: empty, or the bracketed parameter
/// names.
pub open spec fn spec_ty_generics(d: EnumDecl) -> Seq<char> {
    if d.generics@.len() == 0 {
        Seq::empty()
    } else {
        "<"@ + spec_join_names(d.generics@) + ">"@
    }
}

/// The where clause, preceded by a space when present.
pub open spec fn spec_where(d: EnumDecl) -> Seq<char> {
    if d.where_clause@.len() == 0 {
        Seq::empty()
    } else {
        " "@ + d.where_clause@
    }
}

/// The visibility, followed by a space when present.
pub open spec fn spec_vis(d: EnumDecl) -> Seq<char> {
    if d.vis@.len() == 0 {
        Seq::empty()
    } else {
        d.vis@ + " "@
    }
}

/// Appends the bracketed generic parameter declarations, if any.
pub fn push_impl_generics(s: &mut String, d: &EnumDecl)
    ensures
        final(s)@ == old(s)@ + spec_impl_generics(*d),
{
    let n = d.generics.len();
    if n == 0 {
        proof {
            assert(final(s)@ =~= old(s)@ + spec_impl_generics(*d));
        }
        return ;
    }
    s.append("<");
    s.append(d.generics[0].decl.as_str());
    proof {
        assert(d.generics@.take(1) =~= seq![d.generics@[0]]);
        assert(spec_join_decls(d.generics@.take(1)) == d.generics@[0].decl@);
    }
    for i in 1..n
        invariant
            1 <= i <= n,
            n == d.generics@.len(),
            s@ == old(s)@ + "<"@ + spec_join_decls(d.generics@.take(i as int)),
    {
        s.append(", ");
        s.append(d.generics[i].decl.as_str());
        proof {
            assert(d.generics@.take(i + 1).drop_last() =~= d.generics@.take(i as int));
            assert(d.generics@.take(i + 1).last() == d.generics@[i as int]);
            assert(s@ =~= old(s)@ + "<"@ + spec_join_decls(d.generics@.take(i + 1)));
        }
    }
    s.append(">");
    proof {
        assert(d.generics@.take(n as int) =~= d.generics@);
        assert(s@ =~= old(s)@ + spec_impl_generics(*d));
    }
}

/// Appends the bracketed generic parameter names, if any.
pub fn push_ty_generics(s: &mut String, d: &EnumDecl)
    ensures
        final(s)@ == old(s)@ + spec_ty_generics(*d),
{
    let n = d.generics.len();
    if n == 0 {
        proof {
            assert(final(s)@ =~= old(s)@ + spec_ty_generics(*d));
        }
        return ;
    }
    s.append("<");
    s.append(d.generics[0].name.as_str());
    proof {
        assert(d.generics@.take(1) =~= seq![d.generics@[0]]);
        assert(spec_join_names(d.generics@.take(1)) == d.generics@[0].name@);
    }
    for i in 1..n
        invariant
            1 <= i <= n,
            n == d.generics@.len(),
            s@ == old(s)@ + "<"@ + spec_join_names(d.generics@.take(i as int)),
    {
        s.append(", ");
        s.append(d.generics[i].name.as_str());
        proof {
            assert(d.generics@.take(i + 1).drop_last() =~= d.generics@.take(i as int));
            assert(d.generics@.take(i + 1).last() == d.generics@[i as int]);
            assert(s@ =~= old(s)@ + "<"@ + spec_join_names(d.generics@.take(i + 1)));
        }
    }
    s.append(">");
    proof {
        assert(d.generics@.take(n as int) =~= d.generics@);
        assert(s@ =~= old(s)@ + spec_ty_generics(*d));
    }
}

/// The opening of a trait implementation for the named self type.
pub open spec fn spec_impl_header(
    d: EnumDecl,
    trait_path: Seq<char>,
    self_name: Seq<char>,
) -> Seq<char> {
    "impl"@ + spec_impl_generics(d) + " "@ + trait_path + " for "@ + self_name + spec_ty_generics(
        d,
    ) + spec_where(d) + " {\n"@
}

/// Appends the opening of a trait implementation for the named self type.
pub fn push_impl_header(s: &mut String, d: &EnumDecl, trait_path: &str, self_name: &str)
    ensures
        final(s)@ == old(s)@ + spec_impl_header(*d, trait_path@, self_name@),
{
    s.append("impl");
    push_impl_generics(s, d);
    s.append(" ");
    s.append(trait_path);
    s.append(" for ");
    s.append(self_name);
    push_ty_generics(s, d);
    if !d.where_clause.as_str().is_empty() {
        s.append(" ");
        s.append(d.where_clause.as_str());
    }
    s.append(" {\n");
    proof {
        assert(final(s)@ =~= old(s)@ + spec_impl_header(*d, trait_path@, self_name@));
    }
}

/// The suffix a shape-erasing pattern carries after the variant name.
pub open spec fn spec_shape_suffix(sh: crate::decl::VariantShape) -> Seq<char> {
    match sh {
        crate::decl::VariantShape::Unit => Seq::empty(),
        crate::decl::VariantShape::Tuple => "(..)"@,
        crate::decl::VariantShape::Struct => "{..}"@,
    }
}

/// A shape-erasing pattern, with a leading `&` for matches on a reference.
pub open spec fn spec_pattern_text(
    ename: Seq<char>,
    p: MatchPattern,
    by_ref: bool,
) -> Seq<char> {
    (if by_ref {
        "&"@
    } else {
        Seq::<char>::empty()
    }) + ename + "::"@ + p.variant@ + spec_shape_suffix(p.shape)
}

/// Appends a shape-erasing pattern.
pub fn push_pattern(s: &mut String, ename: &String, p: &MatchPattern, by_ref: bool)
    ensures
        final(s)@ == old(s)@ + spec_pattern_text(ename@, *p, by_ref),
{
    if by_ref {
        s.append("&");
    }
    s.append(ename.as_str());
    s.append("::");
    s.append(p.variant.as_str());
    match p.shape {
        crate::decl::VariantShape::Unit => {},
        crate::decl::VariantShape::Tuple => s.append("(..)"),
        crate::decl::VariantShape::Struct => s.append("{..}"),
    }
    proof {
        assert(final(s)@ =~= old(s)@ + spec_pattern_text(ename@, *p, by_ref));
    }
}

/// One arm of an index match: the pattern, then the index literal.
pub open spec fn spec_index_arm_text(
    ename: Seq<char>,
    a: crate::fragment::IndexArm,
    by_ref: bool,
    indent: Seq<char>,
) -> Seq<char> {
    indent + spec_pattern_text(ename, a.pattern, by_ref) + " => "@ + spec_dec(a.value as nat)
        + ",\n"@
}

/// The arms of an index match, in order.
pub open spec fn spec_index_arms_text(
    ename: Seq<char>,
    arms: Seq<crate::fragment::IndexArm>,
    by_ref: bool,
    indent: Seq<char>,
) -> Seq<char>
    decreases arms.len(),
{
    if arms.len() == 0 {
        Seq::empty()
    } else {
        spec_index_arms_text(ename, arms.drop_last(), by_ref, indent) + spec_index_arm_text(
            ename,
            arms.last(),
            by_ref,
            indent,
        )
    }
}

/// Appends the arms of an index match.
#[verifier::rlimit(50)]
fn push_index_arms(
    s: &mut String,
    ename: &String,
    arms: &Vec<crate::fragment::IndexArm>,
    by_ref: bool,
    indent: &str,
)
    ensures
        final(s)@ == old(s)@ + spec_index_arms_text(ename@, arms@, by_ref, indent@),
{
    let n = arms.len();
    proof {
        assert(arms@.take(0) =~= Seq::<crate::fragment::IndexArm>::empty());
    }
    for i in 0..n
        invariant
            n == arms@.len(),
            s@ == old(s)@ + spec_index_arms_text(ename@, arms@.take(i as int), by_ref, indent@),
    {
        s.append(indent);
        push_pattern(s, ename, &arms[i].pattern, by_ref);
        s.append(" => ");
        push_dec(s, arms[i].value);
        s.append(",\n");
        proof {
            assert(arms@.take(i + 1).drop_last() =~= arms@.take(i as int));
            assert(arms@.take(i + 1).last() == arms@[i as int]);
            assert(s@ =~= old(s)@ + spec_index_arms_text(
                ename@,
                arms@.take(i + 1),
                by_ref,
                indent@,
            ));
        }
    }
    proof {
        assert(arms@.take(n as int) =~= arms@);
    }
}

/// One arm of the reconstruction match: the index literal, then the variant.
pub open spec fn spec_from_index_arm_text(
    ename: Seq<char>,
    a: crate::fragment::FromIndexArm,
) -> Seq<char> {
    "            "@ + spec_dec(a.value as nat) + " => "@ + ename + "::"@ + a.variant@ + ",\n"@
}

/// The arms of the reconstruction match, in order.
pub open spec fn spec_from_index_arms_text(
    ename: Seq<char>,
    arms: Seq<crate::fragment::FromIndexArm>,
) -> Seq<char>
    decreases arms.len(),
{
    if arms.len() == 0 {
        Seq::empty()
    } else {
        spec_from_index_arms_text(ename, arms.drop_last()) + spec_from_index_arm_text(
            ename,
            arms.last(),
        )
    }
}

/// Appends the arms of the reconstruction match.
#[verifier::rlimit(50)]
fn push_from_index_arms(s: &mut String, ename: &String, arms: &Vec<crate::fragment::FromIndexArm>)
    ensures
        final(s)@ == old(s)@ + spec_from_index_arms_text(ename@, arms@),
{
    let n = arms.len();
    proof {
        assert(arms@.take(0) =~= Seq::<crate::fragment::FromIndexArm>::empty());
    }
    for i in 0..n
        invariant
            n == arms@.len(),
            s@ == old(s)@ + spec_from_index_arms_text(ename@, arms@.take(i as int)),
    {
        s.append("            ");
        push_dec(s, arms[i].value);
        s.append(" => ");
        s.append(ename.as_str());
        s.append("::");
        s.append(arms[i].variant.as_str());
        s.append(",\n");
        proof {
            assert(arms@.take(i + 1).drop_last() =~= arms@.take(i as int));
            assert(arms@.take(i + 1).last() == arms@[i as int]);
            assert(s@ =~= old(s)@ + spec_from_index_arms_text(ename@, arms@.take(i + 1)));
        }
    }
    proof {
        assert(arms@.take(n as int) =~= arms@);
    }
}

/// One arm of the discriminant match: a literal arm, or a guard against the
/// variant's own discriminant value.
pub open spec fn spec_disc_arm_text(
    ename: Seq<char>,
    a: crate::fragment::DiscriminantArm,
) -> Seq<char> {
    match a {
        crate::fragment::DiscriminantArm::Literal { value, variant } => "            "@ + spec_dec(
            value as nat,
        ) + " => "@ + ename + "::"@ + variant@ + ",\n"@,
        crate::fragment::DiscriminantArm::Implicit { variant } => "            n if n == "@ + ename
            + "::"@ + variant@ + " as Self::Type => "@ + ename + "::"@ + variant@ + ",\n"@,
    }
}

/// The arms of the discriminant match, in order.
pub open spec fn spec_disc_arms_text(
    ename: Seq<char>,
    arms: Seq<crate::fragment::DiscriminantArm>,
) -> Seq<char>
    decreases arms.len(),
{
    if arms.len() == 0 {
        Seq::empty()
    } else {
        spec_disc_arms_text(ename, arms.drop_last()) + spec_disc_arm_text(ename, arms.last())
    }
}

/// Appends the arms of the discriminant match.
#[verifier::rlimit(100)]
fn push_disc_arms(s: &mut String, ename: &String, arms: &Vec<crate::fragment::DiscriminantArm>)
    ensures
        final(s)@ == old(s)@ + spec_disc_arms_text(ename@, arms@),
{
    let n = arms.len();
    proof {
        assert(arms@.take(0) =~= Seq::<crate::fragment::DiscriminantArm>::empty());
    }
    for i in 0..n
        invariant
            n == arms@.len(),
            s@ == old(s)@ + spec_disc_arms_text(ename@, arms@.take(i as int)),
    {
        match &arms[i] {
            crate::fragment::DiscriminantArm::Literal { value, variant } => {
                s.append("            ");
                push_dec(s, *value);
                s.append(" => ");
                s.append(ename.as_str());
                s.append("::");
                s.append(variant.as_str());
                s.append(",\n");
            },
            crate::fragment::DiscriminantArm::Implicit { variant } => {
                s.append("            n if n == ");
                s.append(ename.as_str());
                s.append("::");
                s.append(variant.as_str());
                s.append(" as Self::Type => ");
                s.append(ename.as_str());
                s.append("::");
                s.append(variant.as_str());
                s.append(",\n");
            },
        }
        proof {
            assert(arms@.take(i + 1).drop_last() =~= arms@.take(i as int));
            assert(arms@.take(i + 1).last() == arms@[i as int]);
            assert(s@ =~= old(s)@ + spec_disc_arms_text(ename@, arms@.take(i + 1)));
        }
    }
    proof {
        assert(arms@.take(n as int) =~= arms@);
    }
}

/// One arm of the name match: the pattern, then the name literal.
pub open spec fn spec_name_arm_text(ename: Seq<char>, a: crate::fragment::NameArm) -> Seq<char> {
    "            "@ + spec_pattern_text(ename, a.pattern, true) + " => \""@ + a.text@ + "\",\n"@
}

/// The arms of the name match, in order.
pub open spec fn spec_name_arms_text(
    ename: Seq<char>,
    arms: Seq<crate::fragment::NameArm>,
) -> Seq<char>
    decreases arms.len(),
{
    if arms.len() == 0 {
        Seq::empty()
    } else {
        spec_name_arms_text(ename, arms.drop_last()) + spec_name_arm_text(ename, arms.last())
    }
}

/// Appends the arms of the name match.
#[verifier::rlimit(50)]
fn push_name_arms(s: &mut String, ename: &String, arms: &Vec<crate::fragment::NameArm>)
    ensures
        final(s)@ == old(s)@ + spec_name_arms_text(ename@, arms@),
{
    let n = arms.len();
    proof {
        assert(arms@.take(0) =~= Seq::<crate::fragment::NameArm>::empty());
    }
    for i in 0..n
        invariant
            n == arms@.len(),
            s@ == old(s)@ + spec_name_arms_text(ename@, arms@.take(i as int)),
    {
        s.append("            ");
        push_pattern(s, ename, &arms[i].pattern, true);
        s.append(" => \"");
        s.append(arms[i].text.as_str());
        s.append("\",\n");
        proof {
            assert(arms@.take(i + 1).drop_last() =~= arms@.take(i as int));
            assert(arms@.take(i + 1).last() == arms@[i as int]);
            assert(s@ =~= old(s)@ + spec_name_arms_text(ename@, arms@.take(i + 1)));
        }
    }
    proof {
        assert(arms@.take(n as int) =~= arms@);
    }
}

/// One arm of the inverse name match: the name literal, then the variant.
pub open spec fn spec_from_name_arm_text(
    ename: Seq<char>,
    a: crate::fragment::FromNameArm,
) -> Seq<char> {
    "            \""@ + a.text@ + "\" => "@ + ename + "::"@ + a.variant@ + ",\n"@
}

/// The arms of the inverse name match, in order.
pub open spec fn spec_from_name_arms_text(
    ename: Seq<char>,
    arms: Seq<crate::fragment::FromNameArm>,
) -> Seq<char>
    decreases arms.len(),
{
    if arms.len() == 0 {
        Seq::empty()
    } else {
        spec_from_name_arms_text(ename, arms.drop_last()) + spec_from_name_arm_text(
            ename,
            arms.last(),
        )
    }
}

/// Appends the arms of the inverse name match.
#[verifier::rlimit(50)]
fn push_from_name_arms(s: &mut String, ename: &String, arms: &Vec<crate::fragment::FromNameArm>)
    ensures
        final(s)@ == old(s)@ + spec_from_name_arms_text(ename@, arms@),
{
    let n = arms.len();
    proof {
        assert(arms@.take(0) =~= Seq::<crate::fragment::FromNameArm>::empty());
    }
    for i in 0..n
        invariant
            n == arms@.len(),
            s@ == old(s)@ + spec_from_name_arms_text(ename@, arms@.take(i as int)),
    {
        s.append("            \"");
        s.append(arms[i].text.as_str());
        s.append("\" => ");
        s.append(ename.as_str());
        s.append("::");
        s.append(arms[i].variant.as_str());
        s.append(",\n");
        proof {
            assert(arms@.take(i + 1).drop_last() =~= arms@.take(i as int));
            assert(arms@.take(i + 1).last() == arms@[i as int]);
            assert(s@ =~= old(s)@ + spec_from_name_arms_text(ename@, arms@.take(i + 1)));
        }
    }
    proof {
        assert(arms@.take(n as int) =~= arms@);
    }
}

/// One arm of the tag accessor: the pattern, then the tag variant.
pub open spec fn spec_tag_arm_text(
    ename: Seq<char>,
    tag_name: Seq<char>,
    a: crate::fragment::TagArm,
) -> Seq<char> {
    "            "@ + spec_pattern_text(ename, a.pattern, true) + " => "@ + tag_name + "::"@
        + a.tag_variant@ + ",\n"@
}

/// The arms of the tag accessor, in order.
pub open spec fn spec_tag_arms_text(
    ename: Seq<char>,
    tag_name: Seq<char>,
    arms: Seq<crate::fragment::TagArm>,
) -> Seq<char>
    decreases arms.len(),
{
    if arms.len() == 0 {
        Seq::empty()
    } else {
        spec_tag_arms_text(ename, tag_name, arms.drop_last()) + spec_tag_arm_text(
            ename,
            tag_name,
            arms.last(),
        )
    }
}

/// Appends the arms of the tag accessor.
#[verifier::rlimit(50)]
fn push_tag_arms(
    s: &mut String,
    ename: &String,
    tag_name: &String,
    arms: &Vec<crate::fragment::TagArm>,
)
    ensures
        final(s)@ == old(s)@ + spec_tag_arms_text(ename@, tag_name@, arms@),
{
    let n = arms.len();
    proof {
        assert(arms@.take(0) =~= Seq::<crate::fragment::TagArm>::empty());
    }
    for i in 0..n
        invariant
            n == arms@.len(),
            s@ == old(s)@ + spec_tag_arms_text(ename@, tag_name@, arms@.take(i as int)),
    {
        s.append("            ");
        push_pattern(s, ename, &arms[i].pattern, true);
        s.append(" => ");
        s.append(tag_name.as_str());
        s.append("::");
        s.append(arms[i].tag_variant.as_str());
        s.append(",\n");
        proof {
            assert(arms@.take(i + 1).drop_last() =~= arms@.take(i as int));
            assert(arms@.take(i + 1).last() == arms@[i as int]);
            assert(s@ =~= old(s)@ + spec_tag_arms_text(ename@, tag_name@, arms@.take(i + 1)));
        }
    }
    proof {
        assert(arms@.take(n as int) =~= arms@);
    }
}

/// The byte values of a pattern row, joined by commas.
pub open spec fn spec_bytes_text(bytes: Seq<u8>) -> Seq<char>
    decreases bytes.len(),
{
    if bytes.len() == 0 {
        Seq::empty()
    } else if bytes.len() == 1 {
        spec_dec(bytes[0] as nat)
    } else {
        spec_bytes_text(bytes.drop_last()) + ", "@ + spec_dec(bytes.last() as nat)
    }
}

/// Appends the byte values of a pattern row.
#[verifier::rlimit(50)]
fn push_bytes_text(s: &mut String, bytes: &Vec<u8>)
    ensures
        final(s)@ == old(s)@ + spec_bytes_text(bytes@),
{
    let n = bytes.len();
    if n == 0 {
        proof {
            assert(final(s)@ =~= old(s)@ + spec_bytes_text(bytes@));
        }
        return ;
    }
    push_dec(s, bytes[0] as u64);
    proof {
        assert(bytes@.take(1) =~= seq![bytes@[0]]);
        assert(spec_bytes_text(bytes@.take(1)) == spec_dec(bytes@[0] as nat));
        assert(s@ =~= old(s)@ + spec_bytes_text(bytes@.take(1)));
    }
    for i in 1..n
        invariant
            1 <= i <= n,
            n == bytes@.len(),
            s@ == old(s)@ + spec_bytes_text(bytes@.take(i as int)),
    {
        s.append(", ");
        push_dec(s, bytes[i] as u64);
        proof {
            assert(bytes@.take(i + 1).drop_last() =~= bytes@.take(i as int));
            assert(bytes@.take(i + 1).last() == bytes@[i as int]);
            assert(s@ =~= old(s)@ + spec_bytes_text(bytes@.take(i + 1)));
        }
    }
    proof {
        assert(bytes@.take(n as int) =~= bytes@);
    }
}

/// One arm of a bit-pattern match: the variant, then its byte array.
pub open spec fn spec_bp_arm_text(
    ename: Seq<char>,
    a: crate::fragment::BitPatternArm,
) -> Seq<char> {
    "            "@ + ename + "::"@ + a.variant@ + " => ["@ + spec_bytes_text(a.bytes@) + "],\n"@
}

/// The arms of a bit-pattern match, in order.
pub open spec fn spec_bp_arms_text(
    ename: Seq<char>,
    arms: Seq<crate::fragment::BitPatternArm>,
) -> Seq<char>
    decreases arms.len(),
{
    if arms.len() == 0 {
        Seq::empty()
    } else {
        spec_bp_arms_text(ename, arms.drop_last()) + spec_bp_arm_text(ename, arms.last())
    }
}

/// Appends the arms of a bit-pattern match.
#[verifier::rlimit(50)]
fn push_bp_arms(s: &mut String, ename: &String, arms: &Vec<crate::fragment::BitPatternArm>)
    ensures
        final(s)@ == old(s)@ + spec_bp_arms_text(ename@, arms@),
{
    let n = arms.len();
    proof {
        assert(arms@.take(0) =~= Seq::<crate::fragment::BitPatternArm>::empty());
    }
    for i in 0..n
        invariant
            n == arms@.len(),
            s@ == old(s)@ + spec_bp_arms_text(ename@, arms@.take(i as int)),
    {
        s.append("            ");
        s.append(ename.as_str());
        s.append("::");
        s.append(arms[i].variant.as_str());
        s.append(" => [");
        push_bytes_text(s, &arms[i].bytes);
        s.append("],\n");
        proof {
            assert(arms@.take(i + 1).drop_last() =~= arms@.take(i as int));
            assert(arms@.take(i + 1).last() == arms@[i as int]);
            assert(s@ =~= old(s)@ + spec_bp_arms_text(ename@, arms@.take(i + 1)));
        }
    }
    proof {
        assert(arms@.take(n as int) =~= arms@);
    }
}

/// The lines declaring the tag enum's variants.
pub open spec fn spec_variant_lines_text(vs: Seq<String>) -> Seq<char>
    decreases vs.len(),
{
    if vs.len() == 0 {
        Seq::empty()
    } else {
        spec_variant_lines_text(vs.drop_last()) + "    "@ + vs.last()@ + ",\n"@
    }
}

/// Appends the lines declaring the tag enum's variants.
#[verifier::rlimit(50)]
fn push_variant_lines(s: &mut String, vs: &Vec<String>)
    ensures
        final(s)@ == old(s)@ + spec_variant_lines_text(vs@),
{
    let n = vs.len();
    proof {
        assert(vs@.take(0) =~= Seq::<String>::empty());
    }
    for i in 0..n
        invariant
            n == vs@.len(),
            s@ == old(s)@ + spec_variant_lines_text(vs@.take(i as int)),
    {
        s.append("    ");
        s.append(vs[i].as_str());
        s.append(",\n");
        proof {
            assert(vs@.take(i + 1).drop_last() =~= vs@.take(i as int));
            assert(vs@.take(i + 1).last() == vs@[i as int]);
            assert(s@ =~= old(s)@ + spec_variant_lines_text(vs@.take(i + 1)));
        }
    }
    proof {
        assert(vs@.take(n as int) =~= vs@);
    }
}

/// One generated predicate method.
pub open spec fn spec_pred_fn_text(ename: Seq<char>, f: crate::fragment::PredicateFn) -> Seq<char> {
    "    pub fn "@ + f.fn_name@ + "(&self) -> bool {\n        if let &"@ + spec_pattern_text(
        ename,
        f.pattern,
        false,
    ) + " = self { true } else { false }\n    }\n"@
}

/// The generated predicate methods, in order.
pub open spec fn spec_pred_fns_text(
    ename: Seq<char>,
    fns: Seq<crate::fragment::PredicateFn>,
) -> Seq<char>
    decreases fns.len(),
{
    if fns.len() == 0 {
        Seq::empty()
    } else {
        spec_pred_fns_text(ename, fns.drop_last()) + spec_pred_fn_text(ename, fns.last())
    }
}

/// Appends the generated predicate methods.
#[verifier::rlimit(50)]
fn push_pred_fns(s: &mut String, ename: &String, fns: &Vec<crate::fragment::PredicateFn>)
    ensures
        final(s)@ == old(s)@ + spec_pred_fns_text(ename@, fns@),
{
    let n = fns.len();
    proof {
        assert(fns@.take(0) =~= Seq::<crate::fragment::PredicateFn>::empty());
    }
    for i in 0..n
        invariant
            n == fns@.len(),
            s@ == old(s)@ + spec_pred_fns_text(ename@, fns@.take(i as int)),
    {
        s.append("    pub fn ");
        s.append(fns[i].fn_name.as_str());
        s.append("(&self) -> bool {\n        if let &");
        push_pattern(s, ename, &fns[i].pattern, false);
        s.append(" = self { true } else { false }\n    }\n");
        proof {
            assert(fns@.take(i + 1).drop_last() =~= fns@.take(i as int));
            assert(fns@.take(i + 1).last() == fns@[i as int]);
            assert(s@ =~= old(s)@ + spec_pred_fns_text(ename@, fns@.take(i + 1)));
        }
    }
    proof {
        assert(fns@.take(n as int) =~= fns@);
    }
}

/// One forward arm of the wrapper iterator: store and yield the successor.
pub open spec fn spec_wrap_adj_arm_text(
    ename: Seq<char>,
    a: crate::fragment::AdjacencyArm,
) -> Seq<char> {
    "            &Some("@ + ename + "::"@ + a.from@ + ") => {\n                self.0 = Some("@
        + ename + "::"@ + a.to@ + ");\n                "@ + ename + "::"@ + a.to@
        + "\n            },\n"@
}

/// The adjacency arms of the wrapper iterator, in order.
pub open spec fn spec_wrap_adj_arms_text(
    ename: Seq<char>,
    arms: Seq<crate::fragment::AdjacencyArm>,
) -> Seq<char>
    decreases arms.len(),
{
    if arms.len() == 0 {
        Seq::empty()
    } else {
        spec_wrap_adj_arms_text(ename, arms.drop_last()) + spec_wrap_adj_arm_text(
            ename,
            arms.last(),
        )
    }
}

/// Appends the adjacency arms of the wrapper iterator.
#[verifier::rlimit(50)]
fn push_wrap_adj_arms(s: &mut String, ename: &String, arms: &Vec<crate::fragment::AdjacencyArm>)
    ensures
        final(s)@ == old(s)@ + spec_wrap_adj_arms_text(ename@, arms@),
{
    let n = arms.len();
    proof {
        assert(arms@.take(0) =~= Seq::<crate::fragment::AdjacencyArm>::empty());
    }
    for i in 0..n
        invariant
            n == arms@.len(),
            s@ == old(s)@ + spec_wrap_adj_arms_text(ename@, arms@.take(i as int)),
    {
        s.append("            &Some(");
        s.append(ename.as_str());
        s.append("::");
        s.append(arms[i].from.as_str());
        s.append(") => {\n                self.0 = Some(");
        s.append(ename.as_str());
        s.append("::");
        s.append(arms[i].to.as_str());
        s.append(");\n                ");
        s.append(ename.as_str());
        s.append("::");
        s.append(arms[i].to.as_str());
        s.append("\n            },\n");
        proof {
            assert(arms@.take(i + 1).drop_last() =~= arms@.take(i as int));
            assert(arms@.take(i + 1).last() == arms@[i as int]);
            assert(s@ =~= old(s)@ + spec_wrap_adj_arms_text(ename@, arms@.take(i + 1)));
        }
    }
    proof {
        assert(arms@.take(n as int) =~= arms@);
    }
}

/// One forward arm of the self-mutating iteration: assign and yield the
/// successor.
pub open spec fn spec_selfmut_adj_arm_text(
    ename: Seq<char>,
    a: crate::fragment::AdjacencyArm,
) -> Seq<char> {
    "            &mut "@ + ename + "::"@ + a.from@ + " => {\n                *self = "@ + ename
        + "::"@ + a.to@ + ";\n                "@ + ename + "::"@ + a.to@ + "\n            },\n"@
}

/// The adjacency arms of the self-mutating iteration, in order.
pub open spec fn spec_selfmut_adj_arms_text(
    ename: Seq<char>,
    arms: Seq<crate::fragment::AdjacencyArm>,
) -> Seq<char>
    decreases arms.len(),
{
    if arms.len() == 0 {
        Seq::empty()
    } else {
        spec_selfmut_adj_arms_text(ename, arms.drop_last()) + spec_selfmut_adj_arm_text(
            ename,
            arms.last(),
        )
    }
}

/// Appends the adjacency arms of the self-mutating iteration.
#[verifier::rlimit(50)]
fn push_selfmut_adj_arms(
    s: &mut String,
    ename: &String,
    arms: &Vec<crate::fragment::AdjacencyArm>,
)
    ensures
        final(s)@ == old(s)@ + spec_selfmut_adj_arms_text(ename@, arms@),
{
    let n = arms.len();
    proof {
        assert(arms@.take(0) =~= Seq::<crate::fragment::AdjacencyArm>::empty());
    }
    for i in 0..n
        invariant
            n == arms@.len(),
            s@ == old(s)@ + spec_selfmut_adj_arms_text(ename@, arms@.take(i as int)),
    {
        s.append("            &mut ");
        s.append(ename.as_str());
        s.append("::");
        s.append(arms[i].from.as_str());
        s.append(" => {\n                *self = ");
        s.append(ename.as_str());
        s.append("::");
        s.append(arms[i].to.as_str());
        s.append(";\n                ");
        s.append(ename.as_str());
        s.append("::");
        s.append(arms[i].to.as_str());
        s.append("\n            },\n");
        proof {
            assert(arms@.take(i + 1).drop_last() =~= arms@.take(i as int));
            assert(arms@.take(i + 1).last() == arms@[i as int]);
            assert(s@ =~= old(s)@ + spec_selfmut_adj_arms_text(ename@, arms@.take(i + 1)));
        }
    }
    proof {
        assert(arms@.take(n as int) =~= arms@);
    }
}

/// The variant-count implementation.
pub open spec fn spec_render_len(d: EnumDecl, len: nat) -> Seq<char> {
    spec_impl_header(d, "::enum_traits::Len"@, d.name@) + "    const LEN: usize = "@ + spec_dec(
        len,
    ) + ";\n}\n"@
}

/// Renders the variant-count implementation.
pub fn render_len(d: &EnumDecl, f: &crate::fragment::LenFragment) -> (r: String)
    ensures
        r@ == spec_render_len(*d, f.len as nat),
{
    let mut s = String::new();
    push_impl_header(&mut s, d, "::enum_traits::Len", d.name.as_str());
    s.append("    const LEN: usize = ");
    push_dec(&mut s, f.len as u64);
    s.append(";\n}\n");
    proof {
        assert(s@ =~= spec_render_len(*d, f.len as nat));
    }
    s
}

/// The first/last constructors implementation.
pub open spec fn spec_render_ends(d: EnumDecl, first: Seq<char>, last: Seq<char>) -> Seq<char> {
    spec_impl_header(d, "::enum_traits::Ends"@, d.name@) + "    fn first() -> Self {\n        "@
        + d.name@ + "::"@ + first + "\n    }\n\n    fn last() -> Self {\n        "@ + d.name@
        + "::"@ + last + "\n    }\n}\n"@
}

/// Renders the first/last constructors implementation.
pub fn render_ends(d: &EnumDecl, f: &crate::fragment::EndsFragment) -> (r: String)
    ensures
        r@ == spec_render_ends(*d, f.first@, f.last@),
{
    let mut s = String::new();
    push_impl_header(&mut s, d, "::enum_traits::Ends", d.name.as_str());
    s.append("    fn first() -> Self {\n        ");
    s.append(d.name.as_str());
    s.append("::");
    s.append(f.first.as_str());
    s.append("\n    }\n\n    fn last() -> Self {\n        ");
    s.append(d.name.as_str());
    s.append("::");
    s.append(f.last.as_str());
    s.append("\n    }\n}\n");
    proof {
        assert(s@ =~= spec_render_ends(*d, f.first@, f.last@));
    }
    s
}

/// The index type assignment implementation.
pub open spec fn spec_render_index(d: EnumDecl, ty: Seq<char>) -> Seq<char> {
    spec_impl_header(d, "::enum_traits::Index"@, d.name@) + "    type Type = "@ + ty + ";\n}\n"@
}

/// Renders the index type assignment implementation.
pub fn render_index(d: &EnumDecl, f: &crate::fragment::IndexFragment) -> (r: String)
    ensures
        r@ == spec_render_index(*d, f.ty@),
{
    let mut s = String::new();
    push_impl_header(&mut s, d, "::enum_traits::Index", d.name.as_str());
    s.append("    type Type = ");
    s.append(f.ty.as_str());
    s.append(";\n}\n");
    proof {
        assert(s@ =~= spec_render_index(*d, f.ty@));
    }
    s
}

/// The variant-to-index implementation.
pub open spec fn spec_render_to_index(d: EnumDecl, arms: Seq<crate::fragment::IndexArm>) -> Seq<
    char,
> {
    spec_impl_header(d, "::enum_traits::ToIndex"@, d.name@)
        + "    fn into_index(self) -> <Self as Index>::Type {\n        match self {\n"@
        + spec_index_arms_text(d.name@, arms, false, "            "@)
        + "        }\n    }\n\n    fn index(&self) -> <Self as Index>::Type {\n        match self {\n"@
        + spec_index_arms_text(d.name@, arms, true, "            "@) + "        }\n    }\n}\n"@
}

/// Renders the variant-to-index implementation.
pub fn render_to_index(d: &EnumDecl, f: &crate::fragment::ToIndexFragment) -> (r: String)
    ensures
        r@ == spec_render_to_index(*d, f.arms@),
{
    let mut s = String::new();
    push_impl_header(&mut s, d, "::enum_traits::ToIndex", d.name.as_str());
    s.append("    fn into_index(self) -> <Self as Index>::Type {\n        match self {\n");
    push_index_arms(&mut s, &d.name, &f.arms, false, "            ");
    s.append("        }\n    }\n\n    fn index(&self) -> <Self as Index>::Type {\n        match self {\n");
    push_index_arms(&mut s, &d.name, &f.arms, true, "            ");
    s.append("        }\n    }\n}\n");
    proof {
        assert(s@ =~= spec_render_to_index(*d, f.arms@));
    }
    s
}

/// The index-to-variant implementation.
pub open spec fn spec_render_from_index(
    d: EnumDecl,
    arms: Seq<crate::fragment::FromIndexArm>,
) -> Seq<char> {
    spec_impl_header(d, "::enum_traits::FromIndex"@, d.name@)
        + "    fn from_index(index: <Self as Index>::Type) -> Option<Self> {\n        Some(match index {\n"@
        + spec_from_index_arms_text(d.name@, arms)
        + "            _ => return None,\n        })\n    }\n}\n"@
}

/// Renders the index-to-variant implementation.
pub fn render_from_index(d: &EnumDecl, f: &crate::fragment::FromIndexFragment) -> (r: String)
    ensures
        r@ == spec_render_from_index(*d, f.arms@),
{
    let mut s = String::new();
    push_impl_header(&mut s, d, "::enum_traits::FromIndex", d.name.as_str());
    s.append(
        "    fn from_index(index: <Self as Index>::Type) -> Option<Self> {\n        Some(match index {\n",
    );
    push_from_index_arms(&mut s, &d.name, &f.arms);
    s.append("            _ => return None,\n        })\n    }\n}\n");
    proof {
        assert(s@ =~= spec_render_from_index(*d, f.arms@));
    }
    s
}

/// The discriminant implementation.
pub open spec fn spec_render_discriminant(
    d: EnumDecl,
    ty: Seq<char>,
    arms: Seq<crate::fragment::DiscriminantArm>,
) -> Seq<char> {
    spec_impl_header(d, "::enum_traits::Discriminant"@, d.name@) + "    type Type = "@ + ty
        + ";\n\n    fn from_discriminant(discriminant: <Self as Discriminant>::Type) -> Option<Self> {\n        Some(match discriminant {\n"@
        + spec_disc_arms_text(d.name@, arms)
        + "            _ => return None,\n        })\n    }\n}\n"@
}

/// Renders the discriminant implementation.
pub fn render_discriminant(d: &EnumDecl, f: &crate::fragment::DiscriminantFragment) -> (r: String)
    ensures
        r@ == spec_render_discriminant(*d, f.ty@, f.arms@),
{
    let mut s = String::new();
    push_impl_header(&mut s, d, "::enum_traits::Discriminant", d.name.as_str());
    s.append("    type Type = ");
    s.append(f.ty.as_str());
    s.append(
        ";\n\n    fn from_discriminant(discriminant: <Self as Discriminant>::Type) -> Option<Self> {\n        Some(match discriminant {\n",
    );
    push_disc_arms(&mut s, &d.name, &f.arms);
    s.append("            _ => return None,\n        })\n    }\n}\n");
    proof {
        assert(s@ =~= spec_render_discriminant(*d, f.ty@, f.arms@));
    }
    s
}

/// The variant-name implementation.
pub open spec fn spec_render_variant_name(
    d: EnumDecl,
    arms: Seq<crate::fragment::NameArm>,
) -> Seq<char> {
    spec_impl_header(d, "::enum_traits::VariantName"@, d.name@)
        + "    fn variant_name(&self) -> &'static str {\n        match self {\n"@
        + spec_name_arms_text(d.name@, arms) + "        }\n    }\n}\n"@
}

/// Renders the variant-name implementation.
pub fn render_variant_name(d: &EnumDecl, f: &crate::fragment::VariantNameFragment) -> (r: String)
    ensures
        r@ == spec_render_variant_name(*d, f.arms@),
{
    let mut s = String::new();
    push_impl_header(&mut s, d, "::enum_traits::VariantName", d.name.as_str());
    s.append("    fn variant_name(&self) -> &'static str {\n        match self {\n");
    push_name_arms(&mut s, &d.name, &f.arms);
    s.append("        }\n    }\n}\n");
    proof {
        assert(s@ =~= spec_render_variant_name(*d, f.arms@));
    }
    s
}

/// The name-to-variant implementation, as the standard parse trait.
pub open spec fn spec_render_from_variant_name(
    d: EnumDecl,
    arms: Seq<crate::fragment::FromNameArm>,
) -> Seq<char> {
    spec_impl_header(d, "::std::str::FromStr"@, d.name@)
        + "    type Err = ();\n\n    fn from_str(s: &str) -> Result<Self, Self::Err> {\n        Ok(match s {\n"@
        + spec_from_name_arms_text(d.name@, arms)
        + "            _ => return Err(()),\n        })\n    }\n}\n"@
}

/// Renders the name-to-variant implementation.
pub fn render_from_variant_name(
    d: &EnumDecl,
    f: &crate::fragment::FromVariantNameFragment,
) -> (r: String)
    ensures
        r@ == spec_render_from_variant_name(*d, f.arms@),
{
    let mut s = String::new();
    push_impl_header(&mut s, d, "::std::str::FromStr", d.name.as_str());
    s.append(
        "    type Err = ();\n\n    fn from_str(s: &str) -> Result<Self, Self::Err> {\n        Ok(match s {\n",
    );
    push_from_name_arms(&mut s, &d.name, &f.arms);
    s.append("            _ => return Err(()),\n        })\n    }\n}\n");
    proof {
        assert(s@ =~= spec_render_from_variant_name(*d, f.arms@));
    }
    s
}

/// The bit-pattern implementation.
pub open spec fn spec_render_bit_pattern(
    d: EnumDecl,
    n_bytes: nat,
    arms: Seq<crate::fragment::BitPatternArm>,
    rev_arms: Seq<crate::fragment::BitPatternArm>,
) -> Seq<char> {
    spec_impl_header(d, "::enum_traits::BitPattern"@, d.name@) + "    type ByteArray = [u8; "@
        + spec_dec(n_bytes)
        + "];\n\n    fn bit_pattern(self) -> Self::ByteArray {\n        match self {\n"@
        + spec_bp_arms_text(d.name@, arms)
        + "        }\n    }\n\n    fn bit_pattern_rev(self) -> Self::ByteArray {\n        match self {\n"@
        + spec_bp_arms_text(d.name@, rev_arms) + "        }\n    }\n}\n"@
}

/// Renders the bit-pattern implementation.
pub fn render_bit_pattern(d: &EnumDecl, f: &crate::fragment::BitPatternFragment) -> (r: String)
    ensures
        r@ == spec_render_bit_pattern(*d, f.n_bytes as nat, f.arms@, f.rev_arms@),
{
    let mut s = String::new();
    push_impl_header(&mut s, d, "::enum_traits::BitPattern", d.name.as_str());
    s.append("    type ByteArray = [u8; ");
    push_dec(&mut s, f.n_bytes as u64);
    s.append("];\n\n    fn bit_pattern(self) -> Self::ByteArray {\n        match self {\n");
    push_bp_arms(&mut s, &d.name, &f.arms);
    s.append("        }\n    }\n\n    fn bit_pattern_rev(self) -> Self::ByteArray {\n        match self {\n");
    push_bp_arms(&mut s, &d.name, &f.rev_arms);
    s.append("        }\n    }\n}\n");
    proof {
        assert(s@ =~= spec_render_bit_pattern(*d, f.n_bytes as nat, f.arms@, f.rev_arms@));
    }
    s
}

/// The companion tag enum and its accessor implementation.
pub open spec fn spec_render_tag(
    d: EnumDecl,
    tag_name: Seq<char>,
    variants: Seq<String>,
    arms: Seq<crate::fragment::TagArm>,
) -> Seq<char> {
    "#[derive(Copy, Clone, Debug, PartialEq, Eq, Hash)]\n"@ + spec_vis(d) + "enum "@
        + tag_name + " {\n"@ + spec_variant_lines_text(variants) + "}\n\n"@
        + spec_impl_header(d, "::enum_traits::Tag"@, d.name@) + "    type Enum = "@
        + tag_name + ";\n\n    fn tag(&self) -> Self::Enum {\n        match self {\n"@
        + spec_tag_arms_text(d.name@, tag_name, arms) + "        }\n    }\n}\n"@
}

/// Renders the companion tag enum and its accessor implementation.
pub fn render_tag(d: &EnumDecl, f: &crate::fragment::TagFragment) -> (r: String)
    ensures
        r@ == spec_render_tag(*d, f.tag_enum_name@, f.variants@, f.arms@),
{
    let mut s = String::new();
    s.append("#[derive(Copy, Clone, Debug, PartialEq, Eq, Hash)]\n");
    if !d.vis.as_str().is_empty() {
        s.append(d.vis.as_str());
        s.append(" ");
    }
    s.append("enum ");
    s.append(f.tag_enum_name.as_str());
    s.append(" {\n");
    push_variant_lines(&mut s, &f.variants);
    s.append("}\n\n");
    push_impl_header(&mut s, d, "::enum_traits::Tag", d.name.as_str());
    s.append("    type Enum = ");
    s.append(f.tag_enum_name.as_str());
    s.append(";\n\n    fn tag(&self) -> Self::Enum {\n        match self {\n");
    push_tag_arms(&mut s, &d.name, &f.tag_enum_name, &f.arms);
    s.append("        }\n    }\n}\n");
    proof {
        assert(s@ =~= spec_render_tag(*d, f.tag_enum_name@, f.variants@, f.arms@));
    }
    s
}

/// The opening of the inherent implementation holding the predicates.
pub open spec fn spec_inherent_header(d: EnumDecl) -> Seq<char> {
    "impl"@ + spec_impl_generics(d) + " "@ + d.name@ + spec_ty_generics(d) + spec_where(d)
        + " {\n"@
}

/// The predicate methods implementation.
pub open spec fn spec_render_is_variant_fns(
    d: EnumDecl,
    fns: Seq<crate::fragment::PredicateFn>,
) -> Seq<char> {
    spec_inherent_header(d) + spec_pred_fns_text(d.name@, fns) + "}\n"@
}

/// Renders the predicate methods implementation.
pub fn render_is_variant_fns(d: &EnumDecl, f: &crate::fragment::IsVariantFragment) -> (r: String)
    ensures
        r@ == spec_render_is_variant_fns(*d, f.fns@),
{
    let mut s = String::new();
    s.append("impl");
    push_impl_generics(&mut s, d);
    s.append(" ");
    s.append(d.name.as_str());
    push_ty_generics(&mut s, d);
    if !d.where_clause.as_str().is_empty() {
        s.append(" ");
        s.append(d.where_clause.as_str());
    }
    s.append(" {\n");
    push_pred_fns(&mut s, &d.name, &f.fns);
    s.append("}\n");
    proof {
        assert(s@ =~= spec_render_is_variant_fns(*d, f.fns@));
    }
    s
}

/// The auxiliary iterator struct declaration.
pub open spec fn spec_iter_struct_text(d: EnumDecl, struct_name: Seq<char>) -> Seq<char> {
    spec_vis(d) + "struct "@ + struct_name + spec_ty_generics(d) + spec_where(d)
        + "(pub Option<"@ + d.name@ + spec_ty_generics(d) + ">);\n\n"@
}

/// The iterable implementation handing out a fresh iterator.
pub open spec fn spec_iter_iterable_text(d: EnumDecl, struct_name: Seq<char>) -> Seq<char> {
    spec_impl_header(d, "::enum_traits::Iterable"@, d.name@) + "    type Iter = "@
        + struct_name + ";\n\n    fn variants() -> Self::Iter {\n        "@ + struct_name
        + "(None)\n    }\n}\n\n"@
}

/// The default implementation of the iterator struct.
pub open spec fn spec_iter_default_text(d: EnumDecl, struct_name: Seq<char>) -> Seq<char> {
    spec_impl_header(d, "::std::default::Default"@, struct_name)
        + "    fn default() -> Self {\n        "@ + struct_name + "(None)\n    }\n}\n\n"@
}

/// The forward iterator implementation of the wrapper.
pub open spec fn spec_iter_iterator_text(
    d: EnumDecl,
    struct_name: Seq<char>,
    first: Seq<char>,
    last: Seq<char>,
    len: nat,
    next_arms: Seq<crate::fragment::AdjacencyArm>,
    position_arms: Seq<crate::fragment::IndexArm>,
) -> Seq<char> {
    spec_impl_header(d, "::std::iter::Iterator"@, struct_name) + "    type Item = "@ + d.name@
        + spec_ty_generics(d)
        + ";\n\n    fn next(&mut self) -> Option<Self::Item> {\n        Some(match &self.0 {\n            &None => {\n                self.0 = Some("@
        + d.name@ + "::"@ + first + ");\n                "@ + d.name@ + "::"@ + first
        + "\n            },\n"@ + spec_wrap_adj_arms_text(d.name@, next_arms)
        + "            _ => return None,\n        })\n    }\n\n    fn size_hint(&self) -> (usize, Option<usize>) {\n        (self.len(), Some(self.len()))\n    }\n\n    fn count(self) -> usize {\n        self.0.map_or("@
        + spec_dec(len) + ", |variant| {\n            "@ + spec_dec(len)
        + " - 1 - match variant {\n"@ + spec_index_arms_text(
        d.name@,
        position_arms,
        false,
        "                "@,
    ) + "            }\n        })\n    }\n\n    fn last(self) -> Option<Self::Item> {\n        Some("@
        + d.name@ + "::"@ + last + ")\n    }\n}\n\n"@
}

/// The backward traversal implementation of the wrapper.
pub open spec fn spec_iter_back_text(
    d: EnumDecl,
    struct_name: Seq<char>,
    last: Seq<char>,
    prev_arms: Seq<crate::fragment::AdjacencyArm>,
) -> Seq<char> {
    spec_impl_header(d, "::std::iter::DoubleEndedIterator"@, struct_name)
        + "    fn next_back(&mut self) -> Option<Self::Item> {\n        Some(match &self.0 {\n            &None => {\n                self.0 = Some("@
        + d.name@ + "::"@ + last + ");\n                "@ + d.name@ + "::"@ + last
        + "\n            },\n"@ + spec_wrap_adj_arms_text(d.name@, prev_arms)
        + "            _ => return None,\n        })\n    }\n}\n\n"@
}

/// The exact-length implementation of the wrapper.
pub open spec fn spec_iter_exact_text(
    d: EnumDecl,
    struct_name: Seq<char>,
    len: nat,
    position_arms: Seq<crate::fragment::IndexArm>,
) -> Seq<char> {
    spec_impl_header(d, "::std::iter::ExactSizeIterator"@, struct_name)
        + "    fn len(&self) -> usize {\n        self.0.as_ref().map_or("@ + spec_dec(
        len,
    ) + ", |variant| {\n            "@ + spec_dec(len) + " - 1 - match variant {\n"@
        + spec_index_arms_text(d.name@, position_arms, true, "                "@)
        + "            }\n        })\n    }\n}\n"@
}

/// Everything the wrapper-iterator derivation adds to the compilation unit.
pub open spec fn spec_render_iter(
    d: EnumDecl,
    struct_name: Seq<char>,
    first: Seq<char>,
    last: Seq<char>,
    len: nat,
    next_arms: Seq<crate::fragment::AdjacencyArm>,
    prev_arms: Seq<crate::fragment::AdjacencyArm>,
    position_arms: Seq<crate::fragment::IndexArm>,
) -> Seq<char> {
    spec_iter_struct_text(d, struct_name) + spec_iter_iterable_text(d, struct_name)
        + spec_iter_default_text(d, struct_name) + spec_iter_iterator_text(
        d,
        struct_name,
        first,
        last,
        len,
        next_arms,
        position_arms,
    ) + spec_iter_back_text(d, struct_name, last, prev_arms) + spec_iter_exact_text(
        d,
        struct_name,
        len,
        position_arms,
    )
}

/// Appends the auxiliary iterator struct declaration.
#[verifier::rlimit(100)]
fn push_iter_struct(s: &mut String, d: &EnumDecl, f: &crate::fragment::IterFragment)
    ensures
        final(s)@ == old(s)@ + spec_iter_struct_text(*d, f.struct_name@),
{
    if !d.vis.as_str().is_empty() {
        s.append(d.vis.as_str());
        s.append(" ");
    }
    s.append("struct ");
    s.append(f.struct_name.as_str());
    push_ty_generics(s, d);
    if !d.where_clause.as_str().is_empty() {
        s.append(" ");
        s.append(d.where_clause.as_str());
    }
    s.append("(pub Option<");
    s.append(d.name.as_str());
    push_ty_generics(s, d);
    s.append(">);\n\n");
    proof {
        assert(final(s)@ =~= old(s)@ + spec_iter_struct_text(*d, f.struct_name@));
    }
}

/// Appends the forward iterator implementation of the wrapper.
#[verifier::rlimit(100)]
fn push_iter_iterator(s: &mut String, d: &EnumDecl, f: &crate::fragment::IterFragment)
    ensures
        final(s)@ == old(s)@ + spec_iter_iterator_text(
            *d,
            f.struct_name@,
            f.first@,
            f.last@,
            f.len as nat,
            f.next_arms@,
            f.position_arms@,
        ),
{
    push_impl_header(s, d, "::std::iter::Iterator", f.struct_name.as_str());
    s.append("    type Item = ");
    s.append(d.name.as_str());
    push_ty_generics(s, d);
    s.append(
        ";\n\n    fn next(&mut self) -> Option<Self::Item> {\n        Some(match &self.0 {\n            &None => {\n                self.0 = Some(",
    );
    s.append(d.name.as_str());
    s.append("::");
    s.append(f.first.as_str());
    s.append(");\n                ");
    s.append(d.name.as_str());
    s.append("::");
    s.append(f.first.as_str());
    s.append("\n            },\n");
    push_wrap_adj_arms(s, &d.name, &f.next_arms);
    s.append(
        "            _ => return None,\n        })\n    }\n\n    fn size_hint(&self) -> (usize, Option<usize>) {\n        (self.len(), Some(self.len()))\n    }\n\n    fn count(self) -> usize {\n        self.0.map_or(",
    );
    push_dec(s, f.len as u64);
    s.append(", |variant| {\n            ");
    push_dec(s, f.len as u64);
    s.append(" - 1 - match variant {\n");
    push_index_arms(s, &d.name, &f.position_arms, false, "                ");
    s.append(
        "            }\n        })\n    }\n\n    fn last(self) -> Option<Self::Item> {\n        Some(",
    );
    s.append(d.name.as_str());
    s.append("::");
    s.append(f.last.as_str());
    s.append(")\n    }\n}\n\n");
    proof {
        assert(final(s)@ =~= old(s)@ + spec_iter_iterator_text(
            *d,
            f.struct_name@,
            f.first@,
            f.last@,
            f.len as nat,
            f.next_arms@,
            f.position_arms@,
        ));
    }
}

/// Appends the backward traversal implementation of the wrapper.
#[verifier::rlimit(100)]
fn push_iter_back(s: &mut String, d: &EnumDecl, f: &crate::fragment::IterFragment)
    ensures
        final(s)@ == old(s)@ + spec_iter_back_text(*d, f.struct_name@, f.last@, f.prev_arms@),
{
    push_impl_header(s, d, "::std::iter::DoubleEndedIterator", f.struct_name.as_str());
    s.append(
        "    fn next_back(&mut self) -> Option<Self::Item> {\n        Some(match &self.0 {\n            &None => {\n                self.0 = Some(",
    );
    s.append(d.name.as_str());
    s.append("::");
    s.append(f.last.as_str());
    s.append(");\n                ");
    s.append(d.name.as_str());
    s.append("::");
    s.append(f.last.as_str());
    s.append("\n            },\n");
    push_wrap_adj_arms(s, &d.name, &f.prev_arms);
    s.append("            _ => return None,\n        })\n    }\n}\n\n");
    proof {
        assert(final(s)@ =~= old(s)@ + spec_iter_back_text(*d, f.struct_name@, f.last@, f.prev_arms@));
    }
}

/// Appends the exact-length implementation of the wrapper.
#[verifier::rlimit(100)]
fn push_iter_exact(s: &mut String, d: &EnumDecl, f: &crate::fragment::IterFragment)
    ensures
        final(s)@ == old(s)@ + spec_iter_exact_text(*d, f.struct_name@, f.len as nat, f.position_arms@),
{
    push_impl_header(s, d, "::std::iter::ExactSizeIterator", f.struct_name.as_str());
    s.append("    fn len(&self) -> usize {\n        self.0.as_ref().map_or(");
    push_dec(s, f.len as u64);
    s.append(", |variant| {\n            ");
    push_dec(s, f.len as u64);
    s.append(" - 1 - match variant {\n");
    push_index_arms(s, &d.name, &f.position_arms, true, "                ");
    s.append("            }\n        })\n    }\n}\n");
    proof {
        assert(final(s)@ =~= old(s)@ + spec_iter_exact_text(*d, f.struct_name@, f.len as nat, f.position_arms@));
    }
}

/// Renders everything the wrapper-iterator derivation adds: the struct, the
/// iterable hook, a default, the forward and backward traversals and the
/// exact length.
pub fn render_iter(d: &EnumDecl, f: &crate::fragment::IterFragment) -> (r: String)
    ensures
        r@ == spec_render_iter(
            *d,
            f.struct_name@,
            f.first@,
            f.last@,
            f.len as nat,
            f.next_arms@,
            f.prev_arms@,
            f.position_arms@,
        ),
{
    let mut s = String::new();
    push_iter_struct(&mut s, d, f);
    push_impl_header(&mut s, d, "::enum_traits::Iterable", d.name.as_str());
    s.append("    type Iter = ");
    s.append(f.struct_name.as_str());
    s.append(";\n\n    fn variants() -> Self::Iter {\n        ");
    s.append(f.struct_name.as_str());
    s.append("(None)\n    }\n}\n\n");
    push_impl_header(&mut s, d, "::std::default::Default", f.struct_name.as_str());
    s.append("    fn default() -> Self {\n        ");
    s.append(f.struct_name.as_str());
    s.append("(None)\n    }\n}\n\n");
    proof {
        assert(s@ =~= spec_iter_struct_text(*d, f.struct_name@) + spec_iter_iterable_text(
            *d,
            f.struct_name@,
        ) + spec_iter_default_text(*d, f.struct_name@));
    }
    push_iter_iterator(&mut s, d, f);
    push_iter_back(&mut s, d, f);
    push_iter_exact(&mut s, d, f);
    proof {
        assert(s@ =~= spec_render_iter(
            *d,
            f.struct_name@,
            f.first@,
            f.last@,
            f.len as nat,
            f.next_arms@,
            f.prev_arms@,
            f.position_arms@,
        ));
    }
    s
}

/// The yield of the generated terminal method: the last variant, or nothing
/// for an empty enum.
pub open spec fn spec_iterator_last_text(d: EnumDecl, last: Option<String>) -> Seq<char> {
    match last {
        Some(v) => "Some("@ + d.name@ + "::"@ + v@ + ")"@,
        None => "None"@,
    }
}

/// The self-mutating iterator implementation.
pub open spec fn spec_iterator_impl_text(
    d: EnumDecl,
    len: nat,
    last: Option<String>,
    next_arms: Seq<crate::fragment::AdjacencyArm>,
    position_arms: Seq<crate::fragment::IndexArm>,
) -> Seq<char> {
    spec_impl_header(d, "::std::iter::Iterator"@, d.name@)
        + "    type Item = Self;\n\n    fn next(&mut self) -> Option<Self::Item> {\n        Some(match self {\n"@
        + spec_selfmut_adj_arms_text(d.name@, next_arms)
        + "            _ => return None,\n        })\n    }\n\n    fn count(self) -> usize {\n        "@
        + spec_dec(len) + " - 1 - match self {\n"@ + spec_index_arms_text(
        d.name@,
        position_arms,
        false,
        "            "@,
    )
        + "        }\n    }\n\n    fn size_hint(&self) -> (usize, Option<usize>) {\n        (self.len(), Some(self.len()))\n    }\n\n    fn last(self) -> Option<Self::Item> {\n        "@
        + spec_iterator_last_text(d, last) + "\n    }\n}\n\n"@
}

/// The exact-length implementation of the self-mutating iteration.
pub open spec fn spec_iterator_exact_text(
    d: EnumDecl,
    len: nat,
    position_arms: Seq<crate::fragment::IndexArm>,
) -> Seq<char> {
    spec_impl_header(d, "::std::iter::ExactSizeIterator"@, d.name@)
        + "    fn len(&self) -> usize {\n        "@ + spec_dec(len)
        + " - 1 - match self {\n"@ + spec_index_arms_text(
        d.name@,
        position_arms,
        true,
        "            "@,
    ) + "        }\n    }\n}\n"@
}

/// Everything the self-mutating iteration derivation adds.
pub open spec fn spec_render_iterator(
    d: EnumDecl,
    len: nat,
    last: Option<String>,
    next_arms: Seq<crate::fragment::AdjacencyArm>,
    position_arms: Seq<crate::fragment::IndexArm>,
) -> Seq<char> {
    spec_iterator_impl_text(d, len, last, next_arms, position_arms) + spec_iterator_exact_text(
        d,
        len,
        position_arms,
    )
}

/// Appends the self-mutating iterator implementation.
#[verifier::rlimit(100)]
fn push_iterator_impl(s: &mut String, d: &EnumDecl, f: &crate::fragment::IteratorFragment)
    ensures
        final(s)@ == old(s)@ + spec_iterator_impl_text(
            *d,
            f.len as nat,
            f.last,
            f.next_arms@,
            f.position_arms@,
        ),
{
    push_impl_header(s, d, "::std::iter::Iterator", d.name.as_str());
    s.append(
        "    type Item = Self;\n\n    fn next(&mut self) -> Option<Self::Item> {\n        Some(match self {\n",
    );
    push_selfmut_adj_arms(s, &d.name, &f.next_arms);
    s.append(
        "            _ => return None,\n        })\n    }\n\n    fn count(self) -> usize {\n        ",
    );
    push_dec(s, f.len as u64);
    s.append(" - 1 - match self {\n");
    push_index_arms(s, &d.name, &f.position_arms, false, "            ");
    s.append(
        "        }\n    }\n\n    fn size_hint(&self) -> (usize, Option<usize>) {\n        (self.len(), Some(self.len()))\n    }\n\n    fn last(self) -> Option<Self::Item> {\n        ",
    );
    match &f.last {
        Some(v) => {
            s.append("Some(");
            s.append(d.name.as_str());
            s.append("::");
            s.append(v.as_str());
            s.append(")");
        },
        None => {
            s.append("None");
        },
    }
    s.append("\n    }\n}\n\n");
    proof {
        assert(final(s)@ =~= old(s)@ + spec_iterator_impl_text(
            *d,
            f.len as nat,
            f.last,
            f.next_arms@,
            f.position_arms@,
        ));
    }
}

/// Renders everything the self-mutating iteration derivation adds.
pub fn render_iterator(d: &EnumDecl, f: &crate::fragment::IteratorFragment) -> (r: String)
    ensures
        r@ == spec_render_iterator(*d, f.len as nat, f.last, f.next_arms@, f.position_arms@),
{
    let mut s = String::new();
    push_iterator_impl(&mut s, d, f);
    push_impl_header(&mut s, d, "::std::iter::ExactSizeIterator", d.name.as_str());
    s.append("    fn len(&self) -> usize {\n        ");
    push_dec(&mut s, f.len as u64);
    s.append(" - 1 - match self {\n");
    push_index_arms(&mut s, &d.name, &f.position_arms, true, "            ");
    s.append("        }\n    }\n}\n");
    proof {
        assert(s@ =~= spec_render_iterator(*d, f.len as nat, f.last, f.next_arms@, f.position_arms@));
    }
    s
}

} // verus!
