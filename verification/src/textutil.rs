//! Character-level text helpers used when synthesizing identifiers.

use vstd::prelude::*;

verus! {

/// An ASCII capital letter mapped to its lower-case form; every other
/// character kept as it is.
pub open spec fn spec_lower_char(c: char) -> char {
    if 65 <= c as u32 && c as u32 <= 90 {
        ((c as u32) + 32) as char
    } else {
        c
    }
}

/// The character sequence with every ASCII capital letter lowered.
pub open spec fn spec_lower(s: Seq<char>) -> Seq<char> {
    s.map_values(|c: char| spec_lower_char(c))
}

/// Relies on str::to_ascii_lowercase: ASCII capital letters are mapped to
/// their lower-case form, all other characters are returned unchanged, one
/// for one.
#[verifier::external_body]
pub fn ascii_lowercase(s: &str) -> (r: String)
    ensures
        r@ == spec_lower(s@),
{
    s.to_ascii_lowercase()
}

} // verus!
