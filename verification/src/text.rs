//! Shared text helpers: ASCII case folding, prefix matching, and the few
//! string primitives the library takes from std.

use vstd::prelude::*;

verus! {

/// A character's code, folded for case-insensitive comparison: ASCII
/// capitals map to their lower-case code, everything else to its own code.
pub open spec fn fold_char(c: char) -> u32 {
    if 65 <= c as u32 && c as u32 <= 90 {
        (c as u32 + 32) as u32
    } else {
        c as u32
    }
}

/// A whole name folded character by character.
pub open spec fn fold_name(s: Seq<char>) -> Seq<u32> {
    s.map_values(|c: char| fold_char(c))
}

/// Whether `p` is a prefix of `s`.
pub open spec fn is_prefix(p: Seq<char>, s: Seq<char>) -> bool {
    p.len() <= s.len() && s.subrange(0, p.len() as int) == p
}

/// The character sequence behind an optional string.
pub open spec fn deep_opt(o: Option<String>) -> Option<Seq<char>> {
    match o {
        Some(s) => Some(s@),
        None => None,
    }
}

/// The character sequences behind a sequence of strings.
pub open spec fn deep_strings(s: Seq<String>) -> Seq<Seq<char>> {
    s.map_values(|x: String| x@)
}

/// Relies on `str::eq_ignore_ascii_case`: two strings compare equal exactly
/// when their character sequences agree after ASCII case folding.
#[verifier::external_body]
pub(crate) fn names_equal_fold(a: &str, b: &str) -> (r: bool)
    ensures
        r == (fold_name(a@) == fold_name(b@)),
{
    a.eq_ignore_ascii_case(b)
}

/// Relies on `str`'s `PartialEq`: equality of the character sequences.
#[verifier::external_body]
pub(crate) fn str_eq(a: &str, b: &str) -> (r: bool)
    ensures
        r == (a@ == b@),
{
    a == b
}

/// Relies on `str::starts_with`: whether `b`'s characters are a prefix of
/// `a`'s.
#[verifier::external_body]
pub(crate) fn str_starts_with(a: &str, b: &str) -> (r: bool)
    ensures
        r == is_prefix(b@, a@),
{
    a.starts_with(b)
}

} // verus!
