//! Character-level facts about property names: ASCII case folding,
//! substring containment, and the small set of string operations of `str`
//! that the rule needs.
use vstd::prelude::*;

verus! {

/// The ASCII lower-case form of one character: `'A'..='Z'` become
/// `'a'..='z'`, every other character is left as it is.
pub open spec fn ascii_lower_char(c: char) -> char {
    if 'A' <= c && c <= 'Z' {
        ((c as u32) + 32) as char
    } else {
        c
    }
}

/// The ASCII lower-case form of a string, character by character.
pub open spec fn ascii_lowercase_of(s: Seq<char>) -> Seq<char> {
    s.map_values(|c: char| ascii_lower_char(c))
}

/// `pattern` occurs somewhere in `s` as a contiguous run of characters.
#[verifier::opaque]
pub open spec fn seq_contains(s: Seq<char>, pattern: Seq<char>) -> bool {
    exists|i: int|
        0 <= i && i + pattern.len() <= s.len() && #[trigger] s.subrange(i, i + pattern.len())
            == pattern
}

/// Equality of two string slices (`<str as PartialEq>::eq`): two strings are
/// equal exactly when they hold the same characters in the same order.
#[verifier::external_body]
pub(crate) fn str_eq(a: &str, b: &str) -> (r: bool)
    ensures
        r == (a@ == b@),
{
    a == b
}

/// `str::to_ascii_lowercase`: a copy of the string in which each ASCII upper-case
/// letter is replaced by its lower-case letter and every other character is kept.
#[verifier::external_body]
pub(crate) fn to_ascii_lowercase(s: &str) -> (r: String)
    ensures
        r@ == ascii_lowercase_of(s@),
{
    s.to_ascii_lowercase()
}

/// `str::contains` with a string pattern: true when the pattern occurs as a
/// contiguous sub-slice of the string.
#[verifier::external_body]
pub(crate) fn str_contains(s: &str, pattern: &str) -> (r: bool)
    ensures
        r == seq_contains(s@, pattern@),
{
    s.contains(pattern)
}

/// Folding ASCII case twice gives the same string as folding it once.
pub proof fn lemma_ascii_lowercase_idempotent(s: Seq<char>)
    ensures
        ascii_lowercase_of(ascii_lowercase_of(s)) == ascii_lowercase_of(s),
{
    assert forall|i: int| 0 <= i < s.len() implies #[trigger] ascii_lowercase_of(
        ascii_lowercase_of(s),
    )[i] == ascii_lowercase_of(s)[i] by {
        let c = s[i];
        if 'A' <= c && c <= 'Z' {
            assert((c as u32) + 32 <= 'z' as u32);
        }
    }
    assert(ascii_lowercase_of(ascii_lowercase_of(s)) =~= ascii_lowercase_of(s));
}

} // verus!
