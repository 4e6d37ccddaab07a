//! Slugs: the short random identifiers under which records are stored.

use vstd::prelude::*;

verus! {

/// Number of characters in every slug.
pub const SLUG_LENGTH: usize = 21;

/// Membership in the 64-symbol URL-safe alphabet: `_`, `-`, digits and ASCII letters.
pub open spec fn is_slug_char(c: char) -> bool {
    c == '_' || c == '-' || ('0' <= c && c <= '9') || ('a' <= c && c <= 'z') || ('A' <= c && c
        <= 'Z')
}

/// A string of exactly `SLUG_LENGTH` characters, each from the URL-safe alphabet.
pub open spec fn is_slug(s: Seq<char>) -> bool {
    s.len() == SLUG_LENGTH && forall|i: int| 0 <= i < s.len() ==> is_slug_char(#[trigger] s[i])
}

/// Draws a fresh slug with `nanoid::format`, fed by `nanoid::rngs::default` and
/// the alphabet `nanoid::alphabet::SAFE`.
///
/// Trusted: `format` returns once it has pushed `SLUG_LENGTH` symbols, each taken
/// from the alphabet it was given, and `SAFE` holds exactly the characters of
/// `is_slug_char`. Which symbols come out is left open: they are random.
/// With 64 symbols no random byte is thrown away, so the first batch of
/// bytes is enough. The random source reads the system's entropy.
#[verifier::external_body]
pub(crate) fn random_slug() -> (slug: String)
    ensures
        is_slug(slug@),
{
    nanoid::format(nanoid::rngs::default, &nanoid::alphabet::SAFE, SLUG_LENGTH)
}

/// Whether `c` belongs to the URL-safe alphabet.
pub fn slug_char(c: char) -> (ok: bool)
    ensures
        ok == is_slug_char(c),
{
    c == '_' || c == '-' || ('0' <= c && c <= '9') || ('a' <= c && c <= 'z') || ('A' <= c && c
        <= 'Z')
}

/// Generates a slug. No input, no failure; two calls may differ.
pub fn generate() -> (slug: String)
    ensures
        is_slug(slug@),
{
    random_slug()
}

} // verus!
