//! What a client sends, and the checks made on it before any store command.

use vstd::prelude::*;
use crate::slug::{is_slug, is_slug_char, slug_char, SLUG_LENGTH};

verus! {

/// Upper bound, in bytes, on an owner secret.
pub const KEY_MAX_LENGTH: usize = 64;

/// Why an input was turned away.
#[derive(Clone, Copy, Debug, PartialEq, Eq)]
pub enum ValidationError {
    /// The slug does not have exactly `SLUG_LENGTH` characters.
    SlugLength,
    /// The slug has the right length, but a character outside the URL-safe alphabet.
    SlugAlphabet,
    /// The secret is longer than `KEY_MAX_LENGTH` bytes.
    KeyTooLong,
    /// The target is not a well-formed absolute URL.
    InvalidUrl,
}

/// The slug taken from a request path.
#[derive(Clone, Debug, PartialEq, Eq)]
pub struct SlugPath(pub String);

/// The secret presented in a request's query.
#[derive(Clone, Debug, PartialEq, Eq)]
pub struct KeyQuery {
    pub key: String,
}

/// The body of a create request: the owner's secret and the target URL.
#[derive(Clone, Debug, PartialEq, Eq)]
pub struct CreateURLBody {
    pub key: String,
    pub url: String,
}

/// The body of an update request: the secret that replaces the stored one.
#[derive(Clone, Debug, PartialEq, Eq)]
pub struct UpdateURLBody {
    pub key: String,
}

/// The verdict on a slug: its length is looked at first, then its characters.
pub open spec fn slug_verdict(slug: Seq<char>) -> Result<(), ValidationError> {
    if slug.len() != SLUG_LENGTH {
        Err(ValidationError::SlugLength)
    } else if !is_slug(slug) {
        Err(ValidationError::SlugAlphabet)
    } else {
        Ok(())
    }
}

/// A secret within the bound: at most `KEY_MAX_LENGTH` bytes of UTF-8.
pub open spec fn key_length_ok(key: Seq<char>) -> bool {
    vstd::utf8::encode_utf8(key).len() <= KEY_MAX_LENGTH
}

/// Whether `garde`'s URL rule accepts the text: whether it parses as an absolute URL.
pub uninterp spec fn url_parses(url: Seq<char>) -> bool;

/// Applies `garde::rules::url::apply` to the text.
///
/// Trusted: the rule's verdict depends on the text alone, so it is named
/// `url_parses`; nothing is claimed about which texts pass.
#[verifier::external_body]
pub(crate) fn url_rule_accepts(url: &str) -> (ok: bool)
    ensures
        ok == url_parses(url@),
{
    garde::rules::url::apply(&url, ()).is_ok()
}

/// Whether `key` is within the bound on secrets.
pub fn check_key(key: &str) -> (ok: bool)
    ensures
        ok == key_length_ok(key@),
{
    key.as_bytes().len() <= KEY_MAX_LENGTH
}

impl SlugPath {
    /// A well-formed slug.
    pub open spec fn is_valid(&self) -> bool {
        is_slug(self.0@)
    }

    /// Accepts the slug exactly when it has `SLUG_LENGTH` characters, all of
    /// them from the URL-safe alphabet.
    pub fn validate(&self) -> (r: Result<(), ValidationError>)
        ensures
            r == slug_verdict(self.0@),
            r.is_ok() == self.is_valid(),
    {
        let slug = self.0.as_str();
        if slug.unicode_len() != SLUG_LENGTH {
            return Err(ValidationError::SlugLength);
        }
        let mut i: usize = 0;
        while i < SLUG_LENGTH
            invariant
                i <= SLUG_LENGTH,
                slug@ == self.0@,
                slug@.len() == SLUG_LENGTH,
                forall|j: int| 0 <= j < i ==> is_slug_char(#[trigger] slug@[j]),
            decreases SLUG_LENGTH - i,
        {
            if !slug_char(slug.get_char(i)) {
                return Err(ValidationError::SlugAlphabet);
            }
            i += 1;
        }
        Ok(())
    }
}

impl KeyQuery {
    /// A secret within the bound; the empty secret is.
    pub open spec fn is_valid(&self) -> bool {
        key_length_ok(self.key@)
    }

    /// Accepts the secret exactly when it is within the bound.
    pub fn validate(&self) -> (r: Result<(), ValidationError>)
        ensures
            r == (if self.is_valid() {
                Ok::<(), ValidationError>(())
            } else {
                Err(ValidationError::KeyTooLong)
            }),
    {
        if check_key(self.key.as_str()) {
            Ok(())
        } else {
            Err(ValidationError::KeyTooLong)
        }
    }
}

impl UpdateURLBody {
    /// A secret within the bound; the empty secret is.
    pub open spec fn is_valid(&self) -> bool {
        key_length_ok(self.key@)
    }

    /// Accepts the new secret exactly when it is within the bound.
    pub fn validate(&self) -> (r: Result<(), ValidationError>)
        ensures
            r == (if self.is_valid() {
                Ok::<(), ValidationError>(())
            } else {
                Err(ValidationError::KeyTooLong)
            }),
    {
        if check_key(self.key.as_str()) {
            Ok(())
        } else {
            Err(ValidationError::KeyTooLong)
        }
    }
}

impl CreateURLBody {
    /// The verdict on a body whose URL the URL rule judged as `url_ok`: the
    /// secret's length is looked at first, then the URL.
    pub open spec fn verdict(&self, url_ok: bool) -> Result<(), ValidationError> {
        if !key_length_ok(self.key@) {
            Err(ValidationError::KeyTooLong)
        } else if !url_ok {
            Err(ValidationError::InvalidUrl)
        } else {
            Ok(())
        }
    }

    /// A secret within the bound and a URL that the URL rule accepts.
    pub open spec fn is_valid(&self) -> bool {
        key_length_ok(self.key@) && url_parses(self.url@)
    }

    /// Judges the body, given what the URL rule said of its URL.
    pub fn check(&self, url_ok: bool) -> (r: Result<(), ValidationError>)
        ensures
            r == self.verdict(url_ok),
    {
        if !check_key(self.key.as_str()) {
            Err(ValidationError::KeyTooLong)
        } else if !url_ok {
            Err(ValidationError::InvalidUrl)
        } else {
            Ok(())
        }
    }

    /// Accepts the body exactly when the secret is within the bound and the URL parses.
    pub fn validate(&self) -> (r: Result<(), ValidationError>)
        ensures
            r == self.verdict(url_parses(self.url@)),
            r.is_ok() == self.is_valid(),
    {
        let url_ok = url_rule_accepts(self.url.as_str());
        self.check(url_ok)
    }
}

} // verus!
