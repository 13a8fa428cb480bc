//! URL handling, delegated to the `url` crate.
//!
//! The library keeps URLs as plain strings; the `url` crate parses and
//! resolves them. What parsing and resolution return is a function of the
//! input strings alone, so the results are given names that the contracts
//! of the callers speak of.

use vstd::prelude::*;

verus! {

/// The serialization of `s` parsed as an absolute URL, or `None` where `s`
/// is not one.
pub uninterp spec fn url_norm_of(s: Seq<char>) -> Option<Seq<char>>;

/// The serialization of the URL obtained by resolving the reference `rel`
/// against the base URL `base`, or `None` where `base` does not parse as an
/// absolute URL or the resolution fails.
pub uninterp spec fn url_join_of(base: Seq<char>, rel: Seq<char>) -> Option<Seq<char>>;

/// Relies on `url::Url::parse`: it either rejects the input or yields a URL
/// whose serialization depends on the input alone.
#[verifier::external_body]
pub(crate) fn norm_url(s: &str) -> (r: Option<String>)
    ensures
        r is Some <==> url_norm_of(s@) is Some,
        r matches Some(u) ==> u@ == url_norm_of(s@).unwrap(),
{
    match url::Url::parse(s) {
        Ok(u) => Some(String::from(u)),
        Err(_) => None,
    }
}

/// Relies on `url::Url::join` (after `url::Url::parse` on the base): the
/// resolved URL's serialization depends on the two input strings alone.
#[verifier::external_body]
pub(crate) fn join_url(base: &str, rel: &str) -> (r: Option<String>)
    ensures
        r is Some <==> url_join_of(base@, rel@) is Some,
        r matches Some(u) ==> u@ == url_join_of(base@, rel@).unwrap(),
{
    match url::Url::parse(base) {
        Ok(b) => match b.join(rel) {
            Ok(u) => Some(String::from(u)),
            Err(_) => None,
        },
        Err(_) => None,
    }
}

} // verus!
