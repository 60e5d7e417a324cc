//! URL normalization and relative-reference resolution.
//!
//! The url crate does the actual RFC 3986 work; its results are named by
//! uninterpreted functions, and the library's resolution policy — absolute
//! URIs pass through, relative ones are joined against the base, and a
//! missing base or a failed join leaves the candidate unchanged — is stated
//! and proved around those names.

use vstd::prelude::*;
use vstd::string::StrSliceExecFns;

verus! {

/// The normalized serialization of `s` as an absolute URL, when it parses.
pub uninterp spec fn url_norm_of(s: Seq<char>) -> Option<Seq<char>>;

/// The resolution of the reference `rel` against the absolute URL `base`,
/// when both steps succeed.
pub uninterp spec fn url_join_of(base: Seq<char>, rel: Seq<char>) -> Option<Seq<char>>;

/// Relies on url::Url::parse: whether a string parses, and its normalized
/// serialization, depend on the string alone.
#[verifier::external_body]
pub(crate) fn normalize_url(s: &str) -> (r: Option<String>)
    ensures
        (r is Some) == (url_norm_of(s@) is Some),
        r is Some ==> url_norm_of(s@) == Some(r.unwrap()@),
{
    match url::Url::parse(s) {
        Ok(u) => Some(u.as_str().to_string()),
        Err(_) => None,
    }
}

/// Relies on url::Url::parse and url::Url::join: resolving a reference
/// against a base URL depends on the two strings alone.
#[verifier::external_body]
pub(crate) fn join_url(base: &str, rel: &str) -> (r: Option<String>)
    ensures
        (r is Some) == (url_join_of(base@, rel@) is Some),
        r is Some ==> url_join_of(base@, rel@) == Some(r.unwrap()@),
{
    match url::Url::parse(base) {
        Ok(u) => match u.join(rel) {
            Ok(j) => Some(j.as_str().to_string()),
            Err(_) => None,
        },
        Err(_) => None,
    }
}

/// Whether `s` begins with "http" (which also admits "https").
pub open spec fn spec_starts_with_http(s: Seq<char>) -> bool {
    s.len() >= 4 && s[0] == 'h' && s[1] == 't' && s[2] == 't' && s[3] == 'p'
}

/// What a candidate URI resolves to: itself when absolute, the join against
/// the base when one is set and the join succeeds, itself otherwise.
pub open spec fn resolved_uri_of(base: Option<Seq<char>>, uri: Seq<char>) -> Seq<char> {
    if spec_starts_with_http(uri) {
        uri
    } else {
        match base {
            Some(b) => match url_join_of(b, uri) {
                Some(j) => j,
                None => uri,
            },
            None => uri,
        }
    }
}

/// Whether `uri` is already an absolute HTTP(S) reference.
pub fn starts_with_http(uri: &str) -> (r: bool)
    ensures
        r == spec_starts_with_http(uri@),
{
    uri.unicode_len() >= 4 && uri.get_char(0) == 'h' && uri.get_char(1) == 't'
        && uri.get_char(2) == 't' && uri.get_char(3) == 'p'
}

/// Resolves a candidate URI best-effort: absolute HTTP(S) URIs pass through
/// unchanged; a relative one is joined against `base`; with no base, or a
/// failed join, the candidate is returned unchanged.
pub fn resolve_uri(base: &Option<String>, uri: &str) -> (r: String)
    ensures
        r@ == resolved_uri_of(base.deep_view(), uri@),
{
    if starts_with_http(uri) {
        return uri.to_owned();
    }
    match base {
        Some(b) => match join_url(b.as_str(), uri) {
            Some(j) => j,
            None => uri.to_owned(),
        },
        None => uri.to_owned(),
    }
}

} // verus!
