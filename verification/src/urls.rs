//! Trusted view of the `url` crate: parsing and reference resolution.
//!
//! The parse of a string is a function of that string alone, so each piece a
//! parsed URL exposes is named by an uninterpreted spec function, and the
//! wrappers hand the pieces out as plain values.  All logic over them is
//! verified against those names.

use vstd::prelude::*;

verus! {

/// Whether `url::Url::parse` accepts `s` as an absolute URL.
pub uninterp spec fn spec_url_parse_ok(s: Seq<char>) -> bool;

/// The serialization `url::Url::to_string` gives for the parse of `s`.
pub uninterp spec fn spec_url_normalized(s: Seq<char>) -> Seq<char>;

/// The scheme of the parse of `s`.
pub uninterp spec fn spec_url_scheme(s: Seq<char>) -> Seq<char>;

/// The host string of the parse of `s`, or the empty string when the URL
/// carries no host.
pub uninterp spec fn spec_url_host(s: Seq<char>) -> Seq<char>;

/// The path of the parse of `s`.
pub uninterp spec fn spec_url_path(s: Seq<char>) -> Seq<char>;

/// The query of the parse of `s`, without the leading `?`.
pub uninterp spec fn spec_url_query(s: Seq<char>) -> Option<Seq<char>>;

/// Whether resolving the reference `rel` against the parse of `base`
/// succeeds.
pub uninterp spec fn spec_url_join_ok(base: Seq<char>, rel: Seq<char>) -> bool;

/// The serialization of resolving `rel` against the parse of `base`
/// (RFC 3986 reference resolution).
pub uninterp spec fn spec_url_joined(base: Seq<char>, rel: Seq<char>) -> Seq<char>;

/// The pieces of a parsed URL that the proxy logic reads, as plain values.
pub struct UrlParts {
    pub normalized: String,
    pub scheme: String,
    pub host: String,
    pub path: String,
    pub query: Option<String>,
}

/// Relies on `url::Url::parse` and the accessors `to_string`, `scheme`,
/// `host_str`, `path` and `query`: parsing either fails, or yields a URL
/// whose pieces are functions of the input string alone.
#[verifier::external_body]
pub fn parse_url_parts(s: &str) -> (r: Option<UrlParts>)
    ensures
        r is Some <==> spec_url_parse_ok(s@),
        r matches Option::Some(p) ==> p.normalized@ == spec_url_normalized(s@),
        r matches Option::Some(p) ==> p.scheme@ == spec_url_scheme(s@),
        r matches Option::Some(p) ==> p.host@ == spec_url_host(s@),
        r matches Option::Some(p) ==> p.path@ == spec_url_path(s@),
        r matches Option::Some(p) ==> match p.query {
            Option::Some(q) => spec_url_query(s@) == Option::Some(q@),
            Option::None => spec_url_query(s@) is None,
        },
{
    match url::Url::parse(s) {
        Ok(u) => Some(UrlParts {
            normalized: u.to_string(),
            scheme: u.scheme().to_string(),
            host: u.host_str().unwrap_or("").to_string(),
            path: u.path().to_string(),
            query: u.query().map(|q| q.to_string()),
        }),
        Err(_) => None,
    }
}

/// Relies on `url::Url::parse`, `Url::join` and `Url::to_string`: resolving
/// the reference `rel` against `base` under RFC 3986 semantics.
#[verifier::external_body]
pub fn url_join(base: &str, rel: &str) -> (r: Option<String>)
    ensures
        r is Some <==> (spec_url_parse_ok(base@) && spec_url_join_ok(base@, rel@)),
        r matches Option::Some(j) ==> j@ == spec_url_joined(base@, rel@),
{
    match url::Url::parse(base) {
        Ok(u) => match u.join(rel) {
            Ok(j) => Some(j.to_string()),
            Err(_) => None,
        },
        Err(_) => None,
    }
}

} // verus!
