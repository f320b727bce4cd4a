//! Target resolution: embedded-target extraction, ordered path rewriting
//! through regular expressions, target URL construction, and redirect
//! `Location` normalization.

use vstd::prelude::*;

use crate::config::PathRewriteRule;
use crate::strutil::{spec_starts_with, starts_with_str};
use crate::urls::{
    parse_url_parts, spec_url_host, spec_url_joined, spec_url_join_ok, spec_url_normalized,
    spec_url_parse_ok, spec_url_query, spec_url_scheme, url_join,
};

verus! {

/// Whether `regex::Regex::new` accepts `p`.
pub uninterp spec fn spec_regex_valid(p: Seq<char>) -> bool;

/// Whether the regex `p` matches anywhere in `t`.
pub uninterp spec fn spec_regex_matches(p: Seq<char>, t: Seq<char>) -> bool;

/// The result of replacing the leftmost-first match of `p` in `t` with the
/// replacement template `rep` (with `$1`-style capture expansion).
pub uninterp spec fn spec_regex_replaced(p: Seq<char>, t: Seq<char>, rep: Seq<char>) -> Seq<char>;

/// Relies on `regex::Regex::new` and `Regex::is_match`: whether the pattern
/// compiles, and whether it matches anywhere in the text.
#[verifier::external_body]
pub(crate) fn regex_is_match(pattern: &str, text: &str) -> (r: Option<bool>)
    ensures
        r is Some <==> spec_regex_valid(pattern@),
        r matches Option::Some(m) ==> m == spec_regex_matches(pattern@, text@),
{
    match regex::Regex::new(pattern) {
        Ok(re) => Some(re.is_match(text)),
        Err(_) => None,
    }
}

/// Relies on `regex::Regex::new` and `Regex::replace`: a single
/// (non-global) substitution of the leftmost-first match; a haystack without
/// a match comes back unchanged.
#[verifier::external_body]
fn regex_replace_first(pattern: &str, text: &str, replacement: &str) -> (r: Option<String>)
    ensures
        r is Some <==> spec_regex_valid(pattern@),
        r matches Option::Some(s) ==> s@ == spec_regex_replaced(pattern@, text@, replacement@),
        r matches Option::Some(s) ==> (!spec_regex_matches(pattern@, text@) ==> s@ == text@),
{
    match regex::Regex::new(pattern) {
        Ok(re) => Some(re.replace(text, replacement).to_string()),
        Err(_) => None,
    }
}

/// The path after applying the ordered rewrite rules: the first rule whose
/// pattern compiles and matches wins, with a single substitution; rules with
/// invalid patterns are skipped; a path no rule matches is unchanged.
pub open spec fn spec_rewrite(rules: Seq<PathRewriteRule>, path: Seq<char>) -> Seq<char>
    decreases rules.len(),
{
    if rules.len() == 0 {
        path
    } else if spec_regex_valid(rules[0].pattern@) && spec_regex_matches(
        rules[0].pattern@,
        path,
    ) {
        spec_regex_replaced(rules[0].pattern@, path, rules[0].replacement@)
    } else {
        spec_rewrite(rules.drop_first(), path)
    }
}

/// Rules that do not apply can be skipped without changing the outcome.
proof fn lemma_rewrite_skip(rules: Seq<PathRewriteRule>, path: Seq<char>, i: int)
    requires
        0 <= i <= rules.len(),
        forall|k: int|
            0 <= k < i ==> !(spec_regex_valid(#[trigger] rules[k].pattern@)
                && spec_regex_matches(rules[k].pattern@, path)),
    ensures
        spec_rewrite(rules, path) == spec_rewrite(rules.skip(i), path),
    decreases i,
{
    if i > 0 {
        lemma_rewrite_skip(rules, path, i - 1);
        assert(rules.skip(i - 1)[0] == rules[i - 1]);
        assert(rules.skip(i - 1).drop_first() =~= rules.skip(i));
    } else {
        assert(rules.skip(0) =~= rules);
    }
}

/// Applies the ordered path-rewrite rules to `path`; evaluation stops at the
/// first matching rule.
pub fn apply_path_rewrite(path: &str, rules: &Vec<PathRewriteRule>) -> (r: String)
    ensures
        r@ == spec_rewrite(rules@, path@),
{
    let mut i: usize = 0;
    while i < rules.len()
        invariant
            i <= rules@.len(),
            forall|k: int|
                0 <= k < i ==> !(spec_regex_valid(#[trigger] rules@[k].pattern@)
                    && spec_regex_matches(rules@[k].pattern@, path@)),
        decreases rules@.len() - i,
    {
        match regex_is_match(rules[i].pattern.as_str(), path) {
            Option::Some(true) => {
                proof {
                    lemma_rewrite_skip(rules@, path@, i as int);
                    assert(rules@.skip(i as int)[0] == rules@[i as int]);
                }
                match regex_replace_first(
                    rules[i].pattern.as_str(),
                    path,
                    rules[i].replacement.as_str(),
                ) {
                    Option::Some(s) => {
                        return s;
                    },
                    Option::None => {
                        proof {
                            assert(false);
                        }
                    },
                }
            },
            _ => {},
        }
        i += 1;
    }
    proof {
        lemma_rewrite_skip(rules@, path@, rules@.len() as int);
        assert(rules@.skip(rules@.len() as int) =~= Seq::<PathRewriteRule>::empty());
    }
    String::from_str(path)
}

/// The target URL for backend mode: the backend base, the rewritten path,
/// and the original query if one is present.
pub open spec fn spec_target_url(
    backend: Seq<char>,
    rules: Seq<PathRewriteRule>,
    path: Seq<char>,
    query: Option<Seq<char>>,
) -> Seq<char> {
    let rewritten = backend + spec_rewrite(rules, path);
    match query {
        Option::Some(q) => rewritten + "?"@ + q,
        Option::None => rewritten,
    }
}

/// Builds the backend-mode target URL from the backend base, the request
/// path (after rewriting) and the request query.
pub fn build_target_url(backend: &str, path: &str, query: Option<&str>, rules: &Vec<
    PathRewriteRule,
>) -> (r: String)
    ensures
        r@ == spec_target_url(backend@, rules@, path@, match query {
            Option::Some(q) => Option::Some(q@),
            Option::None => Option::None,
        }),
{
    let rewritten = apply_path_rewrite(path, rules);
    let base = String::from_str(backend).concat(rewritten.as_str());
    match query {
        Option::Some(q) => base.concat("?").concat(q),
        Option::None => base,
    }
}

/// The embedded target a request path denotes, when the path is `/` followed
/// immediately by an absolute `http` or `https` URL that parses: the
/// normalized URL, with the original query merged in (appended with `&` when
/// the embedded URL already carries a query, else with `?`).  A path in any
/// other shape, or one whose remainder does not parse, yields nothing.
pub open spec fn spec_embedded_target(path: Seq<char>, query: Option<Seq<char>>) -> Option<
    Seq<char>,
> {
    if (spec_starts_with(path, "/http://"@) || spec_starts_with(path, "/https://"@))
        && spec_url_parse_ok(path.skip(1)) {
        let base = spec_url_normalized(path.skip(1));
        match query {
            Option::Some(q) => Option::Some(
                base + (if spec_url_query(path.skip(1)) is Some {
                    "&"@
                } else {
                    "?"@
                }) + q,
            ),
            Option::None => Option::Some(base),
        }
    } else {
        Option::None
    }
}

/// Extracts the target URL embedded in the request path, if any; parse
/// failures fall through silently to backend-mode routing.
pub fn extract_target_url_from_path(path: &str, query: Option<&str>) -> (r: Option<String>)
    ensures
        r matches Option::Some(t) ==> spec_embedded_target(path@, match query {
            Option::Some(q) => Option::Some(q@),
            Option::None => Option::None,
        }) == Option::Some(t@),
        r is None ==> spec_embedded_target(path@, match query {
            Option::Some(q) => Option::Some(q@),
            Option::None => Option::None,
        }) is None,
{
    if !(starts_with_str(path, "/http://") || starts_with_str(path, "/https://")) {
        return Option::None;
    }
    let len = path.unicode_len();
    proof {
        reveal_strlit("/http://");
        reveal_strlit("/https://");
    }
    let rest = path.substring_char(1, len);
    proof {
        assert(rest@ =~= path@.skip(1));
    }
    match parse_url_parts(rest) {
        Option::None => Option::None,
        Option::Some(parts) => {
            match query {
                Option::None => Option::Some(parts.normalized),
                Option::Some(q) => {
                    let sep = if parts.query.is_some() {
                        "&"
                    } else {
                        "?"
                    };
                    Option::Some(parts.normalized.concat(sep).concat(q))
                },
            }
        },
    }
}

/// The normalized redirect `Location` in embedded-target mode:
/// a root-relative location becomes the target's scheme and host plus the
/// location; an absolute `http` or `https` location is left unchanged; any
/// other location is resolved against the target by reference resolution.
/// If the target fails to re-parse (or resolution fails), the location is
/// kept as the backend supplied it.
pub open spec fn spec_normalize_location(loc: Seq<char>, target: Seq<char>) -> Seq<char> {
    if spec_starts_with(loc, "/"@) {
        if spec_url_parse_ok(target) {
            spec_url_scheme(target) + "://"@ + spec_url_host(target) + loc
        } else {
            loc
        }
    } else if spec_starts_with(loc, "http://"@) || spec_starts_with(loc, "https://"@) {
        loc
    } else {
        if spec_url_parse_ok(target) && spec_url_join_ok(target, loc) {
            spec_url_joined(target, loc)
        } else {
            loc
        }
    }
}

/// Rewrites a backend redirect `Location` into an absolute, correctly-scoped
/// URL relative to the resolved target.
pub fn normalize_location(location: &str, target: &str) -> (r: String)
    ensures
        r@ == spec_normalize_location(location@, target@),
{
    if starts_with_str(location, "/") {
        match parse_url_parts(target) {
            Option::Some(parts) => parts.scheme.concat("://").concat(parts.host.as_str()).concat(
                location,
            ),
            Option::None => String::from_str(location),
        }
    } else if starts_with_str(location, "http://") || starts_with_str(location, "https://") {
        String::from_str(location)
    } else {
        match url_join(target, location) {
            Option::Some(joined) => joined,
            Option::None => String::from_str(location),
        }
    }
}

} // verus!
