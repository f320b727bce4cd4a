use reverse_proxy::backend_base_of;
use reverse_proxy::config::PathRewriteRule;
use reverse_proxy::rewrite::{
    apply_path_rewrite, build_target_url, extract_target_url_from_path, normalize_location,
};

fn rule(pattern: &str, replacement: &str) -> PathRewriteRule {
    PathRewriteRule { pattern: pattern.to_string(), replacement: replacement.to_string() }
}

#[test]
fn rewrite_applies_matching_rule_with_capture() {
    let rules = vec![rule("^/api/(.*)", "/v2/$1")];
    assert_eq!(apply_path_rewrite("/api/users", &rules), "/v2/users");
}

#[test]
fn rewrite_leaves_non_matching_path_unchanged() {
    let rules = vec![rule("^/api/(.*)", "/v2/$1")];
    assert_eq!(apply_path_rewrite("/other", &rules), "/other");
}

#[test]
fn rewrite_first_matching_rule_wins() {
    let rules = vec![rule("^/api/(.*)", "/v2/$1"), rule("^/api/users", "/never")];
    assert_eq!(apply_path_rewrite("/api/users", &rules), "/v2/users");
}

#[test]
fn rewrite_skips_invalid_patterns() {
    let rules = vec![rule("([", "/broken"), rule("^/api/(.*)", "/v2/$1")];
    assert_eq!(apply_path_rewrite("/api/users", &rules), "/v2/users");
}

#[test]
fn rewrite_replaces_only_the_first_match() {
    let rules = vec![rule("a", "b")];
    assert_eq!(apply_path_rewrite("/aa", &rules), "/ba");
}

#[test]
fn target_url_joins_backend_path_and_query() {
    let rules = vec![rule("^/api/(.*)", "/v2/$1")];
    assert_eq!(
        build_target_url("https://up.example", "/api/users", Some("x=1"), &rules),
        "https://up.example/v2/users?x=1"
    );
    assert_eq!(
        build_target_url("https://up.example", "/plain", None, &Vec::new()),
        "https://up.example/plain"
    );
}

#[test]
fn embedded_target_merges_queries_with_ampersand() {
    let resolved = extract_target_url_from_path("/https://example.com/foo?x=1", Some("y=2"));
    assert_eq!(resolved.as_deref(), Some("https://example.com/foo?x=1&y=2"));
}

#[test]
fn embedded_target_appends_query_with_question_mark() {
    let resolved = extract_target_url_from_path("/https://example.com/foo", Some("y=2"));
    assert_eq!(resolved.as_deref(), Some("https://example.com/foo?y=2"));
}

#[test]
fn embedded_target_without_query_is_normalized_url() {
    let resolved = extract_target_url_from_path("/http://example.com/bar", None);
    assert_eq!(resolved.as_deref(), Some("http://example.com/bar"));
}

#[test]
fn ordinary_paths_carry_no_embedded_target() {
    assert!(extract_target_url_from_path("/api/users", None).is_none());
    assert!(extract_target_url_from_path("/httpx://nope", None).is_none());
}

#[test]
fn unparsable_embedded_url_falls_through() {
    assert!(extract_target_url_from_path("/https://", None).is_none());
}

#[test]
fn root_relative_location_gets_scheme_and_host() {
    assert_eq!(normalize_location("/login", "https://a.com/x"), "https://a.com/login");
}

#[test]
fn absolute_location_is_left_unchanged() {
    assert_eq!(normalize_location("http://b.com/z", "https://a.com/x"), "http://b.com/z");
}

#[test]
fn relative_location_resolves_against_target() {
    assert_eq!(normalize_location("bar", "https://a.com/x/y"), "https://a.com/x/bar");
}

#[test]
fn location_is_kept_when_target_does_not_parse() {
    assert_eq!(normalize_location("bar", "not a url"), "bar");
    assert_eq!(normalize_location("/login", "not a url"), "/login");
}

#[test]
fn backend_base_stops_before_third_slash() {
    assert_eq!(backend_base_of("https://up.example/some/path"), "https://up.example");
    assert_eq!(backend_base_of("https://up.example"), "https://up.example");
    assert_eq!(backend_base_of("a/b"), "a/b");
}
