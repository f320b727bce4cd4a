use reverse_proxy::config::AccessRule;
use reverse_proxy::http::HeaderMap;
use reverse_proxy::middleware::{
    add_cors_headers, apply_response_middleware, check_access_control, handle_options_request,
};

fn rule(rule_type: &str, pattern: &str) -> AccessRule {
    AccessRule { rule_type: rule_type.to_string(), pattern: pattern.to_string() }
}

fn got(headers: &HeaderMap, name: &str) -> Option<String> {
    headers.get(name).cloned()
}

#[test]
fn options_preflight_is_empty_with_cors_headers() {
    let response = handle_options_request();
    assert_eq!(response.status, 200);
    assert_eq!(response.body, "");
    assert_eq!(got(&response.headers, "Access-Control-Allow-Origin").as_deref(), Some("*"));
    assert_eq!(
        got(&response.headers, "Access-Control-Allow-Methods").as_deref(),
        Some("GET, POST, PUT, DELETE, OPTIONS")
    );
    assert_eq!(
        got(&response.headers, "Access-Control-Allow-Headers").as_deref(),
        Some("Content-Type, Authorization, X-Requested-With")
    );
    assert_eq!(got(&response.headers, "Access-Control-Max-Age").as_deref(), Some("86400"));
    assert_eq!(response.headers.len(), 4);
}

#[test]
fn cors_headers_overwrite_and_preserve() {
    let mut headers = HeaderMap::new();
    headers.set("Access-Control-Allow-Origin", "https://only.example");
    headers.set("Content-Type", "text/plain");
    add_cors_headers(&mut headers);
    assert_eq!(got(&headers, "Access-Control-Allow-Origin").as_deref(), Some("*"));
    assert_eq!(got(&headers, "Content-Type").as_deref(), Some("text/plain"));
}

#[test]
fn response_middleware_sets_security_headers_and_strips_server() {
    let mut headers = HeaderMap::new();
    headers.set("Server", "origin-server");
    headers.set("X-Powered-By", "something");
    headers.set("Content-Type", "application/json");
    apply_response_middleware(&mut headers);
    assert_eq!(got(&headers, "X-Content-Type-Options").as_deref(), Some("nosniff"));
    assert_eq!(got(&headers, "X-Frame-Options").as_deref(), Some("DENY"));
    assert_eq!(got(&headers, "X-XSS-Protection").as_deref(), Some("1; mode=block"));
    assert_eq!(
        got(&headers, "Referrer-Policy").as_deref(),
        Some("strict-origin-when-cross-origin")
    );
    assert_eq!(got(&headers, "X-Proxied-By").as_deref(), Some("Cloudflare-Workers"));
    assert!(got(&headers, "Server").is_none());
    assert!(got(&headers, "X-Powered-By").is_none());
    assert_eq!(got(&headers, "Content-Type").as_deref(), Some("application/json"));
}

#[test]
fn no_rules_allow_everything() {
    assert!(check_access_control(&Vec::new(), None, None, None));
}

#[test]
fn deny_ip_matches_exactly() {
    let rules = vec![rule("deny_ip", "10.0.0.1")];
    let blocked = "10.0.0.1".to_string();
    let other = "10.0.0.2".to_string();
    assert!(!check_access_control(&rules, Some(&blocked), None, None));
    assert!(check_access_control(&rules, Some(&other), None, None));
    assert!(check_access_control(&rules, None, None, None));
}

#[test]
fn allow_country_denies_other_countries() {
    let rules = vec![rule("allow_country", "DE")];
    let de = "DE".to_string();
    let fr = "FR".to_string();
    assert!(check_access_control(&rules, None, Some(&de), None));
    assert!(!check_access_control(&rules, None, Some(&fr), None));
    assert!(check_access_control(&rules, None, None, None));
}

#[test]
fn deny_country_matches_exactly() {
    let rules = vec![rule("deny_country", "FR")];
    let fr = "FR".to_string();
    let de = "DE".to_string();
    assert!(!check_access_control(&rules, None, Some(&fr), None));
    assert!(check_access_control(&rules, None, Some(&de), None));
}

#[test]
fn deny_user_agent_matches_regex() {
    let rules = vec![rule("deny_user_agent", "(?i)curl")];
    let curl = "curl/8.0".to_string();
    let browser = "Mozilla/5.0".to_string();
    assert!(!check_access_control(&rules, None, None, Some(&curl)));
    assert!(check_access_control(&rules, None, None, Some(&browser)));
}

#[test]
fn invalid_user_agent_pattern_never_denies() {
    let rules = vec![rule("deny_user_agent", "([")];
    let anything = "curl/8.0".to_string();
    assert!(check_access_control(&rules, None, None, Some(&anything)));
}

#[test]
fn unknown_rule_types_are_ignored() {
    let rules = vec![rule("deny_planet", "Mars")];
    let ip = "10.0.0.1".to_string();
    assert!(check_access_control(&rules, Some(&ip), None, None));
}

#[test]
fn header_map_set_get_delete() {
    let mut headers = HeaderMap::new();
    assert!(headers.get("A").is_none());
    headers.set("A", "1");
    headers.set("B", "2");
    headers.set("A", "3");
    assert_eq!(got(&headers, "A").as_deref(), Some("3"));
    assert_eq!(got(&headers, "B").as_deref(), Some("2"));
    assert_eq!(headers.len(), 2);
    assert!(headers.contains("A"));
    headers.delete("A");
    assert!(!headers.contains("A"));
    assert_eq!(headers.len(), 1);
}
