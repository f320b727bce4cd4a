use reverse_proxy::config::{AccessRule, PathRewriteRule, ProxyConfig};
use reverse_proxy::http::{HeaderMap, ProxyResponse, RequestInfo};
use reverse_proxy::load_balancer::LoadBalancerStrategy;
use reverse_proxy::{route_path, ProxyError, Route, TargetResolution};
use reverse_proxy::ReverseProxy;

fn base_config(backends: &[&str]) -> ProxyConfig {
    let mut config = ProxyConfig::default();
    config.backends = backends.iter().map(|s| s.to_string()).collect();
    config
}

fn request(method: &str, path: &str, query: Option<&str>) -> RequestInfo {
    RequestInfo {
        method: method.to_string(),
        path: path.to_string(),
        query: query.map(|q| q.to_string()),
        url_is_https: true,
        headers: HeaderMap::new(),
        country: None,
    }
}

fn got(headers: &HeaderMap, name: &str) -> Option<String> {
    headers.get(name).cloned()
}

#[test]
fn management_endpoints_route_directly() {
    assert_eq!(route_path("/_proxy/health"), Route::Health);
    assert_eq!(route_path("/_proxy/stats"), Route::Stats);
    assert_eq!(route_path("/anything"), Route::Pipeline);
    assert_eq!(route_path("/_proxy/healthz"), Route::Pipeline);
}

#[test]
fn preflight_is_empty_with_full_cors_set_whatever_the_configuration() {
    let mut config = base_config(&["https://a"]);
    config.cache_enabled = true;
    config.access_rules.push(AccessRule {
        rule_type: "deny_ip".to_string(),
        pattern: "1.1.1.1".to_string(),
    });
    let proxy = ReverseProxy::from_config(config);
    let response = proxy.handle_cors_preflight();
    assert_eq!(response.status, 200);
    assert_eq!(response.body, "");
    assert_eq!(got(&response.headers, "Access-Control-Allow-Origin").as_deref(), Some("*"));
    assert_eq!(
        got(&response.headers, "Access-Control-Allow-Methods").as_deref(),
        Some("GET, POST, PUT, DELETE, OPTIONS, HEAD, PATCH")
    );
    assert!(got(&response.headers, "Access-Control-Allow-Headers").is_some());
    assert_eq!(got(&response.headers, "Access-Control-Max-Age").as_deref(), Some("86400"));
    assert_eq!(
        got(&response.headers, "Access-Control-Allow-Credentials").as_deref(),
        Some("true")
    );
    assert_eq!(response.headers.len(), 5);
}

#[test]
fn access_denial_comes_from_matching_rule() {
    let mut config = base_config(&["https://a"]);
    config.access_rules.push(AccessRule {
        rule_type: "deny_ip".to_string(),
        pattern: "1.1.1.1".to_string(),
    });
    let proxy = ReverseProxy::from_config(config);
    let mut req = request("GET", "/x", None);
    req.headers.set("CF-Connecting-IP", "1.1.1.1");
    assert_eq!(proxy.apply_request_middleware(&req), Some(ProxyError::AccessDenied));
    let mut allowed = request("GET", "/x", None);
    allowed.headers.set("CF-Connecting-IP", "2.2.2.2");
    assert_eq!(proxy.apply_request_middleware(&allowed), None);
}

#[test]
fn embedded_target_bypasses_selection() {
    let proxy = ReverseProxy::from_config(base_config(&["https://a"]));
    let req = request("GET", "/https://example.com/foo?x=1", Some("y=2"));
    assert_eq!(
        proxy.extract_embedded_target(&req).as_deref(),
        Some("https://example.com/foo?x=1&y=2")
    );
    let plain = request("GET", "/foo", None);
    assert!(proxy.extract_embedded_target(&plain).is_none());
}

#[test]
fn backend_selection_builds_target_or_fails_fast() {
    let mut config = base_config(&["https://a", "https://b"]);
    config.path_rewrite_rules.push(PathRewriteRule {
        pattern: "^/api/(.*)".to_string(),
        replacement: "/v2/$1".to_string(),
    });
    let mut proxy = ReverseProxy::from_config(config);
    let req = request("GET", "/api/users", Some("x=1"));
    match proxy.select_backend_target(&req, 1000) {
        TargetResolution::Backend(target) => assert_eq!(target, "https://a/v2/users?x=1"),
        _ => panic!("expected a backend target"),
    }
    // Mark both backends unhealthy: selection must fail fast.
    proxy.health_checker.mark_unhealthy("https://a", 1000);
    proxy.health_checker.mark_unhealthy("https://b", 1000);
    match proxy.select_backend_target(&req, 1000) {
        TargetResolution::NoHealthyBackend => {},
        _ => panic!("expected no healthy backend"),
    }
}

#[test]
fn dispatch_failure_marks_backend_only_in_backend_mode() {
    let mut proxy = ReverseProxy::from_config(base_config(&["https://a"]));
    let err = proxy.record_dispatch_failure(true, "https://other.example/x", 1000);
    assert_eq!(err, ProxyError::BackendUnavailable);
    assert!(proxy.health_checker.is_healthy("https://other.example", 1000));
    let err = proxy.record_dispatch_failure(false, "https://a/some/path", 1000);
    assert_eq!(err, ProxyError::BackendUnavailable);
    assert!(!proxy.health_checker.is_healthy("https://a", 1000));
}

#[test]
fn redirects_normalize_only_location() {
    let proxy = ReverseProxy::from_config(base_config(&["https://a"]));
    assert!(proxy.is_redirect_response(301));
    assert!(proxy.is_redirect_response(399));
    assert!(!proxy.is_redirect_response(200));
    assert!(!proxy.is_redirect_response(400));
    let mut headers = HeaderMap::new();
    headers.set("Location", "/login");
    headers.set("Content-Type", "text/html");
    let mut response = ProxyResponse { status: 302, headers, body: String::new() };
    proxy.handle_redirect_response(&mut response, "https://a.com/x");
    assert_eq!(got(&response.headers, "Location").as_deref(), Some("https://a.com/login"));
    assert_eq!(got(&response.headers, "Content-Type").as_deref(), Some("text/html"));
}

#[test]
fn proxy_headers_forwarded_and_overlaid() {
    let mut config = base_config(&["https://a"]);
    config.custom_headers.push(("X-Custom".to_string(), "yes".to_string()));
    config.custom_headers.push(("X-Forwarded-Proto".to_string(), "forced".to_string()));
    let proxy = ReverseProxy::from_config(config);
    let mut req = request("POST", "/x", None);
    req.headers.set("CF-Connecting-IP", "1.2.3.4");
    req.headers.set("Host", "front.example");
    req.headers.set("Origin", "https://front.example");
    req.headers.set("Accept", "*/*");
    let outbound = proxy.build_proxy_headers(&req);
    assert_eq!(got(&outbound, "X-Forwarded-For").as_deref(), Some("1.2.3.4"));
    assert_eq!(got(&outbound, "X-Forwarded-Host").as_deref(), Some("front.example"));
    assert!(got(&outbound, "Host").is_none());
    assert!(got(&outbound, "Origin").is_none());
    assert_eq!(got(&outbound, "Accept").as_deref(), Some("*/*"));
    assert_eq!(got(&outbound, "X-Custom").as_deref(), Some("yes"));
    // Custom headers take precedence on key collision.
    assert_eq!(got(&outbound, "X-Forwarded-Proto").as_deref(), Some("forced"));
}

#[test]
fn scheme_drives_forwarded_proto() {
    let proxy = ReverseProxy::from_config(base_config(&["https://a"]));
    let mut req = request("GET", "/x", None);
    req.url_is_https = true;
    assert_eq!(got(&proxy.build_proxy_headers(&req), "X-Forwarded-Proto").as_deref(), Some("https"));
    req.url_is_https = false;
    assert_eq!(got(&proxy.build_proxy_headers(&req), "X-Forwarded-Proto").as_deref(), Some("http"));
}

#[test]
fn health_summary_counts_and_status() {
    let mut proxy = ReverseProxy::from_config(base_config(&["https://a", "https://b"]));
    let summary = proxy.health_check(1000);
    assert!(summary.healthy);
    assert_eq!(summary.healthy_backends, 2);
    assert_eq!(summary.total_backends, 2);
    assert_eq!(summary.backends, vec!["https://a".to_string(), "https://b".to_string()]);
    proxy.health_checker.mark_unhealthy("https://a", 1000);
    proxy.health_checker.mark_unhealthy("https://b", 1000);
    let summary = proxy.health_check(1000);
    assert!(!summary.healthy);
    assert_eq!(summary.healthy_backends, 0);
    assert_eq!(summary.total_backends, 2);
}

#[test]
fn error_statuses_and_messages_are_fixed() {
    assert_eq!(ProxyError::ConfigError.status_code(), 500);
    assert_eq!(ProxyError::AccessDenied.status_code(), 403);
    assert_eq!(ProxyError::NoHealthyBackend.status_code(), 503);
    assert_eq!(ProxyError::BackendUnavailable.status_code(), 502);
    assert_eq!(ProxyError::ConfigError.message(), "Proxy configuration error");
    assert_eq!(ProxyError::AccessDenied.message(), "Access denied");
    assert_eq!(ProxyError::NoHealthyBackend.message(), "No healthy backends available");
    assert_eq!(ProxyError::BackendUnavailable.message(), "Backend unavailable");
}

#[test]
fn from_config_wires_strategy_and_components() {
    let mut config = base_config(&["https://a"]);
    config.load_balancer_strategy = "RANDOM".to_string();
    config.cache_enabled = true;
    config.cache_ttl = 77;
    let proxy = ReverseProxy::from_config(config);
    assert_eq!(proxy.load_balancer.strategy, LoadBalancerStrategy::Random);
    assert_eq!(proxy.load_balancer.current_index, 0);
    assert!(proxy.cache_manager.cache_enabled);
    assert_eq!(proxy.cache_manager.cache_ttl, 77);
    assert!(proxy.health_checker.health_check_enabled);
}

#[test]
fn cache_writeback_decision_checks_directives() {
    let mut config = base_config(&["https://a"]);
    config.cache_enabled = true;
    let proxy = ReverseProxy::from_config(config);
    assert!(proxy.should_cache_response(200, None, None));
    assert!(!proxy.should_cache_response(404, None, None));
    let no_cache = "no-cache".to_string();
    let no_store = "no-store".to_string();
    let private = "private".to_string();
    assert!(!proxy.should_cache_response(200, Some(&no_cache), None));
    assert!(!proxy.should_cache_response(200, Some(&no_store), None));
    assert!(!proxy.should_cache_response(200, Some(&private), None));
    let star = "*".to_string();
    let named = "Accept-Encoding".to_string();
    assert!(!proxy.should_cache_response(200, None, Some(&star)));
    assert!(proxy.should_cache_response(200, None, Some(&named)));
    let disabled = ReverseProxy::from_config(base_config(&["https://a"]));
    assert!(!disabled.should_cache_response(200, None, None));
}
