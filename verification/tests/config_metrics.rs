use reverse_proxy::config::ProxyConfig;
use reverse_proxy::monitoring::Metrics;
use reverse_proxy::clock::{clamp_seconds, generate_request_id};

#[test]
fn defaults_match_the_documented_values() {
    let config = ProxyConfig::default();
    assert_eq!(config.backends, vec!["https://httpbin.org".to_string()]);
    assert_eq!(config.load_balancer_strategy, "round_robin");
    assert!(config.health_check_enabled);
    assert_eq!(config.health_check_interval, 30);
    assert!(!config.cache_enabled);
    assert_eq!(config.cache_ttl, 300);
    assert_eq!(config.log_level, "info");
    assert_eq!(config.timeout, 30);
    assert_eq!(config.retry_attempts, 3);
    assert!(config.path_rewrite_rules.is_empty());
    assert!(config.custom_headers.is_empty());
    assert!(config.access_rules.is_empty());
}

#[test]
fn sources_override_and_malformed_entries_fall_back() {
    let config = ProxyConfig::from_sources(
        Some(vec!["https://a".to_string(), "https://b".to_string()]),
        None,
        Some("random".to_string()),
        Some("false".to_string()),
        Some("60".to_string()),
        Some("not-a-bool".to_string()),
        Some("oops".to_string()),
        None,
        None,
        None,
        Some("debug".to_string()),
        Some("+15".to_string()),
        Some("99999999999999999999".to_string()),
    );
    assert_eq!(config.backends, vec!["https://a".to_string(), "https://b".to_string()]);
    assert_eq!(config.load_balancer_strategy, "random");
    assert!(!config.health_check_enabled);
    assert_eq!(config.health_check_interval, 60);
    assert!(!config.cache_enabled, "malformed boolean falls back to the default");
    assert_eq!(config.cache_ttl, 300, "malformed number falls back to the default");
    assert_eq!(config.log_level, "debug");
    assert_eq!(config.timeout, 15);
    assert_eq!(config.retry_attempts, 3, "overflowing number falls back to the default");
}

#[test]
fn unset_sources_keep_the_defaults() {
    let config = ProxyConfig::from_sources(
        None, None, None, None, None, None, None, None, None, None, None, None, None,
    );
    assert_eq!(config.backends, vec!["https://httpbin.org".to_string()]);
    assert!(config.health_check_enabled);
    assert_eq!(config.retry_attempts, 3);
}

#[test]
fn metrics_counters_accumulate() {
    let mut metrics = Metrics::new();
    metrics.record_request_start("r1");
    metrics.record_request_start("r2");
    metrics.record_error("r2", "backend_error");
    metrics.record_error("r2", "backend_error");
    metrics.record_error("r1", "no_healthy_backend");
    metrics.record_cache_hit("r1");
    metrics.record_cache_miss("r2");
    metrics.record_cache_miss("r1");
    metrics.record_request_complete("r1", 200);
    let stats = metrics.get_stats();
    assert_eq!(stats.total_requests, 2);
    assert_eq!(stats.total_errors, 3);
    assert_eq!(stats.cache_hits, 1);
    assert_eq!(stats.cache_misses, 2);
}

#[test]
fn metrics_rates_format_with_two_decimals() {
    let mut metrics = Metrics::new();
    metrics.record_request_start("a");
    metrics.record_request_start("b");
    metrics.record_request_start("c");
    metrics.record_error("a", "backend_error");
    metrics.record_cache_hit("a");
    metrics.record_cache_miss("b");
    metrics.record_response_time("a", 10);
    metrics.record_response_time("b", 15);
    let stats = metrics.get_stats();
    assert_eq!(stats.error_rate, "33.33%");
    assert_eq!(stats.cache_hit_rate, "50.00%");
    assert_eq!(stats.average_response_time, "12.50ms");
}

#[test]
fn metrics_with_no_traffic_report_zero_rates() {
    let stats = Metrics::new().get_stats();
    assert_eq!(stats.total_requests, 0);
    assert_eq!(stats.error_rate, "0.00%");
    assert_eq!(stats.cache_hit_rate, "0.00%");
    assert_eq!(stats.average_response_time, "0.00ms");
}

#[test]
fn metrics_reset_clears_everything() {
    let mut metrics = Metrics::new();
    metrics.record_request_start("a");
    metrics.record_error("a", "backend_error");
    metrics.record_response_time("a", 10);
    metrics.reset();
    let stats = metrics.get_stats();
    assert_eq!(stats.total_requests, 0);
    assert_eq!(stats.total_errors, 0);
    assert_eq!(stats.average_response_time, "0.00ms");
}

#[test]
fn request_ids_are_well_formed() {
    let a = generate_request_id();
    let b = generate_request_id();
    assert_eq!(a.len(), 36);
    assert_eq!(b.len(), 36);
    assert_ne!(a, b);
}

#[test]
fn negative_clock_readings_clamp_to_zero() {
    assert_eq!(clamp_seconds(-5), 0);
    assert_eq!(clamp_seconds(0), 0);
    assert_eq!(clamp_seconds(1234), 1234);
}
