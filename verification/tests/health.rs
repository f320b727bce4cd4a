use reverse_proxy::config::ProxyConfig;
use reverse_proxy::health::HealthChecker;

fn config_with(backends: &[&str], enabled: bool, interval: u64) -> ProxyConfig {
    let mut config = ProxyConfig::default();
    config.backends = backends.iter().map(|s| s.to_string()).collect();
    config.health_check_enabled = enabled;
    config.health_check_interval = interval;
    config
}

#[test]
fn unhealthy_immediately_after_mark_and_healthy_after_window() {
    let config = config_with(&["https://a"], true, 30);
    let mut checker = HealthChecker::new(&config);
    assert!(checker.is_healthy("https://a", 1000));
    checker.mark_unhealthy("https://a", 1000);
    assert!(!checker.is_healthy("https://a", 1000));
    assert!(!checker.is_healthy("https://a", 1029));
    assert!(checker.is_healthy("https://a", 1030));
    assert!(checker.is_healthy("https://a", 5000));
}

#[test]
fn mark_healthy_removes_the_record() {
    let config = config_with(&["https://a"], true, 30);
    let mut checker = HealthChecker::new(&config);
    checker.mark_unhealthy("https://a", 1000);
    checker.mark_healthy("https://a");
    assert!(checker.is_healthy("https://a", 1000));
}

#[test]
fn disabled_health_checking_reports_everything_healthy() {
    let config = config_with(&["https://a"], false, 30);
    let mut checker = HealthChecker::new(&config);
    checker.mark_unhealthy("https://a", 1000);
    assert!(checker.is_healthy("https://a", 1000));
}

#[test]
fn second_failure_overwrites_the_timestamp() {
    let config = config_with(&["https://a"], true, 30);
    let mut checker = HealthChecker::new(&config);
    checker.mark_unhealthy("https://a", 1000);
    checker.mark_unhealthy("https://a", 2000);
    assert!(!checker.is_healthy("https://a", 1030));
    assert!(!checker.is_healthy("https://a", 2029));
    assert!(checker.is_healthy("https://a", 2030));
}

#[test]
fn healthy_backends_keep_configured_order() {
    let config = config_with(&["https://a", "https://b", "https://c"], true, 30);
    let mut checker = HealthChecker::new(&config);
    checker.mark_unhealthy("https://b", 1000);
    let healthy = checker.get_healthy_backends(1000);
    assert_eq!(healthy, vec!["https://a".to_string(), "https://c".to_string()]);
    let all = checker.get_healthy_backends(1030);
    assert_eq!(
        all,
        vec!["https://a".to_string(), "https://b".to_string(), "https://c".to_string()]
    );
}

#[test]
fn backend_status_reports_each_configured_backend() {
    let config = config_with(&["https://a", "https://b"], true, 30);
    let mut checker = HealthChecker::new(&config);
    checker.mark_unhealthy("https://a", 1000);
    let status = checker.get_backend_status(1000);
    assert_eq!(status.len(), 2);
    assert_eq!(status[0], ("https://a".to_string(), false));
    assert_eq!(status[1], ("https://b".to_string(), true));
}

#[test]
fn check_result_success_clears_and_failure_marks() {
    let config = config_with(&["https://a"], true, 30);
    let mut checker = HealthChecker::new(&config);
    checker.mark_unhealthy("https://a", 1000);
    assert!(checker.record_check_result("https://a", Some(204), 1005));
    assert!(checker.is_healthy("https://a", 1005));
    assert!(!checker.record_check_result("https://a", Some(500), 1010));
    assert!(!checker.is_healthy("https://a", 1010));
    assert!(!checker.record_check_result("https://a", None, 1020));
    assert!(!checker.is_healthy("https://a", 1020));
    assert!(checker.is_healthy("https://a", 1050));
}

#[test]
fn probing_is_gated_on_the_enabled_flag() {
    let enabled = HealthChecker::new(&config_with(&["https://a"], true, 30));
    assert!(enabled.should_probe());
    let disabled = HealthChecker::new(&config_with(&["https://a"], false, 30));
    assert!(!disabled.should_probe());
}

#[test]
fn health_check_url_appends_fixed_path() {
    assert_eq!(HealthChecker::health_check_url("https://a.example"), "https://a.example/health");
}
