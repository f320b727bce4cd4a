use reverse_proxy::cache::CacheManager;
use reverse_proxy::config::ProxyConfig;

fn manager(enabled: bool) -> CacheManager {
    let mut config = ProxyConfig::default();
    config.cache_enabled = enabled;
    config.cache_ttl = 120;
    CacheManager::new(&config)
}

#[test]
fn fingerprint_is_deterministic() {
    let m = manager(true);
    let a = m.generate_cache_key("GET", "/a", Some("b"));
    let b = m.generate_cache_key("GET", "/a", Some("b"));
    assert_eq!(a, b);
}

#[test]
fn fingerprint_matches_known_digest() {
    // SHA-256 of "proxy:GET:/a:b", hex-encoded in lowercase.
    let m = manager(true);
    assert_eq!(
        m.generate_cache_key("GET", "/a", Some("b")),
        "68c842c751dc52efa24426a3ee12dc994199ee5e19b194153b5e14ce27cd96ca"
    );
}

#[test]
fn fingerprint_changes_with_the_query() {
    let m = manager(true);
    let with_query = m.generate_cache_key("GET", "/a", Some("b"));
    let other_query = m.generate_cache_key("GET", "/a", Some("c"));
    let no_query = m.generate_cache_key("GET", "/a", None);
    assert_ne!(with_query, other_query);
    assert_ne!(with_query, no_query);
}

#[test]
fn fingerprint_changes_with_method_and_path() {
    let m = manager(true);
    let base = m.generate_cache_key("GET", "/a", None);
    assert_ne!(base, m.generate_cache_key("POST", "/a", None));
    assert_ne!(base, m.generate_cache_key("GET", "/b", None));
}

#[test]
fn lookup_key_exists_only_when_caching_is_enabled() {
    assert!(manager(false).cache_lookup_key("GET", "/a", None).is_none());
    let key = manager(true).cache_lookup_key("GET", "/a", Some("b")).unwrap();
    assert_eq!(key, manager(true).generate_cache_key("GET", "/a", Some("b")));
}

#[test]
fn cacheable_needs_success_status() {
    let m = manager(true);
    assert!(m.is_cacheable(200, None, None));
    assert!(m.is_cacheable(299, None, None));
    assert!(!m.is_cacheable(199, None, None));
    assert!(!m.is_cacheable(300, None, None));
    assert!(!m.is_cacheable(404, None, None));
}

#[test]
fn cache_control_directives_block_storing() {
    let m = manager(true);
    let no_cache = "no-cache".to_string();
    let no_store = "max-age=60, no-store".to_string();
    let private = "private".to_string();
    let public = "public, max-age=60".to_string();
    assert!(!m.is_cacheable(200, Some(&no_cache), None));
    assert!(!m.is_cacheable(200, Some(&no_store), None));
    assert!(!m.is_cacheable(200, Some(&private), None));
    assert!(m.is_cacheable(200, Some(&public), None));
}

#[test]
fn wildcard_vary_blocks_storing() {
    let m = manager(true);
    let star = "*".to_string();
    let named = "Accept-Encoding".to_string();
    assert!(!m.is_cacheable(200, None, Some(&star)));
    assert!(m.is_cacheable(200, None, Some(&named)));
}

#[test]
fn should_store_requires_enabled_cache() {
    assert!(!manager(false).should_store(200, None, None));
    assert!(manager(true).should_store(200, None, None));
    assert_eq!(manager(true).cache_ttl, 120);
}
