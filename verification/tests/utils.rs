use reverse_proxy::digest::{base64_encode, sha256_hash, verify_hmac_sha256};
use reverse_proxy::http::HeaderMap;
use reverse_proxy::strutil::{contains_str, parse_bool, parse_u64, starts_with_str, str_eq};
use reverse_proxy::utils::{
    base64_decode, clean_path, format_duration_ms, get_client_ip, get_header_value, is_valid_url,
    parse_query_string, parse_url_path, parse_user_agent, UtilError,
};

#[test]
fn url_path_and_query_parse() {
    assert_eq!(parse_url_path("https://example.com/a/b?x=1").unwrap(), "/a/b");
    assert_eq!(parse_query_string("https://example.com/a/b?x=1").unwrap(), "x=1");
    assert_eq!(parse_query_string("https://example.com/a/b").unwrap(), "");
    assert_eq!(parse_url_path("not a url").unwrap_err(), UtilError::InvalidUrl);
    assert_eq!(parse_query_string("not a url").unwrap_err(), UtilError::InvalidUrl);
}

#[test]
fn url_validity() {
    assert!(is_valid_url("https://example.com"));
    assert!(!is_valid_url("/// nope"));
}

#[test]
fn durations_format_with_two_decimals() {
    assert_eq!(format_duration_ms(12), "12.00ms");
    assert_eq!(format_duration_ms(999), "999.00ms");
    assert_eq!(format_duration_ms(1000), "1.00s");
    assert_eq!(format_duration_ms(1230), "1.23s");
    assert_eq!(format_duration_ms(65432), "65.43s");
}

#[test]
fn header_value_lookup() {
    let mut headers = HeaderMap::new();
    headers.set("Content-Type", "text/html");
    assert_eq!(get_header_value(&headers, "Content-Type").as_deref(), Some("text/html"));
    assert!(get_header_value(&headers, "Missing").is_none());
}

#[test]
fn client_ip_prefers_platform_header() {
    let mut headers = HeaderMap::new();
    headers.set("CF-Connecting-IP", "1.2.3.4");
    headers.set("X-Forwarded-For", "9.9.9.9, 8.8.8.8");
    assert_eq!(get_client_ip(&headers).as_deref(), Some("1.2.3.4"));
}

#[test]
fn client_ip_falls_back_to_forwarded_chain() {
    let mut headers = HeaderMap::new();
    headers.set("X-Forwarded-For", " 9.9.9.9 , 8.8.8.8");
    assert_eq!(get_client_ip(&headers).as_deref(), Some("9.9.9.9"));
    let mut real = HeaderMap::new();
    real.set("X-Real-IP", "7.7.7.7");
    assert_eq!(get_client_ip(&real).as_deref(), Some("7.7.7.7"));
    assert!(get_client_ip(&HeaderMap::new()).is_none());
}

#[test]
fn user_agents_classify() {
    let chrome = parse_user_agent("Mozilla/5.0 (Windows NT 10.0) Chrome/120.0 Safari/537.36");
    assert_eq!(chrome.browser, "Chrome");
    assert_eq!(chrome.os, "Windows");
    assert!(!chrome.is_mobile);
    assert!(!chrome.is_bot);

    let android = parse_user_agent("Mozilla/5.0 (Linux; Android 14) Firefox/121.0");
    assert_eq!(android.browser, "Firefox");
    assert!(android.is_mobile);

    let bot = parse_user_agent("Googlebot/2.1 (+http://www.google.com/bot.html)");
    assert!(bot.is_bot);
    let spider = parse_user_agent("Some-Spider/1.0");
    assert!(spider.is_bot);
    let unknown = parse_user_agent("telnet");
    assert_eq!(unknown.browser, "Unknown");
    assert_eq!(unknown.os, "Unknown");
}

#[test]
fn base64_round_trip_and_known_value() {
    assert_eq!(base64_encode(b"hello world"), "aGVsbG8gd29ybGQ=");
    assert_eq!(base64_decode("aGVsbG8gd29ybGQ=").unwrap(), b"hello world".to_vec());
    assert_eq!(base64_decode("!!!").unwrap_err(), UtilError::InvalidBase64);
}

#[test]
fn sha256_matches_known_digest() {
    assert_eq!(
        sha256_hash("abc"),
        "ba7816bf8f01cfea414140de5dae2223b00361a396177a9cb410ff61f20015ad"
    );
}

#[test]
fn hmac_check_compares_secret_prefixed_digest() {
    // SHA-256 of "secretdata", hex-encoded.
    let signature = "ca2c6fe0b879f58a8afea413fef7202c94a5156ccfb5d22c4ef690af5117a081";
    assert!(verify_hmac_sha256("data", signature, "secret"));
    assert!(!verify_hmac_sha256("data", signature, "other"));
    assert!(!verify_hmac_sha256("data", "nope", "secret"));
}

#[test]
fn clean_path_resolves_dots_and_slashes() {
    assert_eq!(clean_path("/a/b/../c"), "/a/c");
    assert_eq!(clean_path("/a/./b"), "/a/b");
    assert_eq!(clean_path("//a//b//"), "/a/b");
    assert_eq!(clean_path("/.."), "/");
    assert_eq!(clean_path("/../../x"), "/x");
    assert_eq!(clean_path(""), "/");
    assert_eq!(clean_path("/"), "/");
    assert_eq!(clean_path("plain"), "/plain");
}

#[test]
fn string_helpers_behave() {
    assert!(str_eq("abc", "abc"));
    assert!(!str_eq("abc", "abd"));
    assert!(starts_with_str("abcdef", "abc"));
    assert!(!starts_with_str("ab", "abc"));
    assert!(contains_str("hello world", "lo wo"));
    assert!(!contains_str("hello", "z"));
    assert!(contains_str("anything", ""));
    assert_eq!(parse_u64("42"), Some(42));
    assert_eq!(parse_u64("+42"), Some(42));
    assert_eq!(parse_u64(""), None);
    assert_eq!(parse_u64("4x2"), None);
    assert_eq!(parse_u64("18446744073709551615"), Some(u64::MAX));
    assert_eq!(parse_u64("18446744073709551616"), None);
    assert_eq!(parse_bool("true"), Some(true));
    assert_eq!(parse_bool("false"), Some(false));
    assert_eq!(parse_bool("TRUE"), None);
}
