//! Proxy configuration: the rule and backend records, the defaults, and the
//! fallback logic that turns raw configuration sources into a full
//! configuration.
//!
//! Reading the sources (environment-like variables, JSON decoding) is I/O and
//! lives outside the library; what arrives here are plain optional values,
//! where `None` stands for an unset or undecodable entry.  Malformed scalar
//! entries silently fall back to the documented defaults.

use vstd::prelude::*;

use crate::strutil::{parse_bool, parse_u64, spec_parse_bool, spec_parse_u64};

verus! {

/// An ordered path-rewrite rule: the first rule whose pattern matches the
/// request path wins.
#[derive(Debug, Clone)]
pub struct PathRewriteRule {
    pub pattern: String,
    pub replacement: String,
}

/// Per-backend configuration.  `weight`, `health_check_path` and `timeout`
/// are accepted but not consulted by the active algorithms.
#[derive(Debug, Clone)]
pub struct BackendConfig {
    pub url: String,
    pub weight: u32,
    pub health_check_path: Option<String>,
    pub timeout: Option<u64>,
}

/// An access-control rule: `rule_type` names the kind of check and `pattern`
/// the value it matches against.
#[derive(Debug, Clone)]
pub struct AccessRule {
    pub rule_type: String,
    pub pattern: String,
}

/// The whole proxy configuration, loaded once per process start.
pub struct ProxyConfig {
    pub backends: Vec<String>,
    pub backend_configs: Vec<BackendConfig>,
    pub load_balancer_strategy: String,
    pub health_check_enabled: bool,
    pub health_check_interval: u64,
    pub health_check_timeout: u64,
    pub cache_enabled: bool,
    pub cache_ttl: u64,
    pub path_rewrite_rules: Vec<PathRewriteRule>,
    pub custom_headers: Vec<(String, String)>,
    pub access_rules: Vec<AccessRule>,
    pub log_level: String,
    pub timeout: u64,
    pub retry_attempts: u32,
}

/// The scalar configuration defaults.
pub open spec fn spec_defaults_hold(c: ProxyConfig) -> bool {
    &&& c.load_balancer_strategy@ == "round_robin"@
    &&& c.health_check_enabled == true
    &&& c.health_check_interval == 30
    &&& c.health_check_timeout == 5
    &&& c.cache_enabled == false
    &&& c.cache_ttl == 300
    &&& c.log_level@ == "info"@
    &&& c.timeout == 30
    &&& c.retry_attempts == 3
}

impl Default for ProxyConfig {
    /// The documented defaults: a single example backend, round-robin
    /// selection, health checking on with a 30 s recovery window, caching
    /// off with a 300 s TTL, and no rules or custom headers.
    fn default() -> (r: ProxyConfig)
        ensures
            r.backends@.len() == 1,
            r.backends@[0]@ == "https://httpbin.org"@,
            r.backend_configs@.len() == 0,
            r.path_rewrite_rules@.len() == 0,
            r.custom_headers@.len() == 0,
            r.access_rules@.len() == 0,
            spec_defaults_hold(r),
    {
        let mut backends: Vec<String> = Vec::new();
        backends.push(String::from_str("https://httpbin.org"));
        ProxyConfig {
            backends,
            backend_configs: Vec::new(),
            load_balancer_strategy: String::from_str("round_robin"),
            health_check_enabled: true,
            health_check_interval: 30,
            health_check_timeout: 5,
            cache_enabled: false,
            cache_ttl: 300,
            path_rewrite_rules: Vec::new(),
            custom_headers: Vec::new(),
            access_rules: Vec::new(),
            log_level: String::from_str("info"),
            timeout: 30,
            retry_attempts: 3,
        }
    }
}

/// The boolean a raw source entry denotes: unset or malformed entries fall
/// back to `dflt`.
pub open spec fn spec_bool_source(src: Option<String>, dflt: bool) -> bool {
    match src {
        Option::None => dflt,
        Option::Some(s) => match spec_parse_bool(s@) {
            Option::Some(v) => v,
            Option::None => dflt,
        },
    }
}

/// The `u64` a raw source entry denotes, with fallback to `dflt`.
pub open spec fn spec_u64_source(src: Option<String>, dflt: u64) -> u64 {
    match src {
        Option::None => dflt,
        Option::Some(s) => match spec_parse_u64(s@) {
            Option::Some(v) => v,
            Option::None => dflt,
        },
    }
}

/// The `u32` a raw source entry denotes: values that do not fit in 32 bits
/// are malformed and fall back to `dflt`.
pub open spec fn spec_u32_source(src: Option<String>, dflt: u32) -> u32 {
    match src {
        Option::None => dflt,
        Option::Some(s) => match spec_parse_u64(s@) {
            Option::Some(v) => if v <= u32::MAX {
                v as u32
            } else {
                dflt
            },
            Option::None => dflt,
        },
    }
}

fn bool_source(src: Option<String>, dflt: bool) -> (r: bool)
    ensures
        r == spec_bool_source(src, dflt),
{
    match src {
        Option::None => dflt,
        Option::Some(s) => match parse_bool(s.as_str()) {
            Option::Some(v) => v,
            Option::None => dflt,
        },
    }
}

fn u64_source(src: Option<String>, dflt: u64) -> (r: u64)
    ensures
        r == spec_u64_source(src, dflt),
{
    match src {
        Option::None => dflt,
        Option::Some(s) => match parse_u64(s.as_str()) {
            Option::Some(v) => v,
            Option::None => dflt,
        },
    }
}

fn u32_source(src: Option<String>, dflt: u32) -> (r: u32)
    ensures
        r == spec_u32_source(src, dflt),
{
    match src {
        Option::None => dflt,
        Option::Some(s) => match parse_u64(s.as_str()) {
            Option::Some(v) => if v <= u32::MAX as u64 {
                v as u32
            } else {
                dflt
            },
            Option::None => dflt,
        },
    }
}

impl ProxyConfig {
    /// Builds the configuration from raw sources, one per configurable
    /// entry.  `None` stands for an entry that was unset or could not be
    /// decoded; scalar entries that fail to parse fall back to the defaults,
    /// exactly as `Default` gives them.
    pub fn from_sources(
        backends: Option<Vec<String>>,
        backend_configs: Option<Vec<BackendConfig>>,
        load_balancer_strategy: Option<String>,
        health_check_enabled: Option<String>,
        health_check_interval: Option<String>,
        cache_enabled: Option<String>,
        cache_ttl: Option<String>,
        path_rewrite_rules: Option<Vec<PathRewriteRule>>,
        custom_headers: Option<Vec<(String, String)>>,
        access_rules: Option<Vec<AccessRule>>,
        log_level: Option<String>,
        timeout: Option<String>,
        retry_attempts: Option<String>,
    ) -> (r: ProxyConfig)
        ensures
            r.backends == match backends {
                Option::Some(v) => v,
                Option::None => r.backends,
            },
            backends is None ==> r.backends@.len() == 1 && r.backends@[0]@
                == "https://httpbin.org"@,
            r.backend_configs == match backend_configs {
                Option::Some(v) => v,
                Option::None => r.backend_configs,
            },
            backend_configs is None ==> r.backend_configs@.len() == 0,
            r.load_balancer_strategy == match load_balancer_strategy {
                Option::Some(v) => v,
                Option::None => r.load_balancer_strategy,
            },
            load_balancer_strategy is None ==> r.load_balancer_strategy@ == "round_robin"@,
            r.health_check_enabled == spec_bool_source(health_check_enabled, true),
            r.health_check_interval == spec_u64_source(health_check_interval, 30),
            r.health_check_timeout == 5,
            r.cache_enabled == spec_bool_source(cache_enabled, false),
            r.cache_ttl == spec_u64_source(cache_ttl, 300),
            r.path_rewrite_rules == match path_rewrite_rules {
                Option::Some(v) => v,
                Option::None => r.path_rewrite_rules,
            },
            path_rewrite_rules is None ==> r.path_rewrite_rules@.len() == 0,
            r.custom_headers == match custom_headers {
                Option::Some(v) => v,
                Option::None => r.custom_headers,
            },
            custom_headers is None ==> r.custom_headers@.len() == 0,
            r.access_rules == match access_rules {
                Option::Some(v) => v,
                Option::None => r.access_rules,
            },
            access_rules is None ==> r.access_rules@.len() == 0,
            r.log_level == match log_level {
                Option::Some(v) => v,
                Option::None => r.log_level,
            },
            log_level is None ==> r.log_level@ == "info"@,
            r.timeout == spec_u64_source(timeout, 30),
            r.retry_attempts == spec_u32_source(retry_attempts, 3),
    {
        let mut config = ProxyConfig::default();
        match backends {
            Option::Some(v) => {
                config.backends = v;
            },
            Option::None => {},
        }
        match backend_configs {
            Option::Some(v) => {
                config.backend_configs = v;
            },
            Option::None => {},
        }
        match load_balancer_strategy {
            Option::Some(v) => {
                config.load_balancer_strategy = v;
            },
            Option::None => {},
        }
        config.health_check_enabled = bool_source(health_check_enabled, true);
        config.health_check_interval = u64_source(health_check_interval, 30);
        config.cache_enabled = bool_source(cache_enabled, false);
        config.cache_ttl = u64_source(cache_ttl, 300);
        match path_rewrite_rules {
            Option::Some(v) => {
                config.path_rewrite_rules = v;
            },
            Option::None => {},
        }
        match custom_headers {
            Option::Some(v) => {
                config.custom_headers = v;
            },
            Option::None => {},
        }
        match access_rules {
            Option::Some(v) => {
                config.access_rules = v;
            },
            Option::None => {},
        }
        match log_level {
            Option::Some(v) => {
                config.log_level = v;
            },
            Option::None => {},
        }
        config.timeout = u64_source(timeout, 30);
        config.retry_attempts = u32_source(retry_attempts, 3);
        config
    }
}

} // verus!
