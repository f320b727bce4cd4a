//! Cache decisions: the deterministic request fingerprint, and the
//! cacheability rules.  The durable store itself (get/put by key with a TTL)
//! is an external collaborator; the runtime performs the lookups and writes
//! with the keys and verdicts computed here.

use vstd::prelude::*;

use crate::config::ProxyConfig;
use crate::digest::{sha256_hash, spec_sha256_hex};
use crate::strutil::{contains_str, spec_contains_seq};

verus! {

/// The string the cache fingerprint hashes: method, path and query joined
/// under the fixed `proxy:` prefix.
pub open spec fn spec_cache_key_string(method: Seq<char>, path: Seq<char>, query: Seq<char>) -> Seq<
    char,
> {
    "proxy:"@ + method + ":"@ + path + ":"@ + query
}

/// The cache fingerprint: the hex SHA-256 of the key string.  A pure
/// function of method, path and query.
pub open spec fn spec_fingerprint(method: Seq<char>, path: Seq<char>, query: Seq<char>) -> Seq<
    char,
> {
    spec_sha256_hex(spec_cache_key_string(method, path, query))
}

/// Whether a response may be stored: a success status, no `no-cache`,
/// `no-store` or `private` directive in `Cache-Control`, and no wildcard
/// `Vary`.
pub open spec fn spec_is_cacheable(
    status: u16,
    cache_control: Option<Seq<char>>,
    vary: Option<Seq<char>>,
) -> bool {
    &&& 200 <= status < 300
    &&& match cache_control {
        Option::Some(c) => !spec_contains_seq(c, "no-cache"@) && !spec_contains_seq(c, "no-store"@)
            && !spec_contains_seq(c, "private"@),
        Option::None => true,
    }
    &&& match vary {
        Option::Some(v) => !spec_contains_seq(v, "*"@),
        Option::None => true,
    }
}

/// Decides what may enter or leave the cache.
pub struct CacheManager {
    /// Whether caching is enabled at all.
    pub cache_enabled: bool,
    /// The TTL, in seconds, for stored responses.
    pub cache_ttl: u64,
}

impl CacheManager {
    /// A manager carrying the configured cache settings.
    pub fn new(config: &ProxyConfig) -> (r: CacheManager)
        ensures
            r.cache_enabled == config.cache_enabled,
            r.cache_ttl == config.cache_ttl,
    {
        CacheManager { cache_enabled: config.cache_enabled, cache_ttl: config.cache_ttl }
    }

    /// The fingerprint under which a request is cached: the hex SHA-256 of
    /// `proxy:{method}:{path}:{query}`, with an absent query read as the
    /// empty string.
    pub fn generate_cache_key(&self, method: &str, path: &str, query: Option<&str>) -> (r: String)
        ensures
            r@ == spec_fingerprint(method@, path@, match query {
                Option::Some(q) => q@,
                Option::None => Seq::empty(),
            }),
    {
        let q: &str = match query {
            Option::Some(q) => q,
            Option::None => "",
        };
        proof {
            reveal_strlit("");
        }
        let key = String::from_str("proxy:").concat(method).concat(":").concat(path).concat(
            ":",
        ).concat(q);
        sha256_hash(key.as_str())
    }

    /// The key to look up before dispatching a backend-mode request, or
    /// nothing when caching is disabled.
    pub fn cache_lookup_key(&self, method: &str, path: &str, query: Option<&str>) -> (r: Option<
        String,
    >)
        ensures
            r is Some <==> self.cache_enabled,
            r matches Option::Some(k) ==> k@ == spec_fingerprint(method@, path@, match query {
                Option::Some(q) => q@,
                Option::None => Seq::empty(),
            }),
    {
        if self.cache_enabled {
            Option::Some(self.generate_cache_key(method, path, query))
        } else {
            Option::None
        }
    }

    /// Whether a response with this status and these cache headers may be
    /// stored.
    pub fn is_cacheable(&self, status: u16, cache_control: Option<&String>, vary: Option<&String>)
        -> (r: bool)
        ensures
            r == spec_is_cacheable(status, match cache_control {
                Option::Some(c) => Option::Some(c@),
                Option::None => Option::None,
            }, match vary {
                Option::Some(v) => Option::Some(v@),
                Option::None => Option::None,
            }),
    {
        if !(200 <= status && status < 300) {
            return false;
        }
        match cache_control {
            Option::Some(c) => {
                if contains_str(c.as_str(), "no-cache") || contains_str(c.as_str(), "no-store")
                    || contains_str(c.as_str(), "private") {
                    return false;
                }
            },
            Option::None => {},
        }
        match vary {
            Option::Some(v) => {
                if contains_str(v.as_str(), "*") {
                    return false;
                }
            },
            Option::None => {},
        }
        true
    }

    /// Whether a response should actually be written back: caching must be
    /// enabled and the response cacheable.
    pub fn should_store(&self, status: u16, cache_control: Option<&String>, vary: Option<&String>)
        -> (r: bool)
        ensures
            r == (self.cache_enabled && spec_is_cacheable(status, match cache_control {
                Option::Some(c) => Option::Some(c@),
                Option::None => Option::None,
            }, match vary {
                Option::Some(v) => Option::Some(v@),
                Option::None => Option::None,
            })),
    {
        self.cache_enabled && self.is_cacheable(status, cache_control, vary)
    }
}

/// The fingerprint is deterministic: requests that agree on method, path and
/// query receive the same fingerprint.
pub proof fn lemma_fingerprint_deterministic(
    m1: Seq<char>,
    p1: Seq<char>,
    q1: Seq<char>,
    m2: Seq<char>,
    p2: Seq<char>,
    q2: Seq<char>,
)
    requires
        m1 == m2,
        p1 == p2,
        q1 == q2,
    ensures
        spec_fingerprint(m1, p1, q1) == spec_fingerprint(m2, p2, q2),
{
}

/// Requests that agree on method and path but differ in query hash different
/// key strings, so their fingerprints differ whenever SHA-256 maps the two
/// key strings apart (hash collisions are the only possible exception, and
/// are outside this model).
pub proof fn lemma_fingerprint_query_sensitive(
    m: Seq<char>,
    p: Seq<char>,
    q1: Seq<char>,
    q2: Seq<char>,
)
    requires
        q1 != q2,
    ensures
        spec_cache_key_string(m, p, q1) != spec_cache_key_string(m, p, q2),
{
    let stem = "proxy:"@ + m + ":"@ + p + ":"@;
    assert(spec_cache_key_string(m, p, q1) =~= stem + q1);
    assert(spec_cache_key_string(m, p, q2) =~= stem + q2);
    if stem + q1 == stem + q2 {
        assert(q1.len() == q2.len());
        assert forall|i: int| 0 <= i < q1.len() implies q1[i] == q2[i] by {
            assert((stem + q1)[stem.len() + i] == q1[i]);
            assert((stem + q2)[stem.len() + i] == q2[i]);
        }
        assert(q1 =~= q2);
    }
}

} // verus!
