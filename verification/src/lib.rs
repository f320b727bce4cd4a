//! A verified core for an edge reverse proxy.
//!
//! The crate models the request-handling logic of a small reverse proxy:
//! choosing among upstream backends, tracking their health, resolving the
//! proxy target (either a configured backend plus path-rewrite rules, or an
//! absolute URL embedded in the request path), normalizing redirects, and
//! deciding each step of the per-request pipeline.  All decision logic is
//! verified; network and storage calls are left to the surrounding runtime,
//! which feeds their results back in as plain values.

pub mod cache;
pub mod clock;
pub mod config;
pub mod digest;
pub mod health;
pub mod http;
pub mod load_balancer;
pub mod middleware;
pub mod monitoring;
pub mod rewrite;
pub mod strutil;
pub mod urls;
pub mod utils;

use vstd::prelude::*;

use crate::cache::CacheManager;
use crate::config::ProxyConfig;
use crate::health::HealthChecker;
use crate::http::{HeaderMap, ProxyResponse, RequestInfo};
use crate::load_balancer::{LoadBalancer, LoadBalancerStrategy};
use crate::middleware::spec_access_allowed;
use crate::rewrite::{
    build_target_url, extract_target_url_from_path, normalize_location, spec_embedded_target,
    spec_normalize_location, spec_target_url,
};
use crate::strutil::{spec_lowercase, str_eq};

verus! {

/// The terminal failures of the pipeline.
#[derive(Debug, Clone, Copy, PartialEq, Eq, Structural)]
pub enum ProxyError {
    /// Unreadable or malformed configuration at startup.
    ConfigError,
    /// An access rule matched; the request was aborted before any backend
    /// contact.
    AccessDenied,
    /// The healthy set was empty at selection time.
    NoHealthyBackend,
    /// A transport failure or dispatch error at the backend.
    BackendUnavailable,
}

impl ProxyError {
    /// The HTTP status this failure is reported with.
    pub fn status_code(&self) -> (r: u16)
        ensures
            r == match *self {
                ProxyError::ConfigError => 500u16,
                ProxyError::AccessDenied => 403u16,
                ProxyError::NoHealthyBackend => 503u16,
                ProxyError::BackendUnavailable => 502u16,
            },
    {
        match *self {
            ProxyError::ConfigError => 500,
            ProxyError::AccessDenied => 403,
            ProxyError::NoHealthyBackend => 503,
            ProxyError::BackendUnavailable => 502,
        }
    }

    /// The fixed message body this failure is reported with.
    pub fn message(&self) -> (r: String)
        ensures
            r@ == match *self {
                ProxyError::ConfigError => "Proxy configuration error"@,
                ProxyError::AccessDenied => "Access denied"@,
                ProxyError::NoHealthyBackend => "No healthy backends available"@,
                ProxyError::BackendUnavailable => "Backend unavailable"@,
            },
    {
        match *self {
            ProxyError::ConfigError => String::from_str("Proxy configuration error"),
            ProxyError::AccessDenied => String::from_str("Access denied"),
            ProxyError::NoHealthyBackend => String::from_str("No healthy backends available"),
            ProxyError::BackendUnavailable => String::from_str("Backend unavailable"),
        }
    }
}

/// Where an inbound path is routed: the two management endpoints, or the
/// proxy pipeline.
#[derive(Debug, Clone, Copy, PartialEq, Eq, Structural)]
pub enum Route {
    Health,
    Stats,
    Pipeline,
}

/// The route an inbound path takes.
pub open spec fn spec_route(path: Seq<char>) -> Route {
    if path == "/_proxy/health"@ {
        Route::Health
    } else if path == "/_proxy/stats"@ {
        Route::Stats
    } else {
        Route::Pipeline
    }
}

/// Routes a path: the fixed management endpoints are served directly, and
/// every other path enters the request pipeline.
pub fn route_path(path: &str) -> (r: Route)
    ensures
        r == spec_route(path@),
{
    if str_eq(path, "/_proxy/health") {
        Route::Health
    } else if str_eq(path, "/_proxy/stats") {
        Route::Stats
    } else {
        Route::Pipeline
    }
}

/// The full CORS header set the pipeline attaches to every response.
pub open spec fn spec_full_cors_value(n: Seq<char>) -> Option<Seq<char>> {
    if n == "Access-Control-Allow-Origin"@ {
        Option::Some("*"@)
    } else if n == "Access-Control-Allow-Methods"@ {
        Option::Some("GET, POST, PUT, DELETE, OPTIONS, HEAD, PATCH"@)
    } else if n == "Access-Control-Allow-Headers"@ {
        Option::Some(
            "Content-Type, Authorization, X-Requested-With, Accept, Origin, User-Agent, DNT, Cache-Control, X-Mx-ReqToken, Keep-Alive, X-Requested-With, If-Modified-Since"@,
        )
    } else if n == "Access-Control-Max-Age"@ {
        Option::Some("86400"@)
    } else if n == "Access-Control-Allow-Credentials"@ {
        Option::Some("true"@)
    } else {
        Option::None
    }
}

/// The prefix of `s` up to (and excluding) its `n`-th slash; all of `s` when
/// it carries fewer than `n` slashes.
pub open spec fn spec_prefix_to_nth_slash(s: Seq<char>, n: int) -> Seq<char>
    decreases s.len(),
{
    if s.len() == 0 {
        s
    } else if s[0] == '/' {
        if n <= 1 {
            Seq::empty()
        } else {
            seq!['/'] + spec_prefix_to_nth_slash(s.skip(1), n - 1)
        }
    } else {
        seq![s[0]] + spec_prefix_to_nth_slash(s.skip(1), n)
    }
}

/// The backend base of a target URL: scheme, separator and host — the part
/// before the third slash.
pub open spec fn spec_backend_base(s: Seq<char>) -> Seq<char> {
    spec_prefix_to_nth_slash(s, 3)
}

/// Extracts the backend base from a target URL, for health marking.
pub fn backend_base_of(s: &str) -> (r: String)
    ensures
        r@ == spec_backend_base(s@),
{
    let len = s.unicode_len();
    proof {
        assert(s@.skip(0) =~= s@);
        assert(s@.subrange(0, 0) + spec_prefix_to_nth_slash(s@, 3) =~= spec_prefix_to_nth_slash(
            s@,
            3,
        ));
    }
    let mut i: usize = 0;
    let mut seen: u32 = 0;
    while i < len
        invariant
            i <= len,
            len == s@.len(),
            seen <= 2,
            spec_prefix_to_nth_slash(s@, 3) == s@.subrange(0, i as int) + spec_prefix_to_nth_slash(
                s@.skip(i as int),
                3 - seen,
            ),
        decreases len - i,
    {
        let c = s.get_char(i);
        proof {
            assert(s@.skip(i as int)[0] == s@[i as int]);
            assert(s@.skip(i as int).skip(1) =~= s@.skip(i + 1));
        }
        if c == '/' {
            if seen == 2 {
                proof {
                    assert(s@.subrange(0, i as int) + Seq::<char>::empty() =~= s@.subrange(
                        0,
                        i as int,
                    ));
                }
                let r = s.substring_char(0, i);
                return String::from_str(r);
            }
            seen = seen + 1;
            proof {
                assert(s@.subrange(0, i as int) + (seq!['/'] + spec_prefix_to_nth_slash(
                    s@.skip(i + 1),
                    3 - seen,
                )) =~= s@.subrange(0, i + 1) + spec_prefix_to_nth_slash(s@.skip(i + 1), 3 - seen));
            }
        } else {
            proof {
                assert(s@.subrange(0, i as int) + (seq![s@[i as int]] + spec_prefix_to_nth_slash(
                    s@.skip(i + 1),
                    3 - seen,
                )) =~= s@.subrange(0, i + 1) + spec_prefix_to_nth_slash(s@.skip(i + 1), 3 - seen));
            }
        }
        i += 1;
    }
    proof {
        assert(s@.skip(len as int) =~= Seq::<char>::empty());
        assert(s@.subrange(0, len as int) + Seq::<char>::empty() =~= s@);
    }
    String::from_str(s)
}

/// Whether a status is a redirect.
pub open spec fn spec_is_redirect(status: u16) -> bool {
    300 <= status < 400
}

/// How a request's body is forwarded: any method other than GET and HEAD
/// carries the original body unchanged.
pub fn should_forward_body(method: &str) -> (r: bool)
    ensures
        r == (method@ != "GET"@ && method@ != "HEAD"@),
{
    !(str_eq(method, "GET") || str_eq(method, "HEAD"))
}

/// How target resolution ended for one request.
pub enum TargetResolution {
    /// An absolute URL was embedded in the request path; backend selection,
    /// caching and health side effects are bypassed.
    Embedded(String),
    /// Backend mode: the target built from a selected healthy backend.
    Backend(String),
    /// Backend mode with an empty healthy set: fail fast.
    NoHealthyBackend,
}

/// The per-request orchestrator's verified core.  The runtime drives it:
/// each step decides from plain values, and every network or storage call
/// happens outside, its result fed back in.
pub struct ReverseProxy {
    pub config: ProxyConfig,
    pub load_balancer: LoadBalancer,
    pub health_checker: HealthChecker,
    pub metrics: crate::monitoring::Metrics,
    pub cache_manager: CacheManager,
}

impl ReverseProxy {
    /// The component invariants that every step preserves.
    pub open spec fn wf(&self) -> bool {
        &&& self.health_checker.wf()
        &&& self.metrics.wf()
    }

    /// Wires the components from a loaded configuration: the strategy is
    /// parsed from its configured name, the selector gets the backend list
    /// and a fresh counter, and the health tracker starts with every backend
    /// healthy.
    pub fn from_config(config: ProxyConfig) -> (r: ReverseProxy)
        ensures
            r.wf(),
            r.load_balancer.backends@ == config.backends@,
            r.load_balancer.strategy == crate::load_balancer::spec_strategy_of(
                spec_lowercase(config.load_balancer_strategy@),
            ),
            r.load_balancer.current_index == 0,
            r.health_checker.backends@ == config.backends@,
            r.health_checker.health_check_enabled == config.health_check_enabled,
            r.health_checker.health_check_interval == config.health_check_interval,
            r.health_checker.unhealthy_backends@.len() == 0,
            r.cache_manager.cache_enabled == config.cache_enabled,
            r.cache_manager.cache_ttl == config.cache_ttl,
            r.metrics.total_requests == 0,
            r.config == config,
    {
        let strategy = LoadBalancerStrategy::from_name(config.load_balancer_strategy.as_str());
        let load_balancer = LoadBalancer::with_strategy(&config.backends, strategy);
        let health_checker = HealthChecker::new(&config);
        let metrics = crate::monitoring::Metrics::new();
        let cache_manager = CacheManager::new(&config);
        ReverseProxy { config, load_balancer, health_checker, metrics, cache_manager }
    }

    /// Adds the full CORS header set to a response, overwriting any
    /// equally-named headers and leaving all others unchanged.
    pub fn add_cors_headers(&self, headers: &mut HeaderMap)
        requires
            old(headers).wf(),
        ensures
            final(headers).wf(),
            forall|n: Seq<char>|
                #[trigger] final(headers).spec_get(n) == if spec_full_cors_value(n) is Some {
                    spec_full_cors_value(n)
                } else {
                    old(headers).spec_get(n)
                },
    {
        proof {
            reveal_strlit("Access-Control-Allow-Origin");
            reveal_strlit("Access-Control-Allow-Methods");
            reveal_strlit("Access-Control-Allow-Headers");
            reveal_strlit("Access-Control-Max-Age");
            reveal_strlit("Access-Control-Allow-Credentials");
            assert("Access-Control-Allow-Origin"@.len() == 27);
            assert("Access-Control-Allow-Methods"@.len() == 28);
            assert("Access-Control-Allow-Headers"@.len() == 28);
            assert("Access-Control-Max-Age"@.len() == 22);
            assert("Access-Control-Allow-Credentials"@.len() == 32);
            assert("Access-Control-Allow-Methods"@[21] != "Access-Control-Allow-Headers"@[21]);
        }
        headers.set("Access-Control-Allow-Origin", "*");
        proof {
            assert(headers.spec_get("Access-Control-Allow-Origin"@) == Option::Some("*"@));
        }
        headers.set("Access-Control-Allow-Methods", "GET, POST, PUT, DELETE, OPTIONS, HEAD, PATCH");
        proof {
            assert(headers.spec_get("Access-Control-Allow-Origin"@) == Option::Some("*"@));
            assert(headers.spec_get("Access-Control-Allow-Methods"@) == Option::Some(
                "GET, POST, PUT, DELETE, OPTIONS, HEAD, PATCH"@,
            ));
        }
        headers.set(
            "Access-Control-Allow-Headers",
            "Content-Type, Authorization, X-Requested-With, Accept, Origin, User-Agent, DNT, Cache-Control, X-Mx-ReqToken, Keep-Alive, X-Requested-With, If-Modified-Since",
        );
        proof {
            assert(headers.spec_get("Access-Control-Allow-Origin"@) == Option::Some("*"@));
            assert(headers.spec_get("Access-Control-Allow-Methods"@) == Option::Some(
                "GET, POST, PUT, DELETE, OPTIONS, HEAD, PATCH"@,
            ));
            assert(headers.spec_get("Access-Control-Allow-Headers"@) == Option::Some(
                "Content-Type, Authorization, X-Requested-With, Accept, Origin, User-Agent, DNT, Cache-Control, X-Mx-ReqToken, Keep-Alive, X-Requested-With, If-Modified-Since"@,
            ));
        }
        headers.set("Access-Control-Max-Age", "86400");
        proof {
            assert(headers.spec_get("Access-Control-Allow-Origin"@) == Option::Some("*"@));
            assert(headers.spec_get("Access-Control-Allow-Methods"@) == Option::Some(
                "GET, POST, PUT, DELETE, OPTIONS, HEAD, PATCH"@,
            ));
            assert(headers.spec_get("Access-Control-Allow-Headers"@) == Option::Some(
                "Content-Type, Authorization, X-Requested-With, Accept, Origin, User-Agent, DNT, Cache-Control, X-Mx-ReqToken, Keep-Alive, X-Requested-With, If-Modified-Since"@,
            ));
            assert(headers.spec_get("Access-Control-Max-Age"@) == Option::Some("86400"@));
        }
        headers.set("Access-Control-Allow-Credentials", "true");
        proof {
            assert(headers.spec_get("Access-Control-Allow-Origin"@) == Option::Some("*"@));
            assert(headers.spec_get("Access-Control-Allow-Methods"@) == Option::Some(
                "GET, POST, PUT, DELETE, OPTIONS, HEAD, PATCH"@,
            ));
            assert(headers.spec_get("Access-Control-Allow-Headers"@) == Option::Some(
                "Content-Type, Authorization, X-Requested-With, Accept, Origin, User-Agent, DNT, Cache-Control, X-Mx-ReqToken, Keep-Alive, X-Requested-With, If-Modified-Since"@,
            ));
            assert(headers.spec_get("Access-Control-Max-Age"@) == Option::Some("86400"@));
            assert(headers.spec_get("Access-Control-Allow-Credentials"@) == Option::Some("true"@));
        }
    }

    /// The terminal answer to an OPTIONS preflight request: status 200, an
    /// empty body, and exactly the full CORS header set — independent of
    /// configuration; every further step is skipped.
    pub fn handle_cors_preflight(&self) -> (r: ProxyResponse)
        ensures
            r.status == 200,
            r.body@.len() == 0,
            r.headers.wf(),
            forall|n: Seq<char>| #[trigger] r.headers.spec_get(n) == spec_full_cors_value(n),
    {
        let mut headers = HeaderMap::new();
        self.add_cors_headers(&mut headers);
        ProxyResponse { status: 200, headers, body: String::new() }
    }

    /// The inbound access decision: nothing when the access rules let the
    /// request through, the access-denied failure otherwise.  The client IP
    /// is read from the `CF-Connecting-IP` header and the user agent from
    /// `User-Agent`; the country code is platform-supplied.
    pub fn apply_request_middleware(&self, req: &RequestInfo) -> (r: Option<ProxyError>)
        ensures
            r is None <==> spec_access_allowed(
                self.config.access_rules@,
                req.headers.spec_get("CF-Connecting-IP"@),
                match req.country {
                    Option::Some(c) => Option::Some(c@),
                    Option::None => Option::None,
                },
                req.headers.spec_get("User-Agent"@),
            ),
            r matches Option::Some(e) ==> e == ProxyError::AccessDenied,
    {
        let ip = req.headers.get("CF-Connecting-IP");
        let ua = req.headers.get("User-Agent");
        let country = match &req.country {
            Option::Some(c) => Option::Some(c),
            Option::None => Option::None,
        };
        if crate::middleware::check_access_control(&self.config.access_rules, ip, country, ua) {
            Option::None
        } else {
            Option::Some(ProxyError::AccessDenied)
        }
    }

    /// Extracts the target URL embedded in the request path, if any: the
    /// path must be `/` followed by an absolute `http` or `https` URL.  A
    /// parse failure falls through silently to backend-mode routing.
    pub fn extract_embedded_target(&self, req: &RequestInfo) -> (r: Option<String>)
        ensures
            r matches Option::Some(t) ==> spec_embedded_target(req.path@, match req.query {
                Option::Some(q) => Option::Some(q@),
                Option::None => Option::None,
            }) == Option::Some(t@),
            r is None ==> spec_embedded_target(req.path@, match req.query {
                Option::Some(q) => Option::Some(q@),
                Option::None => Option::None,
            }) is None,
    {
        let query: Option<&str> = match &req.query {
            Option::Some(q) => Option::Some(q.as_str()),
            Option::None => Option::None,
        };
        extract_target_url_from_path(req.path.as_str(), query)
    }

    /// Backend-mode target resolution at time `now`: selects a healthy
    /// backend and builds the target from the rewritten path and the query.
    /// With an empty healthy set it fails fast; round robin consumes one
    /// counter step, and every returned target is built on some backend of
    /// the healthy list.
    pub fn select_backend_target(&mut self, req: &RequestInfo, now: u64) -> (r: TargetResolution)
        requires
            old(self).wf(),
        ensures
            final(self).wf(),
            final(self).config == old(self).config,
            final(self).health_checker == old(self).health_checker,
            final(self).metrics == old(self).metrics,
            final(self).cache_manager == old(self).cache_manager,
            ({
                let healthy = old(self).health_checker.backends@.filter(
                    |b: String| old(self).health_checker.spec_is_healthy(b@, now),
                );
                let query = match req.query {
                    Option::Some(q) => Option::Some(q@),
                    Option::None => Option::<Seq<char>>::None,
                };
                match r {
                    TargetResolution::NoHealthyBackend => healthy.len() == 0,
                    TargetResolution::Backend(t) => healthy.len() > 0 && (exists|i: int|
                        0 <= i < healthy.len() && t@ == spec_target_url(
                            (#[trigger] healthy[i])@,
                            old(self).config.path_rewrite_rules@,
                            req.path@,
                            query,
                        )) && (!(old(self).load_balancer.strategy is Random) ==> t@
                        == spec_target_url(
                        healthy[old(self).load_balancer.current_index as int % healthy.len() as int]@,
                        old(self).config.path_rewrite_rules@,
                        req.path@,
                        query,
                    ) && final(self).load_balancer.current_index
                        == crate::load_balancer::spec_next_counter(
                        old(self).load_balancer.current_index,
                    )),
                    TargetResolution::Embedded(_) => false,
                }
            }),
            final(self).load_balancer.backends == old(self).load_balancer.backends,
            final(self).load_balancer.strategy == old(self).load_balancer.strategy,
    {
        let healthy = self.health_checker.get_healthy_backends(now);
        match self.load_balancer.get_backend(&healthy) {
            Option::None => TargetResolution::NoHealthyBackend,
            Option::Some(backend) => {
                let query: Option<&str> = match &req.query {
                    Option::Some(q) => Option::Some(q.as_str()),
                    Option::None => Option::None,
                };
                let target = build_target_url(
                    backend.as_str(),
                    req.path.as_str(),
                    query,
                    &self.config.path_rewrite_rules,
                );
                TargetResolution::Backend(target)
            },
        }
    }

    /// The consequence of a failed dispatch: in backend mode the selected
    /// backend (the part of the target before the third slash) is marked
    /// unhealthy at `now`; in embedded-target mode health state is never
    /// touched.  Either way the request fails with the backend-unavailable
    /// error, with no retry against another backend.
    pub fn record_dispatch_failure(&mut self, embedded: bool, target: &str, now: u64) -> (r:
        ProxyError)
        requires
            old(self).wf(),
        ensures
            final(self).wf(),
            r == ProxyError::BackendUnavailable,
            embedded ==> final(self).health_checker == old(self).health_checker,
            !embedded ==> final(self).health_checker.spec_failure(spec_backend_base(target@))
                == Option::Some(now),
            !embedded ==> (forall|b2: Seq<char>|
                b2 != spec_backend_base(target@)
                    ==> #[trigger] final(self).health_checker.spec_failure(b2) == old(
                    self,
                ).health_checker.spec_failure(b2)),
            final(self).config == old(self).config,
            final(self).load_balancer == old(self).load_balancer,
            final(self).metrics == old(self).metrics,
            final(self).cache_manager == old(self).cache_manager,
            final(self).health_checker.backends == old(self).health_checker.backends,
            final(self).health_checker.health_check_enabled == old(
                self,
            ).health_checker.health_check_enabled,
            final(self).health_checker.health_check_interval == old(
                self,
            ).health_checker.health_check_interval,
    {
        if !embedded {
            let base = backend_base_of(target);
            self.health_checker.mark_unhealthy(base.as_str(), now);
        }
        ProxyError::BackendUnavailable
    }

    /// Whether the backend response is a redirect that embedded-target mode
    /// must normalize.
    pub fn is_redirect_response(&self, status: u16) -> (r: bool)
        ensures
            r == spec_is_redirect(status),
    {
        300 <= status && status < 400
    }

    /// Rewrites a redirect's `Location` header against the resolved target;
    /// a response without a `Location` is left untouched.
    pub fn handle_redirect_response(&self, response: &mut ProxyResponse, target: &str)
        requires
            old(response).headers.wf(),
        ensures
            final(response).headers.wf(),
            final(response).status == old(response).status,
            final(response).body == old(response).body,
            match old(response).headers.spec_get("Location"@) {
                Option::Some(loc) => final(response).headers.spec_get("Location"@)
                    == Option::Some(spec_normalize_location(loc, target@)) && forall|n: Seq<char>|
                    n != "Location"@ ==> #[trigger] final(response).headers.spec_get(n) == old(
                        response,
                    ).headers.spec_get(n),
                Option::None => final(response).headers == old(response).headers,
            },
    {
        let loc = match response.headers.get("Location") {
            Option::Some(l) => Option::Some(l.clone()),
            Option::None => Option::None,
        };
        match loc {
            Option::Some(l) => {
                let rewritten = normalize_location(l.as_str(), target);
                response.headers.set("Location", rewritten.as_str());
            },
            Option::None => {},
        }
    }

    /// Whether the final response should be written back to the cache:
    /// caching must be enabled, the status a success, `Cache-Control` free
    /// of `no-cache`, `no-store` and `private`, and `Vary` free of a
    /// wildcard.
    pub fn should_cache_response(
        &self,
        status: u16,
        cache_control: Option<&String>,
        vary: Option<&String>,
    ) -> (r: bool)
        ensures
            r == (self.config.cache_enabled && crate::cache::spec_is_cacheable(
                status,
                match cache_control {
                    Option::Some(c) => Option::Some(c@),
                    Option::None => Option::None,
                },
                match vary {
                    Option::Some(v) => Option::Some(v@),
                    Option::None => Option::None,
                },
            )),
    {
        if !self.config.cache_enabled {
            return false;
        }
        if !(200 <= status && status < 300) {
            return false;
        }
        match cache_control {
            Option::Some(c) => {
                if crate::strutil::contains_str(c.as_str(), "no-cache")
                    || crate::strutil::contains_str(c.as_str(), "no-store")
                    || crate::strutil::contains_str(c.as_str(), "private") {
                    return false;
                }
            },
            Option::None => {},
        }
        match vary {
            Option::Some(v) => !crate::strutil::contains_str(v.as_str(), "*"),
            Option::None => true,
        }
    }
}

/// The value the ordered custom-header list finally leaves under a name:
/// the last entry wins.
pub open spec fn spec_custom_last(custom: Seq<(String, String)>, n: Seq<char>) -> Option<Seq<char>>
    decreases custom.len(),
{
    if custom.len() == 0 {
        Option::None
    } else if custom.last().0@ == n {
        Option::Some(custom.last().1@)
    } else {
        spec_custom_last(custom.drop_last(), n)
    }
}

/// The outbound header transform before the custom overlay:
/// `X-Forwarded-For` is injected from the client-IP header when one is
/// present, `X-Forwarded-Proto` from the original scheme,
/// `X-Forwarded-Host` from the original `Host`; `Host` and `Origin` are
/// removed; every other header is forwarded unchanged.
pub open spec fn spec_base_outbound(req: &RequestInfo, n: Seq<char>) -> Option<Seq<char>> {
    if n == "X-Forwarded-For"@ {
        match req.headers.spec_get("CF-Connecting-IP"@) {
            Option::Some(ip) => Option::Some(ip),
            Option::None => req.headers.spec_get(n),
        }
    } else if n == "X-Forwarded-Proto"@ {
        Option::Some(
            if req.url_is_https {
                "https"@
            } else {
                "http"@
            },
        )
    } else if n == "X-Forwarded-Host"@ {
        match req.headers.spec_get("Host"@) {
            Option::Some(h) => Option::Some(h),
            Option::None => req.headers.spec_get(n),
        }
    } else if n == "Host"@ || n == "Origin"@ {
        Option::None
    } else {
        req.headers.spec_get(n)
    }
}

/// The full outbound header transform: the base transform, overlaid by the
/// configured custom headers, which take precedence on key collision.
pub open spec fn spec_outbound_header(
    req: &RequestInfo,
    custom: Seq<(String, String)>,
    n: Seq<char>,
) -> Option<Seq<char>> {
    match spec_custom_last(custom, n) {
        Option::Some(v) => Option::Some(v),
        Option::None => spec_base_outbound(req, n),
    }
}

impl ReverseProxy {
    /// Builds the headers of the outbound request from the inbound ones:
    /// forwarding headers injected, `Host` and `Origin` removed, and the
    /// configured custom headers overlaid last.
    pub fn build_proxy_headers(&self, req: &RequestInfo) -> (h: HeaderMap)
        requires
            req.headers.wf(),
        ensures
            h.wf(),
            forall|n: Seq<char>|
                #[trigger] h.spec_get(n) == spec_outbound_header(
                    req,
                    self.config.custom_headers@,
                    n,
                ),
    {
        proof {
            reveal_strlit("X-Forwarded-For");
            reveal_strlit("X-Forwarded-Proto");
            reveal_strlit("X-Forwarded-Host");
            reveal_strlit("Host");
            reveal_strlit("Origin");
            reveal_strlit("CF-Connecting-IP");
            assert("X-Forwarded-For"@.len() == 15);
            assert("X-Forwarded-Proto"@.len() == 17);
            assert("X-Forwarded-Host"@.len() == 16);
            assert("Host"@.len() == 4);
            assert("Origin"@.len() == 6);
            assert("CF-Connecting-IP"@.len() == 16);
            assert("X-Forwarded-Host"@[0] != "CF-Connecting-IP"@[0]);
        }
        let mut h = req.headers.duplicate();
        match req.headers.get("CF-Connecting-IP") {
            Option::Some(ip) => {
                h.set("X-Forwarded-For", ip.as_str());
            },
            Option::None => {},
        }
        let ghost xff = h.spec_get("X-Forwarded-For"@);
        proof {
            assert(xff == spec_base_outbound(req, "X-Forwarded-For"@));
        }
        if req.url_is_https {
            h.set("X-Forwarded-Proto", "https");
        } else {
            h.set("X-Forwarded-Proto", "http");
        }
        proof {
            assert(h.spec_get("X-Forwarded-For"@) == xff);
            assert(h.spec_get("X-Forwarded-Proto"@) == spec_base_outbound(
                req,
                "X-Forwarded-Proto"@,
            ));
        }
        let ghost xfp = h.spec_get("X-Forwarded-Proto"@);
        match req.headers.get("Host") {
            Option::Some(host) => {
                h.set("X-Forwarded-Host", host.as_str());
            },
            Option::None => {},
        }
        let ghost xfh = h.spec_get("X-Forwarded-Host"@);
        proof {
            assert(h.spec_get("X-Forwarded-For"@) == xff);
            assert(h.spec_get("X-Forwarded-Proto"@) == xfp);
            assert(xfh == spec_base_outbound(req, "X-Forwarded-Host"@));
        }
        h.delete("Host");
        proof {
            assert(h.spec_get("X-Forwarded-For"@) == xff);
            assert(h.spec_get("X-Forwarded-Proto"@) == xfp);
            assert(h.spec_get("X-Forwarded-Host"@) == xfh);
            assert(h.spec_get("Host"@) is None);
        }
        h.delete("Origin");
        proof {
            assert(h.spec_get("X-Forwarded-For"@) == xff);
            assert(h.spec_get("X-Forwarded-Proto"@) == xfp);
            assert(h.spec_get("X-Forwarded-Host"@) == xfh);
            assert(h.spec_get("Host"@) is None);
            assert(h.spec_get("Origin"@) is None);
        }
        let ghost base = h;
        proof {
            assert forall|n: Seq<char>| #[trigger] base.spec_get(n) == spec_base_outbound(
                req,
                n,
            ) by {}
        }
        let custom = &self.config.custom_headers;
        let mut i: usize = 0;
        proof {
            assert(custom@.subrange(0, 0) =~= Seq::<(String, String)>::empty());
        }
        while i < custom.len()
            invariant
                i <= custom@.len(),
                h.wf(),
                forall|n: Seq<char>| #[trigger] base.spec_get(n) == spec_base_outbound(req, n),
                forall|n: Seq<char>|
                    #[trigger] h.spec_get(n) == match spec_custom_last(
                        custom@.subrange(0, i as int),
                        n,
                    ) {
                        Option::Some(v) => Option::Some(v),
                        Option::None => base.spec_get(n),
                    },
            decreases custom@.len() - i,
        {
            let ghost hbefore = h;
            h.set(custom[i].0.as_str(), custom[i].1.as_str());
            proof {
                let prefix = custom@.subrange(0, i + 1);
                assert(prefix.last() == custom@[i as int]);
                assert(prefix.drop_last() =~= custom@.subrange(0, i as int));
                assert forall|n: Seq<char>| true implies #[trigger] h.spec_get(n)
                    == match spec_custom_last(prefix, n) {
                    Option::Some(v) => Option::Some(v),
                    Option::None => base.spec_get(n),
                } by {
                    if n == custom@[i as int].0@ {
                        assert(h.spec_get(n) == Option::Some(custom@[i as int].1@));
                    } else {
                        assert(h.spec_get(n) == hbefore.spec_get(n));
                    }
                }
            }
            i += 1;
        }
        proof {
            assert(custom@.subrange(0, custom@.len() as int) =~= custom@);
        }
        h
    }
}

/// The health summary the management endpoint reports; the runtime adds the
/// report timestamp when it serializes this.
pub struct HealthSummary {
    /// False exactly when the healthy-backend list is empty.
    pub healthy: bool,
    pub healthy_backends: usize,
    pub total_backends: usize,
    pub backends: Vec<String>,
}

impl ReverseProxy {
    /// The health summary at time `now`: how many configured backends are
    /// healthy, the full configured list, and unhealthy status exactly when
    /// no backend is healthy.
    pub fn health_check(&self, now: u64) -> (r: HealthSummary)
        ensures
            r.healthy_backends == self.health_checker.backends@.filter(
                |b: String| self.health_checker.spec_is_healthy(b@, now),
            ).len(),
            r.healthy == (r.healthy_backends != 0),
            r.total_backends == self.config.backends@.len(),
            r.backends@ == self.config.backends@,
    {
        let healthy = self.health_checker.get_healthy_backends(now);
        let mut copied: Vec<String> = Vec::new();
        let mut i: usize = 0;
        while i < self.config.backends.len()
            invariant
                i <= self.config.backends@.len(),
                copied@ == self.config.backends@.subrange(0, i as int),
            decreases self.config.backends@.len() - i,
        {
            copied.push(self.config.backends[i].clone());
            proof {
                assert(copied@ =~= self.config.backends@.subrange(0, i + 1));
            }
            i += 1;
        }
        proof {
            assert(self.config.backends@.subrange(0, self.config.backends@.len() as int)
                =~= self.config.backends@);
        }
        HealthSummary {
            healthy: healthy.len() != 0,
            healthy_backends: healthy.len(),
            total_backends: self.config.backends.len(),
            backends: copied,
        }
    }

    /// The formatted statistics summary.
    pub fn get_stats(&self) -> (r: crate::monitoring::MetricsSnapshot)
        requires
            self.wf(),
        ensures
            r.total_requests == self.metrics.total_requests,
            r.total_errors == self.metrics.total_errors,
            r.cache_hits == self.metrics.cache_hits,
            r.cache_misses == self.metrics.cache_misses,
    {
        self.metrics.get_stats()
    }
}

} // verus!
