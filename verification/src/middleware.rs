//! Header-mutation middleware and access control: the inbound access-rule
//! check, the outbound security headers, and the CORS header set.

use vstd::prelude::*;

use crate::config::AccessRule;
use crate::http::{HeaderMap, ProxyResponse};
use crate::rewrite::{regex_is_match, spec_regex_matches, spec_regex_valid};

verus! {

/// Whether one access rule denies the request.  `deny_ip` matches the
/// client IP exactly; `allow_country` denies any request whose country
/// differs from the pattern; `deny_country` matches the country exactly;
/// `deny_user_agent` matches the user agent against the rule's pattern as a
/// regex (an invalid pattern never denies).  A rule of any other type is
/// ignored, and a rule whose subject value is absent does not deny.
pub open spec fn spec_rule_denies(
    rule: AccessRule,
    ip: Option<Seq<char>>,
    country: Option<Seq<char>>,
    ua: Option<Seq<char>>,
) -> bool {
    if rule.rule_type@ == "deny_ip"@ {
        ip matches Option::Some(x) && x == rule.pattern@
    } else if rule.rule_type@ == "allow_country"@ {
        country matches Option::Some(c) && c != rule.pattern@
    } else if rule.rule_type@ == "deny_country"@ {
        country matches Option::Some(c) && c == rule.pattern@
    } else if rule.rule_type@ == "deny_user_agent"@ {
        ua matches Option::Some(u) && spec_regex_valid(rule.pattern@) && spec_regex_matches(
            rule.pattern@,
            u,
        )
    } else {
        false
    }
}

/// Whether the whole rule list lets the request through: no rule denies it.
pub open spec fn spec_access_allowed(
    rules: Seq<AccessRule>,
    ip: Option<Seq<char>>,
    country: Option<Seq<char>>,
    ua: Option<Seq<char>>,
) -> bool {
    forall|k: int| 0 <= k < rules.len() ==> !spec_rule_denies(#[trigger] rules[k], ip, country, ua)
}

/// Evaluates the access rules against the request's client IP, country code
/// and user agent; any matching deny aborts the request before any backend
/// contact.
pub fn check_access_control(
    rules: &Vec<AccessRule>,
    ip: Option<&String>,
    country: Option<&String>,
    ua: Option<&String>,
) -> (r: bool)
    ensures
        r == spec_access_allowed(rules@, match ip {
            Option::Some(x) => Option::Some(x@),
            Option::None => Option::None,
        }, match country {
            Option::Some(c) => Option::Some(c@),
            Option::None => Option::None,
        }, match ua {
            Option::Some(u) => Option::Some(u@),
            Option::None => Option::None,
        }),
{
    let ghost gip: Option<Seq<char>> = match ip {
        Option::Some(x) => Option::Some(x@),
        Option::None => Option::None,
    };
    let ghost gcountry: Option<Seq<char>> = match country {
        Option::Some(c) => Option::Some(c@),
        Option::None => Option::None,
    };
    let ghost gua: Option<Seq<char>> = match ua {
        Option::Some(u) => Option::Some(u@),
        Option::None => Option::None,
    };
    let mut i: usize = 0;
    while i < rules.len()
        invariant
            i <= rules@.len(),
            forall|k: int|
                0 <= k < i ==> !spec_rule_denies(#[trigger] rules@[k], gip, gcountry, gua),
            gip == match ip {
                Option::Some(x) => Option::Some(x@),
                Option::None => Option::<Seq<char>>::None,
            },
            gcountry == match country {
                Option::Some(c) => Option::Some(c@),
                Option::None => Option::<Seq<char>>::None,
            },
            gua == match ua {
                Option::Some(u) => Option::Some(u@),
                Option::None => Option::<Seq<char>>::None,
            },
        decreases rules@.len() - i,
    {
        let rule = &rules[i];
        let denies: bool = if crate::strutil::str_eq(rule.rule_type.as_str(), "deny_ip") {
            match ip {
                Option::Some(x) => crate::strutil::str_eq(x.as_str(), rule.pattern.as_str()),
                Option::None => false,
            }
        } else if crate::strutil::str_eq(rule.rule_type.as_str(), "allow_country") {
            match country {
                Option::Some(c) => !crate::strutil::str_eq(c.as_str(), rule.pattern.as_str()),
                Option::None => false,
            }
        } else if crate::strutil::str_eq(rule.rule_type.as_str(), "deny_country") {
            match country {
                Option::Some(c) => crate::strutil::str_eq(c.as_str(), rule.pattern.as_str()),
                Option::None => false,
            }
        } else if crate::strutil::str_eq(rule.rule_type.as_str(), "deny_user_agent") {
            match ua {
                Option::Some(u) => match regex_is_match(rule.pattern.as_str(), u.as_str()) {
                    Option::Some(m) => m,
                    Option::None => false,
                },
                Option::None => false,
            }
        } else {
            false
        };
        if denies {
            return false;
        }
        i += 1;
    }
    true
}

/// The security and identification headers the outbound middleware sets.
pub open spec fn spec_security_header_value(n: Seq<char>) -> Option<Seq<char>> {
    if n == "X-Content-Type-Options"@ {
        Option::Some("nosniff"@)
    } else if n == "X-Frame-Options"@ {
        Option::Some("DENY"@)
    } else if n == "X-XSS-Protection"@ {
        Option::Some("1; mode=block"@)
    } else if n == "Referrer-Policy"@ {
        Option::Some("strict-origin-when-cross-origin"@)
    } else if n == "X-Proxied-By"@ {
        Option::Some("Cloudflare-Workers"@)
    } else {
        Option::None
    }
}

/// The headers the outbound middleware strips.
pub open spec fn spec_stripped_header(n: Seq<char>) -> bool {
    n == "Server"@ || n == "X-Powered-By"@
}

/// Outbound middleware: adds the fixed security headers and the proxy
/// identification header, and strips server-identifying headers.  Every
/// other header is left as the backend supplied it.
#[verifier::rlimit(60)]
pub fn apply_response_middleware(headers: &mut HeaderMap)
    requires
        old(headers).wf(),
    ensures
        final(headers).wf(),
        forall|n: Seq<char>|
            #[trigger] final(headers).spec_get(n) == if spec_security_header_value(n) is Some {
                spec_security_header_value(n)
            } else if spec_stripped_header(n) {
                Option::<Seq<char>>::None
            } else {
                old(headers).spec_get(n)
            },
{
    proof {
        reveal_strlit("X-Content-Type-Options");
        reveal_strlit("X-Frame-Options");
        reveal_strlit("X-XSS-Protection");
        reveal_strlit("Referrer-Policy");
        reveal_strlit("X-Proxied-By");
        reveal_strlit("Server");
        reveal_strlit("X-Powered-By");
        assert("X-Content-Type-Options"@.len() == 22);
        assert("X-Frame-Options"@.len() == 15);
        assert("X-XSS-Protection"@.len() == 16);
        assert("Referrer-Policy"@.len() == 15);
        assert("X-Proxied-By"@.len() == 12);
        assert("Server"@.len() == 6);
        assert("X-Powered-By"@.len() == 12);
        assert("X-Frame-Options"@[0] != "Referrer-Policy"@[0]);
        assert("X-Proxied-By"@[3] != "X-Powered-By"@[3]);
        assert("X-Content-Type-Options"@ != "X-Frame-Options"@);
        assert("X-Content-Type-Options"@ != "X-XSS-Protection"@);
        assert("X-Content-Type-Options"@ != "Referrer-Policy"@);
        assert("X-Content-Type-Options"@ != "X-Proxied-By"@);
        assert("X-Content-Type-Options"@ != "Server"@);
        assert("X-Content-Type-Options"@ != "X-Powered-By"@);
        assert("X-Frame-Options"@ != "X-XSS-Protection"@);
        assert("X-Frame-Options"@ != "Referrer-Policy"@);
        assert("X-Frame-Options"@ != "X-Proxied-By"@);
        assert("X-Frame-Options"@ != "Server"@);
        assert("X-Frame-Options"@ != "X-Powered-By"@);
        assert("X-XSS-Protection"@ != "Referrer-Policy"@);
        assert("X-XSS-Protection"@ != "X-Proxied-By"@);
        assert("X-XSS-Protection"@ != "Server"@);
        assert("X-XSS-Protection"@ != "X-Powered-By"@);
        assert("Referrer-Policy"@ != "X-Proxied-By"@);
        assert("Referrer-Policy"@ != "Server"@);
        assert("Referrer-Policy"@ != "X-Powered-By"@);
        assert("X-Proxied-By"@ != "Server"@);
        assert("X-Proxied-By"@ != "X-Powered-By"@);
        assert("Server"@ != "X-Powered-By"@);
    }
    headers.set("X-Content-Type-Options", "nosniff");
    proof {
        assert(headers.spec_get("X-Content-Type-Options"@) == Option::Some("nosniff"@));
    }
    headers.set("X-Frame-Options", "DENY");
    proof {
        assert(headers.spec_get("X-Content-Type-Options"@) == Option::Some("nosniff"@));
        assert(headers.spec_get("X-Frame-Options"@) == Option::Some("DENY"@));
    }
    headers.set("X-XSS-Protection", "1; mode=block");
    proof {
        assert(headers.spec_get("X-Content-Type-Options"@) == Option::Some("nosniff"@));
        assert(headers.spec_get("X-Frame-Options"@) == Option::Some("DENY"@));
        assert(headers.spec_get("X-XSS-Protection"@) == Option::Some("1; mode=block"@));
    }
    headers.set("Referrer-Policy", "strict-origin-when-cross-origin");
    proof {
        assert(headers.spec_get("X-Content-Type-Options"@) == Option::Some("nosniff"@));
        assert(headers.spec_get("X-Frame-Options"@) == Option::Some("DENY"@));
        assert(headers.spec_get("X-XSS-Protection"@) == Option::Some("1; mode=block"@));
        assert(headers.spec_get("Referrer-Policy"@) == Option::Some(
            "strict-origin-when-cross-origin"@,
        ));
    }
    headers.set("X-Proxied-By", "Cloudflare-Workers");
    proof {
        assert(headers.spec_get("X-Content-Type-Options"@) == Option::Some("nosniff"@));
        assert(headers.spec_get("X-Frame-Options"@) == Option::Some("DENY"@));
        assert(headers.spec_get("X-XSS-Protection"@) == Option::Some("1; mode=block"@));
        assert(headers.spec_get("Referrer-Policy"@) == Option::Some(
            "strict-origin-when-cross-origin"@,
        ));
        assert(headers.spec_get("X-Proxied-By"@) == Option::Some("Cloudflare-Workers"@));
    }
    headers.delete("Server");
    proof {
        assert(headers.spec_get("X-Content-Type-Options"@) == Option::Some("nosniff"@));
        assert(headers.spec_get("X-Frame-Options"@) == Option::Some("DENY"@));
        assert(headers.spec_get("X-XSS-Protection"@) == Option::Some("1; mode=block"@));
        assert(headers.spec_get("Referrer-Policy"@) == Option::Some(
            "strict-origin-when-cross-origin"@,
        ));
        assert(headers.spec_get("X-Proxied-By"@) == Option::Some("Cloudflare-Workers"@));
        assert(headers.spec_get("Server"@) is None);
    }
    headers.delete("X-Powered-By");
    proof {
        assert(headers.spec_get("X-Content-Type-Options"@) == Option::Some("nosniff"@));
        assert(headers.spec_get("X-Frame-Options"@) == Option::Some("DENY"@));
        assert(headers.spec_get("X-XSS-Protection"@) == Option::Some("1; mode=block"@));
        assert(headers.spec_get("Referrer-Policy"@) == Option::Some(
            "strict-origin-when-cross-origin"@,
        ));
        assert(headers.spec_get("X-Proxied-By"@) == Option::Some("Cloudflare-Workers"@));
        assert(headers.spec_get("Server"@) is None);
        assert(headers.spec_get("X-Powered-By"@) is None);
    }
}

/// The CORS header set this module's helpers attach.
pub open spec fn spec_cors_header_value(n: Seq<char>) -> Option<Seq<char>> {
    if n == "Access-Control-Allow-Origin"@ {
        Option::Some("*"@)
    } else if n == "Access-Control-Allow-Methods"@ {
        Option::Some("GET, POST, PUT, DELETE, OPTIONS"@)
    } else if n == "Access-Control-Allow-Headers"@ {
        Option::Some("Content-Type, Authorization, X-Requested-With"@)
    } else if n == "Access-Control-Max-Age"@ {
        Option::Some("86400"@)
    } else {
        Option::None
    }
}

/// Adds the CORS header set, overwriting any equally-named headers and
/// leaving all others unchanged.
#[verifier::rlimit(60)]
pub fn add_cors_headers(headers: &mut HeaderMap)
    requires
        old(headers).wf(),
    ensures
        final(headers).wf(),
        forall|n: Seq<char>|
            #[trigger] final(headers).spec_get(n) == if spec_cors_header_value(n) is Some {
                spec_cors_header_value(n)
            } else {
                old(headers).spec_get(n)
            },
{
    proof {
        reveal_strlit("Access-Control-Allow-Origin");
        reveal_strlit("Access-Control-Allow-Methods");
        reveal_strlit("Access-Control-Allow-Headers");
        reveal_strlit("Access-Control-Max-Age");
        assert("Access-Control-Allow-Origin"@.len() == 27);
        assert("Access-Control-Allow-Methods"@.len() == 28);
        assert("Access-Control-Allow-Headers"@.len() == 28);
        assert("Access-Control-Max-Age"@.len() == 22);
        assert("Access-Control-Allow-Methods"@[21] != "Access-Control-Allow-Headers"@[21]);
        assert("Access-Control-Allow-Origin"@ != "Access-Control-Allow-Methods"@);
        assert("Access-Control-Allow-Origin"@ != "Access-Control-Allow-Headers"@);
        assert("Access-Control-Allow-Origin"@ != "Access-Control-Max-Age"@);
        assert("Access-Control-Allow-Methods"@ != "Access-Control-Allow-Headers"@);
        assert("Access-Control-Allow-Methods"@ != "Access-Control-Max-Age"@);
        assert("Access-Control-Allow-Headers"@ != "Access-Control-Max-Age"@);
    }
    headers.set("Access-Control-Allow-Origin", "*");
    proof {
        assert(headers.spec_get("Access-Control-Allow-Origin"@) == Option::Some("*"@));
    }
    headers.set("Access-Control-Allow-Methods", "GET, POST, PUT, DELETE, OPTIONS");
    proof {
        assert(headers.spec_get("Access-Control-Allow-Origin"@) == Option::Some("*"@));
        assert(headers.spec_get("Access-Control-Allow-Methods"@) == Option::Some(
            "GET, POST, PUT, DELETE, OPTIONS"@,
        ));
    }
    headers.set("Access-Control-Allow-Headers", "Content-Type, Authorization, X-Requested-With");
    proof {
        assert(headers.spec_get("Access-Control-Allow-Origin"@) == Option::Some("*"@));
        assert(headers.spec_get("Access-Control-Allow-Methods"@) == Option::Some(
            "GET, POST, PUT, DELETE, OPTIONS"@,
        ));
        assert(headers.spec_get("Access-Control-Allow-Headers"@) == Option::Some(
            "Content-Type, Authorization, X-Requested-With"@,
        ));
    }
    headers.set("Access-Control-Max-Age", "86400");
    proof {
        assert(headers.spec_get("Access-Control-Allow-Origin"@) == Option::Some("*"@));
        assert(headers.spec_get("Access-Control-Allow-Methods"@) == Option::Some(
            "GET, POST, PUT, DELETE, OPTIONS"@,
        ));
        assert(headers.spec_get("Access-Control-Allow-Headers"@) == Option::Some(
            "Content-Type, Authorization, X-Requested-With"@,
        ));
        assert(headers.spec_get("Access-Control-Max-Age"@) == Option::Some("86400"@));
    }
}

/// The response to an OPTIONS preflight request: status 200, an empty body,
/// and exactly the CORS header set — independent of configuration.
pub fn handle_options_request() -> (r: ProxyResponse)
    ensures
        r.status == 200,
        r.body@.len() == 0,
        r.headers.wf(),
        forall|n: Seq<char>| #[trigger] r.headers.spec_get(n) == spec_cors_header_value(n),
{
    let mut headers = HeaderMap::new();
    add_cors_headers(&mut headers);
    ProxyResponse { status: 200, headers, body: String::new() }
}

} // verus!
