//! General helpers: URL inspection, duration formatting, client-IP
//! extraction, user-agent classification, base64 with the library's error
//! type, and path cleaning.

use vstd::prelude::*;

use crate::digest::{base64_decode_raw, spec_base64_decode};
use crate::http::HeaderMap;
use crate::strutil::{contains_str, spec_contains_seq, spec_dec, spec_lowercase, to_lowercase,
    u64_to_dec};
use crate::urls::{parse_url_parts, spec_url_parse_ok, spec_url_path, spec_url_query};

verus! {

/// The failures of these helpers.
#[derive(Debug, Clone, Copy, PartialEq, Eq, Structural)]
pub enum UtilError {
    /// The string did not parse as an absolute URL.
    InvalidUrl,
    /// The string was not valid standard base64.
    InvalidBase64,
}

/// The path component of an absolute URL, or the invalid-URL failure.
pub fn parse_url_path(url: &str) -> (r: Result<String, UtilError>)
    ensures
        r is Ok <==> spec_url_parse_ok(url@),
        r matches Ok(p) ==> p@ == spec_url_path(url@),
        r matches Err(e) ==> e == UtilError::InvalidUrl,
{
    match parse_url_parts(url) {
        Option::Some(parts) => Ok(parts.path),
        Option::None => Err(UtilError::InvalidUrl),
    }
}

/// The query component of an absolute URL (empty when the URL carries
/// none), or the invalid-URL failure.
pub fn parse_query_string(url: &str) -> (r: Result<String, UtilError>)
    ensures
        r is Ok <==> spec_url_parse_ok(url@),
        r matches Ok(q) ==> q@ == match spec_url_query(url@) {
            Option::Some(s) => s,
            Option::None => Seq::<char>::empty(),
        },
        r matches Err(e) ==> e == UtilError::InvalidUrl,
{
    match parse_url_parts(url) {
        Option::Some(parts) => match parts.query {
            Option::Some(q) => Ok(q),
            Option::None => Ok(String::new()),
        },
        Option::None => Err(UtilError::InvalidUrl),
    }
}

/// Whether the string parses as an absolute URL.
pub fn is_valid_url(url: &str) -> (r: bool)
    ensures
        r == spec_url_parse_ok(url@),
{
    match parse_url_parts(url) {
        Option::Some(_) => true,
        Option::None => false,
    }
}

/// A duration rendered for reports: milliseconds with two (zero) decimals
/// under one second, else seconds with two decimals.
pub open spec fn spec_duration_string(ms: u64) -> Seq<char> {
    if ms < 1000 {
        spec_dec(ms as int) + ".00ms"@
    } else {
        spec_dec(ms as int / 1000) + "."@ + spec_dec(ms as int % 1000 / 100) + spec_dec(
            ms as int % 100 / 10,
        ) + "s"@
    }
}

/// Formats a whole-millisecond duration.
pub fn format_duration_ms(ms: u64) -> (r: String)
    ensures
        r@ == spec_duration_string(ms),
{
    if ms < 1000 {
        u64_to_dec(ms).concat(".00ms")
    } else {
        let whole = u64_to_dec(ms / 1000);
        let tenth = u64_to_dec(ms % 1000 / 100);
        let cent = u64_to_dec(ms % 100 / 10);
        whole.concat(".").concat(tenth.as_str()).concat(cent.as_str()).concat("s")
    }
}

/// Safely reads one header value.
pub fn get_header_value(headers: &HeaderMap, name: &str) -> (r: Option<String>)
    ensures
        match r {
            Option::Some(v) => headers.spec_get(name@) == Option::Some(v@),
            Option::None => headers.spec_get(name@) is None,
        },
{
    match headers.get(name) {
        Option::Some(v) => Option::Some(v.clone()),
        Option::None => Option::None,
    }
}

/// An ASCII whitespace character.
pub open spec fn spec_is_ws(c: char) -> bool {
    c == ' ' || c == '\t' || c == '\r' || c == '\n'
}

/// `s` without leading whitespace.
pub open spec fn spec_trim_start(s: Seq<char>) -> Seq<char>
    decreases s.len(),
{
    if s.len() > 0 && spec_is_ws(s[0]) {
        spec_trim_start(s.skip(1))
    } else {
        s
    }
}

/// `s` without trailing whitespace.
pub open spec fn spec_trim_end(s: Seq<char>) -> Seq<char>
    decreases s.len(),
{
    if s.len() > 0 && spec_is_ws(s.last()) {
        spec_trim_end(s.drop_last())
    } else {
        s
    }
}

/// `s` without leading and trailing whitespace.
pub open spec fn spec_trim(s: Seq<char>) -> Seq<char> {
    spec_trim_end(spec_trim_start(s))
}

/// The part of `s` before its first comma; all of `s` without one.
pub open spec fn spec_before_comma(s: Seq<char>) -> Seq<char>
    decreases s.len(),
{
    if s.len() == 0 {
        s
    } else if s[0] == ',' {
        Seq::empty()
    } else {
        seq![s[0]] + spec_before_comma(s.skip(1))
    }
}

fn is_ws(c: char) -> (r: bool)
    ensures
        r == spec_is_ws(c),
{
    c == ' ' || c == '\t' || c == '\r' || c == '\n'
}

/// Trims ASCII whitespace from both ends.
fn trim_ascii(s: &str) -> (r: String)
    ensures
        r@ == spec_trim(s@),
{
    let len = s.unicode_len();
    let mut i: usize = 0;
    proof {
        assert(s@.skip(0) =~= s@);
    }
    while i < len && is_ws(s.get_char(i))
        invariant
            i <= len,
            len == s@.len(),
            spec_trim_start(s@) == spec_trim_start(s@.skip(i as int)),
        decreases len - i,
    {
        proof {
            assert(s@.skip(i as int)[0] == s@[i as int]);
            assert(s@.skip(i as int).skip(1) =~= s@.skip(i + 1));
        }
        i += 1;
    }
    proof {
        if i < len {
            assert(s@.skip(i as int)[0] == s@[i as int]);
        }
        assert(spec_trim_start(s@) == s@.skip(i as int));
    }
    let mut j: usize = len;
    proof {
        assert(s@.subrange(i as int, j as int) =~= s@.skip(i as int));
    }
    while j > i && is_ws(s.get_char(j - 1))
        invariant
            i <= j <= len,
            len == s@.len(),
            spec_trim_start(s@) == s@.skip(i as int),
            spec_trim_end(s@.skip(i as int)) == spec_trim_end(s@.subrange(i as int, j as int)),
        decreases j,
    {
        proof {
            let part = s@.subrange(i as int, j as int);
            assert(part.last() == s@[j - 1]);
            assert(part.drop_last() =~= s@.subrange(i as int, j - 1));
        }
        j -= 1;
    }
    proof {
        let part = s@.subrange(i as int, j as int);
        if j > i {
            assert(part.last() == s@[j - 1]);
        }
        assert(spec_trim_end(part) == part);
    }
    let r = s.substring_char(i, j);
    String::from_str(r)
}

/// The part of `s` before its first comma.
fn before_comma(s: &str) -> (r: String)
    ensures
        r@ == spec_before_comma(s@),
{
    let len = s.unicode_len();
    proof {
        assert(s@.skip(0) =~= s@);
        assert(s@.subrange(0, 0) + spec_before_comma(s@) =~= spec_before_comma(s@));
    }
    let mut i: usize = 0;
    while i < len
        invariant
            i <= len,
            len == s@.len(),
            spec_before_comma(s@) == s@.subrange(0, i as int) + spec_before_comma(
                s@.skip(i as int),
            ),
        decreases len - i,
    {
        proof {
            assert(s@.skip(i as int)[0] == s@[i as int]);
            assert(s@.skip(i as int).skip(1) =~= s@.skip(i + 1));
        }
        if s.get_char(i) == ',' {
            proof {
                assert(s@.subrange(0, i as int) + Seq::<char>::empty() =~= s@.subrange(
                    0,
                    i as int,
                ));
            }
            let r = s.substring_char(0, i);
            return String::from_str(r);
        }
        proof {
            assert(s@.subrange(0, i as int) + (seq![s@[i as int]] + spec_before_comma(
                s@.skip(i + 1),
            )) =~= s@.subrange(0, i + 1) + spec_before_comma(s@.skip(i + 1)));
        }
        i += 1;
    }
    proof {
        assert(s@.skip(len as int) =~= Seq::<char>::empty());
        assert(s@.subrange(0, len as int) + Seq::<char>::empty() =~= s@);
    }
    String::from_str(s)
}

/// The client IP a request reports: the platform header first, then the
/// first (trimmed) entry of `X-Forwarded-For`, then `X-Real-IP`.
pub open spec fn spec_client_ip(headers: &HeaderMap) -> Option<Seq<char>> {
    match headers.spec_get("CF-Connecting-IP"@) {
        Option::Some(ip) => Option::Some(ip),
        Option::None => match headers.spec_get("X-Forwarded-For"@) {
            Option::Some(xff) => Option::Some(spec_trim(spec_before_comma(xff))),
            Option::None => headers.spec_get("X-Real-IP"@),
        },
    }
}

/// Extracts the client IP from the request headers.
pub fn get_client_ip(headers: &HeaderMap) -> (r: Option<String>)
    ensures
        match r {
            Option::Some(ip) => spec_client_ip(headers) == Option::Some(ip@),
            Option::None => spec_client_ip(headers) is None,
        },
{
    match headers.get("CF-Connecting-IP") {
        Option::Some(ip) => Option::Some(ip.clone()),
        Option::None => match headers.get("X-Forwarded-For") {
            Option::Some(xff) => Option::Some(trim_ascii(before_comma(xff.as_str()).as_str())),
            Option::None => match headers.get("X-Real-IP") {
                Option::Some(ip) => Option::Some(ip.clone()),
                Option::None => Option::None,
            },
        },
    }
}

/// What the user agent reveals about the client.
#[derive(Debug, Clone)]
pub struct UserAgentInfo {
    pub browser: String,
    pub os: String,
    pub is_mobile: bool,
    pub is_bot: bool,
}

/// The browser family a user agent names, by first matching marker.
pub open spec fn spec_browser(ua: Seq<char>) -> Seq<char> {
    if spec_contains_seq(ua, "Chrome"@) {
        "Chrome"@
    } else if spec_contains_seq(ua, "Firefox"@) {
        "Firefox"@
    } else if spec_contains_seq(ua, "Safari"@) {
        "Safari"@
    } else if spec_contains_seq(ua, "Edge"@) {
        "Edge"@
    } else {
        "Unknown"@
    }
}

/// The operating system a user agent names, by first matching marker.
pub open spec fn spec_os(ua: Seq<char>) -> Seq<char> {
    if spec_contains_seq(ua, "Windows"@) {
        "Windows"@
    } else if spec_contains_seq(ua, "Mac OS"@) {
        "macOS"@
    } else if spec_contains_seq(ua, "Linux"@) {
        "Linux"@
    } else if spec_contains_seq(ua, "Android"@) {
        "Android"@
    } else if spec_contains_seq(ua, "iOS"@) {
        "iOS"@
    } else {
        "Unknown"@
    }
}

/// Whether a user agent names a mobile device.
pub open spec fn spec_is_mobile(ua: Seq<char>) -> bool {
    spec_contains_seq(ua, "Mobile"@) || spec_contains_seq(ua, "Android"@) || spec_contains_seq(
        ua,
        "iPhone"@,
    ) || spec_contains_seq(ua, "iPad"@)
}

/// Whether a (lower-cased) user agent carries one of the fixed bot markers.
pub open spec fn spec_is_bot(ua: Seq<char>) -> bool {
    ||| spec_contains_seq(spec_lowercase(ua), "bot"@)
    ||| spec_contains_seq(spec_lowercase(ua), "crawler"@)
    ||| spec_contains_seq(spec_lowercase(ua), "spider"@)
    ||| spec_contains_seq(spec_lowercase(ua), "scraper"@)
    ||| spec_contains_seq(spec_lowercase(ua), "crawl"@)
    ||| spec_contains_seq(spec_lowercase(ua), "scanner"@)
    ||| spec_contains_seq(spec_lowercase(ua), "Googlebot"@)
    ||| spec_contains_seq(spec_lowercase(ua), "Bingbot"@)
    ||| spec_contains_seq(spec_lowercase(ua), "facebookexternalhit"@)
    ||| spec_contains_seq(spec_lowercase(ua), "Twitterbot"@)
}

/// The browser family a user agent names.
pub fn extract_browser(ua: &str) -> (r: String)
    ensures
        r@ == spec_browser(ua@),
{
    if contains_str(ua, "Chrome") {
        String::from_str("Chrome")
    } else if contains_str(ua, "Firefox") {
        String::from_str("Firefox")
    } else if contains_str(ua, "Safari") {
        String::from_str("Safari")
    } else if contains_str(ua, "Edge") {
        String::from_str("Edge")
    } else {
        String::from_str("Unknown")
    }
}

/// The operating system a user agent names.
pub fn extract_os(ua: &str) -> (r: String)
    ensures
        r@ == spec_os(ua@),
{
    if contains_str(ua, "Windows") {
        String::from_str("Windows")
    } else if contains_str(ua, "Mac OS") {
        String::from_str("macOS")
    } else if contains_str(ua, "Linux") {
        String::from_str("Linux")
    } else if contains_str(ua, "Android") {
        String::from_str("Android")
    } else if contains_str(ua, "iOS") {
        String::from_str("iOS")
    } else {
        String::from_str("Unknown")
    }
}

/// Whether a user agent names a mobile device.
pub fn is_mobile_device(ua: &str) -> (r: bool)
    ensures
        r == spec_is_mobile(ua@),
{
    contains_str(ua, "Mobile") || contains_str(ua, "Android") || contains_str(ua, "iPhone")
        || contains_str(ua, "iPad")
}

/// Whether a user agent looks like a crawler, by the fixed marker list
/// checked against the lower-cased agent string.
pub fn is_bot(ua: &str) -> (r: bool)
    ensures
        r == spec_is_bot(ua@),
{
    let lower = to_lowercase(ua);
    contains_str(lower.as_str(), "bot") || contains_str(lower.as_str(), "crawler") || contains_str(
        lower.as_str(),
        "spider",
    ) || contains_str(lower.as_str(), "scraper") || contains_str(lower.as_str(), "crawl")
        || contains_str(lower.as_str(), "scanner") || contains_str(lower.as_str(), "Googlebot")
        || contains_str(lower.as_str(), "Bingbot") || contains_str(
        lower.as_str(),
        "facebookexternalhit",
    ) || contains_str(lower.as_str(), "Twitterbot")
}

/// Classifies a user agent.
pub fn parse_user_agent(user_agent: &str) -> (r: UserAgentInfo)
    ensures
        r.browser@ == spec_browser(user_agent@),
        r.os@ == spec_os(user_agent@),
        r.is_mobile == spec_is_mobile(user_agent@),
        r.is_bot == spec_is_bot(user_agent@),
{
    UserAgentInfo {
        browser: extract_browser(user_agent),
        os: extract_os(user_agent),
        is_mobile: is_mobile_device(user_agent),
        is_bot: is_bot(user_agent),
    }
}

/// Decodes standard base64, reporting the invalid-base64 failure.
pub fn base64_decode(data: &str) -> (r: Result<Vec<u8>, UtilError>)
    ensures
        r is Ok <==> spec_base64_decode(data@) is Some,
        r matches Ok(v) ==> spec_base64_decode(data@) == Option::Some(v@),
        r matches Err(e) ==> e == UtilError::InvalidBase64,
{
    match base64_decode_raw(data) {
        Option::Some(v) => Ok(v),
        Option::None => Err(UtilError::InvalidBase64),
    }
}

/// The views of a string list.
pub open spec fn spec_views_of(v: Seq<String>) -> Seq<Seq<char>> {
    v.map_values(|s: String| s@)
}

/// The path split at slashes, with `cur` the segment read so far: splitting
/// the empty string gives one (empty) segment, and every slash ends a
/// segment.
pub open spec fn spec_split_slash(s: Seq<char>, cur: Seq<char>) -> Seq<Seq<char>>
    decreases s.len(),
{
    if s.len() == 0 {
        seq![cur]
    } else if s[0] == '/' {
        seq![cur] + spec_split_slash(s.skip(1), Seq::empty())
    } else {
        spec_split_slash(s.skip(1), cur.push(s[0]))
    }
}

/// One pass over the segments: empty and `.` segments vanish, `..` removes
/// the segment before it (when one exists), and every other segment is
/// kept.
pub open spec fn spec_clean_fold(segs: Seq<Seq<char>>, acc: Seq<Seq<char>>) -> Seq<Seq<char>>
    decreases segs.len(),
{
    if segs.len() == 0 {
        acc
    } else {
        let seg = segs[0];
        let rest = segs.skip(1);
        if seg.len() == 0 || seg == "."@ {
            spec_clean_fold(rest, acc)
        } else if seg == ".."@ {
            spec_clean_fold(rest, if acc.len() > 0 {
                acc.drop_last()
            } else {
                acc
            })
        } else {
            spec_clean_fold(rest, acc.push(seg))
        }
    }
}

/// Segments joined with a slash before each one.
pub open spec fn spec_join_slash(segs: Seq<Seq<char>>) -> Seq<char>
    decreases segs.len(),
{
    if segs.len() == 0 {
        Seq::empty()
    } else {
        "/"@ + segs[0] + spec_join_slash(segs.skip(1))
    }
}

/// The cleaned path: the kept segments joined under a leading slash, or `/`
/// alone when nothing is kept.
pub open spec fn spec_clean_path(p: Seq<char>) -> Seq<char> {
    let cleaned = spec_clean_fold(spec_split_slash(p, Seq::empty()), Seq::empty());
    if cleaned.len() == 0 {
        "/"@
    } else {
        spec_join_slash(cleaned)
    }
}

/// Cleans a path: collapses duplicate slashes, drops `.` segments, resolves
/// `..` against the segment before it, and returns `/` for a path with
/// nothing left.
pub fn clean_path(path: &str) -> (r: String)
    ensures
        r@ == spec_clean_path(path@),
{
    let len = path.unicode_len();
    let mut segs: Vec<String> = Vec::new();
    let mut start: usize = 0;
    let mut i: usize = 0;
    proof {
        assert(path@.skip(0) =~= path@);
        assert(spec_views_of(segs@) =~= Seq::<Seq<char>>::empty());
        assert(Seq::<Seq<char>>::empty() + spec_split_slash(path@, Seq::empty())
            =~= spec_split_slash(path@, Seq::empty()));
        assert(path@.subrange(0, 0) =~= Seq::<char>::empty());
    }
    while i < len
        invariant
            start <= i <= len,
            len == path@.len(),
            spec_split_slash(path@, Seq::empty()) == spec_views_of(segs@) + spec_split_slash(
                path@.skip(i as int),
                path@.subrange(start as int, i as int),
            ),
        decreases len - i,
    {
        proof {
            assert(path@.skip(i as int)[0] == path@[i as int]);
            assert(path@.skip(i as int).skip(1) =~= path@.skip(i + 1));
        }
        if path.get_char(i) == '/' {
            let seg = String::from_str(path.substring_char(start, i));
            let ghost before = segs@;
            segs.push(seg);
            proof {
                assert(segs@ =~= before.push(segs@.last()));
                assert(spec_views_of(segs@) =~= spec_views_of(before).push(
                    path@.subrange(start as int, i as int),
                ));
                assert(spec_views_of(before) + (seq![path@.subrange(start as int, i as int)]
                    + spec_split_slash(path@.skip(i + 1), Seq::empty())) =~= spec_views_of(segs@)
                    + spec_split_slash(path@.skip(i + 1), Seq::empty()));
                assert(path@.subrange(i + 1, i + 1) =~= Seq::<char>::empty());
            }
            start = i + 1;
        } else {
            proof {
                assert(path@.subrange(start as int, i as int).push(path@[i as int])
                    =~= path@.subrange(start as int, i + 1));
            }
        }
        i += 1;
    }
    let seg = String::from_str(path.substring_char(start, len));
    let ghost before = segs@;
    segs.push(seg);
    proof {
        assert(path@.skip(len as int) =~= Seq::<char>::empty());
        assert(segs@ =~= before.push(segs@.last()));
        assert(spec_views_of(segs@) =~= spec_views_of(before).push(
            path@.subrange(start as int, len as int),
        ));
        assert(spec_views_of(before) + seq![path@.subrange(start as int, len as int)]
            =~= spec_views_of(segs@));
        assert(spec_split_slash(path@, Seq::empty()) == spec_views_of(segs@));
    }
    let ghost all = spec_views_of(segs@);
    let mut cleaned: Vec<String> = Vec::new();
    let mut j: usize = 0;
    proof {
        assert(all.skip(0) =~= all);
        assert(spec_views_of(cleaned@) =~= Seq::<Seq<char>>::empty());
    }
    while j < segs.len()
        invariant
            j <= segs@.len(),
            all == spec_views_of(segs@),
            spec_clean_fold(all, Seq::empty()) == spec_clean_fold(
                all.skip(j as int),
                spec_views_of(cleaned@),
            ),
        decreases segs@.len() - j,
    {
        proof {
            assert(all.skip(j as int)[0] == all[j as int]);
            assert(all[j as int] == segs@[j as int]@);
            assert(all.skip(j as int).skip(1) =~= all.skip(j + 1));
        }
        let seg = &segs[j];
        if seg.as_str().unicode_len() == 0 || crate::strutil::str_eq(seg.as_str(), ".") {
        } else if crate::strutil::str_eq(seg.as_str(), "..") {
            if cleaned.len() > 0 {
                let ghost cbefore = cleaned@;
                cleaned.pop();
                proof {
                    assert(spec_views_of(cleaned@) =~= spec_views_of(cbefore).drop_last());
                }
            }
        } else {
            let ghost cbefore = cleaned@;
            cleaned.push(seg.clone());
            proof {
                assert(cleaned@ =~= cbefore.push(cleaned@.last()));
                assert(spec_views_of(cleaned@) =~= spec_views_of(cbefore).push(segs@[j as int]@));
            }
        }
        j += 1;
    }
    proof {
        assert(all.skip(segs@.len() as int) =~= Seq::<Seq<char>>::empty());
        assert(spec_clean_fold(all, Seq::empty()) == spec_views_of(cleaned@));
    }
    if cleaned.len() == 0 {
        return String::from_str("/");
    }
    let ghost keep = spec_views_of(cleaned@);
    let mut out = String::new();
    let mut k: usize = 0;
    proof {
        assert(keep.skip(0) =~= keep);
        assert(out@ + spec_join_slash(keep) =~= spec_join_slash(keep));
    }
    while k < cleaned.len()
        invariant
            k <= cleaned@.len(),
            keep == spec_views_of(cleaned@),
            spec_join_slash(keep) == out@ + spec_join_slash(keep.skip(k as int)),
        decreases cleaned@.len() - k,
    {
        proof {
            assert(keep.skip(k as int)[0] == keep[k as int]);
            assert(keep[k as int] == cleaned@[k as int]@);
            assert(keep.skip(k as int).skip(1) =~= keep.skip(k + 1));
        }
        out.append("/");
        out.append(cleaned[k].as_str());
        proof {
            assert(out@ + spec_join_slash(keep.skip(k + 1)) =~= spec_join_slash(keep));
        }
        k += 1;
    }
    proof {
        assert(keep.skip(cleaned@.len() as int) =~= Seq::<Seq<char>>::empty());
        assert(out@ + Seq::<char>::empty() =~= out@);
    }
    out
}

} // verus!
