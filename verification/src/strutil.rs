//! Verified helpers over `&str` and `String`: equality, prefix and substring
//! tests, and decimal formatting and parsing.

use vstd::prelude::*;

verus! {

/// `p` is a prefix of `s`.
pub open spec fn spec_starts_with(s: Seq<char>, p: Seq<char>) -> bool {
    p.len() <= s.len() && s.subrange(0, p.len() as int) == p
}

/// `n` occurs as a contiguous run inside `h`.
pub open spec fn spec_contains_seq(h: Seq<char>, n: Seq<char>) -> bool {
    exists|i: int| 0 <= i && i + n.len() <= h.len() && #[trigger] h.subrange(
        i,
        i + n.len() as int,
    ) == n
}

/// Character-for-character string equality.
pub fn str_eq(a: &str, b: &str) -> (r: bool)
    ensures
        r == (a@ == b@),
{
    let alen = a.unicode_len();
    let blen = b.unicode_len();
    if alen != blen {
        return false;
    }
    let mut i: usize = 0;
    while i < alen
        invariant
            i <= alen,
            alen == a@.len(),
            alen == b@.len(),
            forall|j: int| 0 <= j < i ==> a@[j] == b@[j],
        decreases alen - i,
    {
        if a.get_char(i) != b.get_char(i) {
            return false;
        }
        i += 1;
    }
    proof {
        assert(a@ =~= b@);
    }
    true
}

/// Prefix test, specified by `spec_starts_with`.
pub fn starts_with_str(s: &str, p: &str) -> (r: bool)
    ensures
        r == spec_starts_with(s@, p@),
{
    let slen = s.unicode_len();
    let plen = p.unicode_len();
    if plen > slen {
        return false;
    }
    let mut i: usize = 0;
    while i < plen
        invariant
            i <= plen,
            plen == p@.len(),
            slen == s@.len(),
            plen <= slen,
            forall|j: int| 0 <= j < i ==> s@[j] == p@[j],
        decreases plen - i,
    {
        if s.get_char(i) != p.get_char(i) {
            proof {
                assert(s@.subrange(0, p@.len() as int)[i as int] != p@[i as int]);
            }
            return false;
        }
        i += 1;
    }
    proof {
        assert(s@.subrange(0, p@.len() as int) =~= p@);
    }
    true
}

/// `n` matches `h` starting at position `at`.
fn matches_at(h: &str, n: &str, at: usize) -> (r: bool)
    requires
        at + n@.len() <= h@.len(),
    ensures
        r == (h@.subrange(at as int, at + n@.len() as int) == n@),
{
    let hlen = h.unicode_len();
    let nlen = n.unicode_len();
    let mut j: usize = 0;
    while j < nlen
        invariant
            j <= nlen,
            nlen == n@.len(),
            hlen == h@.len(),
            at + nlen <= hlen,
            forall|k: int| 0 <= k < j ==> h@[at + k] == n@[k],
        decreases nlen - j,
    {
        if h.get_char(at + j) != n.get_char(j) {
            proof {
                assert(h@.subrange(at as int, at + n@.len() as int)[j as int] != n@[j as int]);
            }
            return false;
        }
        j += 1;
    }
    proof {
        assert(h@.subrange(at as int, at + n@.len() as int) =~= n@);
    }
    true
}

/// Substring search, specified by `spec_contains_seq`.
pub fn contains_str(h: &str, n: &str) -> (r: bool)
    ensures
        r == spec_contains_seq(h@, n@),
{
    let hlen = h.unicode_len();
    let nlen = n.unicode_len();
    if nlen > hlen {
        return false;
    }
    let mut i: usize = 0;
    while i <= hlen - nlen
        invariant
            nlen <= hlen,
            hlen == h@.len(),
            nlen == n@.len(),
            i <= hlen - nlen + 1,
            forall|k: int|
                0 <= k < i ==> #[trigger] h@.subrange(k, k + n@.len() as int) != n@,
        decreases hlen - nlen - i + 1,
    {
        if matches_at(h, n, i) {
            return true;
        }
        proof {
            if n@.len() == 0 {
                assert(h@.subrange(i as int, i as int) =~= n@);
            }
        }
        i += 1;
    }
    false
}

/// The decimal digit character for `d`.
pub open spec fn spec_digit_char(d: int) -> char {
    if d == 0 {
        '0'
    } else if d == 1 {
        '1'
    } else if d == 2 {
        '2'
    } else if d == 3 {
        '3'
    } else if d == 4 {
        '4'
    } else if d == 5 {
        '5'
    } else if d == 6 {
        '6'
    } else if d == 7 {
        '7'
    } else if d == 8 {
        '8'
    } else {
        '9'
    }
}

/// The decimal rendering of `n`, most significant digit first.
pub open spec fn spec_dec(n: int) -> Seq<char>
    decreases n,
{
    if n < 10 {
        seq![spec_digit_char(n)]
    } else {
        spec_dec(n / 10).push(spec_digit_char(n % 10))
    }
}

/// A one-character string for the digit `d`.
fn digit_str(d: u64) -> (r: &'static str)
    requires
        d < 10,
    ensures
        r@ == seq![spec_digit_char(d as int)],
{
    proof {
        reveal_strlit("0");
        reveal_strlit("1");
        reveal_strlit("2");
        reveal_strlit("3");
        reveal_strlit("4");
        reveal_strlit("5");
        reveal_strlit("6");
        reveal_strlit("7");
        reveal_strlit("8");
        reveal_strlit("9");
    }
    match d {
        0 => "0",
        1 => "1",
        2 => "2",
        3 => "3",
        4 => "4",
        5 => "5",
        6 => "6",
        7 => "7",
        8 => "8",
        _ => "9",
    }
}

/// Renders `n` in decimal.
pub fn u64_to_dec(n: u64) -> (r: String)
    ensures
        r@ == spec_dec(n as int),
    decreases n,
{
    if n < 10 {
        String::from_str(digit_str(n))
    } else {
        let prefix = u64_to_dec(n / 10);
        prefix.concat(digit_str(n % 10))
    }
}

/// The value of a decimal digit character, or -1 for any other character.
pub open spec fn spec_digit_val(c: char) -> int {
    if c == '0' {
        0
    } else if c == '1' {
        1
    } else if c == '2' {
        2
    } else if c == '3' {
        3
    } else if c == '4' {
        4
    } else if c == '5' {
        5
    } else if c == '6' {
        6
    } else if c == '7' {
        7
    } else if c == '8' {
        8
    } else if c == '9' {
        9
    } else {
        -1
    }
}

/// The value of one digit character.
fn digit_val(c: char) -> (r: i8)
    ensures
        r as int == spec_digit_val(c),
{
    match c {
        '0' => 0,
        '1' => 1,
        '2' => 2,
        '3' => 3,
        '4' => 4,
        '5' => 5,
        '6' => 6,
        '7' => 7,
        '8' => 8,
        '9' => 9,
        _ => -1,
    }
}

/// Parses an unsigned decimal number, rejecting empty input, non-digit
/// characters and overflow.  A single leading `+` is accepted, as the
/// standard integer parser accepts one.
pub fn parse_u64(s: &str) -> (r: Option<u64>)
    ensures
        r == spec_parse_u64(s@),
{
    let len = s.unicode_len();
    if len == 0 {
        return None;
    }
    let start: usize = if s.get_char(0) == '+' {
        1
    } else {
        0
    };
    let mut i: usize = start;
    let mut acc: u64 = 0;
    if i == len {
        return None;
    }
    while i < len
        invariant
            start <= i <= len,
            len == s@.len(),
            start < len,
            start <= 1,
            start == 1 <==> s@[0] == '+',
            spec_parse_dec_prefix(s@, start as int, i as int) == Some(acc),
        decreases len - i,
    {
        let d = digit_val(s.get_char(i));
        if d < 0 {
            proof {
                lemma_parse_dec_prefix_bad(s@, start as int, i as int, s@.len() as int);
            }
            return None;
        }
        if acc > (u64::MAX - (d as u64)) / 10 {
            proof {
                lemma_parse_dec_prefix_overflow(s@, start as int, i as int, s@.len() as int, acc);
            }
            return None;
        }
        acc = acc * 10 + (d as u64);
        i += 1;
    }
    Some(acc)
}

/// The value of the digit run of `s` between positions `start` and `to`, as
/// far as it parses.
pub open spec fn spec_parse_dec_prefix(s: Seq<char>, start: int, to: int) -> Option<u64>
    decreases to - start,
{
    if to <= start {
        Some(0u64)
    } else {
        let d = spec_digit_val(s[to - 1]);
        if d < 0 {
            None
        } else {
            match spec_parse_dec_prefix(s, start, to - 1) {
                None => None,
                Some(hi) => if hi * 10 + d <= u64::MAX as int {
                    Some((hi * 10 + d) as u64)
                } else {
                    None
                },
            }
        }
    }
}

/// What `parse_u64` returns: the decimal value of `s`, with at most one
/// leading `+` sign allowed.
pub open spec fn spec_parse_u64(s: Seq<char>) -> Option<u64> {
    if s.len() == 0 {
        None
    } else if s[0] == '+' {
        if s.len() == 1 {
            None
        } else {
            spec_parse_dec_prefix(s, 1, s.len() as int)
        }
    } else {
        spec_parse_dec_prefix(s, 0, s.len() as int)
    }
}

/// Once a non-digit is hit, the whole-range parse fails.
proof fn lemma_parse_dec_prefix_bad(s: Seq<char>, start: int, bad: int, to: int)
    requires
        start <= bad < to <= s.len(),
        spec_digit_val(s[bad]) < 0,
    ensures
        spec_parse_dec_prefix(s, start, to) is None,
    decreases to - bad,
{
    if to == bad + 1 {
    } else {
        lemma_parse_dec_prefix_bad(s, start, bad, to - 1);
    }
}

/// Once the accumulated value overflows, the whole-range parse fails.
proof fn lemma_parse_dec_prefix_overflow(s: Seq<char>, start: int, at: int, to: int, acc: u64)
    requires
        start <= at < to <= s.len(),
        spec_parse_dec_prefix(s, start, at) == Some(acc),
        spec_digit_val(s[at]) >= 0,
        acc * 10 + spec_digit_val(s[at]) > u64::MAX as int,
    ensures
        spec_parse_dec_prefix(s, start, to) is None,
    decreases to - at,
{
    if to == at + 1 {
    } else {
        lemma_parse_dec_prefix_overflow(s, start, at, to - 1, acc);
    }
}

/// What `str::to_lowercase` returns for a given string.
pub uninterp spec fn spec_lowercase(s: Seq<char>) -> Seq<char>;

/// Relies on `str::to_lowercase`: the result depends on the characters of the
/// input alone, and an empty input gives an empty result.
#[verifier::external_body]
pub fn to_lowercase(s: &str) -> (r: String)
    ensures
        r@ == spec_lowercase(s@),
        s@.len() == 0 ==> r@.len() == 0,
{
    s.to_lowercase()
}

/// What `parse_bool` returns: `true` for exactly "true", `false` for exactly
/// "false".
pub open spec fn spec_parse_bool(s: Seq<char>) -> Option<bool> {
    if s == "true"@ {
        Some(true)
    } else if s == "false"@ {
        Some(false)
    } else {
        None
    }
}

/// Parses a boolean the way the standard parser does: only the exact words
/// "true" and "false" are accepted.
pub fn parse_bool(s: &str) -> (r: Option<bool>)
    ensures
        r == spec_parse_bool(s@),
{
    if str_eq(s, "true") {
        Some(true)
    } else if str_eq(s, "false") {
        Some(false)
    } else {
        None
    }
}

} // verus!
