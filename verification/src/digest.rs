//! Trusted digest and encoding primitives, and the verified helpers built on
//! them: SHA-256 hashing, lowercase hex rendering, base64, and a simple
//! shared-secret signature check.

use vstd::prelude::*;

use base64::Engine;
use sha2::Digest;

verus! {

/// What SHA-256 returns for a given byte sequence.  The algorithm itself is
/// not written out here: the digest is a function of the input alone, so it
/// only carries a name.
pub uninterp spec fn spec_sha256(data: Seq<u8>) -> Seq<u8>;

/// Relies on the `sha2` crate's `Sha256` (`Digest::update` / `finalize`):
/// the digest is a function of the input bytes alone and is 32 bytes long.
#[verifier::external_body]
pub fn sha256_digest(data: &[u8]) -> (r: Vec<u8>)
    ensures
        r@ == spec_sha256(data@),
        r@.len() == 32,
{
    let mut hasher = sha2::Sha256::new();
    hasher.update(data);
    hasher.finalize().to_vec()
}

/// The lowercase hex digit character for the value `d`.
pub open spec fn spec_hex_digit(d: int) -> char {
    if d == 0 {
        '0'
    } else if d == 1 {
        '1'
    } else if d == 2 {
        '2'
    } else if d == 3 {
        '3'
    } else if d == 4 {
        '4'
    } else if d == 5 {
        '5'
    } else if d == 6 {
        '6'
    } else if d == 7 {
        '7'
    } else if d == 8 {
        '8'
    } else if d == 9 {
        '9'
    } else if d == 10 {
        'a'
    } else if d == 11 {
        'b'
    } else if d == 12 {
        'c'
    } else if d == 13 {
        'd'
    } else if d == 14 {
        'e'
    } else {
        'f'
    }
}

/// The lowercase hex rendering of a byte sequence: two digits per byte, high
/// nibble first.
pub open spec fn spec_hex_lower(data: Seq<u8>) -> Seq<char>
    decreases data.len(),
{
    if data.len() == 0 {
        Seq::empty()
    } else {
        seq![
            spec_hex_digit(data.first() as int / 16),
            spec_hex_digit(data.first() as int % 16),
        ] + spec_hex_lower(data.drop_first())
    }
}

/// Relies on `hex::encode`: lowercase hex, two digits per byte, in order.
#[verifier::external_body]
pub fn hex_encode(data: &[u8]) -> (r: String)
    ensures
        r@ == spec_hex_lower(data@),
{
    hex::encode(data)
}

/// What the standard base64 alphabet (with padding) encodes a byte sequence
/// to.  Named rather than written out: the result is a function of the input
/// alone.
pub uninterp spec fn spec_base64(data: Seq<u8>) -> Seq<char>;

/// What standard base64 decoding yields for a string: the decoded bytes, or
/// nothing when the input is not valid base64.
pub uninterp spec fn spec_base64_decode(s: Seq<char>) -> Option<Seq<u8>>;

/// Relies on `base64::engine::general_purpose::STANDARD` and
/// `Engine::encode`: the encoding is a function of the input bytes alone;
/// four output characters arise for every three input bytes, rounded up;
/// and decoding with the same engine gives the input back.
#[verifier::external_body]
pub fn base64_encode(data: &[u8]) -> (r: String)
    ensures
        r@ == spec_base64(data@),
        r@.len() == 4 * ((data@.len() + 2) / 3),
        spec_base64_decode(r@) == Option::Some(data@),
{
    base64::engine::general_purpose::STANDARD.encode(data)
}

/// Relies on `base64::engine::general_purpose::STANDARD` and
/// `Engine::decode`: decoding succeeds exactly on valid standard base64, and
/// its result is a function of the input string alone.
#[verifier::external_body]
pub fn base64_decode_raw(data: &str) -> (r: Option<Vec<u8>>)
    ensures
        r is Some <==> spec_base64_decode(data@) is Some,
        r matches Option::Some(v) ==> spec_base64_decode(data@) == Option::Some(v@),
{
    match base64::engine::general_purpose::STANDARD.decode(data) {
        Ok(v) => Some(v),
        Err(_) => None,
    }
}

/// The lowercase hex SHA-256 digest of the characters of `data`, hashing
/// their UTF-8 encoding.
pub open spec fn spec_sha256_hex(data: Seq<char>) -> Seq<char> {
    spec_hex_lower(spec_sha256(vstd::utf8::encode_utf8(data)))
}

/// Hex-rendered SHA-256 of a string's UTF-8 bytes.
pub fn sha256_hash(data: &str) -> (r: String)
    ensures
        r@ == spec_sha256_hex(data@),
{
    let digest = sha256_digest(data.as_bytes());
    hex_encode(digest.as_slice())
}

/// Whether `signature` is the hex SHA-256 of the secret concatenated with
/// the data.
pub open spec fn spec_hmac_matches(data: Seq<char>, signature: Seq<char>, secret: Seq<char>) ->
    bool {
    signature == spec_sha256_hex(secret + data)
}

/// Checks a simple shared-secret signature: the hex SHA-256 of
/// `secret + data` must equal `signature`.
pub fn verify_hmac_sha256(data: &str, signature: &str, secret: &str) -> (r: bool)
    ensures
        r == spec_hmac_matches(data@, signature@, secret@),
{
    let joined = String::from_str(secret).concat(data);
    let computed = sha256_hash(joined.as_str());
    crate::strutil::str_eq(computed.as_str(), signature)
}

} // verus!
