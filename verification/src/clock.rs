//! Trusted access to the ambient clock and to random request identifiers.
//!
//! Everything here depends on the wall clock or on randomness, so the
//! contracts promise only what holds of every possible outcome; callers take
//! the returned value as an argument and are verified for every value of it.

use vstd::prelude::*;

verus! {

/// Relies on `std::time::SystemTime::now`: the current number of whole
/// seconds since the Unix epoch, read as zero for a clock set before it.
/// The value depends on the wall clock, so nothing is promised of it.
#[verifier::external_body]
pub fn now_seconds() -> i64 {
    std::time::SystemTime::now()
        .duration_since(std::time::UNIX_EPOCH)
        .map(|d| d.as_secs() as i64)
        .unwrap_or(0)
}

/// Clamps a signed epoch timestamp to the unsigned range used by the health
/// tracker.
pub fn clamp_seconds(t: i64) -> (r: u64)
    ensures
        r == if t < 0 {
            0
        } else {
            t as u64
        },
{
    if t < 0 {
        0
    } else {
        t as u64
    }
}

/// Relies on `std::time::SystemTime::now`: a coarse nanosecond clock reading,
/// used only to spread load across backends.  Nothing is promised of it.
#[verifier::external_body]
pub fn entropy_nanos() -> u64 {
    std::time::SystemTime::now()
        .duration_since(std::time::UNIX_EPOCH)
        .unwrap_or_default()
        .as_nanos() as u64
}

/// Relies on `uuid::Uuid::new_v4` and the hyphenated form its `Display`
/// renders: a random identifier of exactly 36 characters.  The identifier
/// itself is random, so only its length is promised.
#[verifier::external_body]
pub fn generate_request_id() -> (r: String)
    ensures
        r@.len() == 36,
{
    uuid::Uuid::new_v4().to_string()
}

} // verus!
