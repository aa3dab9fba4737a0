use vstd::prelude::*;

verus! {

/// Largest Unix timestamp, in seconds, that a `chrono::DateTime` can hold
/// (a bound a little above the last second of year 262142).
pub const MAX_TIMESTAMP_SECONDS: i64 = 8_300_000_000_000;

/// Relies on `chrono::Utc::now` and `DateTime::timestamp`: the current time in
/// whole seconds since the Unix epoch. `Utc::now` panics on a system clock set
/// before the epoch, and a `DateTime` cannot hold a year past 262142.
#[verifier::external_body]
pub(crate) fn now_seconds() -> (r: i64)
    ensures
        0 <= r <= MAX_TIMESTAMP_SECONDS,
{
    chrono::Utc::now().timestamp()
}

} // verus!
