//! Points in time, as nanoseconds since the Unix epoch (UTC).
use vstd::prelude::*;

verus! {

/// The current time from `time::OffsetDateTime::now_utc`. The value depends
/// on the clock, so nothing is stated about it.
#[verifier::external_body]
pub(crate) fn now_utc() -> (t: i128) {
    ::time::OffsetDateTime::now_utc().unix_timestamp_nanos()
}

/// The timestamp as `chrono` counts it: nanoseconds in an `i64`, keeping the
/// low 64 bits (a time outside the `i64` range wraps).
pub fn time_to_chrono(time_date: i128) -> (r: i64)
    ensures
        r == time_date as i64,
{
    time_date as i64
}

/// Nanoseconds in a day.
pub const NANOS_PER_DAY: i128 = 86_400_000_000_000;

/// First and last instant that `time::OffsetDateTime` represents:
/// -9999-01-01T00:00:00Z and 9999-12-31T23:59:59.999999999Z.
pub const MIN_NANOS: i128 = -377_705_116_800_000_000_000;

pub const MAX_NANOS: i128 = 253_402_300_799_999_999_999;

pub open spec fn representable(t: int) -> bool {
    MIN_NANOS <= t <= MAX_NANOS
}

/// `time::OffsetDateTime` at `t` plus `days` days via `checked_add`, which
/// fails exactly when the start or the result lies outside the representable
/// range (documented as years -9999 to 9999).
#[verifier::external_body]
fn checked_add_days(t: i128, days: i32) -> (r: Option<i128>)
    ensures
        r is Some <==> (representable(t as int) && representable(t + days * NANOS_PER_DAY)),
        r matches Some(v) ==> v == t + days * NANOS_PER_DAY,
{
    ::time::OffsetDateTime::from_unix_timestamp_nanos(t)
        .ok()
        .and_then(|d| d.checked_add(::time::Duration::days(days as i64)))
        .map(|d| d.unix_timestamp_nanos())
}

/// `t` plus `days` days, if both lie in the representable range.
pub fn add_days(t: i128, days: i32) -> (r: Option<i128>)
    ensures
        r is Some <==> (representable(t as int) && representable(t + days * NANOS_PER_DAY)),
        r matches Some(v) ==> v == t + days * NANOS_PER_DAY,
{
    checked_add_days(t, days)
}

} // verus!
