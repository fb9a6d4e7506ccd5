//! The clock, read through std, and the local calendar, read through chrono.
use vstd::prelude::*;
use chrono::{Datelike, Timelike};

verus! {

/// Magnitude below which every timestamp that chrono can represent lies:
/// chrono's dates span the years -262143 to 262142, which is less than
/// 8.3e15 milliseconds on either side of 1970.
pub const TIMESTAMP_BOUND_MS: i64 = 9_000_000_000_000_000;

/// The system clock's reading, as std's `SystemTime`.
#[verifier::external_type_specification]
#[verifier::external_body]
pub struct ExSystemTime(std::time::SystemTime);

/// What std reports of a clock reading before 1970.
#[verifier::external_type_specification]
#[verifier::external_body]
pub struct ExSystemTimeError(std::time::SystemTimeError);

/// `SystemTime::now`: the reading of the system clock. It depends on the
/// clock alone, so nothing is stated of it.
#[verifier::external_body]
fn system_now() -> (r: std::time::SystemTime) {
    std::time::SystemTime::now()
}

/// `SystemTime::duration_since(UNIX_EPOCH)`: the time from 1970 to the
/// reading `t`, or, for a reading before 1970, an error that carries how far
/// before it lies. The reading is opaque here, so which of the two comes
/// back is not stated.
#[verifier::external_body]
fn since_unix_epoch(t: &std::time::SystemTime) -> (r: Result<std::time::Duration, std::time::SystemTimeError>) {
    t.duration_since(std::time::UNIX_EPOCH)
}

/// `SystemTimeError::duration`: how far before 1970 the reading lay.
#[verifier::external_body]
fn time_before_epoch(e: &std::time::SystemTimeError) -> (r: std::time::Duration) {
    e.duration()
}

/// `Duration::as_millis`: the whole milliseconds of a duration. Durations
/// are opaque here, so nothing is stated of the number.
#[verifier::external_body]
fn duration_millis(d: &std::time::Duration) -> (r: u128) {
    d.as_millis()
}

/// The timestamp `ms` whole milliseconds after 1970 (before 1970 when
/// `before_epoch`), held inside chrono's calendar range: a magnitude of
/// `TIMESTAMP_BOUND_MS` or more becomes the largest one below it.
pub open spec fn timestamp_of_spec(ms: u128, before_epoch: bool) -> int {
    let m: int = if ms < TIMESTAMP_BOUND_MS as u128 { ms as int } else { TIMESTAMP_BOUND_MS - 1 };
    if before_epoch { -m } else { m }
}

/// The timestamp of a clock reading `ms` milliseconds away from 1970, after
/// it or (when `before_epoch`) before it.
pub fn timestamp_of(ms: u128, before_epoch: bool) -> (r: i64)
    ensures
        r as int == timestamp_of_spec(ms, before_epoch),
        -TIMESTAMP_BOUND_MS < r < TIMESTAMP_BOUND_MS,
{
    let m: i64 = if ms < TIMESTAMP_BOUND_MS as u128 { ms as i64 } else { TIMESTAMP_BOUND_MS - 1 };
    if before_epoch { -m } else { m }
}

/// The current time in Unix milliseconds, read from the system clock:
/// negative for a clock set before 1970, and held inside chrono's calendar
/// range. The value depends on the clock; only its range is stated.
pub fn now_millis() -> (r: i64)
    ensures
        -TIMESTAMP_BOUND_MS < r < TIMESTAMP_BOUND_MS,
{
    let reading = system_now();
    match since_unix_epoch(&reading) {
        Ok(d) => timestamp_of(duration_millis(&d), false),
        Err(e) => {
            let before = time_before_epoch(&e);
            timestamp_of(duration_millis(&before), true)
        },
    }
}

/// Magnitude below which chrono places every timestamp on its calendar:
/// 8e15 milliseconds is about 253,000 years, inside chrono's span of dates.
pub const CALENDAR_BOUND_MS: i64 = 8_000_000_000_000_000;

/// A wall-clock reading in the local time zone.
#[derive(Clone, Copy, Debug, PartialEq, Eq, Structural)]
pub struct LocalTime {
    pub month: u32,
    pub day: u32,
    pub hour: u32,
    pub minute: u32,
}

/// `chrono::DateTime::from_timestamp_millis(t)` taken to `chrono::Local`:
/// month, day, hour and minute of the instant `t` in the machine's time
/// zone, or `None` where chrono cannot represent `t`; chrono documents
/// `from_timestamp_millis` as returning `Some` for every timestamp in its
/// range, which includes every `t` below `CALENDAR_BOUND_MS` in magnitude.
/// The fields depend on the time zone; the contract states only their
/// ranges, which chrono's `Datelike` and `Timelike` documentation gives.
#[verifier::external_body]
pub fn local_time(t: i64) -> (r: Option<LocalTime>)
    ensures
        -CALENDAR_BOUND_MS < t < CALENDAR_BOUND_MS ==> r is Some,
        r matches Some(lt) ==> 1 <= lt.month <= 12 && 1 <= lt.day <= 31 && lt.hour < 24
            && lt.minute < 60,
{
    match chrono::DateTime::from_timestamp_millis(t) {
        Some(utc) => {
            let d = utc.with_timezone(&chrono::Local);
            Some(LocalTime { month: d.month(), day: d.day(), hour: d.hour(), minute: d.minute() })
        },
        None => None,
    }
}

} // verus!
