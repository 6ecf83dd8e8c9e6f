//! Time: the system clock and RFC 3339 timestamps read with chrono.
use vstd::prelude::*;
use chrono::TimeZone;
use std::time::{Duration, SystemTime, SystemTimeError, UNIX_EPOCH};

verus! {

/// What chrono's RFC 3339 parser gives for the characters `s`: the Unix time
/// in whole seconds and the offset from UTC in seconds, or `None` where it
/// refuses them.
pub uninterp spec fn rfc3339_instant(s: Seq<char>) -> Option<(i64, i32)>;

/// The Unix time that the RFC 3339 text `s` names, where it parses.
pub open spec fn rfc3339_seconds(s: Seq<char>) -> Option<i64> {
    match rfc3339_instant(s) {
        Some(p) => Some(p.0),
        None => None,
    }
}

/// The earliest Unix time that an RFC 3339 text can name: year 0000, with an
/// offset of almost a day.
pub open spec fn earliest_rfc3339() -> int {
    -62_167_305_600
}

/// The latest Unix time that an RFC 3339 text can name: year 9999, with an
/// offset of almost a day.
pub open spec fn latest_rfc3339() -> int {
    253_402_387_200
}

/// Calls chrono's `DateTime::parse_from_rfc3339` and reads `timestamp()` and
/// the offset's `local_minus_utc()` of what it parsed. Claimed: the result is
/// a function of the characters alone; as the parser reads a four-digit year
/// and an offset under 24 hours, the time lies between `earliest_rfc3339()`
/// and `latest_rfc3339()` and the offset within a day of zero.
#[verifier::external_body]
pub(crate) fn parse_rfc3339(s: &str) -> (r: Option<(i64, i32)>)
    ensures
        r == rfc3339_instant(s@),
        r matches Some(p) ==> earliest_rfc3339() <= p.0 <= latest_rfc3339() && -86400 < p.1 < 86400,
{
    match chrono::DateTime::parse_from_rfc3339(s) {
        Ok(d) => Some((d.timestamp(), d.offset().local_minus_utc())),
        Err(_) => None,
    }
}

/// Reads the Unix time of the RFC 3339 text `s`.
pub(crate) fn parse_rfc3339_seconds(s: &str) -> (r: Option<i64>)
    ensures
        r == rfc3339_seconds(s@),
        r matches Some(t) ==> earliest_rfc3339() <= t <= latest_rfc3339(),
{
    match parse_rfc3339(s) {
        Some(p) => Some(p.0),
        None => None,
    }
}

/// The date patterns that dates are written with.
pub open spec fn date_pattern(p: Seq<char>) -> bool {
    p == "%B %d, %Y"@ || p == "%B %d, %Y at %I:%M %p"@
}

/// The text that chrono's `format` with `pattern` renders for the instant at
/// Unix time `secs`, seen at an offset of `offset` seconds from UTC.
pub uninterp spec fn date_text_at(secs: i64, offset: i32, pattern: Seq<char>) -> Seq<char>;

/// Calls chrono's `FixedOffset::east_opt(offset)`, then `timestamp_opt(secs,
/// 0)` on it, then `format(pattern)`. Claimed: the text is a function of the
/// three arguments; there is one, as `east_opt` accepts any offset within a
/// day of zero and `timestamp_opt` any time within chrono's range of years
/// (far beyond a million million seconds either side of 1970); and, with all
/// fields of a date present and a pattern of these fields, formatting cannot
/// fail.
#[verifier::external_body]
pub(crate) fn format_date_at(secs: i64, offset: i32, pattern: &str) -> (r: Option<String>)
    requires
        date_pattern(pattern@),
    ensures
        -86400 < offset < 86400 && -1_000_000_000_000 <= secs <= 1_000_000_000_000 ==> r is Some,
        r matches Some(t) ==> t@ == date_text_at(secs, offset, pattern@),
{
    match chrono::FixedOffset::east_opt(offset) {
        Some(tz) => match tz.timestamp_opt(secs, 0) {
            chrono::offset::LocalResult::Single(d) => Some(d.format(pattern).to_string()),
            _ => None,
        },
        None => None,
    }
}

/// The system clock's type, carried through opaquely.
#[verifier::external_type_specification]
#[verifier::external_body]
pub struct ExSystemTime(SystemTime);

/// The error of a clock that reads before 1970, carried through opaquely.
#[verifier::external_type_specification]
#[verifier::external_body]
pub struct ExSystemTimeError(SystemTimeError);

/// Calls `SystemTime::now`. Nothing is stated of the reading: it is the
/// machine's clock.
#[verifier::external_body]
fn read_system_clock() -> (t: SystemTime) {
    SystemTime::now()
}

/// Calls `SystemTime::duration_since` with `UNIX_EPOCH`: the time since 1970,
/// or, as the error, the time before it. Nothing is stated of the durations.
#[verifier::external_body]
fn elapsed_since_epoch(t: &SystemTime) -> (r: Result<Duration, SystemTimeError>) {
    t.duration_since(UNIX_EPOCH)
}

/// Calls `SystemTimeError::duration`: how far before 1970 the clock read.
#[verifier::external_body]
fn time_before_epoch(e: &SystemTimeError) -> (d: Duration) {
    e.duration()
}

/// Calls `Duration::as_secs`: the whole seconds of `d`. Nothing is stated of
/// the count, as a `Duration` is opaque here.
#[verifier::external_body]
fn whole_secs(d: &Duration) -> (s: u64) {
    d.as_secs()
}

/// The Unix time in whole seconds for a clock reading: `Ok(a)` is `a` whole
/// seconds after 1970, kept as an `i64` by its low 64 bits; `Err(b)` is `b`
/// whole seconds before 1970, counted negative and held at `i64::MIN` where
/// it would not fit.
pub open spec fn unix_seconds_of(reading: Result<u64, u64>) -> i64 {
    match reading {
        Ok(a) => a as i64,
        Err(b) => if b > i64::MAX {
            i64::MIN
        } else {
            (-b) as i64
        },
    }
}

/// The Unix time in whole seconds for the clock reading `reading` (whole
/// seconds after 1970, or before it).
pub fn unix_seconds(reading: Result<u64, u64>) -> (secs: i64)
    ensures
        secs == unix_seconds_of(reading),
{
    match reading {
        Ok(a) => #[verifier::truncate] (a as i64),
        Err(b) => {
            if b > 9_223_372_036_854_775_807u64 {
                i64::MIN
            } else {
                -(b as i64)
            }
        },
    }
}

/// The whole seconds between the system clock's reading and 1970: `Ok` after
/// it, `Err` before it.
fn read_epoch_seconds() -> (r: Result<u64, u64>) {
    let t = read_system_clock();
    match elapsed_since_epoch(&t) {
        Ok(d) => Ok(whole_secs(&d)),
        Err(e) => Err(whole_secs(&time_before_epoch(&e))),
    }
}

/// The current Unix time in whole seconds, from `SystemTime::now()`: the
/// seconds since 1970 (kept as an `i64` by its low 64 bits), or, where the
/// clock reads before 1970, minus the whole seconds before it. Which reading
/// the clock gives is not stated: it is the machine's clock.
pub fn now_secs() -> (secs: i64)
    ensures
        exists|reading: Result<u64, u64>| secs == unix_seconds_of(reading),
{
    let reading = read_epoch_seconds();
    unix_seconds(reading)
}

} // verus!
