//! Instants (seconds and nanoseconds since the Unix epoch, UTC) read from
//! proposal metadata, and the current time.
use vstd::prelude::*;

verus! {

/// An instant: whole seconds since 1970-01-01T00:00:00Z and the nanoseconds within that second.
pub type Instant = (i64, u32);

/// The instant that `chrono::DateTime::parse_from_rfc3339` reads from a text, if it reads one.
pub uninterp spec fn rfc3339_instant(text: Seq<char>) -> Option<(i64, u32)>;

/// The instant (taken as UTC) that `chrono::NaiveDateTime::parse_from_str` reads with a format.
pub uninterp spec fn naive_datetime_instant(text: Seq<char>, fmt: Seq<char>) -> Option<(i64, u32)>;

/// The midnight (UTC) of the date that `chrono::NaiveDate::parse_from_str` reads with a format.
pub uninterp spec fn naive_date_midnight(text: Seq<char>, fmt: Seq<char>) -> Option<i64>;

/// `chrono::DateTime::parse_from_rfc3339`: an RFC 3339 date-time with offset,
/// returned as its UTC instant; the result depends on the text alone.
#[verifier::external_body]
fn parse_rfc3339_instant(text: &str) -> (r: Option<Instant>)
    ensures
        r == rfc3339_instant(text@),
{
    match chrono::DateTime::parse_from_rfc3339(text) {
        Ok(dt) => Some((dt.timestamp(), dt.timestamp_subsec_nanos())),
        Err(_) => None,
    }
}

/// `chrono::NaiveDateTime::parse_from_str`: a date-time without offset in the
/// given format, taken as UTC; the result depends on the text and format alone.
#[verifier::external_body]
fn parse_naive_datetime_instant(text: &str, fmt: &str) -> (r: Option<Instant>)
    ensures
        r == naive_datetime_instant(text@, fmt@),
{
    match chrono::NaiveDateTime::parse_from_str(text, fmt) {
        Ok(naive) => {
            let dt = naive.and_utc();
            Some((dt.timestamp(), dt.timestamp_subsec_nanos()))
        },
        Err(_) => None,
    }
}

/// `chrono::NaiveDate::parse_from_str`: a date in the given format, returned
/// as the timestamp of its midnight UTC; the result depends on the text and format alone.
#[verifier::external_body]
fn parse_naive_date_midnight(text: &str, fmt: &str) -> (r: Option<i64>)
    ensures
        r == naive_date_midnight(text@, fmt@),
{
    match chrono::NaiveDate::parse_from_str(text, fmt) {
        Ok(date) => date.and_hms_opt(0, 0, 0).map(|t| t.and_utc().timestamp()),
        Err(_) => None,
    }
}

#[verifier::external_type_specification]
#[verifier::external_body]
pub struct ExSystemTime(std::time::SystemTime);

/// `std::time::SystemTime::now`: the clock's current time. Nothing is stated
/// of it: it depends on the clock.
#[verifier::external_body]
fn system_now() -> std::time::SystemTime {
    std::time::SystemTime::now()
}

/// `SystemTime::duration_since(UNIX_EPOCH)`: how far `t` lies after the Unix
/// epoch (`Ok`) or, when it lies before it, how far before (`Err`), each as
/// whole seconds and the nanoseconds within the last second, which
/// `Duration::subsec_nanos` documents as less than one billion. Nothing else
/// is stated: the time is opaque.
#[verifier::external_body]
fn duration_since_epoch(t: &std::time::SystemTime) -> (r: Result<(u64, u32), (u64, u32)>)
    ensures
        match r {
            Ok((_, n)) => n < 1_000_000_000,
            Err((_, n)) => n < 1_000_000_000,
        },
{
    match t.duration_since(std::time::UNIX_EPOCH) {
        Ok(d) => Ok((d.as_secs(), d.subsec_nanos())),
        Err(e) => Err((e.duration().as_secs(), e.duration().subsec_nanos())),
    }
}

/// The current instant, read from the system clock. A clock before 1970
/// gives a negative instant; a clock further from 1970 than `i64` seconds can
/// count is held at the first or last instant that they can.
pub fn utc_now() -> (r: Instant)
    ensures
        r.1 < 1_000_000_000,
{
    let t = system_now();
    match duration_since_epoch(&t) {
        Ok((s, n)) => {
            if s <= 9223372036854775807u64 {
                (s as i64, n)
            } else {
                (9223372036854775807i64, 999_999_999u32)
            }
        },
        Err((s, n)) => {
            if n == 0 {
                if s <= 9223372036854775807u64 {
                    (-(s as i64), 0u32)
                } else {
                    (-9223372036854775807i64 - 1, 0u32)
                }
            } else if s < 9223372036854775807u64 {
                (-(s as i64) - 1, 1_000_000_000u32 - n)
            } else {
                (-9223372036854775807i64 - 1, 0u32)
            }
        },
    }
}

/// What the metadata date reader accepts, tried in order: RFC 3339,
/// `YYYY-MM-DD HH:MM:SS` (UTC), `YYYY-MM-DD` (midnight UTC).
pub open spec fn datetime_of(text: Seq<char>) -> Option<Instant> {
    match rfc3339_instant(text) {
        Some(t) => Some(t),
        None => match naive_datetime_instant(text, "%Y-%m-%d %H:%M:%S"@) {
            Some(t) => Some(t),
            None => match naive_date_midnight(text, "%Y-%m-%d"@) {
                Some(s) => Some((s, 0u32)),
                None => None,
            },
        },
    }
}

/// Reads a metadata date-time in one of the accepted forms.
pub fn parse_datetime(text: &str) -> (r: Option<Instant>)
    ensures
        r == datetime_of(text@),
{
    match parse_rfc3339_instant(text) {
        Some(t) => return Some(t),
        None => {},
    }
    match parse_naive_datetime_instant(text, "%Y-%m-%d %H:%M:%S") {
        Some(t) => return Some(t),
        None => {},
    }
    match parse_naive_date_midnight(text, "%Y-%m-%d") {
        Some(s) => Some((s, 0u32)),
        None => None,
    }
}

/// `a` is strictly before `b`.
pub open spec fn instant_before(a: Instant, b: Instant) -> bool {
    a.0 < b.0 || (a.0 == b.0 && a.1 < b.1)
}

pub fn is_before(a: Instant, b: Instant) -> (r: bool)
    ensures
        r == instant_before(a, b),
{
    a.0 < b.0 || (a.0 == b.0 && a.1 < b.1)
}

/// Seconds in 365 days.
pub const SECONDS_PER_YEAR: i64 = 31536000;

/// More than 365 days have passed from `created` to `now`.
pub open spec fn over_a_year_old(created: Instant, now: Instant) -> bool {
    (created.0 + SECONDS_PER_YEAR < now.0) || (created.0 + SECONDS_PER_YEAR == now.0 && created.1 < now.1)
}

pub fn is_over_a_year_old(created: Instant, now: Instant) -> (r: bool)
    ensures
        r == over_a_year_old(created, now),
{
    if created.0 > i64::MAX - SECONDS_PER_YEAR {
        false
    } else {
        let limit = created.0 + SECONDS_PER_YEAR;
        limit < now.0 || (limit == now.0 && created.1 < now.1)
    }
}

} // verus!
