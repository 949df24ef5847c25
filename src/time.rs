//! Builtins for date and time-related operations. Times are nanoseconds
//! since the UNIX epoch; time zones are IANA names, UTC by default.

use vstd::prelude::*;
use chrono::{Datelike, TimeZone, Timelike};
use crate::context::EvaluationContext;
use crate::error::BuiltinError;

verus! {

/// A timestamp, with or without the name of a time zone.
#[derive(Debug)]
pub enum TimestampWithOptionalTimezone {
    /// A timestamp, read in UTC.
    Timestamp(i64),
    /// A timestamp and the time zone to read it in.
    TimestampAndTimezone(i64, String),
}

/// The civil reading `(year, month, day, hour, minute, second, weekday)` of
/// the timestamp `ts` in the time zone named `tz`, with the weekday counted
/// from Monday as 0; `None` where the zone is not known.
pub uninterp spec fn civil_of(ts: i64, tz: Seq<char>) -> Option<(i32, u32, u32, u32, u32, u32, u32)>;

/// Relies on `chrono_tz::Tz`'s `FromStr` (the zone's name) and
/// `TimeZone::timestamp_nanos`, read through `Datelike` and `Timelike`: the
/// zone `UTC` is known, months run from 1 to 12, days from 1 to 31, hours from
/// 0 to 23, minutes and seconds from 0 to 59, and weekdays from 0 (Monday) to
/// 6.
#[verifier::external_body]
fn civil(ts: i64, tz: &str) -> (r: Option<(i32, u32, u32, u32, u32, u32, u32)>)
    ensures
        r == civil_of(ts, tz@),
        tz@ == "UTC"@ ==> r is Some,
        r matches Some(c) ==> 1 <= c.1 <= 12 && 1 <= c.2 <= 31 && c.3 < 24 && c.4 < 60 && c.5 < 60
            && c.6 < 7,
{
    let zone: chrono_tz::Tz = tz.parse().ok()?;
    let d = zone.timestamp_nanos(ts);
    Some((d.year(), d.month(), d.day(), d.hour(), d.minute(), d.second(), d.weekday().num_days_from_monday()))
}

impl TimestampWithOptionalTimezone {
    /// The timestamp.
    pub open spec fn spec_ts(&self) -> i64 {
        match self {
            TimestampWithOptionalTimezone::Timestamp(ts) => *ts,
            TimestampWithOptionalTimezone::TimestampAndTimezone(ts, _) => *ts,
        }
    }

    /// The time zone: the one named, or UTC.
    pub open spec fn spec_tz(&self) -> Seq<char> {
        match self {
            TimestampWithOptionalTimezone::Timestamp(_) => "UTC"@,
            TimestampWithOptionalTimezone::TimestampAndTimezone(_, tz) => tz@,
        }
    }

    /// The civil reading of the timestamp in its time zone.
    fn civil_reading(&self) -> (r: Result<(i32, u32, u32, u32, u32, u32, u32), BuiltinError>)
        ensures
            civil_of(self.spec_ts(), self.spec_tz()) matches Some(c) ==> r == Ok::<
                (i32, u32, u32, u32, u32, u32, u32),
                BuiltinError,
            >(c),
            civil_of(self.spec_ts(), self.spec_tz()) is None ==> r == Err::<
                (i32, u32, u32, u32, u32, u32, u32),
                BuiltinError,
            >(BuiltinError::UnknownTimezone),
            r matches Ok(c) ==> 1 <= c.1 <= 12 && 1 <= c.2 <= 31 && c.3 < 24 && c.4 < 60 && c.5
                < 60 && c.6 < 7,
    {
        let c = match self {
            TimestampWithOptionalTimezone::Timestamp(ts) => civil(*ts, "UTC"),
            TimestampWithOptionalTimezone::TimestampAndTimezone(ts, tz) => civil(*ts, tz.as_str()),
        };
        match c {
            Some(c) => Ok(c),
            None => Err(BuiltinError::UnknownTimezone),
        }
    }
}

/// A timestamp given without a time zone reads as the same timestamp given
/// with the zone `UTC`.
pub proof fn lemma_utc_default(ts: i64, tz: String)
    requires
        tz@ == "UTC"@,
    ensures
        TimestampWithOptionalTimezone::Timestamp(ts).spec_ts()
            == TimestampWithOptionalTimezone::TimestampAndTimezone(ts, tz).spec_ts(),
        TimestampWithOptionalTimezone::Timestamp(ts).spec_tz()
            == TimestampWithOptionalTimezone::TimestampAndTimezone(ts, tz).spec_tz(),
{
}

/// Returns the `[hour, minute, second]` of the day for the nanoseconds since
/// epoch.
pub fn clock(x: TimestampWithOptionalTimezone) -> (r: Result<(u32, u32, u32), BuiltinError>)
    ensures
        civil_of(x.spec_ts(), x.spec_tz()) matches Some(c) ==> r == Ok::<(u32, u32, u32), BuiltinError>((c.3, c.4, c.5)),
        civil_of(x.spec_ts(), x.spec_tz()) is None ==> r == Err::<(u32, u32, u32), BuiltinError>(BuiltinError::UnknownTimezone),
{
    let c = x.civil_reading()?;
    Ok((c.3, c.4, c.5))
}

/// Returns the `[year, month, day]` for the nanoseconds since epoch.
pub fn date(x: TimestampWithOptionalTimezone) -> (r: Result<(i32, u32, u32), BuiltinError>)
    ensures
        civil_of(x.spec_ts(), x.spec_tz()) matches Some(c) ==> r == Ok::<(i32, u32, u32), BuiltinError>((c.0, c.1, c.2)),
        civil_of(x.spec_ts(), x.spec_tz()) is None ==> r == Err::<(i32, u32, u32), BuiltinError>(BuiltinError::UnknownTimezone),
{
    let c = x.civil_reading()?;
    Ok((c.0, c.1, c.2))
}

/// The English name of the weekday counted from Monday as 0.
pub open spec fn weekday_name(d: u32) -> Seq<char> {
    if d == 0 {
        "Monday"@
    } else if d == 1 {
        "Tuesday"@
    } else if d == 2 {
        "Wednesday"@
    } else if d == 3 {
        "Thursday"@
    } else if d == 4 {
        "Friday"@
    } else if d == 5 {
        "Saturday"@
    } else {
        "Sunday"@
    }
}

/// Returns the day of the week (Monday, Tuesday, ...) for the nanoseconds
/// since epoch.
pub fn weekday(x: TimestampWithOptionalTimezone) -> (r: Result<&'static str, BuiltinError>)
    ensures
        civil_of(x.spec_ts(), x.spec_tz()) matches Some(c) ==> r is Ok && r.unwrap()@ == weekday_name(c.6),
        civil_of(x.spec_ts(), x.spec_tz()) is None ==> r == Err::<&'static str, BuiltinError>(BuiltinError::UnknownTimezone),
{
    let c = x.civil_reading()?;
    let d = c.6;
    Ok(if d == 0 {
        "Monday"
    } else if d == 1 {
        "Tuesday"
    } else if d == 2 {
        "Wednesday"
    } else if d == 3 {
        "Thursday"
    } else if d == 4 {
        "Friday"
    } else if d == 5 {
        "Saturday"
    } else {
        "Sunday"
    })
}

/// The largest shift in years, months and days that `time.add_date` accepts:
/// within them no step of the computation leaves the calendar's range.
pub const MAX_YEARS: i32 = 200_000;
/// See [`MAX_YEARS`].
pub const MAX_MONTHS: i32 = 600_000;
/// See [`MAX_YEARS`].
pub const MAX_DAYS: i64 = 3_000_000;

/// The timestamp `ns` shifted by `years`, then `months`, then `days` of the
/// calendar, where the result fits in nanoseconds since the epoch.
pub uninterp spec fn date_shifted(ns: i64, years: i32, months: i32, days: i64) -> Option<i64>;

/// Relies on `chronoutil::RelativeDuration` added to a `chrono::DateTime<Utc>`
/// made by `TimeZone::timestamp_nanos`, and on `DateTime::timestamp_nanos_opt`,
/// which gives `None` where the result does not fit. Within the bounds no
/// step panics.
#[verifier::external_body]
fn shift_date(ns: i64, years: i32, months: i32, days: i64) -> (r: Option<i64>)
    requires
        -MAX_YEARS <= years <= MAX_YEARS,
        -MAX_MONTHS <= months <= MAX_MONTHS,
        -MAX_DAYS <= days <= MAX_DAYS,
    ensures
        r == date_shifted(ns, years, months, days),
{
    let d = chrono::Utc.timestamp_nanos(ns) + chronoutil::RelativeDuration::years(years)
        + chronoutil::RelativeDuration::months(months) + chronoutil::RelativeDuration::days(days);
    d.timestamp_nanos_opt()
}

/// Returns the nanoseconds since epoch after adding years, months and days to
/// nanoseconds. Fails where the result would be outside the range that
/// nanoseconds in an `i64` can hold.
pub fn add_date(ns: i64, years: i32, months: i32, days: i64) -> (r: Result<i64, BuiltinError>)
    ensures
        -MAX_YEARS <= years <= MAX_YEARS && -MAX_MONTHS <= months <= MAX_MONTHS && -MAX_DAYS <= days
            <= MAX_DAYS ==> match date_shifted(ns, years, months, days) {
            Some(v) => r == Ok::<i64, BuiltinError>(v),
            None => r == Err::<i64, BuiltinError>(BuiltinError::OutOfRange),
        },
        !(-MAX_YEARS <= years <= MAX_YEARS && -MAX_MONTHS <= months <= MAX_MONTHS && -MAX_DAYS
            <= days <= MAX_DAYS) ==> r == Err::<i64, BuiltinError>(BuiltinError::OutOfRange),
{
    if years < -MAX_YEARS || years > MAX_YEARS || months < -MAX_MONTHS || months > MAX_MONTHS
        || days < -MAX_DAYS || days > MAX_DAYS {
        return Err(BuiltinError::OutOfRange);
    }
    match shift_date(ns, years, months, days) {
        Some(v) => Ok(v),
        None => Err(BuiltinError::OutOfRange),
    }
}

/// Returns the difference between two timestamps. Not implemented.
pub fn diff(ns1: crate::json::Json, ns2: crate::json::Json) -> (r: Result<(u8, u8, u8, u8, u8, u8), BuiltinError>)
    ensures
        r == Err::<(u8, u8, u8, u8, u8, u8), BuiltinError>(BuiltinError::NotImplemented),
{
    Err(BuiltinError::NotImplemented)
}

/// Returns the time at which the current evaluation started, in nanoseconds
/// since the epoch.
pub fn now_ns<C: EvaluationContext>(ctx: &mut C) -> (r: i64)
    ensures
        r == old(ctx).clock(),
        final(ctx).clock() == old(ctx).clock(),
        forall|k: crate::context::KeyV| #[trigger] final(ctx).cached(k) == old(ctx).cached(k),
{
    ctx.now_ns()
}

/// The duration that a text such as `"1h30m"` stands for, in nanoseconds.
pub uninterp spec fn duration_ns(s: Seq<char>) -> Option<u128>;

/// Relies on `duration_str::parse` and `Duration::as_nanos`: the duration
/// that the text stands for, or `None` where it does not parse.
#[verifier::external_body]
pub(crate) fn parse_duration(s: &str) -> (r: Option<u128>)
    ensures
        r == duration_ns(s@),
{
    duration_str::parse(s).ok().map(|d| d.as_nanos())
}

/// Returns the duration in nanoseconds represented by a string.
pub fn parse_duration_ns(duration: String) -> (r: Result<u128, BuiltinError>)
    ensures
        duration_ns(duration@) matches Some(v) ==> r == Ok::<u128, BuiltinError>(v),
        duration_ns(duration@) is None ==> r == Err::<u128, BuiltinError>(BuiltinError::Parse),
{
    match parse_duration(duration.as_str()) {
        Some(v) => Ok(v),
        None => Err(BuiltinError::Parse),
    }
}

/// Returns the time in nanoseconds parsed from the string in the given
/// layout. Not implemented.
pub fn parse_ns(layout: String, value: String) -> (r: Result<i64, BuiltinError>)
    ensures
        r == Err::<i64, BuiltinError>(BuiltinError::NotImplemented),
{
    Err(BuiltinError::NotImplemented)
}

/// The nanoseconds since the epoch of an RFC 3339 timestamp, where it parses
/// and fits.
pub uninterp spec fn rfc3339_ns(s: Seq<char>) -> Option<i64>;

/// Relies on `chrono::DateTime::parse_from_rfc3339` and
/// `DateTime::timestamp_nanos_opt`: `None` where the text does not parse or
/// the instant does not fit.
#[verifier::external_body]
fn parse_rfc3339(s: &str) -> (r: Option<i64>)
    ensures
        r == rfc3339_ns(s@),
{
    chrono::DateTime::parse_from_rfc3339(s).ok()?.timestamp_nanos_opt()
}

/// Returns the time in nanoseconds parsed from the string in RFC3339 format.
pub fn parse_rfc3339_ns(value: String) -> (r: Result<i64, BuiltinError>)
    ensures
        rfc3339_ns(value@) matches Some(v) ==> r == Ok::<i64, BuiltinError>(v),
        rfc3339_ns(value@) is None ==> r == Err::<i64, BuiltinError>(BuiltinError::Parse),
{
    match parse_rfc3339(value.as_str()) {
        Some(v) => Ok(v),
        None => Err(BuiltinError::Parse),
    }
}

} // verus!
