use opa_wasm::error::BuiltinError;
use opa_wasm::time::{
    add_date, clock, date, parse_duration_ns, parse_ns, parse_rfc3339_ns, weekday,
    TimestampWithOptionalTimezone,
};
use opa_wasm::units::{parse, parse_bytes, UsizeOrMilli};

const DAY_NS: i64 = 86_400_000_000_000;

#[test]
fn rfc3339_epoch_is_zero() {
    assert_eq!(parse_rfc3339_ns("1970-01-01T00:00:00Z".to_string()), Ok(0));
    assert_eq!(parse_rfc3339_ns("1970-01-02T00:00:00Z".to_string()), Ok(DAY_NS));
    assert_eq!(parse_rfc3339_ns("not a date".to_string()), Err(BuiltinError::Parse));
}

#[test]
fn clock_date_weekday_in_utc() {
    let ts = || TimestampWithOptionalTimezone::Timestamp(0);
    assert_eq!(clock(ts()), Ok((0, 0, 0)));
    assert_eq!(date(ts()), Ok((1970, 1, 1)));
    assert_eq!(weekday(ts()), Ok("Thursday"));
    let later = TimestampWithOptionalTimezone::Timestamp(DAY_NS + 3_723_000_000_000);
    assert_eq!(clock(later), Ok((1, 2, 3)));
}

#[test]
fn clock_date_in_time_zone() {
    let ts = || TimestampWithOptionalTimezone::TimestampAndTimezone(0, "America/New_York".to_string());
    assert_eq!(clock(ts()), Ok((19, 0, 0)));
    assert_eq!(date(ts()), Ok((1969, 12, 31)));
    assert_eq!(weekday(ts()), Ok("Wednesday"));
    let bad = TimestampWithOptionalTimezone::TimestampAndTimezone(0, "Nowhere/Special".to_string());
    assert_eq!(clock(bad), Err(BuiltinError::UnknownTimezone));
}

#[test]
fn add_date_shifts_calendar() {
    assert_eq!(add_date(0, 1, 0, 0), Ok(365 * DAY_NS));
    assert_eq!(add_date(0, 0, 1, 0), Ok(31 * DAY_NS));
    assert_eq!(add_date(0, 0, 0, 2), Ok(2 * DAY_NS));
    assert_eq!(add_date(0, 1000, 0, 0), Err(BuiltinError::OutOfRange));
    assert_eq!(add_date(0, 300_000, 0, 0), Err(BuiltinError::OutOfRange));
}

#[test]
fn durations_parse_to_nanoseconds() {
    assert_eq!(parse_duration_ns("1s".to_string()), Ok(1_000_000_000));
    assert_eq!(parse_duration_ns("1h30m".to_string()), Ok(5_400_000_000_000));
    assert_eq!(parse_duration_ns("forever".to_string()), Err(BuiltinError::Parse));
    assert_eq!(parse_ns("2006".to_string(), "2020".to_string()), Err(BuiltinError::NotImplemented));
}

#[test]
fn units_parse_bytes() {
    assert_eq!(parse_bytes("10GB".to_string()), Ok(10_000_000_000));
    assert_eq!(parse_bytes("10GiB".to_string()), Ok(10_737_418_240));
    assert_eq!(parse_bytes("5K".to_string()), Ok(5_000));
    assert_eq!(parse_bytes("what".to_string()), Err(BuiltinError::Parse));
}

#[test]
fn units_parse_milli_and_whole() {
    assert_eq!(parse("1500m".to_string()), Ok(UsizeOrMilli::Milli(1500)));
    assert_eq!(parse("10K".to_string()), Ok(UsizeOrMilli::Usize(10_000)));
    assert_eq!(parse("4M".to_string()), Ok(UsizeOrMilli::Usize(4_000_000)));
    assert_eq!(parse("xm".to_string()), Err(BuiltinError::Parse));
}

#[test]
fn utc_is_the_default_zone() {
    let bare = TimestampWithOptionalTimezone::Timestamp(1_594_731_202_000_000_000);
    let utc = TimestampWithOptionalTimezone::TimestampAndTimezone(1_594_731_202_000_000_000, "UTC".to_string());
    assert_eq!(clock(bare), clock(utc));
    assert_eq!(clock(TimestampWithOptionalTimezone::Timestamp(1_594_731_202_000_000_000)), Ok((12, 53, 22)));
}
