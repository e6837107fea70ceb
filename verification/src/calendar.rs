//! Dates, times and instants exchanged with the driver, converted through
//! chrono and chrono-tz.
use vstd::prelude::*;
use vstd::string::*;
use chrono::{Datelike, TimeZone, Timelike};
use crate::error::{conversion, plain_error, DriverError, DriverResult};
use crate::types::{known_zone, Zone};

verus! {

/// An ODBC DATE value (`SQL_DATE_STRUCT`).
#[derive(Clone, Copy, Debug, PartialEq, Eq, Structural)]
pub struct SqlDate {
    pub year: i16,
    pub month: u16,
    pub day: u16,
}

/// An ODBC TIMESTAMP value (`SQL_TIMESTAMP_STRUCT`); `fraction` is in nanoseconds.
#[derive(Clone, Copy, Debug, PartialEq, Eq, Structural)]
pub struct SqlTimestamp {
    pub year: i16,
    pub month: u16,
    pub day: u16,
    pub hour: u16,
    pub minute: u16,
    pub second: u16,
    pub fraction: u32,
}

/// A point in time: whole seconds since the Unix epoch and nanoseconds past them.
#[derive(Clone, Copy, Debug, PartialEq, Eq, Structural)]
pub struct Instant {
    pub seconds: i64,
    pub nanos: u32,
}

/// A time of day: whole seconds since midnight and nanoseconds past them.
#[derive(Clone, Copy, Debug, PartialEq, Eq, Structural)]
pub struct TimeOfDay {
    pub seconds: u32,
    pub nanos: u32,
}

/// The day number since 0001-01-01 (day 1) that chrono gives a calendar
/// date, when the date exists.
pub uninterp spec fn ce_day_of(year: i32, month: u32, day: u32) -> Option<i32>;

/// The day number of 1970-01-01 counted from 0001-01-01 as day 1.
pub open spec fn epoch_ce_day() -> int {
    719163
}

/// `NaiveDate::from_ymd_opt` followed by `Datelike::num_days_from_ce`.
/// Claims: the result is `ce_day_of` of the fields; chrono returns none for
/// a month outside 1..=12 or a day outside 1..=31; and 1970-01-01 is day
/// 719163 of the proleptic Gregorian calendar.
#[verifier::external_body]
fn ce_day(year: i32, month: u32, day: u32) -> (r: Option<i32>)
    ensures
        r == ce_day_of(year, month, day),
        month < 1 || month > 12 || day < 1 || day > 31 ==> r is None,
        year == 1970 && month == 1 && day == 1 ==> r == Some(719163i32),
{
    chrono::NaiveDate::from_ymd_opt(year, month, day).map(|d| d.num_days_from_ce())
}

/// The calendar date `days` days after 1970-01-01, as chrono computes it.
pub uninterp spec fn date_after_epoch_of(days: i64) -> Option<(i32, u32, u32)>;

/// `NaiveDate::checked_add_signed` of `TimeDelta::days(days)` to 1970-01-01,
/// read back as (year, month, day). Claims: the result is
/// `date_after_epoch_of(days)`; a month is in 1..=12 and a day in 1..=31
/// (`Datelike`); adding no days gives 1970-01-01; and the date found is day
/// `days + 719163` counted from 0001-01-01 (`num_days_from_ce` of a date
/// `days` days after the epoch, which is day 719163). `TimeDelta::days`
/// panics beyond about 1e11 days (`i64::MAX` milliseconds), which the bound
/// excludes.
#[verifier::external_body]
fn date_after_epoch(days: i64) -> (r: Option<(i32, u32, u32)>)
    requires
        -100_000_000 <= days <= 100_000_000,
    ensures
        r == date_after_epoch_of(days),
        r matches Some(d) ==> 1 <= d.1 <= 12 && 1 <= d.2 <= 31,
        days == 0 ==> r == Some((1970i32, 1u32, 1u32)),
        r matches Some(d) ==> ce_day_of(d.0, d.1, d.2) == Some((days + 719163) as i32),
{
    chrono::NaiveDate::from_ymd_opt(1970, 1, 1)
        .and_then(|epoch| epoch.checked_add_signed(chrono::TimeDelta::days(days)))
        .map(|d| (d.year(), d.month(), d.day()))
}

/// Whether chrono accepts the fields as a date and time of day.
pub uninterp spec fn naive_valid_of(year: i32, month: u32, day: u32, hour: u32, minute: u32, second: u32, nanos: u32) -> bool;

/// `NaiveDate::from_ymd_opt` then `NaiveDate::and_hms_nano_opt` succeed.
/// Claims: the answer is `naive_valid_of` of the fields; chrono rejects a
/// month outside 1..=12, a day outside 1..=31, an hour past 23, a minute or
/// second past 59 and nanoseconds of two seconds or more.
#[verifier::external_body]
fn naive_valid(year: i32, month: u32, day: u32, hour: u32, minute: u32, second: u32, nanos: u32) -> (b: bool)
    ensures
        b == naive_valid_of(year, month, day, hour, minute, second, nanos),
        month < 1 || month > 12 || day < 1 || day > 31 || hour > 23 || minute > 59 || second > 59
            || nanos >= 2_000_000_000 ==> !b,
{
    chrono::NaiveDate::from_ymd_opt(year, month, day)
        .and_then(|d| d.and_hms_nano_opt(hour, minute, second, nanos))
        .is_some()
}

/// The one instant at which the zone's clocks show the local date and
/// time, when there is exactly one.
pub uninterp spec fn zone_instant_of(zone: Seq<char>, year: i32, month: u32, day: u32, hour: u32, minute: u32, second: u32, nanos: u32) -> Option<(i64, u32)>;

/// `TimeZone::from_local_datetime` of the zone for the local date and time,
/// `.single()`, read back as (`timestamp`, `timestamp_subsec_nanos`).
/// Claims: the result is `zone_instant_of` of the arguments; in UTC every
/// local time is exactly one instant; nanoseconds stay below two seconds.
#[verifier::external_body]
fn zone_instant(zone: &str, year: i32, month: u32, day: u32, hour: u32, minute: u32, second: u32, nanos: u32) -> (r: Option<(i64, u32)>)
    requires
        known_zone(zone@),
        naive_valid_of(year, month, day, hour, minute, second, nanos),
    ensures
        r == zone_instant_of(zone@, year, month, day, hour, minute, second, nanos),
        zone@ == "UTC"@ ==> r is Some,
        r matches Some(i) ==> i.1 < 2_000_000_000,
{
    let tz: chrono_tz::Tz = zone.parse().unwrap();
    let local = chrono::NaiveDate::from_ymd_opt(year, month, day)
        .and_then(|d| d.and_hms_nano_opt(hour, minute, second, nanos))
        .unwrap();
    tz.from_local_datetime(&local).single().map(|t| (t.timestamp(), t.timestamp_subsec_nanos()))
}

/// The time of day chrono reads from `text` with the format `%H:%M:%S%.f`.
pub uninterp spec fn time_of_text(text: Seq<char>) -> Option<(u32, u32)>;

/// `NaiveTime::parse_from_str(text, "%H:%M:%S%.f")`, read back as
/// (`num_seconds_from_midnight`, `nanosecond`). Claims: the result is
/// `time_of_text(text)`; seconds are below one day.
#[verifier::external_body]
fn time_of_day(text: &str) -> (r: Option<(u32, u32)>)
    ensures
        r == time_of_text(text@),
        r matches Some(t) ==> t.0 < 86400,
{
    chrono::NaiveTime::parse_from_str(text, "%H:%M:%S%.f")
        .ok()
        .map(|t| (t.num_seconds_from_midnight(), t.nanosecond()))
}

/// The instant chrono reads from `text` with the format
/// `%Y-%m-%d %H:%M:%S%.f %:z`.
pub uninterp spec fn offset_text_instant_of(text: Seq<char>) -> Option<(i64, u32)>;

/// `DateTime::parse_from_str(text, "%Y-%m-%d %H:%M:%S%.f %:z")`, read back as
/// (`timestamp`, `timestamp_subsec_nanos`). Claims: the result is
/// `offset_text_instant_of(text)`.
#[verifier::external_body]
fn offset_text_instant(text: &str) -> (r: Option<(i64, u32)>)
    ensures
        r == offset_text_instant_of(text@),
{
    chrono::DateTime::parse_from_str(text, "%Y-%m-%d %H:%M:%S%.f %:z")
        .ok()
        .map(|t| (t.timestamp(), t.timestamp_subsec_nanos()))
}

/// The instant chrono reads from `text` as RFC 3339.
pub uninterp spec fn rfc3339_instant_of(text: Seq<char>) -> Option<(i64, u32)>;

/// `DateTime::parse_from_rfc3339(text)`, read back as (`timestamp`,
/// `timestamp_subsec_nanos`). Claims: the result is `rfc3339_instant_of(text)`.
#[verifier::external_body]
fn rfc3339_instant(text: &str) -> (r: Option<(i64, u32)>)
    ensures
        r == rfc3339_instant_of(text@),
{
    chrono::DateTime::parse_from_rfc3339(text)
        .ok()
        .map(|t| (t.timestamp(), t.timestamp_subsec_nanos()))
}

/// The local calendar fields the zone's clocks show at an instant.
pub uninterp spec fn zone_fields_of(zone: Seq<char>, seconds: i64, nanos: u32) -> Option<(i32, u32, u32, u32, u32, u32, u32)>;

/// `DateTime::from_timestamp(seconds, nanos)`, `with_timezone` of the zone,
/// `naive_local`, read back as (year, month, day, hour, minute, second,
/// nanosecond). Claims: the result is `zone_fields_of` of the arguments and
/// the fields are in their `Datelike`/`Timelike` ranges. In UTC, with
/// nanoseconds below one second, the fields are those of the instant
/// itself, so chrono accepts them and reads them back as the same instant
/// (chrono's own example: `from_timestamp(dt.timestamp(),
/// dt.timestamp_subsec_nanos())` is `dt`). `naive_local`
/// panics when the local time leaves chrono's range of about 262,000 years
/// either side of year 0; the bound on `seconds` keeps every instant and
/// zone offset well inside it.
#[verifier::external_body]
fn zone_fields(zone: &str, seconds: i64, nanos: u32) -> (r: Option<(i32, u32, u32, u32, u32, u32, u32)>)
    requires
        known_zone(zone@),
        -8_000_000_000_000 <= seconds <= 8_000_000_000_000,
    ensures
        r == zone_fields_of(zone@, seconds, nanos),
        r matches Some(f) ==> 1 <= f.1 <= 12 && 1 <= f.2 <= 31 && f.3 <= 23 && f.4 <= 59 && f.5 <= 59
            && f.6 < 2_000_000_000,
        zone@ == "UTC"@ && nanos < 1_000_000_000 ==> (r matches Some(f) ==> naive_valid_of(f.0, f.1, f.2, f.3, f.4, f.5, f.6)
            && zone_instant_of(zone@, f.0, f.1, f.2, f.3, f.4, f.5, f.6) == Some((seconds, nanos))),
{
    let tz: chrono_tz::Tz = zone.parse().unwrap();
    chrono::DateTime::from_timestamp(seconds, nanos).map(|t| {
        let l = t.with_timezone(&tz).naive_local();
        (l.year(), l.month(), l.day(), l.hour(), l.minute(), l.second(), l.nanosecond())
    })
}

/// Days since 1970-01-01 of a calendar date, when it exists.
pub open spec fn epoch_days_of(d: SqlDate) -> Option<i64> {
    match ce_day_of(d.year as i32, d.month as u32, d.day as u32) {
        Some(n) => Some((n - epoch_ce_day()) as i64),
        None => None,
    }
}

/// Days since 1970-01-01 of a database date.
pub fn date_to_days(d: SqlDate) -> (r: DriverResult<i64>)
    ensures
        match epoch_days_of(d) {
            Some(n) => r == Ok::<i64, DriverError>(n),
            None => r matches Err(e) && plain_error("conversion", "conversion", "Invalid database date"@, e),
        },
{
    match ce_day(d.year as i32, d.month as u32, d.day as u32) {
        Some(n) => Ok(n as i64 - 719163),
        None => Err(conversion("Invalid database date")),
    }
}

/// A database date `days` whole days after 1970-01-01. Beyond a hundred
/// million days in either direction, and outside ODBC's year range, there
/// is none.
pub fn days_to_date(days: i64) -> (r: DriverResult<SqlDate>)
    ensures
        (days < -100_000_000 || days > 100_000_000) ==> (r matches Err(e)
            && plain_error("conversion", "conversion", "Date must contain finite whole days"@, e)),
        -100_000_000 <= days <= 100_000_000 ==> match date_after_epoch_of(days) {
            None => r matches Err(e) && plain_error("conversion", "conversion", "Date outside supported range"@, e),
            Some(f) => 1 <= f.1 <= 12 && 1 <= f.2 <= 31 && if i16::MIN <= f.0 <= i16::MAX {
                r == Ok::<SqlDate, DriverError>(SqlDate { year: f.0 as i16, month: f.1 as u16, day: f.2 as u16 })
            } else {
                r matches Err(e) && plain_error("conversion", "conversion", "Date year outside ODBC range"@, e)
            },
        },
        r matches Ok(d) ==> 1 <= d.month <= 12 && 1 <= d.day <= 31,
        r matches Ok(d) ==> epoch_days_of(d) == Some(days),
{
    if days < -100_000_000 || days > 100_000_000 {
        return Err(conversion("Date must contain finite whole days"));
    }
    match date_after_epoch(days) {
        None => Err(conversion("Date outside supported range")),
        Some((year, month, day)) => {
            if year < -32768 || year > 32767 {
                return Err(conversion("Date year outside ODBC range"));
            }
            Ok(SqlDate { year: year as i16, month: month as u16, day: day as u16 })
        },
    }
}

/// The instant a database timestamp shows in a zone, when it is a valid
/// date and time that the zone's clocks show exactly once.
pub open spec fn timestamp_instant(t: SqlTimestamp, zone: Zone) -> Option<Instant> {
    let (y, mo, d, h, mi, s, ns) = (t.year as i32, t.month as u32, t.day as u32, t.hour as u32,
        t.minute as u32, t.second as u32, t.fraction);
    if !naive_valid_of(y, mo, d, h, mi, s, ns) {
        None
    } else {
        match zone_instant_of(zone.iana(), y, mo, d, h, mi, s, ns) {
            Some(i) => Some(Instant { seconds: i.0, nanos: i.1 }),
            None => None,
        }
    }
}

/// Why a database timestamp has no instant: its fields are not a valid
/// date and time, or the local time is ambiguous or skipped in the zone.
pub open spec fn timestamp_error(t: SqlTimestamp) -> Seq<char> {
    if !naive_valid_of(t.year as i32, t.month as u32, t.day as u32, t.hour as u32, t.minute as u32,
        t.second as u32, t.fraction) {
        "Invalid database timestamp"@
    } else {
        "Ambiguous or nonexistent local timestamp"@
    }
}

/// The instant of a database timestamp read in the server's time zone.
pub fn timestamp_to_seconds(t: SqlTimestamp, zone: &Zone) -> (r: DriverResult<Instant>)
    ensures
        r matches Ok(i) ==> timestamp_instant(t, *zone) == Some(i),
        r is Err ==> timestamp_instant(t, *zone) is None,
        r matches Err(e) ==> plain_error("conversion", "conversion", timestamp_error(t), e),
        ({
            let (y, mo, d, h, mi, s, ns) = (t.year as i32, t.month as u32, t.day as u32, t.hour as u32,
                t.minute as u32, t.second as u32, t.fraction);
            if !naive_valid_of(y, mo, d, h, mi, s, ns) {
                r matches Err(e) && plain_error("conversion", "conversion", "Invalid database timestamp"@, e)
            } else {
                match zone_instant_of(zone.iana(), y, mo, d, h, mi, s, ns) {
                    Some(i) => r == Ok::<Instant, DriverError>(Instant { seconds: i.0, nanos: i.1 }),
                    None => r matches Err(e) && plain_error("conversion", "conversion",
                        "Ambiguous or nonexistent local timestamp"@, e),
                }
            }
        }),
{
    let (y, mo, d, h, mi, s, ns) = (t.year as i32, t.month as u32, t.day as u32, t.hour as u32,
        t.minute as u32, t.second as u32, t.fraction);
    if !naive_valid(y, mo, d, h, mi, s, ns) {
        return Err(conversion("Invalid database timestamp"));
    }
    match zone_instant(zone.name(), y, mo, d, h, mi, s, ns) {
        Some((seconds, nanos)) => Ok(Instant { seconds, nanos }),
        None => Err(conversion("Ambiguous or nonexistent local timestamp")),
    }
}

/// The time of day in a database TIME text (`hh:mm:ss[.fff…]`).
pub fn parse_time(text: &str) -> (r: DriverResult<TimeOfDay>)
    ensures
        match time_of_text(text@) {
            Some(t) => r == Ok::<TimeOfDay, DriverError>(TimeOfDay { seconds: t.0, nanos: t.1 }),
            None => r matches Err(e) && plain_error("conversion", "conversion", "Invalid database time"@, e),
        },
{
    match time_of_day(text) {
        Some((seconds, nanos)) => Ok(TimeOfDay { seconds, nanos }),
        None => Err(conversion("Invalid database time")),
    }
}

/// The instant of a timestamp-with-offset text: `YYYY-MM-DD hh:mm:ss[.f…] ±hh:mm`,
/// or else RFC 3339.
pub fn parse_offset(text: &str) -> (r: DriverResult<Instant>)
    ensures
        match offset_text_instant_of(text@) {
            Some(i) => r == Ok::<Instant, DriverError>(Instant { seconds: i.0, nanos: i.1 }),
            None => match rfc3339_instant_of(text@) {
                Some(i) => r == Ok::<Instant, DriverError>(Instant { seconds: i.0, nanos: i.1 }),
                None => r matches Err(e) && plain_error("conversion", "conversion",
                    "Unsupported timestamp-with-offset representation"@, e),
            },
        },
{
    match offset_text_instant(text) {
        Some((seconds, nanos)) => Ok(Instant { seconds, nanos }),
        None => match rfc3339_instant(text) {
            Some((seconds, nanos)) => Ok(Instant { seconds, nanos }),
            None => Err(conversion("Unsupported timestamp-with-offset representation")),
        },
    }
}

/// The database timestamp showing, in the server's time zone, the instant
/// `seconds` (whole seconds since the epoch) plus `nanos`. Instants more
/// than 8e12 seconds from the epoch are outside the supported range.
pub fn seconds_to_timestamp(seconds: i64, nanos: u32, zone: &Zone) -> (r: DriverResult<SqlTimestamp>)
    ensures
        !(-8_000_000_000_000 <= seconds <= 8_000_000_000_000) ==> (r matches Err(e)
            && plain_error("conversion", "conversion", "Timestamp outside supported range"@, e)),
        -8_000_000_000_000 <= seconds <= 8_000_000_000_000 ==> match zone_fields_of(zone.iana(), seconds, nanos) {
            None => r matches Err(e) && plain_error("conversion", "conversion", "Timestamp outside supported range"@, e),
            Some(f) => if i16::MIN <= f.0 <= i16::MAX {
                r == Ok::<SqlTimestamp, DriverError>(SqlTimestamp {
                    year: f.0 as i16,
                    month: f.1 as u16,
                    day: f.2 as u16,
                    hour: f.3 as u16,
                    minute: f.4 as u16,
                    second: f.5 as u16,
                    fraction: f.6,
                })
            } else {
                r matches Err(e) && plain_error("conversion", "conversion", "Timestamp year outside ODBC range"@, e)
            },
        },
        r matches Ok(t) ==> 1 <= t.month <= 12 && 1 <= t.day <= 31 && t.hour <= 23 && t.minute <= 59 && t.second <= 59
            && t.fraction < 2_000_000_000,
        zone.iana() == "UTC"@ && nanos < 1_000_000_000 ==> (r matches Ok(t) ==>
            timestamp_instant(t, *zone) == Some(Instant { seconds, nanos })),
{
    if seconds < -8_000_000_000_000 || seconds > 8_000_000_000_000 {
        return Err(conversion("Timestamp outside supported range"));
    }
    match zone_fields(zone.name(), seconds, nanos) {
        None => Err(conversion("Timestamp outside supported range")),
        Some((year, month, day, hour, minute, second, fraction)) => {
            if year < -32768 || year > 32767 {
                return Err(conversion("Timestamp year outside ODBC range"));
            }
            Ok(SqlTimestamp {
                year: year as i16,
                month: month as u16,
                day: day as u16,
                hour: hour as u16,
                minute: minute as u16,
                second: second as u16,
                fraction,
            })
        },
    }
}

} // verus!
