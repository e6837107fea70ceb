use odbc_rs::calendar::{
    date_to_days, days_to_date, parse_offset, parse_time, seconds_to_timestamp, timestamp_to_seconds, Instant,
    SqlDate, SqlTimestamp, TimeOfDay,
};
use odbc_rs::types::Zone;

#[test]
fn dates_and_days() {
    assert_eq!(date_to_days(SqlDate { year: 1970, month: 1, day: 1 }).unwrap(), 0);
    assert_eq!(date_to_days(SqlDate { year: 2000, month: 3, day: 1 }).unwrap(), 11017);
    assert_eq!(date_to_days(SqlDate { year: 1969, month: 12, day: 31 }).unwrap(), -1);
    assert_eq!(date_to_days(SqlDate { year: 2023, month: 2, day: 29 }).unwrap_err().message, "Invalid database date");
    assert_eq!(days_to_date(0).unwrap(), SqlDate { year: 1970, month: 1, day: 1 });
    assert_eq!(days_to_date(11017).unwrap(), SqlDate { year: 2000, month: 3, day: 1 });
    assert_eq!(days_to_date(100_000_001).unwrap_err().message, "Date must contain finite whole days");
    assert_eq!(days_to_date(100_000_000).unwrap_err().message, "Date outside supported range");
    assert_eq!(days_to_date(20_000_000).unwrap_err().message, "Date year outside ODBC range");
}

#[test]
fn timestamps_in_zones() {
    let utc = Zone::utc();
    let t = SqlTimestamp { year: 2024, month: 1, day: 2, hour: 3, minute: 4, second: 5, fraction: 600_000_000 };
    assert_eq!(timestamp_to_seconds(t, &utc).unwrap(), Instant { seconds: 1704164645, nanos: 600_000_000 });
    let berlin = Zone::parse("Europe/Berlin").unwrap();
    assert_eq!(timestamp_to_seconds(t, &berlin).unwrap().seconds, 1704164645 - 3600);
    let gap = SqlTimestamp { year: 2024, month: 3, day: 31, hour: 2, minute: 30, second: 0, fraction: 0 };
    assert_eq!(timestamp_to_seconds(gap, &berlin).unwrap_err().message, "Ambiguous or nonexistent local timestamp");
    let bad = SqlTimestamp { month: 13, ..t };
    assert_eq!(timestamp_to_seconds(bad, &utc).unwrap_err().message, "Invalid database timestamp");
    assert_eq!(seconds_to_timestamp(1704164645, 600_000_000, &utc).unwrap(), t);
    let local = seconds_to_timestamp(1704164645, 0, &berlin).unwrap();
    assert_eq!((local.hour, local.minute), (4, 4));
    assert_eq!(seconds_to_timestamp(i64::MAX, 0, &utc).unwrap_err().message, "Timestamp outside supported range");
    assert_eq!(seconds_to_timestamp(8_000_000_000_001, 0, &utc).unwrap_err().message, "Timestamp outside supported range");
    assert_eq!(seconds_to_timestamp(-8_000_000_000_001, 0, &berlin).unwrap_err().message, "Timestamp outside supported range");
    assert_eq!(seconds_to_timestamp(8_000_000_000_000, 0, &berlin).unwrap_err().message, "Timestamp year outside ODBC range");
    assert_eq!(seconds_to_timestamp(-8_000_000_000_000, 0, &berlin).unwrap_err().message, "Timestamp year outside ODBC range");
    assert!(Zone::parse("Not/AZone").is_none());
}

#[test]
fn time_and_offset_texts() {
    assert_eq!(parse_time("12:34:56.5").unwrap(), TimeOfDay { seconds: 45296, nanos: 500_000_000 });
    assert_eq!(parse_time("00:00:01").unwrap(), TimeOfDay { seconds: 1, nanos: 0 });
    assert_eq!(parse_time("noon").unwrap_err().message, "Invalid database time");
    assert_eq!(parse_offset("2024-01-02 03:04:05.25 +01:00").unwrap(), Instant { seconds: 1704164645 - 3600, nanos: 250_000_000 });
    assert_eq!(parse_offset("2024-01-02T03:04:05Z").unwrap(), Instant { seconds: 1704164645, nanos: 0 });
    assert_eq!(parse_offset("yesterday").unwrap_err().message, "Unsupported timestamp-with-offset representation");
}

#[test]
fn dates_and_utc_timestamps_round_trip() {
    for days in [-719_162i64, -1, 0, 1, 11017, 2_932_896, 10_000_000] {
        let d = days_to_date(days).unwrap();
        assert_eq!(date_to_days(d).unwrap(), days);
    }
    let utc = Zone::utc();
    for (seconds, nanos) in [(-1i64, 500_000_000u32), (0, 0), (1704164645, 600_000_000), (-62_135_596_800, 1)] {
        let t = seconds_to_timestamp(seconds, nanos, &utc).unwrap();
        assert_eq!(timestamp_to_seconds(t, &utc).unwrap(), Instant { seconds, nanos });
    }
}
