//! The uptime formatter and its decimal printer.

use sysdash::utils::{seconds_to_timestamp, u64_to_string};

#[test]
fn decimal_renders_exactly() {
    assert_eq!(u64_to_string(0), "0");
    assert_eq!(u64_to_string(7), "7");
    assert_eq!(u64_to_string(10), "10");
    assert_eq!(u64_to_string(12345), "12345");
    assert_eq!(u64_to_string(u64::MAX), "18446744073709551615");
}

#[test]
fn timestamp_counts_days_hours_minutes_seconds() {
    // 90061 s = 25 h 1 min 1 s; the hour count keeps counting past a day
    assert_eq!(seconds_to_timestamp(90_061), "1 days 25:1:1");
}

#[test]
fn timestamp_of_zero() {
    assert_eq!(seconds_to_timestamp(0), "0 days 0:0:0");
}

#[test]
fn timestamp_under_one_hour() {
    assert_eq!(seconds_to_timestamp(59), "0 days 0:0:59");
    assert_eq!(seconds_to_timestamp(3_599), "0 days 0:59:59");
    assert_eq!(seconds_to_timestamp(3_600), "0 days 1:0:0");
}
