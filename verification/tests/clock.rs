use chrono::{DateTime, Datelike, Duration};
use vocrit_subscription::clock::{is_before, read_clock, Now, Timestamp, SUBSCRIPTION_DURATION_DAYS};

#[test]
fn clock_reading_is_consistent() {
    let now = read_clock().expect("the clock is set after 1970");
    let t = now.instant();
    let dt = DateTime::from_timestamp(t.secs, t.nanos).unwrap();
    assert_eq!(now.year(), dt.year());
    assert_eq!(now.month(), dt.month());
    assert_eq!(now.rfc3339(), dt.to_rfc3339());
    let later = (dt + Duration::days(SUBSCRIPTION_DURATION_DAYS)).to_rfc3339();
    assert_eq!(now.license_expiry(), Some(later.as_str()));
    assert_ne!(now.license_expiry(), Some(now.rfc3339()));
}

#[test]
fn reading_at_an_instant() {
    let now = Now::at(Timestamp { secs: 1_715_774_400, nanos: 500_000_000 }).unwrap();
    assert_eq!((now.year(), now.month()), (2024, 5));
    assert_eq!(now.rfc3339(), "2024-05-15T12:00:00.500+00:00");
    assert_eq!(now.license_expiry(), Some("2025-05-15T12:00:00.500+00:00"));
    let epoch = Now::at(Timestamp { secs: 0, nanos: 0 }).unwrap();
    assert_eq!((epoch.year(), epoch.month()), (1970, 1));
    assert_eq!(epoch.rfc3339(), "1970-01-01T00:00:00+00:00");
}

#[test]
fn leap_seconds_and_out_of_range_instants_are_no_readings() {
    assert!(Now::at(Timestamp { secs: 59, nanos: 1_000_000_000 }).is_none());
    assert!(Now::at(Timestamp { secs: i64::MAX, nanos: 0 }).is_none());
}

#[test]
fn years_beyond_9999_are_read_but_their_expiry_is_written_with_a_sign() {
    // 9999-06-01T00:00:00Z: the year after lies beyond four digits.
    let now = Now::at(Timestamp { secs: 253_383_811_200, nanos: 0 }).unwrap();
    assert_eq!(now.year(), 9999);
    assert_eq!(now.license_expiry(), Some("+10000-05-31T00:00:00+00:00"));
}

#[test]
fn instants_are_ordered_by_seconds_then_nanoseconds() {
    let a = Timestamp { secs: 10, nanos: 5 };
    assert!(is_before(a, Timestamp { secs: 11, nanos: 0 }));
    assert!(is_before(a, Timestamp { secs: 10, nanos: 6 }));
    assert!(!is_before(a, a));
    assert!(!is_before(Timestamp { secs: 11, nanos: 0 }, a));
}
