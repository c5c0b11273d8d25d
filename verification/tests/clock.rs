//! Moments: which ones exist, and the two texts of each.

use chrono::{Local, TimeZone};
use presence_report::clock::{
    Moment, FIRST_LOCAL_SECOND, LAST_LOCAL_SECOND, NANOS_PER_SECOND, SECONDS_PER_DAY,
};
use std::time::{SystemTime, UNIX_EPOCH};

#[test]
fn limits_of_a_moment() {
    assert_eq!(FIRST_LOCAL_SECOND, -62_167_219_200);
    assert_eq!(LAST_LOCAL_SECOND, 253_402_300_799);
    assert_eq!(NANOS_PER_SECOND, 1_000_000_000);
    assert_eq!(SECONDS_PER_DAY, 86_400);
}

#[test]
fn moment_keeps_its_three_numbers() {
    let moment = Moment::new(1_704_067_200, 123_456_789, -18_000).unwrap();
    assert_eq!(moment.unix_seconds(), 1_704_067_200);
    assert_eq!(moment.nanoseconds(), 123_456_789);
    assert_eq!(moment.offset_seconds(), -18_000);
}

#[test]
fn fraction_must_stay_below_one_second() {
    assert!(Moment::new(0, 0, 0).is_some());
    assert!(Moment::new(0, 999_999_999, 0).is_some());
    assert!(Moment::new(0, 1_000_000_000, 0).is_none());
    assert!(Moment::new(59, 1_500_000_000, 0).is_none());
    assert!(Moment::new(0, u32::MAX, 0).is_none());
}

#[test]
fn offset_must_stay_below_one_day() {
    assert!(Moment::new(0, 0, 86_399).is_some());
    assert!(Moment::new(0, 0, -86_399).is_some());
    assert!(Moment::new(0, 0, 86_400).is_none());
    assert!(Moment::new(0, 0, -86_400).is_none());
    assert!(Moment::new(0, 0, i32::MAX).is_none());
    assert!(Moment::new(0, 0, i32::MIN).is_none());
}

#[test]
fn local_year_must_have_four_digits() {
    assert!(Moment::new(FIRST_LOCAL_SECOND, 0, 0).is_some());
    assert!(Moment::new(FIRST_LOCAL_SECOND - 1, 0, 0).is_none());
    assert!(Moment::new(LAST_LOCAL_SECOND, 0, 0).is_some());
    assert!(Moment::new(LAST_LOCAL_SECOND, 999_999_999, 0).is_some());
    assert!(Moment::new(LAST_LOCAL_SECOND + 1, 0, 0).is_none());
    // The local second decides, not the one in UTC.
    assert!(Moment::new(FIRST_LOCAL_SECOND - 3_600, 0, 3_600).is_some());
    assert!(Moment::new(FIRST_LOCAL_SECOND, 0, -1).is_none());
    assert!(Moment::new(LAST_LOCAL_SECOND + 3_600, 0, -3_600).is_some());
    assert!(Moment::new(LAST_LOCAL_SECOND, 0, 1).is_none());
    assert!(Moment::new(i64::MAX, 0, 0).is_none());
    assert!(Moment::new(i64::MIN, 0, 0).is_none());
    assert!(Moment::new(i64::MAX, 0, -86_399).is_none());
    assert!(Moment::new(i64::MIN, 0, 86_399).is_none());
}

#[test]
fn rfc3339_text_of_known_moments() {
    let text = |seconds: i64, nanos: u32, offset: i32| Moment::new(seconds, nanos, offset).unwrap().to_rfc3339();
    assert_eq!(text(0, 0, 0), "1970-01-01T00:00:00+00:00");
    assert_eq!(text(1_704_067_200, 0, 0), "2024-01-01T00:00:00+00:00");
    assert_eq!(text(1_704_067_200, 0, 19_800), "2024-01-01T05:30:00+05:30");
    assert_eq!(text(1_704_067_200, 0, -28_800), "2023-12-31T16:00:00-08:00");
    assert_eq!(text(1_704_067_200, 500_000_000, 0), "2024-01-01T00:00:00.500+00:00");
    assert_eq!(text(1_704_067_200, 123_456_000, 0), "2024-01-01T00:00:00.123456+00:00");
    assert_eq!(text(1_704_067_200, 123_456_789, 0), "2024-01-01T00:00:00.123456789+00:00");
    assert_eq!(text(-1, 0, 0), "1969-12-31T23:59:59+00:00");
    assert_eq!(text(951_782_400, 0, 0), "2000-02-29T00:00:00+00:00");
    assert_eq!(text(FIRST_LOCAL_SECOND, 0, 0), "0000-01-01T00:00:00+00:00");
    assert_eq!(text(LAST_LOCAL_SECOND, 0, 0), "9999-12-31T23:59:59+00:00");
    assert_eq!(text(LAST_LOCAL_SECOND + 3_600, 0, -3_600), "9999-12-31T23:59:59-01:00");
}

#[test]
fn readable_text_of_known_moments() {
    let text = |seconds: i64, nanos: u32, offset: i32| Moment::new(seconds, nanos, offset).unwrap().to_local_string();
    assert_eq!(text(0, 0, 0), "1970-01-01 00:00:00 +00:00");
    assert_eq!(text(1_704_067_200, 0, 0), "2024-01-01 00:00:00 +00:00");
    assert_eq!(text(1_704_067_200, 0, 19_800), "2024-01-01 05:30:00 +05:30");
    assert_eq!(text(1_704_067_200, 0, -28_800), "2023-12-31 16:00:00 -08:00");
    assert_eq!(text(1_704_067_200, 500_000_000, 0), "2024-01-01 00:00:00.500 +00:00");
    assert_eq!(text(1_704_067_200, 123_456_789, 7_200), "2024-01-01 02:00:00.123456789 +02:00");
    assert_eq!(text(1_704_067_200, 0, 3_601), "2024-01-01 01:00:01 +01:00:01");
}

#[test]
fn texts_are_those_of_a_local_date_time() {
    // What the local zone shows for an instant and what a moment with the zone's offset
    // shows for it are the same two texts.
    for (seconds, nanos) in [(0_i64, 0_u32), (1_704_067_200, 0), (1_719_835_200, 987_654_321), (4_102_444_800, 1_000)] {
        let local = Local.timestamp_opt(seconds, nanos).unwrap();
        let moment = Moment::new(seconds, nanos, local.offset().local_minus_utc()).unwrap();
        assert_eq!(moment.to_rfc3339(), local.to_rfc3339());
        assert_eq!(moment.to_local_string(), local.to_string());
    }
}

#[test]
fn now_reads_the_present() {
    let before = SystemTime::now().duration_since(UNIX_EPOCH).unwrap().as_secs() as i64;
    let moment = Moment::now().expect("the clock of a test machine reads a four-digit year");
    let after = SystemTime::now().duration_since(UNIX_EPOCH).unwrap().as_secs() as i64;
    assert!(before <= moment.unix_seconds());
    assert!(moment.unix_seconds() <= after);
    assert!(moment.nanoseconds() < NANOS_PER_SECOND);
    assert!(-SECONDS_PER_DAY < moment.offset_seconds() && moment.offset_seconds() < SECONDS_PER_DAY);
    let local = Local.timestamp_opt(moment.unix_seconds(), moment.nanoseconds()).unwrap();
    assert_eq!(moment.offset_seconds(), local.offset().local_minus_utc());
    assert_eq!(moment.to_rfc3339(), local.to_rfc3339());
}
