use ping_server::time::{text_of_reading, Timestamp, NANOS_PER_SEC};

#[test]
fn the_epoch_has_its_rfc3339_text() {
    let epoch = Timestamp::new(0, 0).unwrap();
    assert_eq!(epoch.rfc3339(), "1970-01-01T00:00:00+00:00");
    assert_eq!(epoch.secs(), 0);
    assert_eq!(epoch.nanos(), 0);
}

#[test]
fn a_known_day_has_its_rfc3339_text() {
    let day = Timestamp::new(1431648000, 0).unwrap();
    assert_eq!(day.rfc3339(), "2015-05-15T00:00:00+00:00");
    let second = Timestamp::new(1700000000, 0).unwrap();
    assert_eq!(second.rfc3339(), "2023-11-14T22:13:20+00:00");
}

#[test]
fn fractions_of_a_second_are_written_in_groups_of_three_digits() {
    assert_eq!(Timestamp::new(1, 500_000_000).unwrap().rfc3339(), "1970-01-01T00:00:01.500+00:00");
    assert_eq!(Timestamp::new(1, 1_000).unwrap().rfc3339(), "1970-01-01T00:00:01.000001+00:00");
    assert_eq!(Timestamp::new(1, 1).unwrap().rfc3339(), "1970-01-01T00:00:01.000000001+00:00");
    assert_eq!(
        Timestamp::new(1, 999_999_999).unwrap().rfc3339(),
        "1970-01-01T00:00:01.999999999+00:00"
    );
}

#[test]
fn a_full_second_of_nanoseconds_is_no_timestamp() {
    assert_eq!(NANOS_PER_SEC, 1_000_000_000);
    assert!(Timestamp::new(0, NANOS_PER_SEC).is_none());
    assert!(Timestamp::new(59, 1_500_000_000).is_none());
    assert!(Timestamp::new(0, u32::MAX).is_none());
}

#[test]
fn seconds_beyond_the_calendar_are_no_timestamp() {
    assert!(Timestamp::new(u64::MAX, 0).is_none());
    assert!(Timestamp::new(i64::MAX as u64, 0).is_none());
    assert!(Timestamp::new(i64::MAX as u64 + 1, 0).is_none());
    assert!(Timestamp::new(253_402_300_799, 0).is_some());
}

#[test]
fn timestamps_keep_their_parts() {
    let time = Timestamp::new(1_700_000_000, 123_456_789).unwrap();
    assert_eq!(time.secs(), 1_700_000_000);
    assert_eq!(time.nanos(), 123_456_789);
    assert_eq!(time.rfc3339(), "2023-11-14T22:13:20.123456789+00:00");
}

#[test]
fn the_clock_reads_a_time_of_this_century() {
    let now = Timestamp::now().unwrap();
    assert!(now.secs() > 1_600_000_000);
    assert!(now.secs() < 4_102_444_800);
    assert!(now.nanos() < NANOS_PER_SEC);
    let again = Timestamp::new(now.secs(), now.nanos()).unwrap();
    assert_eq!(again.rfc3339(), now.rfc3339());
    assert!(now.rfc3339().starts_with("20"));
    assert!(now.rfc3339().ends_with("+00:00"));
}

#[test]
fn seconds_since_counts_whole_seconds() {
    let earlier = Timestamp::new(100, 500_000_000).unwrap();
    assert_eq!(earlier.seconds_since(&earlier), 0);
    assert_eq!(Timestamp::new(100, 999_999_999).unwrap().seconds_since(&earlier), 0);
    assert_eq!(Timestamp::new(101, 499_999_999).unwrap().seconds_since(&earlier), 0);
    assert_eq!(Timestamp::new(101, 500_000_000).unwrap().seconds_since(&earlier), 1);
    assert_eq!(Timestamp::new(102, 0).unwrap().seconds_since(&earlier), 1);
    assert_eq!(Timestamp::new(3700, 500_000_000).unwrap().seconds_since(&earlier), 3600);
}

#[test]
fn seconds_since_a_later_time_is_zero() {
    let later = Timestamp::new(100, 500_000_000).unwrap();
    assert_eq!(Timestamp::new(100, 499_999_999).unwrap().seconds_since(&later), 0);
    assert_eq!(Timestamp::new(99, 999_999_999).unwrap().seconds_since(&later), 0);
    assert_eq!(Timestamp::new(0, 0).unwrap().seconds_since(&later), 0);
}

#[test]
fn a_reading_is_written_as_its_time_or_as_nothing() {
    let time = Timestamp::new(1_431_648_000, 0).unwrap();
    assert_eq!(text_of_reading(Some(&time)), "2015-05-15T00:00:00+00:00");
    assert_eq!(text_of_reading(None), "");
}
