use ping_server::time::Timestamp;
use ping_server::uptime::{format_uptime, ServerStart};

fn at(secs: u64, nanos: u32) -> Timestamp {
    Timestamp::new(secs, nanos).unwrap()
}

#[test]
fn uptime_text_of_zero() {
    assert_eq!(format_uptime(0), "0h0m0s");
}

#[test]
fn uptime_text_splits_hours_minutes_and_seconds() {
    assert_eq!(format_uptime(1), "0h0m1s");
    assert_eq!(format_uptime(59), "0h0m59s");
    assert_eq!(format_uptime(60), "0h1m0s");
    assert_eq!(format_uptime(61), "0h1m1s");
    assert_eq!(format_uptime(3599), "0h59m59s");
    assert_eq!(format_uptime(3600), "1h0m0s");
    assert_eq!(format_uptime(3661), "1h1m1s");
    assert_eq!(format_uptime(45_296), "12h34m56s");
}

#[test]
fn uptime_hours_do_not_roll_over_into_days() {
    assert_eq!(format_uptime(86_399), "23h59m59s");
    assert_eq!(format_uptime(86_400), "24h0m0s");
    assert_eq!(format_uptime(90_000), "25h0m0s");
    assert_eq!(format_uptime(360_000), "100h0m0s");
    assert_eq!(format_uptime(u64::MAX), "5124095576030431h0m15s");
}

#[test]
fn uptime_text_agrees_with_the_formula() {
    for secs in (0..200_000u64).step_by(37) {
        let expected = format!("{}h{}m{}s", secs / 3600, (secs % 3600) / 60, secs % 60);
        assert_eq!(format_uptime(secs), expected);
    }
}

#[test]
fn uptime_counts_whole_seconds_since_the_start() {
    let start = ServerStart::at(at(1_000, 250_000_000));
    assert_eq!(start.uptime_at(Some(&at(1_000, 250_000_000))), 0);
    assert_eq!(start.uptime_at(Some(&at(1_001, 249_999_999))), 0);
    assert_eq!(start.uptime_at(Some(&at(1_001, 250_000_000))), 1);
    assert_eq!(start.uptime_at(Some(&at(4_661, 250_000_000))), 3_661);
}

#[test]
fn uptime_before_the_start_is_zero() {
    let start = ServerStart::at(at(1_000, 250_000_000));
    assert_eq!(start.uptime_at(Some(&at(1_000, 249_999_999))), 0);
    assert_eq!(start.uptime_at(Some(&at(999, 999_999_999))), 0);
    assert_eq!(start.uptime_at(Some(&at(0, 0))), 0);
}

#[test]
fn uptime_never_decreases_over_successive_moments() {
    let start = ServerStart::at(at(1_000, 900_000_000));
    let moments = [
        (0, 0),
        (999, 999_999_999),
        (1_000, 0),
        (1_000, 900_000_000),
        (1_000, 999_999_999),
        (1_001, 0),
        (1_001, 899_999_999),
        (1_001, 900_000_000),
        (1_002, 0),
        (5_000, 1),
        (5_000, 2),
        (1_000_000, 0),
    ];
    let mut last = 0;
    for (secs, nanos) in moments {
        let seen = start.uptime_at(Some(&at(secs, nanos)));
        assert!(seen >= last, "uptime fell from {} to {} at {}s {}ns", last, seen, secs, nanos);
        last = seen;
    }
    assert_eq!(last, 998_999);
}

#[test]
fn a_captured_start_is_not_after_now() {
    let start = ServerStart::capture();
    let now = Timestamp::now().unwrap();
    assert!(now.secs() >= start.moment().unwrap().secs());
    assert_eq!(start.uptime_at(start.moment()), 0);
    assert!(start.uptime_at(Some(&now)) < 60);
}

#[test]
fn the_start_keeps_its_moment() {
    let start = ServerStart::at(at(42, 7));
    let moment = start.moment().unwrap();
    assert_eq!(moment.secs(), 42);
    assert_eq!(moment.nanos(), 7);
    assert_eq!(moment.rfc3339(), "1970-01-01T00:00:42.000000007+00:00");
}

#[test]
fn uptime_without_a_reading_is_zero() {
    let start = ServerStart::at(at(1_000, 0));
    assert_eq!(start.uptime_at(None), 0);
    let unknown = ServerStart::unknown();
    assert!(unknown.moment().is_none());
    assert_eq!(unknown.uptime_at(Some(&at(5_000, 0))), 0);
    assert_eq!(unknown.uptime_at(None), 0);
}
