use time_tracker::clock::{
    current_unix_timestamp, day_bounds_at, timestamp_from_clock, day_bounds_from, day_bounds_timestamps, LocalMidnight,
};
use time_tracker::error::TrackerError;
use time_tracker::money::{calculate_amount, sanitize_hourly_rate};
use time_tracker::text::{format_duration, sanitize_project_name, tray_project_name};

#[test]
fn rate_sanitization() {
    assert_eq!(sanitize_hourly_rate(Some(-500)), 0);
    assert_eq!(sanitize_hourly_rate(None), 0);
    assert_eq!(sanitize_hourly_rate(Some(1250)), 1250);
    assert_eq!(sanitize_hourly_rate(Some(0)), 0);
}

#[test]
fn monetary_rounding() {
    assert_eq!(calculate_amount(1800, 1000), 500);
    assert_eq!(calculate_amount(1, 360000), 100);
}

#[test]
fn amount_rounds_half_away_from_zero() {
    assert_eq!(calculate_amount(18, 100), 1);
    assert_eq!(calculate_amount(17, 100), 0);
    assert_eq!(calculate_amount(-18, 100), -1);
    assert_eq!(calculate_amount(0, 5000), 0);
    assert_eq!(calculate_amount(5400, 3333), 5000);
}

#[test]
fn amount_at_extremes_fits() {
    let a = calculate_amount(i64::MAX, u64::MAX);
    assert!(a > 0);
    let b = calculate_amount(i64::MIN, u64::MAX);
    assert!(b < 0);
}

#[test]
fn duration_formatting() {
    assert_eq!(format_duration(0), "00:00:00");
    assert_eq!(format_duration(3661), "01:01:01");
    assert_eq!(format_duration(59), "00:00:59");
    assert_eq!(format_duration(360000), "100:00:00");
    assert_eq!(format_duration(-61), "00:-1:-1");
}

#[test]
fn project_names_are_trimmed() {
    assert_eq!(sanitize_project_name("  Client work  ".to_string()), "Client work");
    assert_eq!(sanitize_project_name("\tA\n".to_string()), "A");
}

#[test]
fn blank_project_names_get_placeholder() {
    assert_eq!(sanitize_project_name("   ".to_string()), "Untitled Task");
    assert_eq!(sanitize_project_name(String::new()), "Untitled Task");
}

#[test]
fn tray_names() {
    assert_eq!(tray_project_name("  ".to_string()), "Quick Task");
    assert_eq!(tray_project_name(" Docs ".to_string()), " Docs ");
}

#[test]
fn day_bounds_of_a_fixed_midnight() {
    assert_eq!(
        day_bounds_from(LocalMidnight::Single(1_700_000_000)),
        Ok((1_700_000_000, 1_700_086_400))
    );
}

#[test]
fn day_bounds_refuse_unresolved_midnight() {
    assert_eq!(day_bounds_from(LocalMidnight::Ambiguous), Err(TrackerError::AmbiguousLocalTime));
    assert_eq!(day_bounds_from(LocalMidnight::Missing), Err(TrackerError::AmbiguousLocalTime));
}

#[test]
fn todays_bounds_span_one_day() {
    match day_bounds_timestamps() {
        Ok((lo, hi)) => assert_eq!(hi - lo, 86400),
        Err(e) => assert!(e == TrackerError::AmbiguousLocalTime || e == TrackerError::ClockUnavailable),
    }
}

#[test]
fn clock_reads_after_epoch() {
    let now = current_unix_timestamp().unwrap();
    assert!(now > 1_600_000_000);
}

#[test]
fn day_bounds_hold_the_instant() {
    let now = 1_700_000_000;
    match day_bounds_at(now) {
        Ok((lo, hi)) => {
            assert_eq!(hi - lo, 86400);
            assert!(lo <= now && now < hi + 3600);
        }
        Err(e) => assert_eq!(e, TrackerError::AmbiguousLocalTime),
    }
}

#[test]
fn unicode_white_space_is_trimmed() {
    assert_eq!(sanitize_project_name("\u{3000}Plan\u{a0}\u{2029}".to_string()), "Plan");
    assert_eq!(sanitize_project_name("\u{85}\u{1680}".to_string()), "Untitled Task");
    assert_eq!(sanitize_project_name("\u{200b}x".to_string()), "\u{200b}x");
    assert_eq!(sanitize_project_name(" a b ".to_string()), "a b");
}

#[test]
fn sanitising_twice_changes_nothing() {
    for raw in ["  Client work  ", "", "\u{3000}", "x"] {
        let once = sanitize_project_name(raw.to_string());
        let twice = sanitize_project_name(once.clone());
        assert_eq!(once, twice);
    }
}

#[test]
fn clock_readings_are_checked() {
    assert_eq!(timestamp_from_clock(Some(1_700_000_000)), Ok(1_700_000_000));
    assert_eq!(timestamp_from_clock(Some(0)), Ok(0));
    assert_eq!(timestamp_from_clock(None), Err(TrackerError::ClockUnavailable));
    assert_eq!(timestamp_from_clock(Some(8_000_000_000_000)), Err(TrackerError::ClockUnavailable));
    assert_eq!(timestamp_from_clock(Some(7_999_999_999_999)), Ok(7_999_999_999_999));
}
