use veltrix::data::time::Duration;
use veltrix::os::clock::{elapsed_since, monotonic, parse_seconds_duration, unix_timestamp};

#[test]
fn unix_timestamp_is_after_epoch() {
    assert!(unix_timestamp().unwrap().as_secs() > 0);
}

#[test]
fn monotonic_elapsed_is_non_negative() {
    let start = monotonic();
    assert!(elapsed_since(start) < Duration::from_secs(1));
}

#[test]
fn parses_fractional_seconds() {
    assert_eq!(
        parse_seconds_duration("12.345").unwrap(),
        Duration::new(12, 345_000_000)
    );
    assert_eq!(parse_seconds_duration("12").unwrap(), Duration::new(12, 0));
}
