use veltrix::data::time::{format_duration, parse_duration, Duration};

#[test]
fn parses_and_formats_compact_durations() {
    let duration = parse_duration("1h2m3s").unwrap();

    assert_eq!(duration.as_secs(), 3723);
    assert_eq!(format_duration(duration), "1h2m3s");
    assert_eq!(format_duration(Duration::from_secs(120)), "2m");
}

#[test]
fn rejects_invalid_durations() {
    assert!(parse_duration("").is_err());
    assert!(parse_duration("10").is_err());
    assert!(parse_duration("1w").is_err());
}
