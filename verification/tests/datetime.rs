use congress::datetime::{datetime_to_string, parse_datetime, Date, DateTime, Time};

#[test]
fn format_pads_every_field() {
    let dt = DateTime::new(987, 6, 5, 4, 3, 2).unwrap();
    assert_eq!(datetime_to_string(&dt), "0987-06-05T04:03:02Z");
}

#[test]
fn parse_wire_timestamp() {
    let dt = parse_datetime("2023-11-30T23:59:59Z").unwrap();
    assert_eq!(dt, DateTime::new(2023, 11, 30, 23, 59, 59).unwrap());
}

#[test]
fn round_trip_timestamps() {
    let cases = vec![
        DateTime::new(0, 1, 1, 0, 0, 0).unwrap(),
        DateTime::new(9999, 12, 31, 23, 59, 59).unwrap(),
        DateTime::new(2024, 2, 29, 6, 30, 15).unwrap(),
    ];
    for dt in cases {
        assert_eq!(parse_datetime(&datetime_to_string(&dt)), Some(dt));
    }
}

#[test]
fn calendar_rejects_bad_dates() {
    assert_eq!(Date::new(2023, 2, 29), None);
    assert_eq!(Date::new(2023, 4, 31), None);
    assert_eq!(Date::new(2023, 0, 1), None);
    assert_eq!(Date::new(2023, 13, 1), None);
    assert_eq!(Date::new(2023, 1, 0), None);
    assert_eq!(Date::new(10000, 1, 1), None);
    assert!(Date::new(2024, 2, 29).is_some());
    assert!(Date::new(2000, 2, 29).is_some());
    assert_eq!(Date::new(1900, 2, 29), None);
}

#[test]
fn clock_rejects_bad_times() {
    assert_eq!(Time::new(24, 0, 0), None);
    assert_eq!(Time::new(0, 60, 0), None);
    assert_eq!(Time::new(0, 0, 60), None);
    assert!(Time::new(23, 59, 59).is_some());
}

#[test]
fn parse_rejects_wrong_shapes() {
    assert_eq!(parse_datetime(""), None);
    assert_eq!(parse_datetime("2023-11-30T23:59:59"), None);
    assert_eq!(parse_datetime("2023-11-30 23:59:59Z"), None);
    assert_eq!(parse_datetime("2023/11/30T23:59:59Z"), None);
    assert_eq!(parse_datetime("20231130T235959Z0000"), None);
    assert_eq!(parse_datetime("2023-02-30T00:00:00Z"), None);
}
