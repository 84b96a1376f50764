use ticktick::datetime::{days_in_month, format_datetime, is_leap_year, parse_datetime, Timestamp};

fn ts(year: u16, month: u8, day: u8, hour: u8, minute: u8, second: u8) -> Timestamp {
    Timestamp {
        year,
        month,
        day,
        hour,
        minute,
        second,
    }
}

#[test]
fn format_is_exact() {
    assert_eq!(
        format_datetime(ts(2023, 5, 4, 9, 8, 7)),
        "2023-05-04T09:08:07+0000"
    );
    assert_eq!(
        format_datetime(ts(0, 1, 1, 0, 0, 0)),
        "0000-01-01T00:00:00+0000"
    );
    assert_eq!(
        format_datetime(ts(9999, 12, 31, 23, 59, 59)),
        "9999-12-31T23:59:59+0000"
    );
}

#[test]
fn format_then_parse_round_trips() {
    let cases = [
        ts(2023, 5, 4, 9, 8, 7),
        ts(1970, 1, 1, 0, 0, 0),
        ts(2024, 2, 29, 12, 30, 45),
        ts(9999, 12, 31, 23, 59, 59),
    ];
    for t in cases {
        assert_eq!(parse_datetime(format_datetime(t).as_str()), Some(t));
    }
}

#[test]
fn parse_accepts_nonzero_offset_as_utc_clock() {
    let r = parse_datetime("2023-05-04T09:08:07+0530");
    assert_eq!(r, Some(ts(2023, 5, 4, 9, 8, 7)));
    let r = parse_datetime("2023-05-04T09:08:07-0800");
    assert_eq!(r, Some(ts(2023, 5, 4, 9, 8, 7)));
}

#[test]
fn parse_rejects_other_formats() {
    assert_eq!(parse_datetime(""), None);
    assert_eq!(parse_datetime("2023-05-04 09:08:07+0000"), None);
    assert_eq!(parse_datetime("2023-05-04T09:08:07"), None);
    assert_eq!(parse_datetime("2023-05-04T09:08:07Z"), None);
    assert_eq!(parse_datetime("2023-05-04T09:08:07+0000 "), None);
    assert_eq!(parse_datetime("2023-05-04T09:08:07.000+0000"), None);
    assert_eq!(parse_datetime("23-05-04T09:08:07+0000"), None);
    assert_eq!(parse_datetime("2023/05/04T09:08:07+0000"), None);
}

#[test]
fn parse_rejects_out_of_range_fields() {
    assert_eq!(parse_datetime("2023-13-04T09:08:07+0000"), None);
    assert_eq!(parse_datetime("2023-00-04T09:08:07+0000"), None);
    assert_eq!(parse_datetime("2023-05-00T09:08:07+0000"), None);
    assert_eq!(parse_datetime("2023-04-31T09:08:07+0000"), None);
    assert_eq!(parse_datetime("2023-02-29T09:08:07+0000"), None);
    assert_eq!(parse_datetime("2023-05-04T24:08:07+0000"), None);
    assert_eq!(parse_datetime("2023-05-04T09:60:07+0000"), None);
    assert_eq!(parse_datetime("2023-05-04T09:08:60+0000"), None);
    assert_eq!(parse_datetime("2023-05-04T09:08:07+2400"), None);
    assert_eq!(parse_datetime("2023-05-04T09:08:07+0060"), None);
}

#[test]
fn parse_accepts_leap_day_in_leap_year() {
    assert_eq!(
        parse_datetime("2024-02-29T00:00:00+0000"),
        Some(ts(2024, 2, 29, 0, 0, 0))
    );
    assert_eq!(
        parse_datetime("2000-02-29T00:00:00+0000"),
        Some(ts(2000, 2, 29, 0, 0, 0))
    );
    assert_eq!(parse_datetime("1900-02-29T00:00:00+0000"), None);
}

#[test]
fn leap_year_rule() {
    assert!(is_leap_year(2024));
    assert!(is_leap_year(2000));
    assert!(!is_leap_year(1900));
    assert!(!is_leap_year(2023));
}

#[test]
fn month_lengths() {
    assert_eq!(days_in_month(2023, 1), 31);
    assert_eq!(days_in_month(2023, 2), 28);
    assert_eq!(days_in_month(2024, 2), 29);
    assert_eq!(days_in_month(2023, 4), 30);
    assert_eq!(days_in_month(2023, 12), 31);
}

#[test]
fn default_timestamp_is_epoch() {
    assert_eq!(Timestamp::default(), ts(1970, 1, 1, 0, 0, 0));
    assert_eq!(
        format_datetime(Timestamp::default()),
        "1970-01-01T00:00:00+0000"
    );
}
