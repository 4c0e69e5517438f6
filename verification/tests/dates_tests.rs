use caducity::dates::{
    date_from_ymd, format_date, parse_date, parse_date_time, read_date_column,
    read_date_time_column, timestamp_of, DateParts, DateTimeParts, MAX_YEAR, MIN_YEAR,
};
use chrono::{NaiveDate, NaiveDateTime};

fn date(year: i32, month: u32, day: u32) -> DateParts {
    DateParts { year, month, day }
}

#[test]
fn from_ymd_keeps_existing_days() {
    assert_eq!(date_from_ymd(2024, 2, 29), Some(date(2024, 2, 29)));
    assert_eq!(date_from_ymd(2000, 2, 29), Some(date(2000, 2, 29)));
    assert_eq!(date_from_ymd(2023, 12, 31), Some(date(2023, 12, 31)));
}

#[test]
fn from_ymd_refuses_missing_days() {
    assert_eq!(date_from_ymd(2023, 2, 29), None);
    assert_eq!(date_from_ymd(1900, 2, 29), None);
    assert_eq!(date_from_ymd(2024, 4, 31), None);
    assert_eq!(date_from_ymd(2024, 13, 1), None);
    assert_eq!(date_from_ymd(2024, 0, 1), None);
    assert_eq!(date_from_ymd(2024, 1, 0), None);
}

#[test]
fn from_ymd_year_range_is_chrono_range() {
    assert_eq!(date_from_ymd(MAX_YEAR, 12, 31), Some(date(MAX_YEAR, 12, 31)));
    assert_eq!(date_from_ymd(MAX_YEAR + 1, 1, 1), None);
    assert_eq!(date_from_ymd(MIN_YEAR, 1, 1), Some(date(MIN_YEAR, 1, 1)));
    assert_eq!(date_from_ymd(MIN_YEAR - 1, 12, 31), None);
    assert_eq!(NaiveDate::MAX.to_string(), format!("+{}-12-31", MAX_YEAR));
}

#[test]
fn parse_date_reads_database_dates() {
    assert_eq!(parse_date("2024-03-05"), Some(date(2024, 3, 5)));
    assert_eq!(parse_date("2023-02-30"), None);
    assert_eq!(parse_date("yesterday"), None);
}

#[test]
fn parse_date_time_reads_database_timestamps() {
    assert_eq!(
        parse_date_time("2024-03-05 10:20:30"),
        Some(DateTimeParts { date: date(2024, 3, 5), hour: 10, minute: 20, second: 30 })
    );
    assert_eq!(parse_date_time("2024-03-05"), None);
    assert_eq!(parse_date_time("2024-03-05 25:00:00"), None);
}

#[test]
fn date_columns() {
    assert_eq!(read_date_column(&None), Some(None));
    assert_eq!(read_date_column(&Some("2025-01-31".to_string())), Some(Some(date(2025, 1, 31))));
    assert_eq!(read_date_column(&Some("31/01/2025".to_string())), None);
    assert_eq!(read_date_time_column(&None), Some(None));
    assert_eq!(read_date_time_column(&Some("nope".to_string())), None);
}

#[test]
fn format_date_writes_like_chrono() {
    for (y, m, d) in [(2024, 3, 5), (5, 1, 2), (0, 12, 31), (9999, 12, 31), (10000, 1, 1), (-1, 6, 15), (12345, 6, 7), (-262143, 1, 1), (262142, 12, 31)] {
        let expected = NaiveDate::from_ymd_opt(y, m, d).unwrap().to_string();
        assert_eq!(format_date(date(y, m, d)), expected);
    }
    assert_eq!(format_date(date(2024, 3, 5)), "2024-03-05");
    assert_eq!(format_date(date(-1, 6, 15)), "-0001-06-15");
    assert_eq!(format_date(date(12345, 6, 7)), "+12345-06-07");
}

#[test]
fn unix_timestamp_matches_chrono() {
    let stamps = [
        "1970-01-01 00:00:00",
        "1969-12-31 23:59:59",
        "2000-02-29 12:00:00",
        "2000-03-01 00:00:00",
        "2024-03-05 10:20:30",
        "1900-03-01 00:00:00",
        "0001-01-01 00:00:00",
        "9999-12-31 23:59:59",
    ];
    for s in stamps {
        let expected = NaiveDateTime::parse_from_str(s, "%Y-%m-%d %H:%M:%S").unwrap().and_utc().timestamp();
        let parts = parse_date_time(s).unwrap();
        assert_eq!(parts.unix_timestamp(), expected, "{}", s);
    }
    let epoch = DateTimeParts { date: date(1970, 1, 1), hour: 0, minute: 0, second: 0 };
    assert_eq!(epoch.unix_timestamp(), 0);
    assert_eq!(timestamp_of(Some(epoch)), Some(0));
    assert_eq!(timestamp_of(None), None);
}

#[test]
fn unix_timestamp_of_far_years_matches_chrono() {
    for (y, m, d) in [(-262143, 1, 1), (262142, 12, 31), (-1, 2, 28), (-4, 2, 29), (-100, 3, 1), (-400, 12, 31)] {
        let expected = NaiveDate::from_ymd_opt(y, m, d).unwrap().and_hms_opt(1, 2, 3).unwrap().and_utc().timestamp();
        let parts = DateTimeParts { date: date(y, m, d), hour: 1, minute: 2, second: 3 };
        assert_eq!(parts.unix_timestamp(), expected, "{} {} {}", y, m, d);
    }
}

#[test]
fn written_dates_read_back() {
    let mut days = vec![];
    for y in [-262143, -10000, -1, 0, 1, 999, 1969, 1970, 2000, 2024, 9999, 10000, 262142] {
        for (m, d) in [(1, 1), (2, 28), (2, 29), (6, 30), (12, 31)] {
            if let Some(p) = date_from_ymd(y, m, d) {
                days.push(p);
            }
        }
    }
    for p in days {
        assert_eq!(parse_date(&format_date(p)), Some(p), "{:?}", p);
    }
}

#[test]
fn validity_of_parts() {
    assert!(date(2024, 2, 29).is_valid());
    assert!(!date(2023, 2, 29).is_valid());
    assert!(!date(2024, 4, 31).is_valid());
    assert!(!date(2024, 0, 1).is_valid());
    assert!(!date(MAX_YEAR + 1, 1, 1).is_valid());
    assert!(date(MIN_YEAR, 1, 1).is_valid());
    assert!(!date(-100, 2, 29).is_valid());
    assert!(date(-400, 2, 29).is_valid());
    let t = DateTimeParts { date: date(2024, 2, 29), hour: 23, minute: 59, second: 59 };
    assert!(t.is_valid());
    assert!(!DateTimeParts { hour: 24, ..t }.is_valid());
    assert!(!DateTimeParts { second: 60, ..t }.is_valid());
}
