use market_sync::calendar::{day_number, days_in_month, is_leap_year, timestamp_le, timestamp_lt,
    weekday_of_day, Timestamp, Weekday,
};
use market_sync::datetime::parse_datetime;

#[test]
fn epoch_day_was_a_thursday() {
    assert_eq!(weekday_of_day(0), Weekday::Thu);
    assert_eq!(weekday_of_day(1), Weekday::Fri);
    assert_eq!(weekday_of_day(2), Weekday::Sat);
    assert_eq!(weekday_of_day(3), Weekday::Sun);
    assert_eq!(weekday_of_day(4), Weekday::Mon);
}

#[test]
fn day_number_of_known_dates() {
    assert_eq!(day_number(1970, 1, 1), 0);
    assert_eq!(day_number(1970, 1, 2), 1);
    assert_eq!(day_number(1970, 12, 31), 364);
    assert_eq!(day_number(1972, 2, 29), 789);
    // 2023-09-21 was a Thursday.
    assert_eq!(day_number(2023, 9, 21), 19621);
    assert_eq!(weekday_of_day(19621), Weekday::Thu);
}

#[test]
fn leap_year_rules() {
    assert!(is_leap_year(2000));
    assert!(is_leap_year(2024));
    assert!(!is_leap_year(1900));
    assert!(!is_leap_year(2023));
    assert_eq!(days_in_month(2024, 2), 29);
    assert_eq!(days_in_month(2023, 2), 28);
    assert_eq!(days_in_month(2023, 9), 30);
    assert_eq!(days_in_month(2023, 12), 31);
}

#[test]
fn timestamp_ordering() {
    let a = Timestamp { day: 10, sec: 100 };
    let b = Timestamp { day: 10, sec: 101 };
    let c = Timestamp { day: 11, sec: 0 };
    assert!(timestamp_lt(&a, &b));
    assert!(timestamp_lt(&b, &c));
    assert!(timestamp_le(&a, &a));
    assert!(!timestamp_lt(&a, &a));
    assert!(!timestamp_le(&c, &b));
}

#[test]
fn parse_datetime_well_formed() {
    let t = parse_datetime("2023-09-21 09:30:00").unwrap();
    assert_eq!(t.day, 19621);
    assert_eq!(t.sec, 9 * 3600 + 30 * 60);
    let midnight = parse_datetime("1970-01-01 00:00:00").unwrap();
    assert_eq!(midnight.day, 0);
    assert_eq!(midnight.sec, 0);
    let leap = parse_datetime("2024-02-29 23:59:59").unwrap();
    assert_eq!(leap.day, day_number(2024, 2, 29));
    assert_eq!(leap.sec, 86_399);
}

#[test]
fn parse_datetime_rejects_malformed() {
    assert!(parse_datetime("").is_none());
    assert!(parse_datetime("2023-09-21").is_none());
    assert!(parse_datetime("2023-9-21 09:30:00").is_none());
    assert!(parse_datetime("2023/09/21 09:30:00").is_none());
    assert!(parse_datetime("2023-09-21T09:30:00").is_none());
    assert!(parse_datetime("2023-13-01 00:00:00").is_none());
    assert!(parse_datetime("2023-00-01 00:00:00").is_none());
    assert!(parse_datetime("2023-02-29 00:00:00").is_none());
    assert!(parse_datetime("2023-09-31 00:00:00").is_none());
    assert!(parse_datetime("2023-09-21 24:00:00").is_none());
    assert!(parse_datetime("2023-09-21 09:60:00").is_none());
    assert!(parse_datetime("2023-09-21 09:30:60").is_none());
    assert!(parse_datetime("1969-12-31 23:59:59").is_none());
    assert!(parse_datetime("2023-09-21 09:30:0a").is_none());
}
