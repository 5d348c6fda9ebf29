use qmpo::timestamp::{leap_year, month_length, push_padded, Timestamp};

fn stamp(year: u64, month: u8, day: u8, hour: u8, minute: u8, second: u8) -> Timestamp {
    Timestamp { year, month, day, hour, minute, second }
}

#[test]
fn epoch_is_the_first_of_january_1970() {
    assert_eq!(Timestamp::from_unix_seconds(0), stamp(1970, 1, 1, 0, 0, 0));
    assert_eq!(Timestamp::from_unix_seconds(1), stamp(1970, 1, 1, 0, 0, 1));
    assert_eq!(Timestamp::from_unix_seconds(86399), stamp(1970, 1, 1, 23, 59, 59));
    assert_eq!(Timestamp::from_unix_seconds(86400), stamp(1970, 1, 2, 0, 0, 0));
}

#[test]
fn months_and_years_turn_over() {
    assert_eq!(Timestamp::from_unix_seconds(31 * 86400 - 1), stamp(1970, 1, 31, 23, 59, 59));
    assert_eq!(Timestamp::from_unix_seconds(31 * 86400), stamp(1970, 2, 1, 0, 0, 0));
    assert_eq!(Timestamp::from_unix_seconds(365 * 86400 - 1), stamp(1970, 12, 31, 23, 59, 59));
    assert_eq!(Timestamp::from_unix_seconds(365 * 86400), stamp(1971, 1, 1, 0, 0, 0));
}

#[test]
fn leap_days_are_counted() {
    // 1972 is the first leap year after 1970.
    assert_eq!(Timestamp::from_unix_seconds(68169600), stamp(1972, 2, 29, 0, 0, 0));
    assert_eq!(Timestamp::from_unix_seconds(68256000), stamp(1972, 3, 1, 0, 0, 0));
    assert_eq!(Timestamp::from_unix_seconds(94694399), stamp(1972, 12, 31, 23, 59, 59));
    // 2000 is a leap year, 2100 is not.
    assert_eq!(Timestamp::from_unix_seconds(951782400), stamp(2000, 2, 29, 0, 0, 0));
    assert_eq!(Timestamp::from_unix_seconds(4107456000), stamp(2100, 2, 28, 0, 0, 0));
    assert_eq!(Timestamp::from_unix_seconds(4107542400), stamp(2100, 3, 1, 0, 0, 0));
}

#[test]
fn known_moments() {
    assert_eq!(Timestamp::from_unix_seconds(1000000000), stamp(2001, 9, 9, 1, 46, 40));
    assert_eq!(Timestamp::from_unix_seconds(1709210096), stamp(2024, 2, 29, 12, 34, 56));
    assert_eq!(Timestamp::from_unix_seconds(2147483647), stamp(2038, 1, 19, 3, 14, 7));
    assert_eq!(Timestamp::from_unix_seconds(253402300799), stamp(9999, 12, 31, 23, 59, 59));
    assert_eq!(Timestamp::from_unix_seconds(253402300800), stamp(10000, 1, 1, 0, 0, 0));
}

#[test]
fn format_pads_with_zeros() {
    assert_eq!(Timestamp::from_unix_seconds(0).format(), "1970-01-01 00:00:00");
    assert_eq!(Timestamp::from_unix_seconds(1709210096).format(), "2024-02-29 12:34:56");
    assert_eq!(Timestamp::from_unix_seconds(1000000000).format(), "2001-09-09 01:46:40");
    assert_eq!(Timestamp::from_unix_seconds(253402300800).format(), "10000-01-01 00:00:00");
    assert_eq!(stamp(987, 6, 5, 4, 3, 2).format(), "0987-06-05 04:03:02");
}

#[test]
fn push_padded_appends_decimal_digits() {
    let mut out = String::from("n=");
    push_padded(&mut out, 7, 3);
    assert_eq!(out, "n=007");
    push_padded(&mut out, 0, 1);
    assert_eq!(out, "n=0070");
    push_padded(&mut out, 12345, 2);
    assert_eq!(out, "n=007012345");
    push_padded(&mut out, 0, 0);
    assert_eq!(out, "n=0070123450");
    let mut wide = String::new();
    push_padded(&mut wide, u64::MAX, 4);
    assert_eq!(wide, "18446744073709551615");
}

#[test]
fn leap_years_of_the_gregorian_calendar() {
    assert!(leap_year(1972));
    assert!(leap_year(2000));
    assert!(leap_year(2024));
    assert!(!leap_year(1970));
    assert!(!leap_year(1900));
    assert!(!leap_year(2100));
}

#[test]
fn lengths_of_the_months() {
    let lengths: Vec<u64> = (1..=12).map(|month| month_length(2023, month)).collect();
    assert_eq!(lengths, vec![31, 28, 31, 30, 31, 30, 31, 31, 30, 31, 30, 31]);
    assert_eq!(month_length(2024, 2), 29);
    assert_eq!(month_length(1900, 2), 28);
}

#[test]
fn seconds_determine_the_timestamp() {
    // Neighbouring seconds around the leap day of 2024 give neighbouring timestamps.
    let before = Timestamp::from_unix_seconds(1709251199);
    let after = Timestamp::from_unix_seconds(1709251200);
    assert_eq!(before, stamp(2024, 2, 29, 23, 59, 59));
    assert_eq!(after, stamp(2024, 3, 1, 0, 0, 0));
    assert_ne!(before, after);
}
