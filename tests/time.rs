use taskboard::time::{civil_from_days, format_utc, padded_text};

#[test]
fn epoch_start() {
    assert_eq!(format_utc(0), "1970-01-01T00:00:00Z");
    assert_eq!(format_utc(86399), "1970-01-01T23:59:59Z");
}

#[test]
fn ordinary_instant() {
    assert_eq!(format_utc(1_700_000_000), "2023-11-14T22:13:20Z");
}

#[test]
fn leap_days() {
    assert_eq!(format_utc(68_169_600), "1972-02-29T00:00:00Z");
    assert_eq!(format_utc(951_782_400), "2000-02-29T00:00:00Z");
}

#[test]
fn century_without_leap_day() {
    assert_eq!(format_utc(4_107_456_000), "2100-02-28T00:00:00Z");
    assert_eq!(format_utc(4_107_542_400), "2100-03-01T00:00:00Z");
}

#[test]
fn far_years() {
    assert_eq!(format_utc(253_402_300_799), "9999-12-31T23:59:59Z");
    assert_eq!(format_utc(253_402_300_800), "10000-01-01T00:00:00Z");
}

#[test]
fn largest_instant_does_not_panic() {
    let s = format_utc(u64::MAX);
    assert!(s.ends_with("Z"));
}

#[test]
fn civil_dates() {
    assert_eq!(civil_from_days(0), (1970, 1, 0));
    assert_eq!(civil_from_days(365), (1971, 1, 0));
    assert_eq!(civil_from_days(789), (1972, 2, 28));
}

#[test]
fn zero_padding() {
    assert_eq!(padded_text(7, 2), "07");
    assert_eq!(padded_text(42, 2), "42");
    assert_eq!(padded_text(123, 2), "123");
    assert_eq!(padded_text(0, 0), "0");
    assert_eq!(padded_text(5, 4), "0005");
}
