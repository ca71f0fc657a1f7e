use xclock::calendar::{check_ymd, current_iso_week, iso_week_for_date};
use xclock::wide::{ascii_to_wide, wide_to_ascii};

#[test]
fn valid_dates_accepted() {
    assert!(check_ymd(2024, 1, 4));
    assert!(check_ymd(2024, 2, 29)); // leap year
    assert!(check_ymd(2000, 2, 29)); // divisible by 400: leap
    assert!(check_ymd(-4, 2, 29)); // 5 BCE is a leap year
}

#[test]
fn invalid_dates_rejected() {
    assert!(!check_ymd(2023, 4, 31));
    assert!(!check_ymd(2023, 2, 29));
    assert!(!check_ymd(1900, 2, 29)); // divisible by 100 but not 400: no leap
    assert!(!check_ymd(2015, 0, 14));
    assert!(!check_ymd(2015, 13, 1));
    assert!(!check_ymd(2015, 6, 0));
    assert!(!check_ymd(400000, 1, 1));
    assert!(!check_ymd(-400000, 1, 1));
}

#[test]
fn iso_week_of_known_dates() {
    // January 4th is always in ISO week 1.
    assert_eq!(iso_week_for_date(2024, 1, 4), Some((1, 2024)));
    // The year's end can already belong to the next week-based year.
    assert_eq!(iso_week_for_date(2014, 12, 29), Some((1, 2015)));
    // And the year's start can still belong to the previous one.
    assert_eq!(iso_week_for_date(2016, 1, 1), Some((53, 2015)));
    assert_eq!(iso_week_for_date(2026, 10, 9), Some((41, 2026)));
}

#[test]
fn iso_week_of_invalid_date_is_none() {
    assert_eq!(iso_week_for_date(2023, 4, 31), None);
    assert_eq!(iso_week_for_date(2015, 2, 29), None);
}

#[test]
fn current_week_is_in_range() {
    let (week, _year) = current_iso_week();
    assert!((1..=53).contains(&week));
}

#[test]
fn ascii_round_trip_through_wide() {
    let w = ascii_to_wide(b"Shell_TrayWnd");
    assert_eq!(w.len(), 14);
    assert_eq!(w[0], 'S' as u16);
    assert_eq!(w[13], 0);
    let back = wide_to_ascii(&w);
    assert_eq!(back, b"Shell_TrayWnd".to_vec());
}

#[test]
fn wide_decoding_trims_buffer_padding() {
    let buf: Vec<u16> = vec!['C' as u16, 'l' as u16, 'k' as u16, 0, 0, 0];
    assert_eq!(wide_to_ascii(&buf), b"Clk".to_vec());
}

#[test]
fn wide_decoding_replaces_non_ascii() {
    let buf: Vec<u16> = vec!['a' as u16, 0x00E9, 'b' as u16];
    assert_eq!(wide_to_ascii(&buf), b"a?b".to_vec());
}

#[test]
fn wide_decoding_of_all_zeros_is_empty() {
    let buf: Vec<u16> = vec![0, 0];
    assert_eq!(wide_to_ascii(&buf), Vec::<u8>::new());
}
