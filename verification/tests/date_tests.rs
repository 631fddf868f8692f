use chrono::Datelike;
use influx_export::date::DateYmd;
use influx_export::date::back_dated;
use influx_export::date::render_date;
use influx_export::date::render_datetime;

#[test]
fn back_dated_within_month() {
    let d = DateYmd { year: 2024, month: 3, day: 31 };
    let b = back_dated(&d, 30).unwrap();
    assert_eq!((b.year, b.month, b.day), (2024, 3, 1));
}

#[test]
fn back_dated_over_leap_february() {
    let d = DateYmd { year: 2024, month: 3, day: 15 };
    let b = back_dated(&d, 30).unwrap();
    assert_eq!((b.year, b.month, b.day), (2024, 2, 14));
}

#[test]
fn back_dated_over_plain_february() {
    let d = DateYmd { year: 2023, month: 3, day: 15 };
    let b = back_dated(&d, 30).unwrap();
    assert_eq!((b.year, b.month, b.day), (2023, 2, 13));
}

#[test]
fn back_dated_over_year_end() {
    let d = DateYmd { year: 2024, month: 1, day: 15 };
    let b = back_dated(&d, 30).unwrap();
    assert_eq!((b.year, b.month, b.day), (2023, 12, 16));
}

// The shifted day agrees with the calendar library's own difference.
#[test]
fn back_dated_agrees_with_calendar() {
    for (y, m, d, n) in [(2024u16, 2u8, 29u8, 365u32), (2001, 1, 1, 366), (1999, 12, 31, 1)] {
        let b = back_dated(&DateYmd { year: y, month: m, day: d }, n).unwrap();
        let here = chrono::NaiveDate::from_ymd_opt(y as i32, m as u32, d as u32).unwrap();
        let there = here - chrono::TimeDelta::try_days(n as i64).unwrap();
        assert_eq!(
            (b.year as i32, b.month as u32, b.day as u32),
            (there.year(), there.month(), there.day())
        );
    }
}

// Shifting below year one cannot be represented.
#[test]
fn back_dated_out_of_range() {
    let d = DateYmd { year: 1, month: 1, day: 15 };
    assert!(back_dated(&d, 30).is_none());
}

#[test]
fn render_date_pads_fields() {
    let d = DateYmd { year: 987, month: 1, day: 5 };
    assert_eq!(render_date(&d), "0987-01-05");
}

#[test]
fn render_datetime_format() {
    let d = DateYmd { year: 2024, month: 1, day: 1 };
    assert_eq!(render_datetime(&d, 23, 59, 59), "2024-01-01 23:59:59");
    assert_eq!(render_datetime(&d, 0, 0, 0), "2024-01-01 00:00:00");
}
