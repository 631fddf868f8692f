use chrono::Datelike;
use influx_export::date::DateYmd;
use influx_export::query::Category;
use influx_export::query::build_query;
use influx_export::window::WINDOW_DAYS;
use influx_export::window::window_for;

#[test]
fn window_bounds_text() {
    let d = DateYmd { year: 2024, month: 1, day: 1 };
    let w = window_for(&d).unwrap();
    assert_eq!(w.start, "2023-12-02 00:00:00");
    assert_eq!(w.end, "2024-01-01 23:59:59");
}

// The window starts before it ends and spans exactly the trailing period.
#[test]
fn window_spans_trailing_period() {
    for (y, m, d) in [(2024u16, 1u8, 1u8), (2024, 3, 1), (1, 12, 31), (9999, 12, 31)] {
        let w = window_for(&DateYmd { year: y, month: m, day: d }).unwrap();
        assert!(w.start < w.end);
        let s = chrono::NaiveDate::from_ymd_opt(
            w.start_date.year as i32,
            w.start_date.month as u32,
            w.start_date.day as u32,
        )
        .unwrap();
        let e = chrono::NaiveDate::from_ymd_opt(
            w.end_date.year as i32,
            w.end_date.month as u32,
            w.end_date.day as u32,
        )
        .unwrap();
        assert_eq!((e - s).num_days(), WINDOW_DAYS as i64);
        assert_eq!((e.year(), e.month(), e.day()), (y as i32, m as u32, d as u32));
    }
}

// A window whose start would precede year one cannot be derived.
#[test]
fn window_out_of_range() {
    let d = DateYmd { year: 1, month: 1, day: 15 };
    assert!(window_for(&d).is_err());
}

// The statement holds the device field, the entity and the bounds, verbatim.
#[test]
fn query_for_surface_device() {
    let d = DateYmd { year: 2024, month: 1, day: 1 };
    let w = window_for(&d).unwrap();
    let q = build_query("sensors", Category::Surface, "dev1", &w);
    assert_eq!(
        q,
        "SELECT * FROM \"sensors\" WHERE device = 'dev1' \
         AND time >= '2023-12-02 00:00:00' AND time <= '2024-01-01 23:59:59'"
    );
}

// Electrical categories filter by channel instead of device.
#[test]
fn query_for_dc_channel() {
    let d = DateYmd { year: 2024, month: 1, day: 1 };
    let w = window_for(&d).unwrap();
    let q = build_query("power", Category::Dc, "ch7", &w);
    assert_eq!(
        q,
        "SELECT * FROM \"power\" WHERE channel = 'ch7' \
         AND time >= '2023-12-02 00:00:00' AND time <= '2024-01-01 23:59:59'"
    );
}

#[test]
fn field_names_by_category() {
    assert_eq!(Category::Surface.field_name(), "device");
    assert_eq!(Category::Ambient.field_name(), "device");
    assert_eq!(Category::Ac.field_name(), "channel");
    assert_eq!(Category::Dc.field_name(), "channel");
}
