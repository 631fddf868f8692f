use influx_export::date::DateYmd;
use influx_export::emit::file_name_for;
use influx_export::emit::render_csv;
use influx_export::project::Column;
use influx_export::project::FieldKind;
use influx_export::project::Table;

fn two_column_table() -> Table {
    Table {
        columns: vec![
            Column {
                name: "timestamp".to_string(),
                kind: FieldKind::Text,
                cells: vec!["t0".to_string(), "t1".to_string()],
            },
            Column {
                name: "bat_volt".to_string(),
                kind: FieldKind::Numeric,
                cells: vec!["3.7".to_string(), "3.6".to_string()],
            },
        ],
    }
}

// Header line of column names, then one line per row, in input order.
#[test]
fn header_then_rows() {
    let text = render_csv(&two_column_table());
    assert_eq!(text, "timestamp,bat_volt\nt0,3.7\nt1,3.6\n");
    assert_eq!(text.lines().next(), Some("timestamp,bat_volt"));
}

#[test]
fn single_column_no_commas() {
    let t = Table {
        columns: vec![
            Column {
                name: "timestamp".to_string(),
                kind: FieldKind::Text,
                cells: vec!["t0".to_string()],
            },
        ],
    };
    assert_eq!(render_csv(&t), "timestamp\nt0\n");
}

#[test]
fn no_columns_renders_empty_header() {
    let t = Table { columns: Vec::new() };
    assert_eq!(render_csv(&t), "\n");
}

// The file is named for the run date and the entity.
#[test]
fn file_name_shape() {
    let d = DateYmd { year: 2024, month: 1, day: 1 };
    assert_eq!(file_name_for(&d, "dev1"), "2024-01-01-dev1.csv");
    let d2 = DateYmd { year: 987, month: 11, day: 3 };
    assert_eq!(file_name_for(&d2, "ch-2"), "0987-11-03-ch-2.csv");
}
