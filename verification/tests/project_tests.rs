use influx_export::project::FieldKind;
use influx_export::project::RawCell;
use influx_export::project::ac_schema;
use influx_export::project::ambient_schema;
use influx_export::project::dc_schema;
use influx_export::project::project;
use influx_export::project::surface_schema;
use influx_export::text::check_decimal;

fn surface_row(ts: &str, bat: &str, bot: &str, top: &str) -> Vec<RawCell> {
    vec![
        RawCell::Text(ts.to_string()),
        RawCell::Num(bat.to_string()),
        RawCell::Other,
        RawCell::Other,
        RawCell::Other,
        RawCell::Num(bot.to_string()),
        RawCell::Num(top.to_string()),
    ]
}

// Every output column has exactly as many values as there are input rows,
// in the schema's declared order.
#[test]
fn one_value_per_row_per_column() {
    let rows = vec![
        surface_row("t0", "3.7", "20.1", "21.3"),
        surface_row("t1", "3.6", "20.0", "21.2"),
        surface_row("t2", "3.5", "19.9", "21.1"),
    ];
    let t = project(&rows, &surface_schema()).unwrap();
    assert_eq!(t.columns.len(), 4);
    let names: Vec<&str> = t.columns.iter().map(|c| c.name.as_str()).collect();
    assert_eq!(names, ["timestamp", "bat_volt", "temp_bot_c", "temp_top_c"]);
    for c in &t.columns {
        assert_eq!(c.cells.len(), 3);
    }
    assert_eq!(t.columns[0].cells, ["t0", "t1", "t2"]);
    assert_eq!(t.columns[1].cells, ["3.7", "3.6", "3.5"]);
    assert_eq!(t.columns[2].cells, ["20.1", "20.0", "19.9"]);
    assert_eq!(t.columns[3].cells, ["21.3", "21.2", "21.1"]);
}

// Decimal text at a numeric index coerces to that exact value's text.
#[test]
fn numeric_field_takes_decimal_text() {
    let mut row = surface_row("t0", "0", "0", "0");
    row[1] = RawCell::Text("3.14".to_string());
    let t = project(&vec![row], &surface_schema()).unwrap();
    assert_eq!(t.columns[1].cells[0], "3.14");
    assert_eq!(t.columns[1].kind, FieldKind::Numeric);
}

// A non-numeric value at a numeric index is a data-shape fault.
#[test]
fn numeric_field_rejects_other_text() {
    let mut row = surface_row("t0", "0", "0", "0");
    row[1] = RawCell::Text("full".to_string());
    let f = project(&vec![row], &surface_schema()).unwrap_err();
    assert_eq!((f.row, f.field), (0, 1));
}

// A timestamp position holding a number is a data-shape fault.
#[test]
fn text_field_rejects_number() {
    let mut row = surface_row("t0", "0", "0", "0");
    row[0] = RawCell::Num("7".to_string());
    let f = project(&vec![row], &surface_schema()).unwrap_err();
    assert_eq!((f.row, f.field), (0, 0));
}

// A row shorter than the highest required index is a data-shape fault.
#[test]
fn short_row_faults() {
    let rows = vec![
        surface_row("t0", "3.7", "20.1", "21.3"),
        vec![RawCell::Text("t1".to_string()), RawCell::Num("3.6".to_string())],
    ];
    let f = project(&rows, &surface_schema()).unwrap_err();
    assert_eq!((f.row, f.field), (1, 2));
}

// No rows still yields the schema's columns, each empty.
#[test]
fn empty_rows_give_empty_columns() {
    let t = project(&Vec::new(), &dc_schema()).unwrap();
    assert_eq!(t.columns.len(), 3);
    for c in &t.columns {
        assert_eq!(c.cells.len(), 0);
    }
}

#[test]
fn ambient_schema_columns() {
    let s = ambient_schema();
    let names: Vec<&str> = s.fields.iter().map(|f| f.name).collect();
    assert_eq!(names, ["timestamp", "bat_volt", "hum_pct", "light_lux", "rain_rate", "temp_c"]);
    let indices: Vec<usize> = s.fields.iter().map(|f| f.index).collect();
    assert_eq!(indices, [0, 1, 4, 6, 7, 8]);
}

#[test]
fn ac_schema_columns() {
    let s = ac_schema();
    let names: Vec<&str> = s.fields.iter().map(|f| f.name).collect();
    assert_eq!(names, ["timestamp", "current", "energy", "freq", "pf", "power", "voltage"]);
    let indices: Vec<usize> = s.fields.iter().map(|f| f.index).collect();
    assert_eq!(indices, [0, 2, 4, 5, 7, 8, 9]);
}

#[test]
fn dc_schema_columns() {
    let s = dc_schema();
    let names: Vec<&str> = s.fields.iter().map(|f| f.name).collect();
    assert_eq!(names, ["timestamp", "current", "voltage"]);
    let indices: Vec<usize> = s.fields.iter().map(|f| f.index).collect();
    assert_eq!(indices, [0, 2, 9]);
}

#[test]
fn decimal_text_syntax() {
    for good in ["0", "7", "42", "3.14", "-2.5", "-0", "0.0", "123.456"] {
        assert!(check_decimal(good), "{good}");
    }
    for bad in ["", "-", ".", "1.", ".5", "-.5", "1.2.3", "full", "1e3", " 1", "1 ", "--1", "3,14"]
    {
        assert!(!check_decimal(bad), "{bad}");
    }
}
