use influx_export::payload::PayloadError;
use influx_export::payload::extract_rows;
use influx_export::payload::process_payload;
use influx_export::project::RawCell;
use influx_export::project::surface_schema;

const TWO_ROW_PAYLOAD: &str = r#"{
  "results": [
    {
      "series": [
        {
          "columns": ["time", "bat_volt", "a", "b", "c", "temp_bot", "temp_top"],
          "values": [
            ["2024-01-01T00:00:00Z", 3.7, 0, 0, 0, 20.1, 21.3],
            ["2024-01-01T00:01:00Z", 3.6, 0, 0, 0, 20.0, 21.2]
          ]
        }
      ]
    }
  ]
}"#;

#[test]
fn rows_come_out_as_cells() {
    let rows = extract_rows(TWO_ROW_PAYLOAD).unwrap();
    assert_eq!(rows.len(), 2);
    assert_eq!(rows[0].len(), 7);
    assert!(matches!(&rows[0][0], RawCell::Text(s) if s == "2024-01-01T00:00:00Z"));
    assert!(matches!(&rows[0][1], RawCell::Num(s) if s == "3.7"));
    assert!(matches!(&rows[1][6], RawCell::Num(s) if s == "21.2"));
}

#[test]
fn payload_projects_through_schema() {
    let t = process_payload(TWO_ROW_PAYLOAD, &surface_schema()).unwrap();
    assert_eq!(t.columns.len(), 4);
    assert_eq!(t.columns[0].cells, ["2024-01-01T00:00:00Z", "2024-01-01T00:01:00Z"]);
    assert_eq!(t.columns[1].cells, ["3.7", "3.6"]);
    assert_eq!(t.columns[2].cells, ["20.1", "20.0"]);
    assert_eq!(t.columns[3].cells, ["21.3", "21.2"]);
}

#[test]
fn malformed_text_is_unreadable() {
    assert!(matches!(
        process_payload("not json", &surface_schema()),
        Err(PayloadError::Unreadable)
    ));
}

#[test]
fn missing_series_is_unreadable() {
    let payload = r#"{"results": [{}]}"#;
    assert!(matches!(
        process_payload(payload, &surface_schema()),
        Err(PayloadError::Unreadable)
    ));
    let empty_results = r#"{"results": []}"#;
    assert!(matches!(
        process_payload(empty_results, &surface_schema()),
        Err(PayloadError::Unreadable)
    ));
}

#[test]
fn null_cell_is_a_shape_fault() {
    let payload = r#"{
      "results": [{"series": [{"values": [
        ["2024-01-01T00:00:00Z", null, 0, 0, 0, 20.1, 21.3]
      ]}]}]
    }"#;
    match process_payload(payload, &surface_schema()) {
        Err(PayloadError::Shape(f)) => assert_eq!((f.row, f.field), (0, 1)),
        other => panic!("expected a shape fault, got {:?}", other.map(|t| t.columns.len())),
    }
}

#[test]
fn integer_numbers_keep_plain_text() {
    let payload = r#"{
      "results": [{"series": [{"values": [
        ["t0", 4, 0, 0, 0, -1.25, 21]
      ]}]}]
    }"#;
    let t = process_payload(payload, &surface_schema()).unwrap();
    assert_eq!(t.columns[1].cells, ["4"]);
    assert_eq!(t.columns[2].cells, ["-1.25"]);
    assert_eq!(t.columns[3].cells, ["21"]);
}
