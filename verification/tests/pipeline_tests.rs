use tfl_status::classify::StatusColor;
use tfl_status::format::{format_records, format_status};
use tfl_status::model::{FormatError, LineRecord, RenderConfig, StatusEntry};
use tfl_status::rows::extract_rows;
use tfl_status::wrap::resolve_wrap_width;

fn default_config() -> RenderConfig {
    RenderConfig { suppress_reason: false, reason_width: 0 }
}

fn record(name: &str, severity: i64, description: &str, reason: Option<&str>) -> LineRecord {
    LineRecord {
        name: String::from(name),
        statuses: vec![StatusEntry {
            severity,
            description: String::from(description),
            reason: reason.map(String::from),
        }],
    }
}

fn cell_text(table: &prettytable::Table, row: usize, col: usize) -> String {
    table.get_row(row).unwrap().get_cell(col).unwrap().get_content()
}

#[test]
fn one_row_per_record_in_order() {
    let recs = vec![
        record("Central", 10, "Good Service", None),
        record("Jubilee", 20, "Severe Delays", Some("Signal failure")),
        record("Victoria", 9, "Minor Delays", Some("Earlier fault")),
    ];
    let (rows, _) = extract_rows(&recs, &default_config()).unwrap();
    assert_eq!(rows.len(), 3);
    assert_eq!(rows[0].name, "Central");
    assert_eq!(rows[1].name, "Jubilee");
    assert_eq!(rows[2].name, "Victoria");
}

#[test]
fn empty_payload_gives_empty_table() {
    let recs: Vec<LineRecord> = Vec::new();
    let (rows, max_len) = extract_rows(&recs, &default_config()).unwrap();
    assert_eq!(rows.len(), 0);
    assert_eq!(max_len, 0);
    let table = format_records(&recs, &default_config(), 80).unwrap();
    assert_eq!(table.len(), 0);
}

#[test]
fn formatting_is_idempotent() {
    let raw = r#"[
        {"name":"Central","lineStatuses":[{"statusSeverity":10,"statusSeverityDescription":"Good Service"}]},
        {"name":"Jubilee","lineStatuses":[{"statusSeverity":20,"statusSeverityDescription":"Severe Delays","reason":"Signal failure at Baker Street is causing severe delays on the whole line"}]}
    ]"#;
    let config = default_config();
    let first = format_status(raw, &config, 80).unwrap();
    let second = format_status(raw, &config, 80).unwrap();
    assert_eq!(first.to_string().into_bytes(), second.to_string().into_bytes());
}

#[test]
fn suppressed_reason_gives_two_columns() {
    let recs = vec![
        record("Central", 10, "Good Service", None),
        record("Jubilee", 20, "Severe Delays", Some("Signal failure")),
    ];
    let config = RenderConfig { suppress_reason: true, reason_width: 0 };
    let table = format_records(&recs, &config, 80).unwrap();
    assert_eq!(table.len(), 2);
    for row in table.row_iter() {
        assert_eq!(row.len(), 2);
    }
    assert!(!table.to_string().contains("Signal failure"));
}

#[test]
fn unsuppressed_reason_gives_three_columns() {
    let recs = vec![
        record("Central", 10, "Good Service", None),
        record("Jubilee", 20, "Severe Delays", Some("Signal failure")),
    ];
    let table = format_records(&recs, &default_config(), 80).unwrap();
    assert_eq!(table.len(), 2);
    for row in table.row_iter() {
        assert_eq!(row.len(), 3);
    }
}

#[test]
fn explicit_width_bounds_every_wrapped_line() {
    let reason = "A long free-text explanation of the disruption that will certainly \
                  need to be wrapped over several lines to fit the reason column";
    let recs = vec![record("District", 6, "Part Suspended", Some(reason))];
    let config = RenderConfig { suppress_reason: false, reason_width: 20 };
    let table = format_records(&recs, &config, 80).unwrap();
    let wrapped = cell_text(&table, 0, 2);
    assert!(wrapped.contains('\n'));
    for line in wrapped.lines() {
        assert!(line.chars().count() <= 20, "line too long: {:?}", line);
    }
}

#[test]
fn scenario_good_service_line() {
    let raw = r#"[{"name":"Central","lineStatuses":[{"statusSeverity":10,"statusSeverityDescription":"Good Service"}]}]"#;
    let config = default_config();
    let table = format_status(raw, &config, 80).unwrap();
    assert_eq!(table.len(), 1);
    let row = table.get_row(0).unwrap();
    assert_eq!(row.len(), 3);
    assert_eq!(cell_text(&table, 0, 0), "Central");
    assert_eq!(cell_text(&table, 0, 1), "Good Service");
    assert_eq!(cell_text(&table, 0, 2), "");
    let parsed = tfl_status::json::parse_to_records(raw).unwrap();
    let (rows, _) = extract_rows(&parsed, &config).unwrap();
    assert_eq!(rows[0].color, StatusColor::Good);
}

#[test]
fn scenario_severe_delays_with_reason() {
    let raw = r#"[{"name":"Jubilee","lineStatuses":[{"statusSeverity":20,"statusSeverityDescription":"Severe Delays","reason":"Signal failure"}]}]"#;
    let config = default_config();
    let table = format_status(raw, &config, 80).unwrap();
    assert_eq!(table.len(), 1);
    assert_eq!(cell_text(&table, 0, 0), "Jubilee");
    assert_eq!(cell_text(&table, 0, 1), "Severe Delays");
    assert_eq!(cell_text(&table, 0, 2), "Signal failure");
    let parsed = tfl_status::json::parse_to_records(raw).unwrap();
    let (rows, _) = extract_rows(&parsed, &config).unwrap();
    assert_eq!(rows[0].color, StatusColor::Severe);
}

#[test]
fn scenario_severe_delays_reason_suppressed() {
    let raw = r#"[{"name":"Jubilee","lineStatuses":[{"statusSeverity":20,"statusSeverityDescription":"Severe Delays","reason":"Signal failure"}]}]"#;
    let config = RenderConfig { suppress_reason: true, reason_width: 0 };
    let table = format_status(raw, &config, 80).unwrap();
    assert_eq!(table.len(), 1);
    assert_eq!(table.get_row(0).unwrap().len(), 2);
    assert!(!table.to_string().contains("Signal failure"));
}

#[test]
fn scenario_empty_status_array_is_malformed() {
    let raw = r#"[{"name":"Waterloo & City","lineStatuses":[]}]"#;
    let config = default_config();
    match format_status(raw, &config, 80) {
        Err(FormatError::MalformedRecord { position, name }) => {
            assert_eq!(position, 0);
            assert_eq!(name.as_deref(), Some("Waterloo & City"));
        }
        other => panic!("expected a malformed-record error, got {:?}", other.is_ok()),
    }
}

#[test]
fn scenario_max_length_comes_from_longest_record() {
    // name+status lengths 5 and 50.
    let recs = vec![
        record("Ab", 10, "Cde", None),
        record("Hammersmith and City", 9, "A long status description here", None),
    ];
    let (_, max_len) = extract_rows(&recs, &default_config()).unwrap();
    assert_eq!(max_len, 50);
    let auto = resolve_wrap_width(&default_config(), max_len, 80);
    assert_eq!(auto, 80 - (50 + 8));
}

#[test]
fn auto_width_clamps_to_one_on_narrow_terminals() {
    let config = default_config();
    assert_eq!(resolve_wrap_width(&config, 100, 80), 1);
    assert_eq!(resolve_wrap_width(&config, 72, 80), 1);
    assert_eq!(resolve_wrap_width(&config, 71, 80), 1);
    assert_eq!(resolve_wrap_width(&config, 70, 80), 2);
}

#[test]
fn explicit_width_overrides_auto() {
    let config = RenderConfig { suppress_reason: false, reason_width: 33 };
    assert_eq!(resolve_wrap_width(&config, 100, 80), 33);
}

#[test]
fn invalid_json_is_rejected() {
    let config = default_config();
    assert!(matches!(
        format_status("this is not json", &config, 80),
        Err(FormatError::InvalidJson)
    ));
}

#[test]
fn non_array_payload_is_rejected() {
    let config = default_config();
    assert!(matches!(
        format_status(r#"{"name":"Central"}"#, &config, 80),
        Err(FormatError::NotAnArray)
    ));
}

#[test]
fn record_without_name_is_rejected() {
    let raw = r#"[{"lineStatuses":[{"statusSeverity":10,"statusSeverityDescription":"Good Service"}]}]"#;
    let config = default_config();
    match format_status(raw, &config, 80) {
        Err(FormatError::MalformedRecord { position, name }) => {
            assert_eq!(position, 0);
            assert!(name.is_none());
        }
        _ => panic!("expected a malformed-record error"),
    }
}

#[test]
fn missing_reason_becomes_empty_cell() {
    let recs = vec![record("Circle", 10, "Good Service", None)];
    let table = format_records(&recs, &default_config(), 80).unwrap();
    assert_eq!(cell_text(&table, 0, 2), "");
}

#[test]
fn long_reason_is_wrapped_not_returned_unchanged() {
    let reason = "one two three four five six seven eight nine ten";
    let recs = vec![record("Northern", 6, "Part Closure", Some(reason))];
    let config = RenderConfig { suppress_reason: false, reason_width: 10 };
    let table = format_records(&recs, &config, 80).unwrap();
    let wrapped = cell_text(&table, 0, 2);
    assert_ne!(wrapped, reason);
    assert_eq!(wrapped.replace('\n', " "), reason);
}

#[test]
fn ill_typed_severity_is_rejected() {
    let raw = r#"[{"name":"Elizabeth","lineStatuses":[{"statusSeverity":"ten","statusSeverityDescription":"Good Service"}]}]"#;
    let config = default_config();
    match format_status(raw, &config, 80) {
        Err(FormatError::MalformedRecord { position, name }) => {
            assert_eq!(position, 0);
            assert_eq!(name.as_deref(), Some("Elizabeth"));
        }
        _ => panic!("expected a malformed-record error"),
    }
}

#[test]
fn cells_store_lines_not_raw_text() {
    // A cell stores its text's lines: a trailing newline disappears and
    // a carriage-return line ending becomes a bare newline.
    let recs = vec![
        record("Central\n", 10, "Good Service", None),
        record("Vic\r\ntoria", 9, "Minor Delays", None),
    ];
    let table = format_records(&recs, &default_config(), 80).unwrap();
    assert_eq!(cell_text(&table, 0, 0), "Central");
    assert_eq!(cell_text(&table, 1, 0), "Vic\ntoria");
}

#[test]
fn error_descriptions_name_the_offender() {
    assert_eq!(
        FormatError::InvalidJson.describe(),
        "the status payload is not valid JSON"
    );
    assert_eq!(
        FormatError::NotAnArray.describe(),
        "the status payload is not a JSON array of line records"
    );
    let with_name = FormatError::MalformedRecord {
        position: 2,
        name: Some(String::from("Bakerloo")),
    };
    assert_eq!(with_name.describe(), "malformed status record for line Bakerloo");
    let nameless = FormatError::MalformedRecord { position: 0, name: None };
    assert_eq!(nameless.describe(), "malformed status record");
}

#[test]
fn rendered_table_carries_the_box_frame() {
    let recs = vec![record("Central", 10, "Good Service", None)];
    let rendered = format_records(&recs, &default_config(), 80).unwrap().to_string();
    assert!(rendered.contains('┌'));
    assert!(rendered.contains('┐'));
    assert!(rendered.contains('└'));
    assert!(rendered.contains('┘'));
    assert!(rendered.contains('│'));
    assert!(rendered.contains('─'));
}

#[test]
fn second_status_entry_is_ignored() {
    let raw = r#"[{"name":"Piccadilly","lineStatuses":[
        {"statusSeverity":10,"statusSeverityDescription":"Good Service"},
        {"statusSeverity":20,"statusSeverityDescription":"Severe Delays","reason":"Ignored"}
    ]}]"#;
    let config = default_config();
    let table = format_status(raw, &config, 80).unwrap();
    assert_eq!(cell_text(&table, 0, 1), "Good Service");
    assert_eq!(cell_text(&table, 0, 2), "");
}
