use logs2json::format_line;
use logs2json::table_bar_line;
use logs2json::table_header_line;
use logs2json::LogError;
use logs2json::OutputMode;
use serde_json::Value;

#[test]
fn plain_scenario_known_codes() {
    let input = "{\"t\":{\"$date\":\"2024-01-01T00:00:00.000Z\"},\"s\":\"info\",\"c\":\"network\",\"ctx\":\"conn1\",\"msg\":[\"connection accepted\"]}";
    let out = format_line(input, OutputMode::Plain).unwrap();
    assert_eq!(out, "2024-01-01T00:00:00.000Z I NETWORK  [conn1] connection accepted");
}

#[test]
fn plain_scenario_unknown_codes() {
    let input = "{\"t\":{\"$date\":\"T\"},\"s\":\"trace\",\"c\":\"bogus\",\"ctx\":\"ctx\",\"msg\":[\"m\"]}";
    let out = format_line(input, OutputMode::Plain).unwrap();
    assert_eq!(out, "T U U        [ctx] m");
}

#[test]
fn plain_scenario_multi_fragment_message() {
    let input = "{\"t\":{\"$date\":\"X\"},\"s\":\"info\",\"ctx\":\"c\",\"msg\":[\"x=\",5,\"done\"]}";
    let out = format_line(input, OutputMode::Plain).unwrap();
    assert_eq!(out, "X I -        [c] x=5done");
}

#[test]
fn plain_non_string_component_shows_dash() {
    let input = "{\"t\":{\"$date\":\"X\"},\"s\":\"info\",\"c\":7,\"ctx\":\"c\",\"msg\":[\"m\"]}";
    let out = format_line(input, OutputMode::Plain).unwrap();
    assert_eq!(out, "X I -        [c] m");
}

#[test]
fn plain_empty_message_array() {
    let input = "{\"t\":{\"$date\":\"X\"},\"s\":\"info\",\"ctx\":\"c\",\"msg\":[]}";
    let out = format_line(input, OutputMode::Plain).unwrap();
    assert_eq!(out, "X I -        [c] ");
}

#[test]
fn json_roundtrip_is_identity() {
    let input = "{\"a\":[1,2,{\"b\":null}],\"c\":\"x\",\"d\":true}";
    let out = format_line(input, OutputMode::Json).unwrap();
    let before: Value = serde_json::from_str(input).unwrap();
    let after: Value = serde_json::from_str(&out).unwrap();
    assert_eq!(before, after);
}

#[test]
fn json_output_is_indented() {
    let out = format_line("{ \"a\" : 1 }", OutputMode::Json).unwrap();
    assert_eq!(out, "{\n  \"a\": 1\n}");
}

#[test]
fn raw_roundtrip_is_identity() {
    let input = "{\"a\":[1,2,{\"b\":null}],\"c\":\"x\",\"d\":true}";
    let out = format_line(input, OutputMode::Raw).unwrap();
    let before: Value = serde_json::from_str(input).unwrap();
    let after: Value = serde_json::from_str(&out).unwrap();
    assert_eq!(before, after);
}

#[test]
fn raw_output_is_compact() {
    let out = format_line("{ \"a\" : 1 }", OutputMode::Raw).unwrap();
    assert_eq!(out, "{\"a\":1}");
}

#[test]
fn table_scenario_row() {
    let input = "{\"t\":{\"$date\":\"D\"},\"s\":\"info\",\"c\":\"net\",\"ctx\":\"x\",\"msg\":[\"m\"],\"base\":null}";
    let out = format_line(input, OutputMode::Table).unwrap();
    assert_eq!(
        out,
        "\"net\"      | \"x\"                          | \"info\"  | D                              | [\"m\"]  | null                                         "
    );
    assert_eq!(out.split(" | ").count(), 6);
}

#[test]
fn decode_failure_on_invalid_json() {
    assert_eq!(format_line("this is not json", OutputMode::Json), Err(LogError::Decode));
    assert_eq!(format_line("this is not json", OutputMode::Raw), Err(LogError::Decode));
    assert_eq!(format_line("this is not json", OutputMode::Table), Err(LogError::Decode));
    assert_eq!(format_line("this is not json", OutputMode::Plain), Err(LogError::Decode));
}

#[test]
fn field_access_failure_on_missing_date() {
    let input = "{\"s\":\"info\",\"ctx\":\"c\",\"msg\":[\"m\"]}";
    assert_eq!(format_line(input, OutputMode::Plain), Err(LogError::FieldAccess));
    assert_eq!(format_line(input, OutputMode::Table), Err(LogError::FieldAccess));
}

#[test]
fn field_access_failure_on_non_string_date() {
    let input = "{\"t\":{\"$date\":5},\"s\":\"info\",\"ctx\":\"c\",\"msg\":[\"m\"]}";
    assert_eq!(format_line(input, OutputMode::Plain), Err(LogError::FieldAccess));
    assert_eq!(format_line(input, OutputMode::Table), Err(LogError::FieldAccess));
}

#[test]
fn field_access_failure_on_bad_severity_context_or_message() {
    let no_severity = "{\"t\":{\"$date\":\"X\"},\"ctx\":\"c\",\"msg\":[\"m\"]}";
    assert_eq!(format_line(no_severity, OutputMode::Plain), Err(LogError::FieldAccess));
    let no_context = "{\"t\":{\"$date\":\"X\"},\"s\":\"info\",\"msg\":[\"m\"]}";
    assert_eq!(format_line(no_context, OutputMode::Plain), Err(LogError::FieldAccess));
    let message_not_array = "{\"t\":{\"$date\":\"X\"},\"s\":\"info\",\"ctx\":\"c\",\"msg\":\"m\"}";
    assert_eq!(format_line(message_not_array, OutputMode::Plain), Err(LogError::FieldAccess));
}

#[test]
fn json_mode_needs_no_record_fields() {
    let out = format_line("[1,2]", OutputMode::Json).unwrap();
    let after: Value = serde_json::from_str(&out).unwrap();
    let before: Value = serde_json::from_str("[1,2]").unwrap();
    assert_eq!(before, after);
}

#[test]
fn three_records_make_three_lines_plus_table_header() {
    let lines = [
        "{\"t\":{\"$date\":\"A\"},\"s\":\"info\",\"ctx\":\"c1\",\"msg\":[\"m1\"]}",
        "{\"t\":{\"$date\":\"B\"},\"s\":\"debug\",\"ctx\":\"c2\",\"msg\":[\"m2\"]}",
        "{\"t\":{\"$date\":\"C\"},\"s\":\"error\",\"ctx\":\"c3\",\"msg\":[\"m3\"]}",
    ];
    for mode in [OutputMode::Json, OutputMode::Raw, OutputMode::Plain] {
        let mut outputs: Vec<String> = Vec::new();
        for line in &lines {
            outputs.push(format_line(line, mode).unwrap());
        }
        assert_eq!(outputs.len(), 3);
    }
    let mut outputs: Vec<String> = Vec::new();
    outputs.push(table_header_line());
    outputs.push(table_bar_line());
    for line in &lines {
        outputs.push(format_line(line, OutputMode::Table).unwrap());
    }
    assert_eq!(outputs.len(), 5);
    assert_eq!(outputs.iter().filter(|s| s.starts_with("c ")).count(), 1);
}
