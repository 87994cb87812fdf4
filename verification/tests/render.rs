use logs2json::pad_right;
use logs2json::plain_line;
use logs2json::str_eq;
use logs2json::table_bar_line;
use logs2json::table_header_line;
use logs2json::table_row;

#[test]
fn pad_right_pads_short_text() {
    assert_eq!(pad_right("ab", 5), "ab   ");
    assert_eq!(pad_right("", 3), "   ");
}

#[test]
fn pad_right_keeps_long_text() {
    assert_eq!(pad_right("abcdef", 3), "abcdef");
    assert_eq!(pad_right("abc", 3), "abc");
}

#[test]
fn str_eq_is_character_exact() {
    assert!(str_eq("abc", "abc"));
    assert!(!str_eq("abc", "abd"));
    assert!(!str_eq("abc", "ab"));
    assert!(str_eq("", ""));
}

#[test]
fn header_line_has_fixed_columns() {
    assert_eq!(
        table_header_line(),
        "c          | ctx                          | s       | t                              | msg    | base                                         "
    );
}

#[test]
fn bar_line_is_184_dashes() {
    let bar = table_bar_line();
    assert_eq!(bar.len(), 184);
    assert!(bar.chars().all(|c| c == '-'));
}

#[test]
fn table_row_pads_each_column() {
    let row = table_row("\"net\"", "\"x\"", "\"info\"", "D", "[\"m\"]", "null");
    assert_eq!(
        row,
        "\"net\"      | \"x\"                          | \"info\"  | D                              | [\"m\"]  | null                                         "
    );
    assert_eq!(row.len(), 141);
    assert_eq!(row.split(" | ").count(), 6);
}

#[test]
fn plain_line_known_codes() {
    let line = plain_line(
        "2024-01-01T00:00:00.000Z",
        "info",
        Some("network"),
        "conn1",
        "connection accepted",
    );
    assert_eq!(line, "2024-01-01T00:00:00.000Z I NETWORK  [conn1] connection accepted");
}

#[test]
fn plain_line_unknown_codes() {
    let line = plain_line("T", "trace", Some("bogus"), "ctx", "m");
    assert_eq!(line, "T U U        [ctx] m");
}

#[test]
fn plain_line_missing_component() {
    let line = plain_line("T", "info", None, "ctx", "m");
    assert_eq!(line, "T I -        [ctx] m");
}

#[test]
fn rendered_rows_are_single_lines() {
    let row = table_row("\"a\"", "\"b\"", "\"c\"", "T", "[]", "null");
    assert!(!row.contains('\n'));
    let line = plain_line("T", "info", Some("network"), "ctx", "some message");
    assert!(!line.contains('\n'));
    assert!(!table_header_line().contains('\n'));
    assert!(!table_bar_line().contains('\n'));
}

#[test]
fn plain_line_long_component_not_truncated() {
    let line = plain_line("T", "info", Some("replication"), "ctx", "m");
    assert_eq!(line, "T I REPL     [ctx] m");
    let line = plain_line("T", "info", Some("rollback"), "ctx", "m");
    assert_eq!(line, "T I ROLLBACK [ctx] m");
}
