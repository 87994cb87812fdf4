use logs2json::select_mode;
use logs2json::OutputMode;

#[test]
fn default_mode_is_json() {
    assert_eq!(select_mode(false, false, false, false), OutputMode::Json);
}

#[test]
fn json_flag_selects_json() {
    assert_eq!(select_mode(true, false, false, false), OutputMode::Json);
}

#[test]
fn table_flag_selects_table() {
    assert_eq!(select_mode(false, true, false, false), OutputMode::Table);
}

#[test]
fn original_flag_selects_raw() {
    assert_eq!(select_mode(false, false, true, false), OutputMode::Raw);
}

#[test]
fn plain_flag_selects_plain() {
    assert_eq!(select_mode(false, false, false, true), OutputMode::Plain);
}

#[test]
fn priority_json_over_all() {
    assert_eq!(select_mode(true, true, true, true), OutputMode::Json);
}

#[test]
fn priority_table_over_raw_and_plain() {
    assert_eq!(select_mode(false, true, true, true), OutputMode::Table);
}

#[test]
fn priority_raw_over_plain() {
    assert_eq!(select_mode(false, false, true, true), OutputMode::Raw);
}
