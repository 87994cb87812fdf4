//! Reformats structured server log lines (one JSON object per line) into one
//! of four human-readable presentations: pretty-printed JSON, a compact JSON
//! echo, a fixed-width table, or a reconstructed legacy plain-text line.
//!
//! The library holds the whole of the formatting logic: mode selection, the
//! severity and component lookup tables, the column layout rules, and the
//! per-record dispatch. Reading stdin and writing stdout stay outside.

pub mod format;
pub mod json;
pub mod layout;
pub mod mode;
pub mod tables;
pub mod text;

pub use format::format_line;
pub use format::format_record;
pub use format::LogError;
pub use layout::plain_line;
pub use layout::table_bar_line;
pub use layout::table_header_line;
pub use layout::table_row;
pub use mode::select_mode;
pub use mode::OutputMode;
pub use tables::map_component;
pub use tables::map_severity;
pub use text::pad_right;
pub use text::str_eq;
