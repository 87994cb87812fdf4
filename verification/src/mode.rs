//! Output-mode selection: maps the mutually exclusive command-line flags to
//! exactly one output mode, in a fixed priority order.

use vstd::prelude::*;

verus! {

/// The four presentations a record can be rendered in.
#[derive(Clone, Copy, PartialEq, Eq, Structural, Debug)]
pub enum OutputMode {
    /// Pretty-printed, indented JSON.
    Json,
    /// Compact JSON, structurally unmodified.
    Raw,
    /// Fixed-width table with a header.
    Table,
    /// Legacy single-line text format.
    Plain,
}

/// Chooses the output mode from the four flags. The flags are checked in a
/// fixed priority order (`json > table > original > plain`) and the first one
/// set wins; with none set the mode defaults to `Json`.
pub fn select_mode(json: bool, table: bool, original: bool, plain: bool) -> (mode: OutputMode)
    ensures
        mode == (if json {
            OutputMode::Json
        } else if table {
            OutputMode::Table
        } else if original {
            OutputMode::Raw
        } else if plain {
            OutputMode::Plain
        } else {
            OutputMode::Json
        }),
{
    if json {
        OutputMode::Json
    } else if table {
        OutputMode::Table
    } else if original {
        OutputMode::Raw
    } else if plain {
        OutputMode::Plain
    } else {
        OutputMode::Json
    }
}

} // verus!
