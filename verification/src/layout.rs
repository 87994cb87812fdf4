//! Line layout: the fixed-width table rendering with its header, and the
//! legacy plain single-line rendering.

use vstd::prelude::*;
use vstd::string::StringExecFns;
use crate::tables::component_display;
use crate::tables::lemma_component_display_single_line;
use crate::tables::lemma_severity_code_single_line;
use crate::tables::map_component;
use crate::tables::map_severity;
use crate::tables::severity_code;
use crate::text::dash_line;
use crate::text::dashes;
use crate::text::lemma_newline_free_concat;
use crate::text::lemma_pad_newline_free;
use crate::text::newline_free;
use crate::text::pad_right;
use crate::text::pad_text;

verus! {

/// Minimum width of the component column.
pub const C_MIN_LENGTH: usize = 10;

/// Minimum width of the context column.
pub const CTX_MIN_LENGTH: usize = 28;

/// Minimum width of the severity column.
pub const S_MIN_LENGTH: usize = 7;

/// Minimum width of the timestamp column.
pub const T_MIN_LENGTH: usize = 30;

/// Minimum width of the message column.
pub const MSG_MIN_LENGTH: usize = 6;

/// Minimum width of the trailing column.
pub const BASE_MIN_LENGTH: usize = 45;

/// Length of the separator under the table header: four copies of a
/// 46-dash bar.
pub const BAR_LENGTH: usize = 184;

/// Minimum width of the component field in a plain line.
pub const COMPONENT_MIN_LENGTH: usize = 8;

/// One table row: the six column texts, each left-justified to its minimum
/// column width, separated by `" | "`.
pub open spec fn table_row_text(
    c: Seq<char>,
    ctx: Seq<char>,
    s: Seq<char>,
    t: Seq<char>,
    msg: Seq<char>,
    base: Seq<char>,
) -> Seq<char> {
    pad_text(c, C_MIN_LENGTH as nat) + " | "@ + pad_text(ctx, CTX_MIN_LENGTH as nat) + " | "@
        + pad_text(s, S_MIN_LENGTH as nat) + " | "@ + pad_text(t, T_MIN_LENGTH as nat) + " | "@
        + pad_text(msg, MSG_MIN_LENGTH as nat) + " | "@ + pad_text(base, BASE_MIN_LENGTH as nat)
}

/// One plain line: timestamp, one-letter severity code, component display
/// text left-justified to eight characters, bracketed context, and the
/// concatenated message.
pub open spec fn plain_line_text(
    t: Seq<char>,
    s: Seq<char>,
    c: Option<Seq<char>>,
    ctx: Seq<char>,
    msg: Seq<char>,
) -> Seq<char> {
    t + " "@ + severity_code(s) + " "@ + pad_text(
        component_display(c),
        COMPONENT_MIN_LENGTH as nat,
    ) + " ["@ + ctx + "] "@ + msg
}

/// Law: a table row keeps its six columns at their fixed widths. Where each
/// column text is within its minimum width, the row is exactly as long as
/// the six column widths plus the five three-character separators.
pub proof fn lemma_table_row_width(
    c: Seq<char>,
    ctx: Seq<char>,
    s: Seq<char>,
    t: Seq<char>,
    msg: Seq<char>,
    base: Seq<char>,
)
    requires
        c.len() <= C_MIN_LENGTH,
        ctx.len() <= CTX_MIN_LENGTH,
        s.len() <= S_MIN_LENGTH,
        t.len() <= T_MIN_LENGTH,
        msg.len() <= MSG_MIN_LENGTH,
        base.len() <= BASE_MIN_LENGTH,
    ensures
        table_row_text(c, ctx, s, t, msg, base).len() == C_MIN_LENGTH + CTX_MIN_LENGTH
            + S_MIN_LENGTH + T_MIN_LENGTH + MSG_MIN_LENGTH + BASE_MIN_LENGTH + 15,
{
    reveal_strlit(" | ");
}

/// Law: a record without a string component renders its component field as
/// `-`, left-justified to the component width, with no table lookup.
pub proof fn lemma_plain_missing_component(
    t: Seq<char>,
    s: Seq<char>,
    ctx: Seq<char>,
    msg: Seq<char>,
)
    ensures
        plain_line_text(t, s, None, ctx, msg) == t + " "@ + severity_code(s) + " "@ + pad_text(
            "-"@,
            COMPONENT_MIN_LENGTH as nat,
        ) + " ["@ + ctx + "] "@ + msg,
{
}

/// Law: a table row prints as a single output line. Where the six column
/// texts hold no newline, neither does the row.
pub proof fn lemma_table_row_single_line(
    c: Seq<char>,
    ctx: Seq<char>,
    s: Seq<char>,
    t: Seq<char>,
    msg: Seq<char>,
    base: Seq<char>,
)
    requires
        newline_free(c),
        newline_free(ctx),
        newline_free(s),
        newline_free(t),
        newline_free(msg),
        newline_free(base),
    ensures
        newline_free(table_row_text(c, ctx, s, t, msg, base)),
{
    reveal_strlit(" | ");
    assert(" | "@.len() == 3);
    assert(newline_free(" | "@));
    lemma_pad_newline_free(c, C_MIN_LENGTH as nat);
    lemma_pad_newline_free(ctx, CTX_MIN_LENGTH as nat);
    lemma_pad_newline_free(s, S_MIN_LENGTH as nat);
    lemma_pad_newline_free(t, T_MIN_LENGTH as nat);
    lemma_pad_newline_free(msg, MSG_MIN_LENGTH as nat);
    lemma_pad_newline_free(base, BASE_MIN_LENGTH as nat);
    let p1 = pad_text(c, C_MIN_LENGTH as nat) + " | "@;
    lemma_newline_free_concat(pad_text(c, C_MIN_LENGTH as nat), " | "@);
    let p2 = p1 + pad_text(ctx, CTX_MIN_LENGTH as nat);
    lemma_newline_free_concat(p1, pad_text(ctx, CTX_MIN_LENGTH as nat));
    let p3 = p2 + " | "@;
    lemma_newline_free_concat(p2, " | "@);
    let p4 = p3 + pad_text(s, S_MIN_LENGTH as nat);
    lemma_newline_free_concat(p3, pad_text(s, S_MIN_LENGTH as nat));
    let p5 = p4 + " | "@;
    lemma_newline_free_concat(p4, " | "@);
    let p6 = p5 + pad_text(t, T_MIN_LENGTH as nat);
    lemma_newline_free_concat(p5, pad_text(t, T_MIN_LENGTH as nat));
    let p7 = p6 + " | "@;
    lemma_newline_free_concat(p6, " | "@);
    let p8 = p7 + pad_text(msg, MSG_MIN_LENGTH as nat);
    lemma_newline_free_concat(p7, pad_text(msg, MSG_MIN_LENGTH as nat));
    let p9 = p8 + " | "@;
    lemma_newline_free_concat(p8, " | "@);
    lemma_newline_free_concat(p9, pad_text(base, BASE_MIN_LENGTH as nat));
}

/// Law: a plain line prints as a single output line. Where the timestamp,
/// context and message hold no newline, neither does the rendered line —
/// whatever the severity and component fields hold.
pub proof fn lemma_plain_line_single_line(
    t: Seq<char>,
    s: Seq<char>,
    c: Option<Seq<char>>,
    ctx: Seq<char>,
    msg: Seq<char>,
)
    requires
        newline_free(t),
        newline_free(ctx),
        newline_free(msg),
    ensures
        newline_free(plain_line_text(t, s, c, ctx, msg)),
{
    reveal_strlit(" ");
    reveal_strlit(" [");
    reveal_strlit("] ");
    assert(" "@.len() == 1);
    assert(" ["@.len() == 2);
    assert("] "@.len() == 2);
    assert(newline_free(" "@));
    assert(newline_free(" ["@));
    assert(newline_free("] "@));
    lemma_severity_code_single_line(s);
    lemma_component_display_single_line(c);
    lemma_pad_newline_free(component_display(c), COMPONENT_MIN_LENGTH as nat);
    let p1 = t + " "@;
    lemma_newline_free_concat(t, " "@);
    let p2 = p1 + severity_code(s);
    lemma_newline_free_concat(p1, severity_code(s));
    let p3 = p2 + " "@;
    lemma_newline_free_concat(p2, " "@);
    let p4 = p3 + pad_text(component_display(c), COMPONENT_MIN_LENGTH as nat);
    lemma_newline_free_concat(p3, pad_text(component_display(c), COMPONENT_MIN_LENGTH as nat));
    let p5 = p4 + " ["@;
    lemma_newline_free_concat(p4, " ["@);
    let p6 = p5 + ctx;
    lemma_newline_free_concat(p5, ctx);
    let p7 = p6 + "] "@;
    lemma_newline_free_concat(p6, "] "@);
    lemma_newline_free_concat(p7, msg);
}

/// Renders one table row from the six column texts.
pub fn table_row(c: &str, ctx: &str, s: &str, t: &str, msg: &str, base: &str) -> (r: String)
    ensures
        r@ == table_row_text(c@, ctx@, s@, t@, msg@, base@),
{
    let mut r = pad_right(c, C_MIN_LENGTH);
    r.append(" | ");
    let ctx_p = pad_right(ctx, CTX_MIN_LENGTH);
    r.append(ctx_p.as_str());
    r.append(" | ");
    let s_p = pad_right(s, S_MIN_LENGTH);
    r.append(s_p.as_str());
    r.append(" | ");
    let t_p = pad_right(t, T_MIN_LENGTH);
    r.append(t_p.as_str());
    r.append(" | ");
    let msg_p = pad_right(msg, MSG_MIN_LENGTH);
    r.append(msg_p.as_str());
    r.append(" | ");
    let base_p = pad_right(base, BASE_MIN_LENGTH);
    r.append(base_p.as_str());
    proof {
        assert(r@ =~= table_row_text(c@, ctx@, s@, t@, msg@, base@));
    }
    r
}

/// Renders the table header row: the column names at the column widths.
pub fn table_header_line() -> (r: String)
    ensures
        r@ == table_row_text("c"@, "ctx"@, "s"@, "t"@, "msg"@, "base"@),
{
    table_row("c", "ctx", "s", "t", "msg", "base")
}

/// Renders the separator under the table header.
pub fn table_bar_line() -> (r: String)
    ensures
        r@ == dashes(BAR_LENGTH as nat),
{
    dash_line(BAR_LENGTH)
}

/// Renders one plain line from the extracted fields: the raw timestamp and
/// message, the severity name before its table lookup, and the component
/// name where the record carries one as a string.
pub fn plain_line(t: &str, s: &str, c: Option<&str>, ctx: &str, msg: &str) -> (r: String)
    ensures
        r@ == plain_line_text(t@, s@, c.deep_view(), ctx@, msg@),
{
    let component = match c {
        Some(name) => map_component(name),
        None => String::from_str("-"),
    };
    let mut r = String::new();
    r.append(t);
    r.append(" ");
    let sev = map_severity(s);
    r.append(sev.as_str());
    r.append(" ");
    let comp_p = pad_right(component.as_str(), COMPONENT_MIN_LENGTH);
    r.append(comp_p.as_str());
    r.append(" [");
    r.append(ctx);
    r.append("] ");
    r.append(msg);
    proof {
        assert(r@ =~= plain_line_text(t@, s@, c.deep_view(), ctx@, msg@));
    }
    r
}

} // verus!
