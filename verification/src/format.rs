//! Per-record formatting: extracts the fields a mode needs from a decoded
//! JSON record and renders the one line that the mode calls for, failing
//! exactly where a required field is absent or of the wrong type, where the
//! line does not decode, or where re-encoding fails.

use vstd::prelude::*;
use crate::json::arr_of;
use crate::json::compact_of;
use crate::json::field_of;
use crate::json::get_field;
use crate::json::parse_value;
use crate::json::parsed_json;
use crate::json::pretty_of;
use crate::json::str_of;
use crate::json::to_compact;
use crate::json::to_pretty;
use crate::json::value_as_array;
use crate::json::value_as_str;
use crate::layout::plain_line;
use crate::layout::plain_line_text;
use crate::layout::table_row;
use crate::layout::table_row_text;
use crate::mode::OutputMode;
use vstd::string::StringExecFns;

verus! {

/// Why processing one input line failed. Any failure aborts the whole run.
#[derive(Clone, Copy, PartialEq, Eq, Structural, Debug)]
pub enum LogError {
    /// The line is not valid JSON.
    Decode,
    /// A field the mode requires is absent or of the wrong type.
    FieldAccess,
    /// Re-encoding a value to JSON text failed.
    Encode,
}

/// The timestamp text of a record: the string under `$date` inside `t`.
pub open spec fn date_text(v: serde_json::Value) -> Option<Seq<char>> {
    str_of(field_of(field_of(v, "t"@), "$date"@))
}

/// The plain rendering of one message fragment: a string fragment verbatim,
/// any other fragment as its compact JSON text.
pub open spec fn fragment_result(e: serde_json::Value) -> Result<Seq<char>, LogError> {
    match str_of(e) {
        Some(text) => Ok(text),
        None => match compact_of(e) {
            Some(encoded) => Ok(encoded),
            None => Err(LogError::Encode),
        },
    }
}

/// The plain rendering of a whole message: every fragment in array order,
/// with nothing between fragments; the first fragment that fails to render
/// decides the error.
pub open spec fn message_result(elems: Seq<serde_json::Value>) -> Result<Seq<char>, LogError>
    decreases elems.len(),
{
    if elems.len() == 0 {
        Ok(Seq::empty())
    } else {
        match message_result(elems.drop_last()) {
            Err(e) => Err(e),
            Ok(head) => match fragment_result(elems.last()) {
                Err(e) => Err(e),
                Ok(tail) => Ok(head + tail),
            },
        }
    }
}

/// The table rendering of a record: the six columns in their compact JSON
/// text form, except the timestamp, which must be a string and is used
/// as-is. Fields are read in a fixed order and the first failure decides
/// the error.
pub open spec fn table_result(v: serde_json::Value) -> Result<Seq<char>, LogError> {
    if compact_of(field_of(v, "c"@)) is None {
        Err(LogError::Encode)
    } else if compact_of(field_of(v, "ctx"@)) is None {
        Err(LogError::Encode)
    } else if compact_of(field_of(v, "msg"@)) is None {
        Err(LogError::Encode)
    } else if compact_of(field_of(v, "s"@)) is None {
        Err(LogError::Encode)
    } else if date_text(v) is None {
        Err(LogError::FieldAccess)
    } else if compact_of(field_of(v, "base"@)) is None {
        Err(LogError::Encode)
    } else {
        Ok(
            table_row_text(
                compact_of(field_of(v, "c"@))->0,
                compact_of(field_of(v, "ctx"@))->0,
                compact_of(field_of(v, "s"@))->0,
                date_text(v)->0,
                compact_of(field_of(v, "msg"@))->0,
                compact_of(field_of(v, "base"@))->0,
            ),
        )
    }
}

/// The plain rendering of a record: timestamp, severity and context must be
/// strings and the message must be an array; the component is looked up
/// where it is a string and shown as `-` where it is not.
pub open spec fn plain_result(v: serde_json::Value) -> Result<Seq<char>, LogError> {
    match date_text(v) {
        None => Err(LogError::FieldAccess),
        Some(t) => match str_of(field_of(v, "s"@)) {
            None => Err(LogError::FieldAccess),
            Some(s) => match str_of(field_of(v, "ctx"@)) {
                None => Err(LogError::FieldAccess),
                Some(ctx) => match arr_of(field_of(v, "msg"@)) {
                    None => Err(LogError::FieldAccess),
                    Some(elems) => match message_result(elems) {
                        Err(e) => Err(e),
                        Ok(msg) => Ok(
                            plain_line_text(t, s, str_of(field_of(v, "c"@)), ctx, msg),
                        ),
                    },
                },
            },
        },
    }
}

/// What one decoded record renders to in a mode, or why it cannot.
pub open spec fn record_result(v: serde_json::Value, mode: OutputMode) -> Result<
    Seq<char>,
    LogError,
> {
    match mode {
        OutputMode::Json => match pretty_of(v) {
            Some(s) => Ok(s),
            None => Err(LogError::Encode),
        },
        OutputMode::Raw => match compact_of(v) {
            Some(s) => Ok(s),
            None => Err(LogError::Encode),
        },
        OutputMode::Table => table_result(v),
        OutputMode::Plain => plain_result(v),
    }
}

/// What one raw input line renders to in a mode, or why it cannot: a line
/// that does not decode fails with `Decode`, a decoded record renders as
/// `record_result` says.
pub open spec fn line_result(line: Seq<char>, mode: OutputMode) -> Result<Seq<char>, LogError> {
    match parsed_json(line) {
        None => Err(LogError::Decode),
        Some(v) => record_result(v, mode),
    }
}

/// An early rendering failure inside a message decides the whole message:
/// where the fragments up to `k` render and fragment `k` does not, the
/// message fails with that fragment's error.
proof fn lemma_message_error(elems: Seq<serde_json::Value>, k: int)
    requires
        0 <= k < elems.len(),
        message_result(elems.take(k)) is Ok,
        fragment_result(elems[k]) is Err,
    ensures
        message_result(elems) is Err,
        message_result(elems)->Err_0 == fragment_result(elems[k])->Err_0,
    decreases elems.len(),
{
    if k == elems.len() - 1 {
        assert(elems.take(k) =~= elems.drop_last());
    } else {
        assert(elems.drop_last().take(k) =~= elems.take(k));
        assert(elems.drop_last()[k] == elems[k]);
        lemma_message_error(elems.drop_last(), k);
    }
}

/// Renders one decoded record in the table mode.
fn format_table_record(v: &serde_json::Value) -> (r: Result<String, LogError>)
    ensures
        r is Ok <==> table_result(*v) is Ok,
        r is Ok ==> r->Ok_0@ == table_result(*v)->Ok_0,
        r is Err ==> r->Err_0 == table_result(*v)->Err_0,
{
    let c = match to_compact(get_field(v, "c")) {
        Ok(s) => s,
        Err(_) => {
            return Err(LogError::Encode);
        },
    };
    let ctx = match to_compact(get_field(v, "ctx")) {
        Ok(s) => s,
        Err(_) => {
            return Err(LogError::Encode);
        },
    };
    let msg = match to_compact(get_field(v, "msg")) {
        Ok(s) => s,
        Err(_) => {
            return Err(LogError::Encode);
        },
    };
    let s = match to_compact(get_field(v, "s")) {
        Ok(s) => s,
        Err(_) => {
            return Err(LogError::Encode);
        },
    };
    let t = match value_as_str(get_field(get_field(v, "t"), "$date")) {
        Some(s) => s,
        None => {
            return Err(LogError::FieldAccess);
        },
    };
    let base = match to_compact(get_field(v, "base")) {
        Ok(s) => s,
        Err(_) => {
            return Err(LogError::Encode);
        },
    };
    Ok(table_row(c.as_str(), ctx.as_str(), s.as_str(), t, msg.as_str(), base.as_str()))
}

/// Renders one decoded record in the plain mode.
fn format_plain_record(v: &serde_json::Value) -> (r: Result<String, LogError>)
    ensures
        r is Ok <==> plain_result(*v) is Ok,
        r is Ok ==> r->Ok_0@ == plain_result(*v)->Ok_0,
        r is Err ==> r->Err_0 == plain_result(*v)->Err_0,
{
    let t = match value_as_str(get_field(get_field(v, "t"), "$date")) {
        Some(s) => s,
        None => {
            return Err(LogError::FieldAccess);
        },
    };
    let s = match value_as_str(get_field(v, "s")) {
        Some(s) => s,
        None => {
            return Err(LogError::FieldAccess);
        },
    };
    let c = value_as_str(get_field(v, "c"));
    let ctx = match value_as_str(get_field(v, "ctx")) {
        Some(s) => s,
        None => {
            return Err(LogError::FieldAccess);
        },
    };
    let elems = match value_as_array(get_field(v, "msg")) {
        Some(a) => a,
        None => {
            return Err(LogError::FieldAccess);
        },
    };
    let ghost elems_spec = arr_of(field_of(*v, "msg"@))->0;
    let mut message = String::new();
    let mut i: usize = 0;
    #[verifier::loop_isolation(false)]
    while i < elems.len()
        invariant
            elems@ == elems_spec,
            i <= elems_spec.len(),
            message_result(elems_spec.take(i as int)) is Ok,
            message_result(elems_spec.take(i as int))->Ok_0 == message@,
        decreases elems.len() - i,
    {
        let e = &elems[i];
        match value_as_str(e) {
            Some(text) => {
                message.append(text);
            },
            None => {
                match to_compact(e) {
                    Ok(encoded) => {
                        message.append(encoded.as_str());
                    },
                    Err(_) => {
                        proof {
                            lemma_message_error(elems_spec, i as int);
                        }
                        return Err(LogError::Encode);
                    },
                }
            },
        }
        proof {
            assert(elems_spec.take(i + 1 as int).drop_last() =~= elems_spec.take(i as int));
            assert(elems_spec.take(i + 1 as int).last() == elems_spec[i as int]);
        }
        i += 1;
    }
    proof {
        assert(elems_spec.take(i as int) =~= elems_spec);
    }
    let line = plain_line(t, s, c, ctx, message.as_str());
    proof {
        assert(c.deep_view() == str_of(field_of(*v, "c"@)));
    }
    Ok(line)
}

/// Renders one decoded record in the chosen mode, or says why it cannot be
/// rendered.
pub fn format_record(v: &serde_json::Value, mode: OutputMode) -> (r: Result<String, LogError>)
    ensures
        r is Ok <==> record_result(*v, mode) is Ok,
        r is Ok ==> r->Ok_0@ == record_result(*v, mode)->Ok_0,
        r is Err ==> r->Err_0 == record_result(*v, mode)->Err_0,
{
    match mode {
        OutputMode::Json => match to_pretty(v) {
            Ok(s) => Ok(s),
            Err(_) => Err(LogError::Encode),
        },
        OutputMode::Raw => match to_compact(v) {
            Ok(s) => Ok(s),
            Err(_) => Err(LogError::Encode),
        },
        OutputMode::Table => format_table_record(v),
        OutputMode::Plain => format_plain_record(v),
    }
}

/// Decodes one raw input line and renders it in the chosen mode: the
/// whole work done for one line of input, short of printing it.
pub fn format_line(line: &str, mode: OutputMode) -> (r: Result<String, LogError>)
    ensures
        r is Ok <==> line_result(line@, mode) is Ok,
        r is Ok ==> r->Ok_0@ == line_result(line@, mode)->Ok_0,
        r is Err ==> r->Err_0 == line_result(line@, mode)->Err_0,
{
    let v = match parse_value(line) {
        Ok(v) => v,
        Err(_) => {
            return Err(LogError::Decode);
        },
    };
    format_record(&v, mode)
}

} // verus!
