//! The severity and component lookup tables: fixed finite mappings from the
//! short codes carried in a record to their display strings, total over all
//! input strings.

use vstd::prelude::*;
use vstd::string::StringExecFns;
use crate::text::newline_free;
use crate::text::str_eq;

verus! {

/// The one-letter display code for a severity name: the table's entry for a
/// listed name, `"U"` for anything else.
pub open spec fn severity_code(s: Seq<char>) -> Seq<char> {
    if s == "info"@ {
        "I"@
    } else if s == "debug"@ {
        "D"@
    } else if s == "warning"@ {
        "W"@
    } else if s == "severe"@ {
        "F"@
    } else if s == "error"@ {
        "E"@
    } else {
        "U"@
    }
}

/// The display name for a component: the table's entry for a listed
/// component, `"U"` for anything else.
pub open spec fn component_code(c: Seq<char>) -> Seq<char> {
    if c == "default"@ {
        "-"@
    } else if c == "accessControl"@ {
        "ACCESS"@
    } else if c == "command"@ {
        "COMMAND"@
    } else if c == "control"@ {
        "CONTROL"@
    } else if c == "executor"@ {
        "EXECUTOR"@
    } else if c == "geo"@ {
        "GEO"@
    } else if c == "index"@ {
        "INDEX"@
    } else if c == "network"@ {
        "NETWORK"@
    } else if c == "query"@ {
        "QUERY"@
    } else if c == "replication"@ {
        "REPL"@
    } else if c == "heartbeats"@ {
        "REPL_HB"@
    } else if c == "rollback"@ {
        "ROLLBACK"@
    } else if c == "sharding"@ {
        "SHARDING"@
    } else if c == "storage"@ {
        "STORAGE"@
    } else if c == "recovery"@ {
        "RECOVERY"@
    } else if c == "journal"@ {
        "JOURNAL"@
    } else if c == "write"@ {
        "WRITE"@
    } else if c == "ftdc"@ {
        "FTDC"@
    } else if c == "asio"@ {
        "ASIO"@
    } else if c == "bridge"@ {
        "BRIDGE"@
    } else if c == "tracking"@ {
        "TRACKING"@
    } else if c == "total"@ {
        "TOTAL"@
    } else {
        "U"@
    }
}

/// The component text rendered in plain mode: the table code where the
/// record's component field is a string, the literal `-` where it is not.
pub open spec fn component_display(c: Option<Seq<char>>) -> Seq<char> {
    match c {
        Some(name) => component_code(name),
        None => "-"@,
    }
}

/// Law: the severity table is total. Each listed severity name maps to its
/// listed one-letter code, and every other string maps to `"U"`.
pub proof fn lemma_severity_total(s: Seq<char>)
    ensures
        s == "info"@ ==> severity_code(s) == "I"@,
        s == "debug"@ ==> severity_code(s) == "D"@,
        s == "warning"@ ==> severity_code(s) == "W"@,
        s == "severe"@ ==> severity_code(s) == "F"@,
        s == "error"@ ==> severity_code(s) == "E"@,
        (s != "info"@ && s != "debug"@ && s != "warning"@ && s != "severe"@ && s != "error"@)
            ==> severity_code(s) == "U"@,
{
    reveal_strlit("info");
    reveal_strlit("debug");
    reveal_strlit("warning");
    reveal_strlit("severe");
    reveal_strlit("error");
    assert("info"@.len() == 4);
    assert("debug"@.len() == 5);
    assert("warning"@.len() == 7);
    assert("severe"@.len() == 6);
    assert("error"@.len() == 5);
    assert("debug"@[0] == 'd');
    assert("error"@[0] == 'e');
}

/// Law: the component table is total. Each listed component name maps to
/// its listed display name, every other string maps to `"U"`, and a record
/// without a string component shows `-` without any table lookup.
pub proof fn lemma_component_total(c: Seq<char>)
    ensures
        c == "default"@ ==> component_code(c) == "-"@,
        c == "accessControl"@ ==> component_code(c) == "ACCESS"@,
        c == "command"@ ==> component_code(c) == "COMMAND"@,
        c == "control"@ ==> component_code(c) == "CONTROL"@,
        c == "executor"@ ==> component_code(c) == "EXECUTOR"@,
        c == "geo"@ ==> component_code(c) == "GEO"@,
        c == "index"@ ==> component_code(c) == "INDEX"@,
        c == "network"@ ==> component_code(c) == "NETWORK"@,
        c == "query"@ ==> component_code(c) == "QUERY"@,
        c == "replication"@ ==> component_code(c) == "REPL"@,
        c == "heartbeats"@ ==> component_code(c) == "REPL_HB"@,
        c == "rollback"@ ==> component_code(c) == "ROLLBACK"@,
        c == "sharding"@ ==> component_code(c) == "SHARDING"@,
        c == "storage"@ ==> component_code(c) == "STORAGE"@,
        c == "recovery"@ ==> component_code(c) == "RECOVERY"@,
        c == "journal"@ ==> component_code(c) == "JOURNAL"@,
        c == "write"@ ==> component_code(c) == "WRITE"@,
        c == "ftdc"@ ==> component_code(c) == "FTDC"@,
        c == "asio"@ ==> component_code(c) == "ASIO"@,
        c == "bridge"@ ==> component_code(c) == "BRIDGE"@,
        c == "tracking"@ ==> component_code(c) == "TRACKING"@,
        c == "total"@ ==> component_code(c) == "TOTAL"@,
        (c != "default"@ && c != "accessControl"@ && c != "command"@ && c != "control"@
            && c != "executor"@ && c != "geo"@ && c != "index"@ && c != "network"@
            && c != "query"@ && c != "replication"@ && c != "heartbeats"@ && c != "rollback"@
            && c != "sharding"@ && c != "storage"@ && c != "recovery"@ && c != "journal"@
            && c != "write"@ && c != "ftdc"@ && c != "asio"@ && c != "bridge"@
            && c != "tracking"@ && c != "total"@) ==> component_code(c) == "U"@,
        component_display(None) == "-"@,
        component_display(Some(c)) == component_code(c),
{
    reveal_strlit("default");
    reveal_strlit("accessControl");
    reveal_strlit("command");
    reveal_strlit("control");
    reveal_strlit("executor");
    reveal_strlit("geo");
    reveal_strlit("index");
    reveal_strlit("network");
    reveal_strlit("query");
    reveal_strlit("replication");
    reveal_strlit("heartbeats");
    reveal_strlit("rollback");
    reveal_strlit("sharding");
    reveal_strlit("storage");
    reveal_strlit("recovery");
    reveal_strlit("journal");
    reveal_strlit("write");
    reveal_strlit("ftdc");
    reveal_strlit("asio");
    reveal_strlit("bridge");
    reveal_strlit("tracking");
    reveal_strlit("total");
    assert("default"@.len() == 7);
    assert("accessControl"@.len() == 13);
    assert("command"@.len() == 7);
    assert("control"@.len() == 7);
    assert("executor"@.len() == 8);
    assert("geo"@.len() == 3);
    assert("index"@.len() == 5);
    assert("network"@.len() == 7);
    assert("query"@.len() == 5);
    assert("replication"@.len() == 11);
    assert("heartbeats"@.len() == 10);
    assert("rollback"@.len() == 8);
    assert("sharding"@.len() == 8);
    assert("storage"@.len() == 7);
    assert("recovery"@.len() == 8);
    assert("journal"@.len() == 7);
    assert("write"@.len() == 5);
    assert("ftdc"@.len() == 4);
    assert("asio"@.len() == 4);
    assert("bridge"@.len() == 6);
    assert("tracking"@.len() == 8);
    assert("total"@.len() == 5);
    assert("default"@[0] == 'd');
    assert("command"@[0] == 'c');
    assert("control"@[0] == 'c');
    assert("network"@[0] == 'n');
    assert("storage"@[0] == 's');
    assert("journal"@[0] == 'j');
    assert("command"@[2] == 'm');
    assert("control"@[2] == 'n');
    assert("executor"@[0] == 'e');
    assert("rollback"@[0] == 'r');
    assert("sharding"@[0] == 's');
    assert("recovery"@[0] == 'r');
    assert("tracking"@[0] == 't');
    assert("rollback"@[1] == 'o');
    assert("recovery"@[1] == 'e');
    assert("index"@[0] == 'i');
    assert("query"@[0] == 'q');
    assert("write"@[0] == 'w');
    assert("total"@[0] == 't');
    assert("ftdc"@[0] == 'f');
    assert("asio"@[0] == 'a');
}

/// Whatever the severity name, its display code is a single text line.
pub proof fn lemma_severity_code_single_line(s: Seq<char>)
    ensures
        newline_free(severity_code(s)),
{
    reveal_strlit("I");
    reveal_strlit("D");
    reveal_strlit("W");
    reveal_strlit("F");
    reveal_strlit("E");
    reveal_strlit("U");
    assert(newline_free("I"@));
    assert(newline_free("D"@));
    assert(newline_free("W"@));
    assert(newline_free("F"@));
    assert(newline_free("E"@));
    assert(newline_free("U"@));
}

/// Whatever the component field holds, its display text is a single text
/// line.
pub proof fn lemma_component_display_single_line(c: Option<Seq<char>>)
    ensures
        newline_free(component_display(c)),
{
    reveal_strlit("-");
    reveal_strlit("ACCESS");
    reveal_strlit("COMMAND");
    reveal_strlit("CONTROL");
    reveal_strlit("EXECUTOR");
    reveal_strlit("GEO");
    reveal_strlit("INDEX");
    reveal_strlit("NETWORK");
    reveal_strlit("QUERY");
    reveal_strlit("REPL");
    reveal_strlit("REPL_HB");
    reveal_strlit("ROLLBACK");
    reveal_strlit("SHARDING");
    reveal_strlit("STORAGE");
    reveal_strlit("RECOVERY");
    reveal_strlit("JOURNAL");
    reveal_strlit("WRITE");
    reveal_strlit("FTDC");
    reveal_strlit("ASIO");
    reveal_strlit("BRIDGE");
    reveal_strlit("TRACKING");
    reveal_strlit("TOTAL");
    reveal_strlit("U");
    assert(newline_free("-"@));
    assert(newline_free("ACCESS"@));
    assert(newline_free("COMMAND"@));
    assert(newline_free("CONTROL"@));
    assert(newline_free("EXECUTOR"@));
    assert(newline_free("GEO"@));
    assert(newline_free("INDEX"@));
    assert(newline_free("NETWORK"@));
    assert(newline_free("QUERY"@));
    assert(newline_free("REPL"@));
    assert(newline_free("REPL_HB"@));
    assert(newline_free("ROLLBACK"@));
    assert(newline_free("SHARDING"@));
    assert(newline_free("STORAGE"@));
    assert(newline_free("RECOVERY"@));
    assert(newline_free("JOURNAL"@));
    assert(newline_free("WRITE"@));
    assert(newline_free("FTDC"@));
    assert(newline_free("ASIO"@));
    assert(newline_free("BRIDGE"@));
    assert(newline_free("TRACKING"@));
    assert(newline_free("TOTAL"@));
    assert(newline_free("U"@));
}

/// Maps a severity name to its one-letter display code.
pub fn map_severity(severity: &str) -> (r: String)
    ensures
        r@ == severity_code(severity@),
{
    if str_eq(severity, "info") {
        String::from_str("I")
    } else if str_eq(severity, "debug") {
        String::from_str("D")
    } else if str_eq(severity, "warning") {
        String::from_str("W")
    } else if str_eq(severity, "severe") {
        String::from_str("F")
    } else if str_eq(severity, "error") {
        String::from_str("E")
    } else {
        String::from_str("U")
    }
}

/// Maps a component name to its display name.
pub fn map_component(component: &str) -> (r: String)
    ensures
        r@ == component_code(component@),
{
    if str_eq(component, "default") {
        String::from_str("-")
    } else if str_eq(component, "accessControl") {
        String::from_str("ACCESS")
    } else if str_eq(component, "command") {
        String::from_str("COMMAND")
    } else if str_eq(component, "control") {
        String::from_str("CONTROL")
    } else if str_eq(component, "executor") {
        String::from_str("EXECUTOR")
    } else if str_eq(component, "geo") {
        String::from_str("GEO")
    } else if str_eq(component, "index") {
        String::from_str("INDEX")
    } else if str_eq(component, "network") {
        String::from_str("NETWORK")
    } else if str_eq(component, "query") {
        String::from_str("QUERY")
    } else if str_eq(component, "replication") {
        String::from_str("REPL")
    } else if str_eq(component, "heartbeats") {
        String::from_str("REPL_HB")
    } else if str_eq(component, "rollback") {
        String::from_str("ROLLBACK")
    } else if str_eq(component, "sharding") {
        String::from_str("SHARDING")
    } else if str_eq(component, "storage") {
        String::from_str("STORAGE")
    } else if str_eq(component, "recovery") {
        String::from_str("RECOVERY")
    } else if str_eq(component, "journal") {
        String::from_str("JOURNAL")
    } else if str_eq(component, "write") {
        String::from_str("WRITE")
    } else if str_eq(component, "ftdc") {
        String::from_str("FTDC")
    } else if str_eq(component, "asio") {
        String::from_str("ASIO")
    } else if str_eq(component, "bridge") {
        String::from_str("BRIDGE")
    } else if str_eq(component, "tracking") {
        String::from_str("TRACKING")
    } else if str_eq(component, "total") {
        String::from_str("TOTAL")
    } else {
        String::from_str("U")
    }
}

} // verus!
