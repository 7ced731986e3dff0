//! Logging: the level and source of messages sent by the user interface, and the names
//! under which old log files are kept.
use vstd::prelude::*;
use crate::text::{concat, decimal, decimal_string, lowercase_of, owned, push_str, str_eq, to_lowercase};

verus! {

/// A log level.
#[derive(Debug, Clone, Copy, PartialEq, Eq, Structural)]
pub enum LogLevel {
    Error,
    Warn,
    Info,
    Debug,
    Trace,
}

/// The level a level name gives, compared in lower case; an unknown name logs at the
/// info level.
pub open spec fn level_named(name: Seq<char>) -> LogLevel {
    let l = lowercase_of(name);
    if l == "error"@ {
        LogLevel::Error
    } else if l == "warn"@ {
        LogLevel::Warn
    } else if l == "info"@ {
        LogLevel::Info
    } else if l == "debug"@ {
        LogLevel::Debug
    } else if l == "trace"@ {
        LogLevel::Trace
    } else {
        LogLevel::Info
    }
}

/// A message from the user interface, ready to be logged under the `frontend` target.
#[derive(Debug)]
pub struct FrontendLog {
    pub level: LogLevel,
    pub source: String,
    pub message: String,
}

/// Prepares a message from the user interface for the log: its level from the level
/// name (see [`level_named`]) and its source, `frontend` when none is given.
pub fn log_frontend(level: &str, message: String, source: Option<String>) -> (res: FrontendLog)
    ensures
        res.level == level_named(level@),
        res.message == message,
        match source {
            Some(s) => res.source == s,
            None => res.source@ == "frontend"@,
        },
{
    let l = to_lowercase(level);
    let lv = if str_eq(l.as_str(), "error") {
        LogLevel::Error
    } else if str_eq(l.as_str(), "warn") {
        LogLevel::Warn
    } else if str_eq(l.as_str(), "info") {
        LogLevel::Info
    } else if str_eq(l.as_str(), "debug") {
        LogLevel::Debug
    } else if str_eq(l.as_str(), "trace") {
        LogLevel::Trace
    } else {
        LogLevel::Info
    };
    let src = match source {
        Some(s) => s,
        None => owned("frontend"),
    };
    FrontendLog { level: lv, source: src, message }
}

/// The name under which a program's previous log is kept on day `today`, at attempt
/// `attempt`: `PROGRAM.DAY.log` first, then `PROGRAM.DAY.N.log` for N = 1, 2, ... while
/// the name is taken (the client's program name is `ffnodes-client`, the server's
/// `ffnodes-server`).
pub fn archived_log_name(program: &str, today: &str, attempt: u64) -> (res: String)
    ensures
        attempt == 0 ==> res@ == program@ + "."@ + today@ + ".log"@,
        attempt > 0 ==> res@ == program@ + "."@ + today@ + "."@ + decimal(attempt as nat)
            + ".log"@,
{
    let mut s = concat(program, ".");
    push_str(&mut s, today);
    if attempt > 0 {
        push_str(&mut s, ".");
        push_str(&mut s, decimal_string(attempt).as_str());
    }
    push_str(&mut s, ".log");
    s
}

/// Each level is chosen by its own name in any letter case (`error`, `warn`, `info`,
/// `debug`, `trace`), and a name that is none of these logs at the info level.
pub proof fn level_names(name: Seq<char>)
    ensures
        lowercase_of(name) == "error"@ ==> level_named(name) == LogLevel::Error,
        lowercase_of(name) == "warn"@ ==> level_named(name) == LogLevel::Warn,
        lowercase_of(name) == "info"@ ==> level_named(name) == LogLevel::Info,
        lowercase_of(name) == "debug"@ ==> level_named(name) == LogLevel::Debug,
        lowercase_of(name) == "trace"@ ==> level_named(name) == LogLevel::Trace,
        lowercase_of(name) != "error"@ && lowercase_of(name) != "warn"@ && lowercase_of(name) != "debug"@
            && lowercase_of(name) != "trace"@ ==> level_named(name) == LogLevel::Info,
{
    reveal_strlit("error");
    reveal_strlit("warn");
    reveal_strlit("info");
    reveal_strlit("debug");
    reveal_strlit("trace");
    assert("error"@.len() == 5);
    assert("warn"@.len() == 4);
    assert("info"@.len() == 4);
    assert("debug"@.len() == 5);
    assert("trace"@.len() == 5);
    assert("warn"@[0] != "info"@[0]);
    assert("error"@[0] != "debug"@[0] && "error"@[0] != "trace"@[0] && "debug"@[0] != "trace"@[0]);
}

} // verus!
