//! The layout of log lines: the level in its color, padded to five
//! characters, then the time, the target and the message.

use vstd::prelude::*;

use crate::chars::{decimal, push_chars, push_decimal};

verus! {

/// The level of a log record.
#[derive(Debug, Clone, Copy, PartialEq, Eq, Structural)]
pub enum LogLevel {
    Error,
    Warn,
    Info,
    Debug,
    Trace,
}

/// The ANSI color number of a level: red, yellow, blue, green, white.
pub open spec fn level_color(level: LogLevel) -> i32 {
    match level {
        LogLevel::Error => 1,
        LogLevel::Warn => 3,
        LogLevel::Info => 4,
        LogLevel::Debug => 2,
        LogLevel::Trace => 7,
    }
}

/// The name of a level.
pub open spec fn level_name(level: LogLevel) -> Seq<char> {
    match level {
        LogLevel::Error => "ERROR"@,
        LogLevel::Warn => "WARN"@,
        LogLevel::Info => "INFO"@,
        LogLevel::Debug => "DEBUG"@,
        LogLevel::Trace => "TRACE"@,
    }
}

/// The ANSI color number of a level.
pub fn log_level_to_color(level: LogLevel) -> (c: i32)
    ensures
        c == level_color(level),
{
    match level {
        LogLevel::Error => 1,
        LogLevel::Warn => 3,
        LogLevel::Info => 4,
        LogLevel::Debug => 2,
        LogLevel::Trace => 7,
    }
}

/// The name of a level.
pub fn level_as_str(level: LogLevel) -> (s: &'static str)
    ensures
        s@ == level_name(level),
{
    match level {
        LogLevel::Error => "ERROR",
        LogLevel::Warn => "WARN",
        LogLevel::Info => "INFO",
        LogLevel::Debug => "DEBUG",
        LogLevel::Trace => "TRACE",
    }
}

/// A log line: `[ESC[3{color}m{LEVEL}ESC[0m]{pad} {time} {target} - {body}`,
/// where a four-letter level is padded with one space.
pub open spec fn log_line(level: LogLevel, timestamp: Seq<char>, target: Seq<char>, body: Seq<char>) -> Seq<char> {
    "[\x1b[3"@ + decimal(level_color(level) as nat) + "m"@ + level_name(level) + "\x1b[0m]"@
        + (if level_name(level).len() == 4 { " "@ } else { ""@ }) + " "@ + timestamp + " "@ + target
        + " - "@ + body
}

/// Lays out a log line.
pub fn format_log_line(level: LogLevel, timestamp: &str, target: &str, body: &str) -> (s: String)
    ensures
        s@ == log_line(level, timestamp@, target@, body@),
{
    proof {
        reveal_strlit("ERROR");
        reveal_strlit("WARN");
        reveal_strlit("INFO");
        reveal_strlit("DEBUG");
        reveal_strlit("TRACE");
        reveal_strlit("");
    }
    let mut s = String::new();
    push_chars(&mut s, "[\x1b[3");
    push_decimal(&mut s, log_level_to_color(level) as u64);
    push_chars(&mut s, "m");
    let name = level_as_str(level);
    push_chars(&mut s, name);
    push_chars(&mut s, "\x1b[0m]");
    let four = match level {
        LogLevel::Warn | LogLevel::Info => true,
        _ => false,
    };
    if four {
        push_chars(&mut s, " ");
    } else {
        push_chars(&mut s, "");
    }
    push_chars(&mut s, " ");
    push_chars(&mut s, timestamp);
    push_chars(&mut s, " ");
    push_chars(&mut s, target);
    push_chars(&mut s, " - ");
    push_chars(&mut s, body);
    s
}

} // verus!
