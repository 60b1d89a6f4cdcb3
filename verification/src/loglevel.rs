//! The levels of the program's log.

use vstd::prelude::*;
use vstd::string::*;
use crate::text::same_text;

verus! {

/// How much of the log is shown on the terminal.
#[derive(Clone, Copy, Debug, PartialEq, Eq, Structural)]
pub enum LogLevel {
    Warn,
    Info,
    Debug,
    Trace,
    Off,
}

/// The level that a name stands for. A level is named in lower case, in
/// upper case, or with a capital first letter.
pub open spec fn level_named(name: Seq<char>) -> Option<LogLevel> {
    if name == "Warn"@ || name == "warn"@ || name == "WARN"@ {
        Some(LogLevel::Warn)
    } else if name == "Info"@ || name == "info"@ || name == "INFO"@ {
        Some(LogLevel::Info)
    } else if name == "Debug"@ || name == "debug"@ || name == "DEBUG"@ {
        Some(LogLevel::Debug)
    } else if name == "Trace"@ || name == "trace"@ || name == "TRACE"@ {
        Some(LogLevel::Trace)
    } else if name == "Off"@ || name == "off"@ || name == "OFF"@ {
        Some(LogLevel::Off)
    } else {
        None
    }
}

/// The level that a name stands for; none for a name that stands for no
/// level.
pub fn parse_log_level(name: &str) -> (r: Option<LogLevel>)
    ensures
        r == level_named(name@),
{
    if same_text(name, "Warn") || same_text(name, "warn") || same_text(name, "WARN") {
        Some(LogLevel::Warn)
    } else if same_text(name, "Info") || same_text(name, "info") || same_text(name, "INFO") {
        Some(LogLevel::Info)
    } else if same_text(name, "Debug") || same_text(name, "debug") || same_text(name, "DEBUG") {
        Some(LogLevel::Debug)
    } else if same_text(name, "Trace") || same_text(name, "trace") || same_text(name, "TRACE") {
        Some(LogLevel::Trace)
    } else if same_text(name, "Off") || same_text(name, "off") || same_text(name, "OFF") {
        Some(LogLevel::Off)
    } else {
        None
    }
}

} // verus!
