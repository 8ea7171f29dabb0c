//! Log levels and the layout of a log line.

use vstd::prelude::*;
use vstd::string::*;

verus! {

/// Log level for messages.
#[derive(Clone, Copy, Debug, PartialEq, Eq, Structural)]
pub enum LogLevel {
    Info,
    Warn,
    Error,
}

/// Where a line is shown on the console.
#[derive(Clone, Copy, Debug, PartialEq, Eq, Structural)]
pub enum Console {
    /// Standard output.
    Stdout,
    /// Standard error.
    Stderr,
}

impl LogLevel {
    /// The tag of this level in a log line.
    pub open spec fn tag(self) -> Seq<char> {
        match self {
            LogLevel::Info => "INFO"@,
            LogLevel::Warn => "WARN"@,
            LogLevel::Error => "ERROR"@,
        }
    }

    /// Returns the tag of this level.
    pub fn as_str(self) -> (tag: &'static str)
        ensures
            tag@ == self.tag(),
    {
        match self {
            LogLevel::Info => "INFO",
            LogLevel::Warn => "WARN",
            LogLevel::Error => "ERROR",
        }
    }

    /// The console stream for this level: errors go to standard error,
    /// everything else to standard output.
    pub fn console(self) -> (stream: Console)
        ensures
            stream == (if self == LogLevel::Error {
                Console::Stderr
            } else {
                Console::Stdout
            }),
    {
        match self {
            LogLevel::Error => Console::Stderr,
            _ => Console::Stdout,
        }
    }
}

/// A log line: the time and the level in square brackets, then the message.
pub open spec fn log_line(timestamp: Seq<char>, level: LogLevel, message: Seq<char>) -> Seq<char> {
    "["@ + timestamp + "] ["@ + level.tag() + "] "@ + message
}

/// Lays out one log line.
pub fn format_line(timestamp: &str, level: LogLevel, message: &str) -> (line: String)
    ensures
        line@ == log_line(timestamp@, level, message@),
{
    let mut line = String::from_str("[");
    line.append(timestamp);
    line.append("] [");
    line.append(level.as_str());
    line.append("] ");
    line.append(message);
    line
}

} // verus!
