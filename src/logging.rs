//! Log levels and the layout of a log line.

use vstd::prelude::*;

verus! {

/// How serious a log event is.
#[derive(PartialEq, Eq, Structural, Clone, Copy, Debug)]
pub enum LogLevel {
    INFO,
    DEBUG,
    ERROR,
    WARN,
}

/// The name of a level as it appears in a log line.
pub open spec fn level_text(l: LogLevel) -> Seq<char> {
    match l {
        LogLevel::INFO => "INFO"@,
        LogLevel::DEBUG => "DEBUG"@,
        LogLevel::ERROR => "ERROR"@,
        LogLevel::WARN => "WARN"@,
    }
}

/// The log line `[<level>] <date> <time> => <message>`.
pub open spec fn log_line(l: LogLevel, message: Seq<char>, date: Seq<char>, time: Seq<char>) -> Seq<char> {
    "["@ + level_text(l) + "] "@ + date + " "@ + time + " => "@ + message
}

impl LogLevel {
    /// The name of this level.
    pub fn as_str(&self) -> (r: &'static str)
        ensures
            r@ == level_text(*self),
    {
        match self {
            LogLevel::INFO => "INFO",
            LogLevel::DEBUG => "DEBUG",
            LogLevel::ERROR => "ERROR",
            LogLevel::WARN => "WARN",
        }
    }

    /// The name of this level, owned.
    pub fn to_string(&self) -> (r: String)
        ensures
            r@ == level_text(*self),
    {
        self.as_str().to_owned()
    }
}

/// Lays out one log line from its level, message, date and time of day.
pub fn format_log_line(level: LogLevel, message: &str, date: &str, time: &str) -> (r: String)
    ensures
        r@ == log_line(level, message@, date@, time@),
{
    let mut out = "[".to_owned();
    out.append(level.as_str());
    out.append("] ");
    out.append(date);
    out.append(" ");
    out.append(time);
    out.append(" => ");
    out.append(message);
    assert(out@ =~= log_line(level, message@, date@, time@));
    out
}

} // verus!
