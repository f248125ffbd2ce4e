use vstd::prelude::*;

use crate::text::{owned, str_eq};

verus! {

/// Where the log level is configured.
pub const LOG_LEVEL_CONFIGURATION_KEY: &'static str = "logger.level";

/// How severe a message is, from the most severe to the most verbose.
#[derive(Debug, Clone, Copy, PartialEq, Eq, Structural)]
pub enum LogLevel {
    Fatal,
    Error,
    Warn,
    Info,
    Debug,
    Trace,
}

/// The verbosity of a level: 0 for fatal up to 5 for trace.
pub open spec fn verbosity(l: LogLevel) -> int {
    match l {
        LogLevel::Fatal => 0,
        LogLevel::Error => 1,
        LogLevel::Warn => 2,
        LogLevel::Info => 3,
        LogLevel::Debug => 4,
        LogLevel::Trace => 5,
    }
}

/// The level that a configured name selects; an unknown name selects
/// `Info`.
pub open spec fn level_named(s: Seq<char>) -> LogLevel {
    if s == "trace"@ {
        LogLevel::Trace
    } else if s == "debug"@ {
        LogLevel::Debug
    } else if s == "info"@ {
        LogLevel::Info
    } else if s == "warn"@ {
        LogLevel::Warn
    } else if s == "error"@ {
        LogLevel::Error
    } else if s == "fatal"@ {
        LogLevel::Fatal
    } else {
        LogLevel::Info
    }
}

/// The name of a level as it appears in a log line.
pub open spec fn level_name(l: LogLevel) -> Seq<char> {
    match l {
        LogLevel::Fatal => "fatal"@,
        LogLevel::Error => "error"@,
        LogLevel::Warn => "warn"@,
        LogLevel::Info => "info"@,
        LogLevel::Debug => "debug"@,
        LogLevel::Trace => "trace"@,
    }
}

impl LogLevel {
    /// The level called `s`, `Info` for any other name.
    pub fn from_str(s: &str) -> (l: LogLevel)
        ensures
            l == level_named(s@),
    {
        if str_eq(s, "trace") {
            LogLevel::Trace
        } else if str_eq(s, "debug") {
            LogLevel::Debug
        } else if str_eq(s, "info") {
            LogLevel::Info
        } else if str_eq(s, "warn") {
            LogLevel::Warn
        } else if str_eq(s, "error") {
            LogLevel::Error
        } else if str_eq(s, "fatal") {
            LogLevel::Fatal
        } else {
            LogLevel::Info
        }
    }

    /// The name of the level as written in a log line.
    pub fn name(&self) -> (r: String)
        ensures
            r@ == level_name(*self),
    {
        match self {
            LogLevel::Fatal => owned("fatal"),
            LogLevel::Error => owned("error"),
            LogLevel::Warn => owned("warn"),
            LogLevel::Info => owned("info"),
            LogLevel::Debug => owned("debug"),
            LogLevel::Trace => owned("trace"),
        }
    }

    /// The verbosity of the level.
    pub fn rank(&self) -> (r: u8)
        ensures
            r == verbosity(*self),
    {
        match self {
            LogLevel::Fatal => 0,
            LogLevel::Error => 1,
            LogLevel::Warn => 2,
            LogLevel::Info => 3,
            LogLevel::Debug => 4,
            LogLevel::Trace => 5,
        }
    }
}

/// The logger: it writes the messages at its level and the more severe
/// ones.
#[derive(Debug, Clone)]
pub struct LoggerAdapter {
    level: LogLevel,
}

/// Whether a logger at `threshold` writes a message at `level`.
pub open spec fn writes(threshold: LogLevel, level: LogLevel) -> bool {
    verbosity(level) <= verbosity(threshold)
}

impl LoggerAdapter {
    /// The level the logger writes at.
    pub closed spec fn level(&self) -> LogLevel {
        self.level
    }

    /// A logger at level `Info`.
    pub fn new() -> (l: LoggerAdapter)
        ensures
            l.level() == LogLevel::Info,
    {
        LoggerAdapter { level: LogLevel::Info }
    }

    /// Sets the level from its configured name.
    pub fn refresh_level(&mut self, level: &str)
        ensures
            final(self).level() == level_named(level@),
    {
        self.level = LogLevel::from_str(level);
    }

    /// Whether a message at `level` is written; fatal ones always are.
    pub fn enabled(&self, level: LogLevel) -> (b: bool)
        ensures
            b == writes(self.level(), level),
    {
        level.rank() <= self.level.rank()
    }
}

/// A fatal message is written whatever the logger's level.
pub proof fn fatal_always_written(threshold: LogLevel)
    ensures
        writes(threshold, LogLevel::Fatal),
{
}

/// A logger that writes a message at some level writes the more severe
/// ones too.
pub proof fn more_severe_written(threshold: LogLevel, level: LogLevel, severer: LogLevel)
    requires
        writes(threshold, level),
        verbosity(severer) <= verbosity(level),
    ensures
        writes(threshold, severer),
{
}

/// Raising the level never silences a message written before.
pub proof fn raising_keeps_written(low: LogLevel, high: LogLevel, level: LogLevel)
    requires
        verbosity(low) <= verbosity(high),
        writes(low, level),
    ensures
        writes(high, level),
{
}

/// Each level's own name selects that level.
pub proof fn level_names_round_trip(l: LogLevel)
    ensures
        level_named(level_name(l)) == l,
{
    reveal_strlit("trace");
    reveal_strlit("debug");
    reveal_strlit("info");
    reveal_strlit("warn");
    reveal_strlit("error");
    reveal_strlit("fatal");
    assert("trace"@[0] == 't' && "debug"@[0] == 'd' && "info"@[0] == 'i');
    assert("warn"@[0] == 'w' && "error"@[0] == 'e' && "fatal"@[0] == 'f');
}

} // verus!
