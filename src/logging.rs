//! The console logger's rules: which records it writes, and the line it writes
//! for each.
use vstd::prelude::*;
use vstd::string::StringExecFns;

verus! {

/// Severity of a record, most severe first.
#[derive(Clone, Copy, Debug, PartialEq, Eq, Structural)]
pub enum Level {
    Error,
    Warn,
    Info,
    Debug,
    Trace,
}

/// The most verbose level that is let through, or none at all.
#[derive(Clone, Copy, Debug, PartialEq, Eq, Structural)]
pub enum LevelFilter {
    Off,
    Error,
    Warn,
    Info,
    Debug,
    Trace,
}

/// Verbosity of a level: 1 for errors up to 5 for traces.
pub open spec fn level_rank(level: Level) -> int {
    match level {
        Level::Error => 1,
        Level::Warn => 2,
        Level::Info => 3,
        Level::Debug => 4,
        Level::Trace => 5,
    }
}

/// Verbosity let through by a filter: 0 lets nothing through.
pub open spec fn filter_rank(filter: LevelFilter) -> int {
    match filter {
        LevelFilter::Off => 0,
        LevelFilter::Error => 1,
        LevelFilter::Warn => 2,
        LevelFilter::Info => 3,
        LevelFilter::Debug => 4,
        LevelFilter::Trace => 5,
    }
}

/// The name a level is written with.
pub open spec fn level_name(level: Level) -> Seq<char> {
    match level {
        Level::Error => "ERROR"@,
        Level::Warn => "WARN"@,
        Level::Info => "INFO"@,
        Level::Debug => "DEBUG"@,
        Level::Trace => "TRACE"@,
    }
}

/// The console writes records up to debug verbosity, and no more than the
/// configured filter lets through.
pub open spec fn writes(max_level: LevelFilter, level: Level) -> bool {
    level_rank(level) <= level_rank(Level::Debug) && level_rank(level) <= filter_rank(max_level)
}

/// The line written for a record: its level's name, a colon, a space, the message.
pub open spec fn log_line(level: Level, message: Seq<char>) -> Seq<char> {
    level_name(level) + ": "@ + message
}

impl Level {
    /// The name this level is written with.
    pub fn as_str(&self) -> (r: &'static str)
        ensures
            r@ == level_name(*self),
    {
        match self {
            Level::Error => {
                proof {
                    reveal_strlit("ERROR");
                }
                "ERROR"
            },
            Level::Warn => {
                proof {
                    reveal_strlit("WARN");
                }
                "WARN"
            },
            Level::Info => {
                proof {
                    reveal_strlit("INFO");
                }
                "INFO"
            },
            Level::Debug => {
                proof {
                    reveal_strlit("DEBUG");
                }
                "DEBUG"
            },
            Level::Trace => {
                proof {
                    reveal_strlit("TRACE");
                }
                "TRACE"
            },
        }
    }
}

/// The console logger, with the filter it was set up with.
pub struct Logger {
    max_level: LevelFilter,
}

impl View for Logger {
    type V = LevelFilter;

    closed spec fn view(&self) -> LevelFilter {
        self.max_level
    }
}

/// Sets up the console logger to let records through up to `log_level`.
pub fn init(log_level: LevelFilter) -> (r: Logger)
    ensures
        r@ == log_level,
{
    Logger { max_level: log_level }
}

impl Logger {
    /// The filter the logger was set up with.
    pub fn max_level(&self) -> (r: LevelFilter)
        ensures
            r == self@,
    {
        self.max_level
    }

    /// True when a record of `level` is written.
    pub fn enabled(&self, level: Level) -> (r: bool)
        ensures
            r == writes(self@, level),
    {
        let rank: u8 = match level {
            Level::Error => 1,
            Level::Warn => 2,
            Level::Info => 3,
            Level::Debug => 4,
            Level::Trace => 5,
        };
        let limit: u8 = match self.max_level {
            LevelFilter::Off => 0,
            LevelFilter::Error => 1,
            LevelFilter::Warn => 2,
            LevelFilter::Info => 3,
            LevelFilter::Debug => 4,
            LevelFilter::Trace => 5,
        };
        rank <= 4 && rank <= limit
    }

    /// The line to write for a record of `level` with `message`, or `None` when
    /// such a record is not written.
    pub fn line(&self, level: Level, message: &str) -> (r: Option<String>)
        ensures
            r is Some <==> writes(self@, level),
            r matches Some(s) ==> s@ == log_line(level, message@),
    {
        if !self.enabled(level) {
            return None;
        }
        proof {
            reveal_strlit(": ");
        }
        let s = String::from_str(level.as_str()).concat(": ").concat(message);
        Some(s)
    }
}

} // verus!
