use crate::text::{lower_of, lowercase, str_eq};
use vstd::prelude::*;

verus! {

/// Severity of one log record, from the most to the least severe.
#[derive(Clone, Copy, Debug, PartialEq, Eq, Structural)]
pub enum Level {
    Error,
    Warn,
    Info,
    Debug,
    Trace,
}

/// The most verbose severity that a filter lets through, or nothing at all.
#[derive(Clone, Copy, Debug, PartialEq, Eq, Structural)]
pub enum LevelFilter {
    Off,
    Error,
    Warn,
    Info,
    Debug,
    Trace,
}

impl Level {
    /// Verbosity rank: 1 for `Error` up to 5 for `Trace`.
    pub open spec fn rank(self) -> nat {
        match self {
            Level::Error => 1,
            Level::Warn => 2,
            Level::Info => 3,
            Level::Debug => 4,
            Level::Trace => 5,
        }
    }

    pub fn rank_of(&self) -> (r: u8)
        ensures
            r as nat == self.rank(),
    {
        match self {
            Level::Error => 1,
            Level::Warn => 2,
            Level::Info => 3,
            Level::Debug => 4,
            Level::Trace => 5,
        }
    }
}

impl LevelFilter {
    /// Verbosity rank: 0 for `Off` up to 5 for `Trace`.
    pub open spec fn rank(self) -> nat {
        match self {
            LevelFilter::Off => 0,
            LevelFilter::Error => 1,
            LevelFilter::Warn => 2,
            LevelFilter::Info => 3,
            LevelFilter::Debug => 4,
            LevelFilter::Trace => 5,
        }
    }

    pub fn rank_of(&self) -> (r: u8)
        ensures
            r as nat == self.rank(),
    {
        match self {
            LevelFilter::Off => 0,
            LevelFilter::Error => 1,
            LevelFilter::Warn => 2,
            LevelFilter::Info => 3,
            LevelFilter::Debug => 4,
            LevelFilter::Trace => 5,
        }
    }

    /// The filter at position `i` of the order `Off, Error, ..., Trace`.
    pub open spec fn at_index(i: int) -> Option<LevelFilter> {
        if i == 0 {
            Some(LevelFilter::Off)
        } else if i == 1 {
            Some(LevelFilter::Error)
        } else if i == 2 {
            Some(LevelFilter::Warn)
        } else if i == 3 {
            Some(LevelFilter::Info)
        } else if i == 4 {
            Some(LevelFilter::Debug)
        } else if i == 5 {
            Some(LevelFilter::Trace)
        } else {
            None
        }
    }

    /// The canonical name of the filter: "OFF", "ERROR", ..., "TRACE".
    pub fn as_str(&self) -> (r: &'static str)
        ensures
            r@ == self.name(),
    {
        match self {
            LevelFilter::Off => "OFF",
            LevelFilter::Error => "ERROR",
            LevelFilter::Warn => "WARN",
            LevelFilter::Info => "INFO",
            LevelFilter::Debug => "DEBUG",
            LevelFilter::Trace => "TRACE",
        }
    }

    pub open spec fn name(self) -> Seq<char> {
        match self {
            LevelFilter::Off => "OFF"@,
            LevelFilter::Error => "ERROR"@,
            LevelFilter::Warn => "WARN"@,
            LevelFilter::Info => "INFO"@,
            LevelFilter::Debug => "DEBUG"@,
            LevelFilter::Trace => "TRACE"@,
        }
    }
}

/// A record of severity `level` passes a filter set to `filter`.
pub open spec fn admits(filter: LevelFilter, level: Level) -> bool {
    level.rank() <= filter.rank()
}

/// Whether a record of severity `level` passes `filter`.
pub fn level_admitted(filter: LevelFilter, level: Level) -> (r: bool)
    ensures
        r == admits(filter, level),
{
    level.rank_of() <= filter.rank_of()
}

/// The filter that a lower-case level name stands for.
pub open spec fn filter_named(s: Seq<char>) -> Option<LevelFilter> {
    if s == "off"@ {
        Some(LevelFilter::Off)
    } else if s == "error"@ {
        Some(LevelFilter::Error)
    } else if s == "warn"@ {
        Some(LevelFilter::Warn)
    } else if s == "info"@ {
        Some(LevelFilter::Info)
    } else if s == "debug"@ {
        Some(LevelFilter::Debug)
    } else if s == "trace"@ {
        Some(LevelFilter::Trace)
    } else {
        None
    }
}

/// The filter that an already lower-cased level name stands for, if any.
pub fn filter_from_lowercase(s: &str) -> (r: Option<LevelFilter>)
    ensures
        r == filter_named(s@),
{
    if str_eq(s, "off") {
        Some(LevelFilter::Off)
    } else if str_eq(s, "error") {
        Some(LevelFilter::Error)
    } else if str_eq(s, "warn") {
        Some(LevelFilter::Warn)
    } else if str_eq(s, "info") {
        Some(LevelFilter::Info)
    } else if str_eq(s, "debug") {
        Some(LevelFilter::Debug)
    } else if str_eq(s, "trace") {
        Some(LevelFilter::Trace)
    } else {
        None
    }
}

/// The filter named by `s` in any letter case ("Debug", "WARN", "off").
pub fn string_to_level_filter(s: &str) -> (r: Option<LevelFilter>)
    ensures
        r == filter_named(lower_of(s@)),
{
    let lower = lowercase(s);
    filter_from_lowercase(lower.as_str())
}

} // verus!
