//! Log levels: which records the logger keeps and how it writes them.
use vstd::prelude::*;
use crate::text::{chars_of, eq_str, push_str, string_of};

verus! {

/// The most detailed records a logger keeps.
#[derive(Debug, Clone, Copy, PartialEq, Eq, Structural)]
pub enum LevelFilter {
    Off,
    Error,
    Warn,
    Info,
    Debug,
}

/// The severity of a record.
#[derive(Debug, Clone, Copy, PartialEq, Eq, Structural)]
pub enum Level {
    Error,
    Warn,
    Info,
    Debug,
    Trace,
}

pub open spec fn filter_rank(f: LevelFilter) -> nat {
    match f {
        LevelFilter::Off => 0,
        LevelFilter::Error => 1,
        LevelFilter::Warn => 2,
        LevelFilter::Info => 3,
        LevelFilter::Debug => 4,
    }
}

pub open spec fn level_rank(l: Level) -> nat {
    match l {
        Level::Error => 1,
        Level::Warn => 2,
        Level::Info => 3,
        Level::Debug => 4,
        Level::Trace => 5,
    }
}

/// The filter that a `--log-level` value names; `INFO` for any other text.
pub open spec fn filter_named(s: Seq<char>) -> LevelFilter {
    if s == "DEBUG"@ {
        LevelFilter::Debug
    } else if s == "INFO"@ {
        LevelFilter::Info
    } else if s == "WARN"@ {
        LevelFilter::Warn
    } else if s == "ERROR"@ {
        LevelFilter::Error
    } else if s == "OFF"@ {
        LevelFilter::Off
    } else {
        LevelFilter::Info
    }
}

/// The filter that a `--log-level` value names.
pub fn parse_log_level(s: &str) -> (r: LevelFilter)
    ensures
        r == filter_named(s@),
{
    let c = chars_of(s);
    let c = c.as_slice();
    if eq_str(c, "DEBUG") {
        LevelFilter::Debug
    } else if eq_str(c, "INFO") {
        LevelFilter::Info
    } else if eq_str(c, "WARN") {
        LevelFilter::Warn
    } else if eq_str(c, "ERROR") {
        LevelFilter::Error
    } else if eq_str(c, "OFF") {
        LevelFilter::Off
    } else {
        LevelFilter::Info
    }
}

/// A record is kept when it is at most as detailed as the filter.
pub fn enabled(level: Level, filter: LevelFilter) -> (r: bool)
    ensures
        r == (level_rank(level) <= filter_rank(filter)),
{
    let l: u8 = match level {
        Level::Error => 1,
        Level::Warn => 2,
        Level::Info => 3,
        Level::Debug => 4,
        Level::Trace => 5,
    };
    let f: u8 = match filter {
        LevelFilter::Off => 0,
        LevelFilter::Error => 1,
        LevelFilter::Warn => 2,
        LevelFilter::Info => 3,
        LevelFilter::Debug => 4,
    };
    l <= f
}

pub open spec fn level_name(l: Level) -> Seq<char> {
    match l {
        Level::Error => "ERROR"@,
        Level::Warn => "WARN"@,
        Level::Info => "INFO"@,
        Level::Debug => "DEBUG"@,
        Level::Trace => "TRACE"@,
    }
}

/// `[LEVEL] message`, the line a record is written as.
pub open spec fn log_text(l: Level, msg: Seq<char>) -> Seq<char> {
    "["@ + level_name(l) + "] "@ + msg
}

/// The line a record is written as.
pub fn log_line(level: Level, message: &str) -> (r: String)
    ensures
        r@ == log_text(level, message@),
{
    let mut v = chars_of("[");
    match level {
        Level::Error => push_str(&mut v, "ERROR"),
        Level::Warn => push_str(&mut v, "WARN"),
        Level::Info => push_str(&mut v, "INFO"),
        Level::Debug => push_str(&mut v, "DEBUG"),
        Level::Trace => push_str(&mut v, "TRACE"),
    }
    push_str(&mut v, "] ");
    push_str(&mut v, message);
    string_of(v.as_slice())
}

/// `OFF` keeps nothing, and every filter keeps errors but `OFF`.
pub proof fn lemma_off_keeps_nothing(l: Level, f: LevelFilter)
    ensures
        f == LevelFilter::Off ==> !(level_rank(l) <= filter_rank(f)),
        f != LevelFilter::Off ==> level_rank(Level::Error) <= filter_rank(f),
{
}

} // verus!
