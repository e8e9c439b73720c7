//! How much of the protocol library's log is shown.

use vstd::prelude::*;

verus! {

/// The levels of logging, from nothing to everything.
#[derive(Clone, Copy, Debug, PartialEq, Eq, Structural)]
pub enum LogLevel {
    Off,
    Error,
    Warn,
    Info,
    Debug,
}

/// The level that four switches select: the most talkative one that is on,
/// and `Off` where none is.
pub open spec fn level_for(debug: bool, info: bool, warn: bool, error: bool) -> LogLevel {
    if debug {
        LogLevel::Debug
    } else if info {
        LogLevel::Info
    } else if warn {
        LogLevel::Warn
    } else if error {
        LogLevel::Error
    } else {
        LogLevel::Off
    }
}

pub fn log_level(debug: bool, info: bool, warn: bool, error: bool) -> (level: LogLevel)
    ensures
        level == level_for(debug, info, warn, error),
{
    if debug {
        LogLevel::Debug
    } else if info {
        LogLevel::Info
    } else if warn {
        LogLevel::Warn
    } else if error {
        LogLevel::Error
    } else {
        LogLevel::Off
    }
}

} // verus!
