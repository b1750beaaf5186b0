use vstd::prelude::*;

verus! {

/// The four diagnostic severities the native API reports, as the raw bit
/// values its headers document.
pub const SEVERITY_VERBOSE: u32 = 0x1;

pub const SEVERITY_INFO: u32 = 0x10;

pub const SEVERITY_WARNING: u32 = 0x100;

pub const SEVERITY_ERROR: u32 = 0x1000;

/// The structured-log levels a driver diagnostic can be forwarded at.
#[derive(Clone, Copy, Debug, PartialEq, Eq, Structural)]
pub enum LogLevel {
    Trace,
    Info,
    Warn,
    Error,
}

/// Whether a raw severity value is one of the four documented ones.
pub open spec fn known_severity(message_severity: u32) -> bool {
    message_severity == SEVERITY_VERBOSE || message_severity == SEVERITY_INFO
        || message_severity == SEVERITY_WARNING || message_severity == SEVERITY_ERROR
}

/// The level a raw severity value is logged at: each documented severity has
/// its own level, and anything else is treated as a warning.
pub open spec fn spec_log_level(message_severity: u32) -> LogLevel {
    if message_severity == SEVERITY_VERBOSE {
        LogLevel::Trace
    } else if message_severity == SEVERITY_INFO {
        LogLevel::Info
    } else if message_severity == SEVERITY_WARNING {
        LogLevel::Warn
    } else if message_severity == SEVERITY_ERROR {
        LogLevel::Error
    } else {
        LogLevel::Warn
    }
}

/// Maps a native severity to the level its message is logged at.
pub fn to_log_level(message_severity: u32) -> (r: LogLevel)
    ensures
        r == spec_log_level(message_severity),
{
    if message_severity == SEVERITY_VERBOSE {
        LogLevel::Trace
    } else if message_severity == SEVERITY_INFO {
        LogLevel::Info
    } else if message_severity == SEVERITY_WARNING {
        LogLevel::Warn
    } else if message_severity == SEVERITY_ERROR {
        LogLevel::Error
    } else {
        LogLevel::Warn
    }
}

/// Maps a native severity to a log level and, for a value outside the four
/// documented ones, also hands back the raw value so the caller can put it
/// into the warning it logs.
pub fn to_log_level_noting_unknown(message_severity: u32) -> (r: (LogLevel, Option<u32>))
    ensures
        r.0 == spec_log_level(message_severity),
        r.1 == (if known_severity(message_severity) {
            Option::<u32>::None
        } else {
            Option::Some(message_severity)
        }),
{
    let level = to_log_level(message_severity);
    if message_severity == SEVERITY_VERBOSE || message_severity == SEVERITY_INFO
        || message_severity == SEVERITY_WARNING || message_severity == SEVERITY_ERROR {
        (level, Option::None)
    } else {
        (level, Option::Some(message_severity))
    }
}

} // verus!
