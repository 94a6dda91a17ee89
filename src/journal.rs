//! Log levels and the syslog priorities under which they are written when
//! the output goes to the systemd journal.
use vstd::prelude::*;

verus! {

#[derive(Clone, Copy, Debug, PartialEq, Eq, Structural)]
pub enum LogLevel {
    Error,
    Warn,
    Info,
    Debug,
    Trace,
}

/// The syslog priority of each level: error 3, warning 4, info 6, and
/// debug 7 for both debug and trace.
pub open spec fn priority_of(level: LogLevel) -> u8 {
    match level {
        LogLevel::Error => 3,
        LogLevel::Warn => 4,
        LogLevel::Info => 6,
        LogLevel::Debug => 7,
        LogLevel::Trace => 7,
    }
}

/// The priority prefix value for a line logged at `level`.
pub fn journal_priority(level: LogLevel) -> (r: u8)
    ensures
        r == priority_of(level),
{
    match level {
        LogLevel::Error => 3,
        LogLevel::Warn => 4,
        LogLevel::Info => 6,
        LogLevel::Debug => 7,
        LogLevel::Trace => 7,
    }
}

} // verus!
