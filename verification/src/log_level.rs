use vstd::prelude::*;

verus! {

/// Verbosity level of the supervised proxy process, as stored in the catalog
/// and written into the external configuration file as a small signed integer.
#[derive(Clone, Copy, Debug, PartialEq, Eq, Structural)]
pub enum LogLevel {
    Trace,
    Debug,
    Info,
    Warn,
    Error,
}

impl LogLevel {
    /// The numeric code the external configuration file uses for this level.
    pub fn code(self) -> (r: i8)
        ensures
            r as int == spec_log_level_code(self),
    {
        match self {
            LogLevel::Trace => -1,
            LogLevel::Debug => 0,
            LogLevel::Info => 1,
            LogLevel::Warn => 2,
            LogLevel::Error => 3,
        }
    }
}

pub open spec fn spec_log_level_code(l: LogLevel) -> int {
    match l {
        LogLevel::Trace => -1,
        LogLevel::Debug => 0,
        LogLevel::Info => 1,
        LogLevel::Warn => 2,
        LogLevel::Error => 3,
    }
}

impl Default for LogLevel {
    /// The default verbosity is `Info`.
    fn default() -> (r: Self)
        ensures
            r == LogLevel::Info,
    {
        LogLevel::Info
    }
}

} // verus!
