use vstd::prelude::*;

verus! {

/// How much the host logs.
#[derive(Debug, Clone, Copy, PartialEq, Eq)]
pub enum LogLevel {
    Warn,
    Info,
    Debug,
    Trace,
}

/// The level that a number of verbosity flags asks for: warnings without a
/// flag, then one level more per flag, up to traces from the third flag on.
pub fn log_level(occurrences: u64) -> (level: LogLevel)
    ensures
        occurrences == 0 ==> level == LogLevel::Warn,
        occurrences == 1 ==> level == LogLevel::Info,
        occurrences == 2 ==> level == LogLevel::Debug,
        occurrences >= 3 ==> level == LogLevel::Trace,
{
    match occurrences {
        0 => LogLevel::Warn,
        1 => LogLevel::Info,
        2 => LogLevel::Debug,
        _ => LogLevel::Trace,
    }
}

} // verus!
