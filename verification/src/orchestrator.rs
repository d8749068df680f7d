//! The orchestrator's startup decisions: how verbose the logger runs and
//! whether a requested worker count is usable.  The orchestrator's event loop
//! itself (timer, error channel, shutdown signal) is plain plumbing around
//! these rules.

use vstd::prelude::*;

verus! {

/// How much the logger lets through, coarsest first.
#[derive(Debug, Clone, Copy, PartialEq, Eq, Structural)]
pub enum LogLevel {
    Error,
    Warn,
    Info,
    Debug,
    Trace,
}

/// The level a verbosity count selects: errors only by default, one more
/// layer per step, everything from four steps up.
pub open spec fn spec_level_for_verbosity(v: usize) -> LogLevel {
    if v == 0 {
        LogLevel::Error
    } else if v == 1 {
        LogLevel::Warn
    } else if v == 2 {
        LogLevel::Info
    } else if v == 3 {
        LogLevel::Debug
    } else {
        LogLevel::Trace
    }
}

/// Map the command line's verbosity count to a log level.
pub fn level_for_verbosity(v: usize) -> (l: LogLevel)
    ensures
        l == spec_level_for_verbosity(v),
{
    if v == 0 {
        LogLevel::Error
    } else if v == 1 {
        LogLevel::Warn
    } else if v == 2 {
        LogLevel::Info
    } else if v == 3 {
        LogLevel::Debug
    } else {
        LogLevel::Trace
    }
}

/// The verdict on a requested worker-thread count next to the number of
/// cores available.
#[derive(Debug, Clone, Copy, PartialEq, Eq, Structural)]
pub enum ThreadCountCheck {
    /// Fewer than one thread cannot mine: reject at startup.
    TooFew,
    /// More threads than cores run, with a warning: not optimal.
    MoreThanCores,
    /// A usable count.
    Usable,
}

/// Judge a requested thread count: below one is rejected, above the core
/// count is allowed with a warning, anything else is taken as is.
pub fn check_thread_count(requested: usize, available: usize) -> (r: ThreadCountCheck)
    ensures
        r == ThreadCountCheck::TooFew <==> requested < 1,
        r == ThreadCountCheck::MoreThanCores <==> requested > available,
        r == ThreadCountCheck::Usable <==> (1 <= requested <= available),
{
    if requested < 1 {
        ThreadCountCheck::TooFew
    } else if requested > available {
        ThreadCountCheck::MoreThanCores
    } else {
        ThreadCountCheck::Usable
    }
}

} // verus!
