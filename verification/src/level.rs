//! Log severities and threshold filtering.
//!
//! Severities form a total order `trace < debug < info < warn < error`;
//! a configured threshold admits exactly the events whose severity is at
//! least the threshold's.

use vstd::prelude::*;

verus! {

/// Severity of a log event. The order is `trace < debug < info < warn <
/// error`, as given by [`LogLevel::rank`].
#[derive(Copy, Clone, Debug, PartialEq, Eq, Structural)]
pub enum LogLevel {
    Error,
    Warn,
    Info,
    Debug,
    Trace,
}

impl LogLevel {
    /// Numeric severity rank: `trace` is the lowest severity and `error`
    /// the highest.
    pub open spec fn rank(self) -> int {
        match self {
            LogLevel::Trace => 0,
            LogLevel::Debug => 1,
            LogLevel::Info => 2,
            LogLevel::Warn => 3,
            LogLevel::Error => 4,
        }
    }

    /// The severity rank as a machine integer.
    pub fn severity(self) -> (r: u8)
        ensures
            r as int == self.rank(),
    {
        match self {
            LogLevel::Trace => 0,
            LogLevel::Debug => 1,
            LogLevel::Info => 2,
            LogLevel::Warn => 3,
            LogLevel::Error => 4,
        }
    }

    /// The severity whose rank is `r`, for ranks `0` to `4`.
    pub fn from_rank(r: u8) -> (l: Option<LogLevel>)
        ensures
            l is Some <==> r <= 4,
            l matches Some(level) ==> level.rank() == r as int,
    {
        match r {
            0 => Some(LogLevel::Trace),
            1 => Some(LogLevel::Debug),
            2 => Some(LogLevel::Info),
            3 => Some(LogLevel::Warn),
            4 => Some(LogLevel::Error),
            _ => None,
        }
    }
}

/// An event of severity `event` passes the threshold `threshold` exactly
/// when its rank is at least the threshold's rank.
pub open spec fn spec_enabled(threshold: LogLevel, event: LogLevel) -> bool {
    event.rank() >= threshold.rank()
}

/// Threshold filtering: admits exactly the events whose severity is at
/// least `threshold`.
pub fn level_enabled(threshold: LogLevel, event: LogLevel) -> (r: bool)
    ensures
        r == spec_enabled(threshold, event),
{
    event.severity() >= threshold.severity()
}

/// Law: the five severities are totally ordered
/// `trace < debug < info < warn < error`, ranks are a bijection onto
/// `0..=4`, and filtering at a threshold admits an event exactly when the
/// event's rank is at least the threshold's.
pub proof fn lemma_severity_order()
    ensures
        LogLevel::Trace.rank() < LogLevel::Debug.rank(),
        LogLevel::Debug.rank() < LogLevel::Info.rank(),
        LogLevel::Info.rank() < LogLevel::Warn.rank(),
        LogLevel::Warn.rank() < LogLevel::Error.rank(),
        forall|a: LogLevel, b: LogLevel| a.rank() == b.rank() ==> a == b,
        forall|a: LogLevel| 0 <= #[trigger] a.rank() <= 4,
        forall|threshold: LogLevel, event: LogLevel|
            spec_enabled(threshold, event) == (event.rank() >= threshold.rank()),
{
}

} // verus!
