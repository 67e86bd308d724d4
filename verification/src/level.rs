//! Severity levels for telemetry events and the threshold filter that the
//! pipeline applies before recording anything.

use vstd::prelude::*;

verus! {

/// Severity of a telemetry event, from least to most severe.
#[derive(Clone, Copy, Debug, PartialEq, Eq, Structural)]
pub enum Level {
    Trace,
    Debug,
    Info,
    Warn,
    Error,
}

impl Level {
    /// Numeric rank of a level; a larger rank is more severe.
    pub open spec fn severity(self) -> int {
        match self {
            Level::Trace => 0,
            Level::Debug => 1,
            Level::Info => 2,
            Level::Warn => 3,
            Level::Error => 4,
        }
    }

    /// Executable counterpart of `severity`.
    pub fn rank(self) -> (r: u8)
        ensures
            r as int == self.severity(),
    {
        match self {
            Level::Trace => 0,
            Level::Debug => 1,
            Level::Info => 2,
            Level::Warn => 3,
            Level::Error => 4,
        }
    }

    /// An event at level `self` survives a filter whose minimum recorded
    /// level is `threshold`.
    pub fn passes(self, threshold: Level) -> (r: bool)
        ensures
            r == (threshold.severity() <= self.severity()),
    {
        self.rank() >= threshold.rank()
    }
}

} // verus!
