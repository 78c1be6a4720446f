//! Log levels, ordered by severity.

use vstd::prelude::*;

verus! {

/// Severity of a log record. `Critical` is the most severe, `Trace` the
/// least.
#[derive(Clone, Copy, Debug, PartialEq, Eq, Structural)]
pub enum Level {
    /// The most severe level.
    Critical,
    /// A failure that the program may survive.
    Error,
    /// Something suspicious, not yet a failure.
    Warn,
    /// Ordinary progress information.
    Info,
    /// Detail useful while developing.
    Debug,
    /// The least severe level, for very fine-grained detail.
    Trace,
}

impl Level {
    /// Numeric severity: larger means more severe. `Trace` is 0 and
    /// `Critical` is 5.
    pub open spec fn spec_severity(self) -> u8 {
        match self {
            Level::Critical => 5,
            Level::Error => 4,
            Level::Warn => 3,
            Level::Info => 2,
            Level::Debug => 1,
            Level::Trace => 0,
        }
    }

    /// Numeric severity of this level; larger means more severe.
    #[verifier::when_used_as_spec(spec_severity)]
    pub fn severity(self) -> (n: u8)
        ensures
            n == self.spec_severity(),
    {
        match self {
            Level::Critical => 5,
            Level::Error => 4,
            Level::Warn => 3,
            Level::Info => 2,
            Level::Debug => 1,
            Level::Trace => 0,
        }
    }

    /// Whether a record at this level passes a filter that admits `threshold`
    /// and everything more severe.
    pub fn at_least(self, threshold: Level) -> (r: bool)
        ensures
            r == (self.spec_severity() >= threshold.spec_severity()),
    {
        self.severity() >= threshold.severity()
    }
}

} // verus!
