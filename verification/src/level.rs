//! Log levels and level filters.

use vstd::prelude::*;

verus! {

/// The severity of a log record, from the most severe (`Error`) to the most verbose (`Trace`).
#[derive(Debug, Clone, Copy, PartialEq, Eq, Structural)]
pub enum Level {
    Error,
    Warn,
    Info,
    Debug,
    Trace,
}

/// The most verbose level that is still let through. `Off` lets nothing through.
#[derive(Debug, Clone, Copy, PartialEq, Eq, Structural)]
pub enum LevelFilter {
    Off,
    Error,
    Warn,
    Info,
    Debug,
    Trace,
}

impl Level {
    /// Verbosity of a level: the higher, the more verbose.
    pub open spec fn rank(self) -> nat {
        match self {
            Level::Error => 1,
            Level::Warn => 2,
            Level::Info => 3,
            Level::Debug => 4,
            Level::Trace => 5,
        }
    }

    /// The verbosity of this level as a number, `Error` being 1 and `Trace` 5.
    pub fn verbosity(&self) -> (r: u8)
        ensures
            r == self.rank(),
    {
        match self {
            Level::Error => 1,
            Level::Warn => 2,
            Level::Info => 3,
            Level::Debug => 4,
            Level::Trace => 5,
        }
    }
}

impl LevelFilter {
    /// Verbosity of a filter: `Off` is 0, and each other filter has the rank of its level.
    pub open spec fn rank(self) -> nat {
        match self {
            LevelFilter::Off => 0,
            LevelFilter::Error => 1,
            LevelFilter::Warn => 2,
            LevelFilter::Info => 3,
            LevelFilter::Debug => 4,
            LevelFilter::Trace => 5,
        }
    }

    /// A record at `level` passes this filter when it is not more verbose than the filter.
    pub open spec fn permits(self, level: Level) -> bool {
        level.rank() <= self.rank()
    }

    /// The verbosity of this filter as a number, `Off` being 0 and `Trace` 5.
    pub fn verbosity(&self) -> (r: u8)
        ensures
            r == self.rank(),
    {
        match self {
            LevelFilter::Off => 0,
            LevelFilter::Error => 1,
            LevelFilter::Warn => 2,
            LevelFilter::Info => 3,
            LevelFilter::Debug => 4,
            LevelFilter::Trace => 5,
        }
    }

    /// Whether a record at `level` passes this filter.
    pub fn allows(&self, level: Level) -> (b: bool)
        ensures
            b == self.permits(level),
    {
        level.verbosity() <= self.verbosity()
    }
}

} // verus!
