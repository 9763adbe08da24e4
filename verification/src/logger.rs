//! The logging gate: which records pass the configured level filter.
//!
//! Only the filtering decision lives here; formatting a record and moving
//! its bytes over the trace channel is the surrounding runtime's business.

use vstd::prelude::*;

verus! {

/// Severity of one log record, most severe first.
#[derive(Clone, Copy, Debug, PartialEq, Eq, Structural)]
pub enum Level {
    Error,
    Warn,
    Info,
    Debug,
    Trace,
}

/// The configured ceiling: records above this verbosity are dropped.
#[derive(Clone, Copy, Debug, PartialEq, Eq, Structural)]
pub enum LevelFilter {
    /// Drop everything.
    Off,
    Error,
    Warn,
    Info,
    Debug,
    Trace,
}

/// Verbosity rank of a record level: higher is chattier.
pub open spec fn level_rank(level: Level) -> int {
    match level {
        Level::Error => 1,
        Level::Warn => 2,
        Level::Info => 3,
        Level::Debug => 4,
        Level::Trace => 5,
    }
}

/// Verbosity rank of a filter: a record passes filters of at least its
/// own rank.
pub open spec fn filter_rank(filter: LevelFilter) -> int {
    match filter {
        LevelFilter::Off => 0,
        LevelFilter::Error => 1,
        LevelFilter::Warn => 2,
        LevelFilter::Info => 3,
        LevelFilter::Debug => 4,
        LevelFilter::Trace => 5,
    }
}

/// Whether a record of `level` passes a logger configured with `filter`.
pub open spec fn logger_enabled(filter: LevelFilter, level: Level) -> bool {
    filter_rank(filter) >= level_rank(level)
}

/// The level-filtering logger.
pub struct Logger {
    /// The configured ceiling.
    pub level_filter: LevelFilter,
}

impl Logger {
    /// A logger that passes records up to `level_filter`.
    pub fn new(level_filter: LevelFilter) -> (logger: Logger)
        ensures
            logger.level_filter == level_filter,
    {
        Logger { level_filter }
    }

    /// Whether a record of `level` would be emitted.
    pub fn enabled(&self, level: Level) -> (r: bool)
        ensures
            r == logger_enabled(self.level_filter, level),
    {
        rank_of_filter(self.level_filter) >= rank_of_level(level)
    }
}

/// Executable rank of a record level.
fn rank_of_level(level: Level) -> (r: u8)
    ensures
        r == level_rank(level),
{
    match level {
        Level::Error => 1,
        Level::Warn => 2,
        Level::Info => 3,
        Level::Debug => 4,
        Level::Trace => 5,
    }
}

/// Executable rank of a filter.
fn rank_of_filter(filter: LevelFilter) -> (r: u8)
    ensures
        r == filter_rank(filter),
{
    match filter {
        LevelFilter::Off => 0,
        LevelFilter::Error => 1,
        LevelFilter::Warn => 2,
        LevelFilter::Info => 3,
        LevelFilter::Debug => 4,
        LevelFilter::Trace => 5,
    }
}

} // verus!
