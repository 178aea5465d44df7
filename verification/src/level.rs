//! Severity levels of the instrumentation surface and the configured maximum.
use vstd::prelude::*;

verus! {

/// Severity of a span or event, most severe first.
#[derive(Clone, Copy, PartialEq, Eq, Structural, Debug)]
pub enum Level {
    Error,
    Warn,
    Info,
    Debug,
    Trace,
}

/// The configured maximum severity: `Off` admits nothing, `Trace` everything.
#[derive(Clone, Copy, PartialEq, Eq, Structural, Debug)]
pub enum LevelFilter {
    Off,
    Error,
    Warn,
    Info,
    Debug,
    Trace,
}

/// Verbosity rank of a level: higher means more verbose.
pub open spec fn level_rank(l: Level) -> int {
    match l {
        Level::Error => 1,
        Level::Warn => 2,
        Level::Info => 3,
        Level::Debug => 4,
        Level::Trace => 5,
    }
}

/// Verbosity rank of a filter; a level passes a filter when its rank is at most the filter's.
pub open spec fn filter_rank(f: LevelFilter) -> int {
    match f {
        LevelFilter::Off => 0,
        LevelFilter::Error => 1,
        LevelFilter::Warn => 2,
        LevelFilter::Info => 3,
        LevelFilter::Debug => 4,
        LevelFilter::Trace => 5,
    }
}

/// A call at `level` is admitted under maximum severity `max` exactly when
/// `level` is at or below `max`.
pub open spec fn spec_level_enabled(level: Level, max: LevelFilter) -> bool {
    level_rank(level) <= filter_rank(max)
}

/// True iff a span or event at `level` is at or below the configured maximum `max`.
pub fn level_enabled(level: Level, max: LevelFilter) -> (r: bool)
    ensures
        r == spec_level_enabled(level, max),
{
    let lr: u8 = match level {
        Level::Error => 1,
        Level::Warn => 2,
        Level::Info => 3,
        Level::Debug => 4,
        Level::Trace => 5,
    };
    let fr: u8 = match max {
        LevelFilter::Off => 0,
        LevelFilter::Error => 1,
        LevelFilter::Warn => 2,
        LevelFilter::Info => 3,
        LevelFilter::Debug => 4,
        LevelFilter::Trace => 5,
    };
    lr <= fr
}

} // verus!
