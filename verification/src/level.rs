//! Severity levels, level filters and the colour assigned to each level.

use vstd::prelude::*;

verus! {

/// How severe a log record is, from the most severe (`Error`) to the least
/// severe (`Trace`).
#[derive(Clone, Copy, Debug, PartialEq, Eq, Structural)]
pub enum Level {
    Error,
    Warn,
    Info,
    Debug,
    Trace,
}

/// The least severe level that is still emitted; `Off` emits nothing.
#[derive(Clone, Copy, Debug, PartialEq, Eq, Structural)]
pub enum LevelFilter {
    Off,
    Error,
    Warn,
    Info,
    Debug,
    Trace,
}

impl Level {
    /// Position in the order of the levels: 1 for `Error` up to 5 for `Trace`.
    /// A smaller number is a more severe level.
    pub open spec fn verbosity(self) -> nat {
        match self {
            Level::Error => 1,
            Level::Warn => 2,
            Level::Info => 3,
            Level::Debug => 4,
            Level::Trace => 5,
        }
    }

    /// The ANSI foreground colour of the level.
    pub open spec fn color_code(self) -> u8 {
        match self {
            Level::Error => 31,
            Level::Warn => 93,
            Level::Info => 34,
            Level::Debug => 32,
            Level::Trace => 90,
        }
    }

    /// The upper-case display name of the level.
    pub open spec fn name(self) -> Seq<char> {
        match self {
            Level::Error => "ERROR"@,
            Level::Warn => "WARN"@,
            Level::Info => "INFO"@,
            Level::Debug => "DEBUG"@,
            Level::Trace => "TRACE"@,
        }
    }

    /// `self` is at least as severe as `other`.
    pub open spec fn at_least_as_severe_as(self, other: Level) -> bool {
        self.verbosity() <= other.verbosity()
    }
}

impl LevelFilter {
    /// Position in the order of the filters: 0 for `Off`, then as
    /// [`Level::verbosity`] for the level of the same name.
    pub open spec fn verbosity(self) -> nat {
        match self {
            LevelFilter::Off => 0,
            LevelFilter::Error => 1,
            LevelFilter::Warn => 2,
            LevelFilter::Info => 3,
            LevelFilter::Debug => 4,
            LevelFilter::Trace => 5,
        }
    }

    /// The level a filter is named after; `Off` has none.
    pub open spec fn threshold(self) -> Option<Level> {
        match self {
            LevelFilter::Off => None,
            LevelFilter::Error => Some(Level::Error),
            LevelFilter::Warn => Some(Level::Warn),
            LevelFilter::Info => Some(Level::Info),
            LevelFilter::Debug => Some(Level::Debug),
            LevelFilter::Trace => Some(Level::Trace),
        }
    }

    /// Whether a record of severity `level` passes the filter.
    pub open spec fn enables(self, level: Level) -> bool {
        level.verbosity() <= self.verbosity()
    }
}

/// The ANSI foreground colour code in which records of `level` are shown.
pub fn level_to_color_code(level: Level) -> (code: u8)
    ensures
        code == level.color_code(),
{
    match level {
        Level::Error => 31,
        Level::Warn => 93,
        Level::Info => 34,
        Level::Debug => 32,
        Level::Trace => 90,
    }
}

/// Calls `log::Level::as_str` on the level of the same name. The contract
/// claims that the crate's name table spells each level in upper case:
/// `ERROR`, `WARN`, `INFO`, `DEBUG`, `TRACE`.
#[verifier::external_body]
pub(crate) fn level_name(level: Level) -> (name: &'static str)
    ensures
        name@ == level.name(),
{
    let outside = match level {
        Level::Error => log::Level::Error,
        Level::Warn => log::Level::Warn,
        Level::Info => log::Level::Info,
        Level::Debug => log::Level::Debug,
        Level::Trace => log::Level::Trace,
    };
    outside.as_str()
}

/// Compares a `log::Level` with a `log::LevelFilter` by `<=`, each taken as
/// the value of the same name. The contract claims that the crate orders both
/// by their discriminants, `Off` = 0 and `Error` = 1 up to `Trace` = 5.
#[verifier::external_body]
pub(crate) fn level_passes(level: Level, filter: LevelFilter) -> (passes: bool)
    ensures
        passes == filter.enables(level),
{
    let lhs = match level {
        Level::Error => log::Level::Error, Level::Warn => log::Level::Warn,
        Level::Info => log::Level::Info, Level::Debug => log::Level::Debug,
        Level::Trace => log::Level::Trace,
    };
    let rhs = match filter {
        LevelFilter::Off => log::LevelFilter::Off, LevelFilter::Error => log::LevelFilter::Error,
        LevelFilter::Warn => log::LevelFilter::Warn, LevelFilter::Info => log::LevelFilter::Info,
        LevelFilter::Debug => log::LevelFilter::Debug, LevelFilter::Trace => log::LevelFilter::Trace,
    };
    lhs <= rhs
}

/// A record is emitted exactly when the filter is not `Off` and the record
/// is at least as severe as the level the filter is named after.
pub proof fn lemma_enabled_iff_severe_enough(filter: LevelFilter, level: Level)
    ensures
        filter.enables(level) <==> (filter.threshold() matches Some(least)
            && level.at_least_as_severe_as(least)),
        filter == LevelFilter::Off ==> !filter.enables(level),
{
}

} // verus!
