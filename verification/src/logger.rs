//! The logging facade: a logger with a level filter, the slot that holds the
//! one active logger, and the line format of an emitted record.

use vstd::prelude::*;
use crate::console::Stdout;
use crate::level::{
    lemma_enabled_iff_severe_enough, level_name, level_passes, level_to_color_code, Level,
    LevelFilter,
};
use crate::text::{decimal, same_text};

verus! {

/// Identifies the execution context in every log line. There is one core, so
/// it is fixed.
pub const ORIGIN: u64 = 0;

/// The line that an emitted record puts on the console: the colour escape,
/// the bracketed level name and origin, the message, the escape that resets
/// the styling, and a line feed.
pub open spec fn log_line(level: Level, message: Seq<char>) -> Seq<char> {
    "\x1b["@ + decimal(level.color_code() as nat) + "m["@ + level.name() + "]["@ + decimal(
        ORIGIN as nat,
    ) + "] "@ + message + "\x1b[0m"@ + seq!['\n']
}

/// What one logging call under `filter` puts on the console: the record's
/// line if the filter enables its level, and nothing otherwise.
pub open spec fn emitted(filter: LevelFilter, level: Level, message: Seq<char>) -> Seq<char> {
    if filter.enables(level) {
        log_line(level, message)
    } else {
        Seq::<char>::empty()
    }
}

/// The configured text as a sequence of characters, if there is any.
pub open spec fn config_text(config: Option<&str>) -> Option<Seq<char>> {
    match config {
        Some(text) => Some(text@),
        None => None,
    }
}

/// The filter that a configuration value selects: the one named exactly by
/// the value, and `Off` for every other value and for none.
pub open spec fn filter_for(config: Option<Seq<char>>) -> LevelFilter {
    match config {
        Some(text) => {
            if text == "ERROR"@ {
                LevelFilter::Error
            } else if text == "WARN"@ {
                LevelFilter::Warn
            } else if text == "INFO"@ {
                LevelFilter::Info
            } else if text == "DEBUG"@ {
                LevelFilter::Debug
            } else if text == "TRACE"@ {
                LevelFilter::Trace
            } else {
                LevelFilter::Off
            }
        },
        None => LevelFilter::Off,
    }
}

/// Maps the boot-time configuration value to a level filter.
pub fn level_filter_from(config: Option<&str>) -> (filter: LevelFilter)
    ensures
        filter == filter_for(config_text(config)),
{
    match config {
        Some(text) => {
            if same_text(text, "ERROR") {
                LevelFilter::Error
            } else if same_text(text, "WARN") {
                LevelFilter::Warn
            } else if same_text(text, "INFO") {
                LevelFilter::Info
            } else if same_text(text, "DEBUG") {
                LevelFilter::Debug
            } else if same_text(text, "TRACE") {
                LevelFilter::Trace
            } else {
                LevelFilter::Off
            }
        },
        None => LevelFilter::Off,
    }
}

/// A logger that writes the records its filter enables to the console.
#[derive(Clone, Copy, Debug, PartialEq, Eq, Structural)]
pub struct MyLogger {
    pub filter: LevelFilter,
}

impl MyLogger {
    /// A logger with the given filter.
    pub fn new(filter: LevelFilter) -> (logger: MyLogger)
        ensures
            logger.filter == filter,
    {
        MyLogger { filter }
    }

    /// Whether a record of severity `level` is emitted.
    pub fn enabled(&self, level: Level) -> (yes: bool)
        ensures
            yes == self.filter.enables(level),
    {
        level_passes(level, self.filter)
    }

    /// Emits the record as one line if its level is enabled, and does nothing
    /// otherwise.
    pub fn log(&self, out: &mut Stdout, level: Level, message: &str)
        ensures
            final(out)@ == old(out)@ + emitted(self.filter, level, message@),
    {
        if !self.enabled(level) {
            assert(out@ =~= old(out)@ + emitted(self.filter, level, message@));
            return;
        }
        out.write_str("\x1b[");
        out.write_decimal(level_to_color_code(level) as u64);
        out.write_str("m[");
        out.write_str(level_name(level));
        out.write_str("][");
        out.write_decimal(ORIGIN);
        out.write_str("] ");
        out.write_str(message);
        out.write_str("\x1b[0m");
        out.emit_char('\n');
        assert(out@ =~= old(out)@ + log_line(level, message@));
    }

    /// Writes are synchronous and unbuffered, so there is nothing to flush.
    pub fn flush(&self) {
    }
}

/// Why `init` refused to install a logger.
#[derive(Clone, Copy, Debug, PartialEq, Eq, Structural)]
pub enum InitError {
    /// A logger is installed already; the slot is single-assignment.
    AlreadyInitialized,
}

/// The slot of the one active logger. It starts empty, is filled once by
/// [`init`] and never changes afterwards.
pub struct Facade {
    logger: Option<MyLogger>,
}

impl Facade {
    /// The installed logger, if `init` has run.
    pub closed spec fn installed(&self) -> Option<MyLogger> {
        self.logger
    }

    /// The filter in force: that of the installed logger, and `Off` while
    /// none is installed.
    pub open spec fn max_level(&self) -> LevelFilter {
        match self.installed() {
            Some(logger) => logger.filter,
            None => LevelFilter::Off,
        }
    }

    /// An empty slot.
    pub fn new() -> (facade: Facade)
        ensures
            facade.installed() is None,
    {
        Facade { logger: None }
    }

    /// The installed logger, if any.
    pub fn logger(&self) -> (logger: Option<MyLogger>)
        ensures
            logger == self.installed(),
    {
        self.logger
    }

    /// Logs `message` at `level` through the installed logger. Without one,
    /// nothing is written.
    pub fn log(&self, out: &mut Stdout, level: Level, message: &str)
        ensures
            final(out)@ == old(out)@ + emitted(self.max_level(), level, message@),
    {
        match self.logger {
            Some(logger) => logger.log(out, level, message),
            None => {
                assert(out@ =~= old(out)@ + emitted(LevelFilter::Off, level, message@));
            },
        }
    }

    /// Logs `message` at level `Error`.
    pub fn error(&self, out: &mut Stdout, message: &str)
        ensures
            final(out)@ == old(out)@ + emitted(self.max_level(), Level::Error, message@),
    {
        self.log(out, Level::Error, message);
    }

    /// Logs `message` at level `Warn`.
    pub fn warn(&self, out: &mut Stdout, message: &str)
        ensures
            final(out)@ == old(out)@ + emitted(self.max_level(), Level::Warn, message@),
    {
        self.log(out, Level::Warn, message);
    }

    /// Logs `message` at level `Info`.
    pub fn info(&self, out: &mut Stdout, message: &str)
        ensures
            final(out)@ == old(out)@ + emitted(self.max_level(), Level::Info, message@),
    {
        self.log(out, Level::Info, message);
    }

    /// Logs `message` at level `Debug`.
    pub fn debug(&self, out: &mut Stdout, message: &str)
        ensures
            final(out)@ == old(out)@ + emitted(self.max_level(), Level::Debug, message@),
    {
        self.log(out, Level::Debug, message);
    }

    /// Logs `message` at level `Trace`.
    pub fn trace(&self, out: &mut Stdout, message: &str)
        ensures
            final(out)@ == old(out)@ + emitted(self.max_level(), Level::Trace, message@),
    {
        self.log(out, Level::Trace, message);
    }
}

/// Installs the logger that the configuration value selects. The slot takes a
/// logger once: on a filled slot the call fails and changes nothing.
pub fn init(facade: &mut Facade, config: Option<&str>) -> (done: Result<(), InitError>)
    ensures
        done is Ok <==> old(facade).installed() is None,
        done is Ok ==> final(facade).installed() == Some(
            (MyLogger { filter: filter_for(config_text(config)) }),
        ),
        done is Err ==> *final(facade) == *old(facade),
        done is Err ==> done == Err::<(), InitError>(InitError::AlreadyInitialized),
{
    if facade.logger.is_some() {
        return Err(InitError::AlreadyInitialized);
    }
    facade.logger = Some(MyLogger::new(level_filter_from(config)));
    Ok(())
}

/// A logging call writes the record's line, and nothing else, exactly when
/// the filter names a level and the record is at least as severe as that
/// level; otherwise it writes nothing at all.
pub proof fn lemma_emitted_iff_severe_enough(
    filter: LevelFilter,
    level: Level,
    message: Seq<char>,
)
    ensures
        emitted(filter, level, message).len() > 0 <==> (filter.threshold() matches Some(least)
            && level.at_least_as_severe_as(least)),
        emitted(filter, level, message).len() > 0 ==> emitted(filter, level, message) == log_line(
            level,
            message,
        ),
{
    lemma_enabled_iff_severe_enough(filter, level);
}

/// A filter of `Off` lets no record through, and so does a slot before
/// `init`, and a configuration that is not set.
pub proof fn lemma_off_is_silent(facade: Facade, level: Level, message: Seq<char>)
    ensures
        emitted(LevelFilter::Off, level, message) == Seq::<char>::empty(),
        filter_for(None) == LevelFilter::Off,
        facade.installed() is None ==> emitted(facade.max_level(), level, message)
            == Seq::<char>::empty(),
{
}

/// Logging keeps no memory of earlier records: the same record logged twice
/// under the same filter extends the console by the same text both times.
pub proof fn lemma_log_twice(
    filter: LevelFilter,
    level: Level,
    message: Seq<char>,
    before: Seq<char>,
    between: Seq<char>,
    after: Seq<char>,
)
    requires
        between == before + emitted(filter, level, message),
        after == between + emitted(filter, level, message),
    ensures
        after == before + emitted(filter, level, message) + emitted(filter, level, message),
        after.subrange(before.len() as int, between.len() as int) == after.subrange(
            between.len() as int,
            after.len() as int,
        ),
        after.subrange(before.len() as int, between.len() as int) == emitted(
            filter,
            level,
            message,
        ),
{
    let line = emitted(filter, level, message);
    assert(after.subrange(before.len() as int, between.len() as int) =~= line);
    assert(after.subrange(between.len() as int, after.len() as int) =~= line);
}

} // verus!
