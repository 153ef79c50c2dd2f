//! Structured logger with child loggers and a shared log level.
//!
//! A child logger's context is `parent:child`, and parent and children share
//! one level, so changing it on one changes it for all. Messages are emitted
//! by the application's logging backend for the levels this logger enables.

use vstd::prelude::*;
use std::sync::{Arc, Mutex};

verus! {

/// `std::sync::Mutex` holds the shared level; only the wrappers below touch it.
#[verifier::external_type_specification]
#[verifier::external_body]
#[verifier::reject_recursive_types(T)]
pub struct ExMutex<T: ?Sized>(std::sync::Mutex<T>);

/// Log level with ordering: Debug < Info < Warn < Error < Off.
///
/// Setting the level to `Warn` lets only `Warn` and `Error` messages through;
/// `Off` filters everything (used by the no-op logger).
#[derive(Debug, Clone, Copy, PartialEq, Eq, PartialOrd, Ord, Structural)]
pub enum LogLevel {
    Debug,
    Info,
    Warn,
    Error,
    /// Filters all messages.
    Off,
}

impl Default for LogLevel {
    fn default() -> (r: Self)
        ensures
            r == LogLevel::Info,
    {
        LogLevel::Info
    }
}

/// Position of a level in the order Debug < Info < Warn < Error < Off.
pub open spec fn level_rank(l: LogLevel) -> nat {
    match l {
        LogLevel::Debug => 0,
        LogLevel::Info => 1,
        LogLevel::Warn => 2,
        LogLevel::Error => 3,
        LogLevel::Off => 4,
    }
}

fn rank(l: LogLevel) -> (r: u8)
    ensures
        r == level_rank(l),
{
    match l {
        LogLevel::Debug => 0,
        LogLevel::Info => 1,
        LogLevel::Warn => 2,
        LogLevel::Error => 3,
        LogLevel::Off => 4,
    }
}

/// Whether a message at `msg_level` passes a logger set to `current`.
pub open spec fn passes(msg_level: LogLevel, current: LogLevel) -> bool {
    level_rank(msg_level) >= level_rank(current)
}

/// Whether a message at `msg_level` passes a logger set to `current`.
pub fn level_passes(msg_level: LogLevel, current: LogLevel) -> (r: bool)
    ensures
        r == passes(msg_level, current),
{
    rank(msg_level) >= rank(current)
}

/// Law: nothing passes the `Off` level, and every message passes `Debug`
/// except that `Off` is not a message level.
pub proof fn law_off_filters_everything(msg_level: LogLevel)
    requires
        msg_level != LogLevel::Off,
    ensures
        !passes(msg_level, LogLevel::Off),
        passes(msg_level, LogLevel::Debug),
{
}

/// Calls `Arc::new(Mutex::new(level))`, a fresh shared cell.
#[verifier::external_body]
fn shared_level(level: LogLevel) -> Arc<Mutex<LogLevel>> {
    Arc::new(Mutex::new(level))
}

/// Calls `Mutex::lock` (recovering from poisoning) and reads the level. The
/// cell is shared with other loggers, possibly on other threads, so nothing
/// is promised of the value.
#[verifier::external_body]
fn read_level(cell: &Arc<Mutex<LogLevel>>) -> LogLevel {
    *cell.lock().unwrap_or_else(|e| e.into_inner())
}

/// Calls `Mutex::lock` (recovering from poisoning) and writes the level.
#[verifier::external_body]
fn write_level(cell: &Arc<Mutex<LogLevel>>, level: LogLevel) {
    *cell.lock().unwrap_or_else(|e| e.into_inner()) = level;
}

/// Calls `Arc::clone`: another handle on the same shared cell.
#[verifier::external_body]
fn share_level(cell: &Arc<Mutex<LogLevel>>) -> Arc<Mutex<LogLevel>> {
    Arc::clone(cell)
}

/// Structured logger with hierarchical context and a shared log level.
#[derive(Clone)]
pub struct Logger {
    context: String,
    level: Arc<Mutex<LogLevel>>,
}

impl Logger {
    pub closed spec fn context_view(&self) -> Seq<char> {
        self.context@
    }

    /// A root logger with the given context; its level starts at `Info`.
    pub fn new(context: &str) -> (r: Self)
        ensures
            r.context_view() == context@,
    {
        Logger { context: context.to_owned(), level: shared_level(LogLevel::Info) }
    }

    /// A child logger sharing this logger's level, with context `parent:name`.
    pub fn child(&self, name: &str) -> (r: Self)
        ensures
            r.context_view() == self.context_view() + ":"@ + name@,
    {
        let mut context = self.context.clone();
        context.append(":");
        context.append(name);
        Logger { context, level: share_level(&self.level) }
    }

    /// Set the shared log level (for this logger and every logger sharing it).
    pub fn set_level(&self, new_level: LogLevel) {
        write_level(&self.level, new_level);
    }

    /// The current shared log level.
    pub fn get_level(&self) -> LogLevel {
        read_level(&self.level)
    }

    /// The context string of this logger.
    pub fn context(&self) -> (r: &str)
        ensures
            r@ == self.context_view(),
    {
        self.context.as_str()
    }

    /// Whether a message at `msg_level` is emitted under the current level.
    pub fn is_enabled(&self, msg_level: LogLevel) -> (r: bool)
        ensures
            exists|current: LogLevel| r == #[trigger] passes(msg_level, current),
    {
        let current = self.get_level();
        level_passes(msg_level, current)
    }
}

/// A logger named `noop` whose level is `Off`, so it filters every message.
pub fn create_noop_logger() -> (r: Logger)
    ensures
        r.context_view() == "noop"@,
{
    let logger = Logger::new("noop");
    logger.set_level(LogLevel::Off);
    logger
}

} // verus!
