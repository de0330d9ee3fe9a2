//! The startup surface: optional one-shot subcommands, or parameters for a
//! session that bypasses the browser.  The process boundary parses the
//! command line into these plain values.

use vstd::prelude::*;

verus! {

/// The parsed command line: an optional subcommand; none means the
/// interactive browser.
pub struct Cli {
    pub command: Option<Command>,
}

/// One-shot subcommands, and the direct-session starters.
pub enum Command {
    /// Add a task to the store and exit.
    Add(Add),
    /// List the stored tasks and exit.
    List,
    /// Start a session on the stored task with the given identity.
    WorkOn(WorkOn),
    /// Start a session with explicit durations, on no stored task.
    Start(Start),
    /// Mark the stored task with the given identity complete and exit.
    Complete(Complete),
}

/// Durations, in minutes, for a session on an unsaved task.
pub struct Start {
    pub work_mins: u64,
    pub short_break_mins: u64,
    pub long_break_mins: u64,
}

/// The identity of the stored task to work on.
pub struct WorkOn {
    pub id: i64,
}

/// A task to add: description and durations in minutes.
pub struct Add {
    pub desc: String,
    pub work_mins: u64,
    pub short_break_mins: u64,
    pub long_break_mins: u64,
}

/// The identity of the stored task to mark complete.
pub struct Complete {
    pub id: i64,
}

} // verus!
