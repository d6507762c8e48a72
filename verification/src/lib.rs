//! Verified core of the cooee notification daemon: notification records,
//! configuration sections, daemon state, the socket protocol's decisions,
//! text-to-speech selection and popup placement.

pub mod text;
pub mod json;
pub mod config;
pub mod notification;
pub mod daemon;
pub mod client;

use vstd::prelude::*;

verus! {

/// The command line's subcommands.
#[derive(Debug)]
pub enum Command {
    /// Start the notification daemon
    Daemon,
    /// Speak the full body of the last notification
    Speak,
    /// Get or set Do Not Disturb mode
    Dnd {
        /// Mode: off, silent, full, toggle
        mode: Option<String>,
    },
    /// Dismiss the most recently received popup
    Dismiss,
    /// Open picker to invoke an action on the last notification
    Action,
    /// Print daemon status
    Status,
    /// Print notification history, newest first
    History {
        /// Show only the N most recent entries
        last: Option<usize>,
    },
}

} // verus!
