//! The daemon application.
use vstd::prelude::*;

verus! {

/// The daemon; its run loop lives with the process.
pub struct App {}

impl App {
    pub fn new() -> (r: Self) {
        App {}
    }

    /// The line printed when the daemon starts.
    pub fn start_message(&self) -> (r: &'static str)
        ensures
            r@ == "Pookie daemon is running"@,
    {
        "Pookie daemon is running"
    }

    /// The line printed every heartbeat.
    pub fn heartbeat_message(&self) -> (r: &'static str)
        ensures
            r@ == "Daemon heartbeat"@,
    {
        "Daemon heartbeat"
    }

    /// Seconds between heartbeats.
    pub fn heartbeat_secs(&self) -> (r: u64)
        ensures
            r == 10,
    {
        10
    }
}

} // verus!
