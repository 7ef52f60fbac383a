//! Decisions of the command line tracker that do not depend on its I/O.

use vstd::prelude::*;

verus! {

/// Milliseconds to wait before retrying when a tracker had nothing to report.
pub const IDLE_RETRY_MS: u64 = 10;

/// Milliseconds to wait after each reported frame when no interval is configured.
pub const DEFAULT_INTERVAL_MS: u64 = 10;

/// The `track` command: runs the face and eye trackers with a configuration.
pub struct TrackCommand<C> {
    config: C,
    eye_debug: bool,
}

impl<C> TrackCommand<C> {
    /// The command for `config`; `eye_debug` adds the eye readings to the status lines.
    pub fn new(config: C, eye_debug: bool) -> (r: TrackCommand<C>)
        ensures
            r.config_spec() == config,
            r.eye_debug_spec() == eye_debug,
    {
        TrackCommand { config, eye_debug }
    }

    pub closed spec fn config_spec(&self) -> C {
        self.config
    }

    pub closed spec fn eye_debug_spec(&self) -> bool {
        self.eye_debug
    }

    /// The configuration the command runs with.
    pub fn config(&self) -> (r: &C)
        ensures
            *r == self.config_spec(),
    {
        &self.config
    }

    /// Whether the eye readings are shown.
    pub fn eye_debug(&self) -> (r: bool)
        ensures
            r == self.eye_debug_spec(),
    {
        self.eye_debug
    }
}

/// The pause after each reported frame, in milliseconds, for the configured
/// `interval`: the interval itself, no pause for an interval of 0, and
/// [`DEFAULT_INTERVAL_MS`] when no interval is configured.
pub fn throttle_delay(interval: Option<u64>) -> (r: Option<u64>)
    ensures
        r == match interval {
            Some(0) => None,
            Some(ms) => Some(ms),
            None => Some(DEFAULT_INTERVAL_MS),
        },
{
    match interval {
        Some(ms) => if ms > 0 {
            Some(ms)
        } else {
            None
        },
        None => Some(DEFAULT_INTERVAL_MS),
    }
}

} // verus!
