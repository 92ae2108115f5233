//! The timing heuristic of the sensor-polling loop.
//!
//! The monitor polls the sensor on a fixed cadence. Before each poll it
//! measures the wall-clock time since the previous iteration: a gap far
//! beyond the cadence is taken as evidence that the host was suspended, and
//! the session ends so that the supervisor rebuilds it and the sensor is
//! claimed afresh rather than read through a possibly stale claim. On a
//! normal cadence the monitor reads the sensor and publishes the mapped
//! target brightness.

use vstd::prelude::*;

verus! {

/// Interval between sensor polls, in milliseconds.
pub const POLL_INTERVAL_MS: u64 = 5_000;

/// Elapsed time between polls above which a suspend/resume cycle is
/// assumed, in milliseconds.
pub const TIME_WARP_MS: u64 = 20_000;

/// Cooldown before a failed session is restarted, in milliseconds.
pub const RESTART_COOLDOWN_MS: u64 = 10_000;

/// What the monitor does after measuring the time since its previous
/// iteration.
pub enum PollDecision {
    /// Far too long since the last poll: the host likely suspended, so end
    /// the session and let the supervisor rebuild it.
    RestartSession,
    /// Normal cadence: claim the sensor, read it, publish a target.
    ReadAndPublish,
}

/// Decide, from the milliseconds elapsed since the previous iteration,
/// whether this poll may proceed or the session must be rebuilt.
pub fn poll_decision(elapsed_ms: u64) -> (d: PollDecision)
    ensures
        d is RestartSession <==> elapsed_ms > TIME_WARP_MS,
        d is ReadAndPublish <==> elapsed_ms <= TIME_WARP_MS,
{
    if elapsed_ms > TIME_WARP_MS {
        PollDecision::RestartSession
    } else {
        PollDecision::ReadAndPublish
    }
}

} // verus!
