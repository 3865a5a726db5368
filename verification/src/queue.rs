//! The queued-job dispatcher's polling contract: what one poll of a queue
//! backend yields, and how long the dispatcher waits before polling again.

use vstd::prelude::*;
use crate::job::UnixTimestamp;

verus! {

/// How long an idle dispatcher sleeps when nothing is scheduled.
pub const IDLE_POLL_INTERVAL_MS: u64 = 30_000;

/// Result of polling a queue backend for currently eligible queued jobs.
#[derive(Debug, Default)]
pub struct QueuePoll {
    /// Jobs that are ready to run now and have been claimed by the backend.
    pub ready_job_ids: Vec<String>,
    /// Earliest future eligibility time among still-queued jobs.
    pub next_wake_at: Option<UnixTimestamp>,
}

/// A queue backend that hands queued jobs to the dispatcher.
pub trait QueueBackend {
    /// Tell the backend that queued-job state may have changed.
    fn notify(&self);

    /// Claim the queued jobs that are currently eligible to run.
    fn claim_ready_jobs(&self) -> QueuePoll;
}

/// How long to wait, in milliseconds, before the next poll: until the next
/// wake-up when it lies ahead, not at all when it has passed, and one idle
/// interval when nothing is scheduled.
pub open spec fn spec_wait_duration_ms(now: i64, next_wake_at: Option<UnixTimestamp>) -> int {
    match next_wake_at {
        Some(ts) => if ts.0 > now { ts.0 - now } else { 0 },
        None => IDLE_POLL_INTERVAL_MS as int,
    }
}

/// How long the dispatcher waits before polling again, in milliseconds.
pub fn wait_duration(now: UnixTimestamp, next_wake_at: Option<UnixTimestamp>) -> (r: u64)
    ensures
        r == spec_wait_duration_ms(now.0, next_wake_at),
{
    match next_wake_at {
        Some(ts) => {
            if ts.0 > now.0 {
                (ts.0 as i128 - now.0 as i128) as u64
            } else {
                0
            }
        },
        None => IDLE_POLL_INTERVAL_MS,
    }
}

/// A dispatcher never sleeps past a scheduled wake-up: the wait ends exactly
/// at the wake time, or at once when that time has passed.
pub proof fn lemma_wait_never_overshoots(now: i64, ts: UnixTimestamp)
    ensures
        now + spec_wait_duration_ms(now, Some(ts)) == if ts.0 > now { ts.0 as int } else { now as int },
        spec_wait_duration_ms(now, Some(ts)) >= 0,
{
}

} // verus!
