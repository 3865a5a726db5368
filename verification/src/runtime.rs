//! Server runtime reports: the runtime supervisor's shutdown summary and
//! errors, the control-plane health snapshot, and warmup targets.

use vstd::prelude::*;
use vstd::string::*;
use crate::commands::ReleasedCommand;

verus! {

/// Summary of the runtime supervisor's shutdown sequence.
#[derive(Clone, Copy, Debug, PartialEq, Eq, Structural)]
pub struct ShutdownSummary {
    /// The wait hit its deadline before every job task finished.
    pub timed_out: bool,
    /// Job tasks still running when the wait ended.
    pub remaining_jobs: usize,
}

/// Why the runtime supervisor could not report its shutdown.
#[derive(Clone, Copy, Debug, PartialEq, Eq, Structural)]
pub enum ShutdownError {
    /// The supervisor was gone before the shutdown command could be sent.
    Unavailable,
    /// The supervisor dropped its reply before answering.
    ReplyDropped,
}

pub open spec fn spec_shutdown_error_message(e: ShutdownError) -> Seq<char> {
    match e {
        ShutdownError::Unavailable => "runtime supervisor unavailable before shutdown command could be sent"@,
        ShutdownError::ReplyDropped => "runtime supervisor dropped shutdown status before replying"@,
    }
}

impl ShutdownError {
    /// The operator-facing message.
    pub fn message(&self) -> (r: &'static str)
        ensures
            r@ == spec_shutdown_error_message(*self),
    {
        match self {
            ShutdownError::Unavailable => "runtime supervisor unavailable before shutdown command could be sent",
            ShutdownError::ReplyDropped => "runtime supervisor dropped shutdown status before replying",
        }
    }
}

/// The result of asking the supervisor to shut down, from whether the
/// command could be sent and the reply that came back, if any.
pub fn shutdown_result(command_sent: bool, reply: Option<ShutdownSummary>) -> (r: Result<ShutdownSummary, ShutdownError>)
    ensures
        !command_sent ==> r == Err::<ShutdownSummary, ShutdownError>(ShutdownError::Unavailable),
        command_sent ==> r == match reply {
            Some(s) => Ok::<ShutdownSummary, ShutdownError>(s),
            None => Err(ShutdownError::ReplyDropped),
        },
{
    if !command_sent {
        return Err(ShutdownError::Unavailable);
    }
    match reply {
        Some(s) => Ok(s),
        None => Err(ShutdownError::ReplyDropped),
    }
}

/// The summary of a wait on the job tasks: it timed out when tasks were
/// still running at the deadline.
pub fn shutdown_summary(deadline_hit: bool, remaining_jobs: usize) -> (r: ShutdownSummary)
    ensures
        r.timed_out == deadline_hit,
        r.remaining_jobs == remaining_jobs,
{
    ShutdownSummary { timed_out: deadline_hit, remaining_jobs }
}

/// Store-backed health and queue-state snapshot of the control plane.
#[derive(Clone, Debug, PartialEq, Eq)]
pub struct ServerControlPlaneSnapshot {
    /// Node identifier used for queue-lease ownership.
    pub node_id: String,
    pub workers_available: i64,
    pub active_jobs: i64,
    pub worker_crashes: i64,
    pub attempts_started: i64,
    pub attempts_retried: i64,
    pub deferred_work_units: i64,
    pub forced_terminal_errors: i64,
    pub memory_gate_aborts: i64,
}

/// A command and language to warm up at server startup.
#[derive(Clone, Debug, PartialEq, Eq)]
pub struct WarmupTarget {
    pub command: ReleasedCommand,
    pub lang: String,
}

} // verus!
