//! The decisions of one hosted job run: load the job, take a job slot,
//! reserve host memory for its workers, handle a memory-gate rejection as
//! the host's policy says, dispatch the files, and finish the job with the
//! status its files earned. The host performs each action and reports what
//! happened as the next event.

use vstd::prelude::*;
use crate::error::{ServerError, spec_server_error_message};
use crate::host_memory::{HostMemoryError, error_message};
use crate::job::{JobStatus, UnixTimestamp};
use crate::runner::{ExecutionReservationError, final_job_status};
use crate::temporal::HostedJobRunOutcome;

verus! {

/// What the host does when the memory gate rejects a queued job.
#[derive(Clone, Copy, Debug, PartialEq, Eq, Structural)]
pub enum MemoryGateFailurePolicy {
    /// Ask the host's orchestrator whether to re-queue the job.
    Queued,
    /// Fail the job at once.
    FailJob,
}

/// The orchestrator's answer to a memory-gate rejection.
#[derive(Clone, Copy, Debug, PartialEq, Eq, Structural)]
pub enum MemoryGateRejectionDisposition {
    /// The job was re-queued until `retry_at`.
    Requeued { retry_at: UnixTimestamp },
    /// The runner should fail the job.
    FailJob,
}

/// The orchestrator's answer to a memory-gate rejection: re-queue the job
/// until one backoff period from now.
pub fn requeue_after_rejection(now: UnixTimestamp, backoff_ms: i64) -> (r: MemoryGateRejectionDisposition)
    requires
        backoff_ms >= 0,
        now.0 + backoff_ms <= i64::MAX,
    ensures
        r matches MemoryGateRejectionDisposition::Requeued { retry_at } && retry_at.0 == now.0 + backoff_ms,
{
    MemoryGateRejectionDisposition::Requeued { retry_at: UnixTimestamp(now.0 + backoff_ms) }
}

/// Where a run stands.
#[derive(Clone, Copy, Debug, PartialEq, Eq, Structural)]
pub enum HostedRunPhase {
    LoadingSnapshot,
    AcquiringSlot,
    Reserving,
    HandlingRejection,
    Dispatching,
    Completing,
    Finished,
}

/// What the job's files came to once dispatch returned.
#[derive(Clone, Copy, Debug, PartialEq, Eq, Structural)]
pub struct CompletionSnapshot {
    pub cancelled: bool,
    pub all_failed: bool,
}

/// What the host reports after performing an action.
#[derive(Debug, PartialEq, Eq)]
pub enum HostedRunEvent {
    /// The job's snapshot was looked up.
    SnapshotLoaded { present: bool, cancelled: bool },
    /// A job slot was granted; cancellation was checked again.
    SlotAcquired { cancelled: bool },
    /// The memory reservation finished: the granted worker count, or why not.
    ReservationFinished(Result<usize, ExecutionReservationError>),
    /// The orchestrator answered a memory-gate rejection.
    RejectionHandled(Result<MemoryGateRejectionDisposition, ServerError>),
    /// Dispatch of the files returned.
    DispatchFinished(Result<(), ServerError>),
    /// Unfinished files were forced terminal (this many) and the job's
    /// completion was read, if the job still exists.
    CompletionLoaded { forced_errors: usize, snapshot: Option<CompletionSnapshot> },
}

/// What the host does next.
#[derive(Debug, PartialEq, Eq)]
pub enum HostedRunAction {
    /// Wait for a job slot.
    AcquireSlot,
    /// Reserve host memory for the job's workers.
    Reserve,
    /// Ask the orchestrator what to do about this memory-gate rejection.
    HandleRejection { requested_workers: usize, error: HostMemoryError },
    /// Mark the job running, record its worker count, validate media, warm
    /// `workers` workers up front when `pre_scale`, and dispatch the files.
    Dispatch { workers: usize, pre_scale: bool },
    /// Force unfinished files terminal and read the job's completion.
    Complete,
    /// Fail the job with `message` (counting a memory-gate abort when
    /// `memory_gate_abort`) and return `error`.
    FailJob { message: String, memory_gate_abort: bool, error: ServerError },
    /// Record the job's final status and return `Completed`.
    Finalize { status: JobStatus },
    /// Return this result; the job is left as it is.
    Return(Result<HostedJobRunOutcome, ServerError>),
}

/// The state of one run.
pub struct HostedJobRun {
    pub policy: MemoryGateFailurePolicy,
    pub phase: HostedRunPhase,
    /// The message of the rejection being handled.
    pub rejection_message: Option<String>,
}

/// The events each phase waits for.
pub open spec fn accepts(phase: HostedRunPhase, event: HostedRunEvent) -> bool {
    match phase {
        HostedRunPhase::LoadingSnapshot => event is SnapshotLoaded,
        HostedRunPhase::AcquiringSlot => event is SlotAcquired,
        HostedRunPhase::Reserving => event is ReservationFinished,
        HostedRunPhase::HandlingRejection => event is RejectionHandled,
        HostedRunPhase::Dispatching => event is DispatchFinished,
        HostedRunPhase::Completing => event is CompletionLoaded,
        HostedRunPhase::Finished => false,
    }
}

/// `action` fails the job with `e`, recording `e`'s own message.
pub open spec fn fails_with(action: HostedRunAction, e: ServerError, memory_gate_abort: bool) -> bool {
    action matches HostedRunAction::FailJob { message, memory_gate_abort: abort, error }
        && error == e
        && message@ == spec_server_error_message(e)
        && abort == memory_gate_abort
}

/// `action` fails the job for memory pressure with this message.
pub open spec fn fails_for_memory(action: HostedRunAction, msg: Seq<char>) -> bool {
    action matches HostedRunAction::FailJob { message, memory_gate_abort, error }
        && message@ == msg
        && memory_gate_abort
        && (error matches ServerError::MemoryPressure(m) && m@ == msg)
}

/// One step of the run: the phase it moves to and the action, given the
/// phase it was in and the event.
pub open spec fn step_spec(
    policy: MemoryGateFailurePolicy,
    phase: HostedRunPhase,
    rejection_message: Option<String>,
    event: HostedRunEvent,
    next_phase: HostedRunPhase,
    action: HostedRunAction,
) -> bool {
    match event {
        HostedRunEvent::SnapshotLoaded { present, cancelled } =>
            if !present || cancelled {
                next_phase == HostedRunPhase::Finished
                    && action == HostedRunAction::Return(Ok(HostedJobRunOutcome::Completed))
            } else {
                next_phase == HostedRunPhase::AcquiringSlot && action is AcquireSlot
            },
        HostedRunEvent::SlotAcquired { cancelled } =>
            if cancelled {
                next_phase == HostedRunPhase::Finished
                    && action == HostedRunAction::Return(Ok(HostedJobRunOutcome::Completed))
            } else {
                next_phase == HostedRunPhase::Reserving && action is Reserve
            },
        HostedRunEvent::ReservationFinished(r) => match r {
            Ok(workers) =>
                next_phase == HostedRunPhase::Dispatching
                    && action == (HostedRunAction::Dispatch { workers, pre_scale: workers > 1 }),
            Err(ExecutionReservationError::Capacity { requested_workers, error }) => match policy {
                MemoryGateFailurePolicy::Queued =>
                    next_phase == HostedRunPhase::HandlingRejection
                        && action == (HostedRunAction::HandleRejection { requested_workers, error }),
                MemoryGateFailurePolicy::FailJob =>
                    next_phase == HostedRunPhase::Finished && fails_for_memory(action, error_message(error)),
            },
            Err(ExecutionReservationError::Fatal(e)) =>
                next_phase == HostedRunPhase::Finished && fails_with(action, e, false),
        },
        HostedRunEvent::RejectionHandled(d) => match d {
            Ok(MemoryGateRejectionDisposition::Requeued { retry_at }) =>
                next_phase == HostedRunPhase::Finished
                    && action == HostedRunAction::Return(Ok(HostedJobRunOutcome::Requeued { retry_at })),
            Ok(MemoryGateRejectionDisposition::FailJob) =>
                next_phase == HostedRunPhase::Finished
                    && fails_for_memory(action, match rejection_message {
                        Some(m) => m@,
                        None => Seq::empty(),
                    }),
            Err(e) =>
                next_phase == HostedRunPhase::Finished && action == HostedRunAction::Return(Err(e)),
        },
        HostedRunEvent::DispatchFinished(r) => match r {
            Ok(()) => next_phase == HostedRunPhase::Completing && action is Complete,
            Err(e) => next_phase == HostedRunPhase::Finished && fails_with(action, e, false),
        },
        HostedRunEvent::CompletionLoaded { forced_errors, snapshot } =>
            next_phase == HostedRunPhase::Finished && match snapshot {
                None => action == HostedRunAction::Return(Ok(HostedJobRunOutcome::Completed)),
                Some(c) => action == (HostedRunAction::Finalize {
                    status: final_job_status_spec(c.cancelled, forced_errors, c.all_failed),
                }),
            },
    }
}


/// Whether this event is a capacity rejection that the run keeps to hand to
/// the orchestrator (under the queued policy); the run then remembers the
/// rejection's message for a later failure.
pub open spec fn stores_rejection(policy: MemoryGateFailurePolicy, event: HostedRunEvent) -> bool {
    policy == MemoryGateFailurePolicy::Queued
        && event matches HostedRunEvent::ReservationFinished(Err(ExecutionReservationError::Capacity { .. }))
}

/// The action ends the run: the job is failed, finalized, or left, and a
/// result is returned.
pub open spec fn is_final_action(action: HostedRunAction) -> bool {
    action is FailJob || action is Finalize || action is Return
}

/// A run finishes exactly when its action ends it, and every failure it
/// records on the job is the very error it returns.
pub proof fn lemma_finishing_actions(
    policy: MemoryGateFailurePolicy,
    phase: HostedRunPhase,
    rejection_message: Option<String>,
    event: HostedRunEvent,
    next_phase: HostedRunPhase,
    action: HostedRunAction,
)
    requires
        accepts(phase, event),
        phase == HostedRunPhase::HandlingRejection ==> rejection_message is Some,
        step_spec(policy, phase, rejection_message, event, next_phase, action),
    ensures
        (next_phase == HostedRunPhase::Finished) == is_final_action(action),
        action matches HostedRunAction::FailJob { message, error, .. } ==> spec_server_error_message(error) == message@,
{
}

/// Under the fail-job policy a run never waits on the orchestrator and never
/// re-queues its job: a memory-gate rejection fails the job for memory
/// pressure.
pub proof fn lemma_fail_policy_never_requeues(
    phase: HostedRunPhase,
    rejection_message: Option<String>,
    event: HostedRunEvent,
    next_phase: HostedRunPhase,
    action: HostedRunAction,
)
    requires
        accepts(phase, event),
        phase != HostedRunPhase::HandlingRejection,
        step_spec(MemoryGateFailurePolicy::FailJob, phase, rejection_message, event, next_phase, action),
    ensures
        next_phase != HostedRunPhase::HandlingRejection,
        !(action matches HostedRunAction::Return(Ok(HostedJobRunOutcome::Requeued { .. }))),
        event matches HostedRunEvent::ReservationFinished(Err(ExecutionReservationError::Capacity { error, .. }))
            ==> fails_for_memory(action, error_message(error)),
{
}

/// Files are dispatched only once memory was reserved, with the granted
/// worker count, and the job is finalized only after dispatch returned, with
/// the status its completion earns.
pub proof fn lemma_dispatch_and_finalize_order(
    policy: MemoryGateFailurePolicy,
    phase: HostedRunPhase,
    rejection_message: Option<String>,
    event: HostedRunEvent,
    next_phase: HostedRunPhase,
    action: HostedRunAction,
)
    requires
        accepts(phase, event),
        step_spec(policy, phase, rejection_message, event, next_phase, action),
    ensures
        action matches HostedRunAction::Dispatch { workers, pre_scale } ==> {
            &&& phase == HostedRunPhase::Reserving
            &&& event == HostedRunEvent::ReservationFinished(Ok(workers))
            &&& pre_scale == (workers > 1)
        },
        action matches HostedRunAction::Finalize { status } ==> {
            &&& phase == HostedRunPhase::Completing
            &&& event matches HostedRunEvent::CompletionLoaded { forced_errors, snapshot: Some(c) }
                && status == final_job_status_spec(c.cancelled, forced_errors, c.all_failed)
        },
{
}

pub open spec fn final_job_status_spec(cancelled: bool, forced_errors: usize, all_failed: bool) -> JobStatus {
    if cancelled {
        JobStatus::Cancelled
    } else if forced_errors > 0 || all_failed {
        JobStatus::Failed
    } else {
        JobStatus::Completed
    }
}

fn fail_with(e: ServerError) -> (r: HostedRunAction)
    ensures
        fails_with(r, e, false),
{
    let message = e.message();
    HostedRunAction::FailJob { message, memory_gate_abort: false, error: e }
}

fn fail_for_memory(message: String) -> (r: HostedRunAction)
    ensures
        fails_for_memory(r, message@),
{
    let m = message.clone();
    HostedRunAction::FailJob { message, memory_gate_abort: true, error: ServerError::MemoryPressure(m) }
}

impl HostedJobRun {
    /// A run that starts by loading the job's snapshot.
    pub fn new(policy: MemoryGateFailurePolicy) -> (r: HostedJobRun)
        ensures
            r.policy == policy,
            r.phase == HostedRunPhase::LoadingSnapshot,
            r.rejection_message is None,
    {
        HostedJobRun { policy, phase: HostedRunPhase::LoadingSnapshot, rejection_message: None }
    }

    /// Whether the run waits for this kind of event now.
    pub fn accepts(&self, event: &HostedRunEvent) -> (r: bool)
        ensures
            r == accepts(self.phase, *event),
    {
        match self.phase {
            HostedRunPhase::LoadingSnapshot => matches!(event, HostedRunEvent::SnapshotLoaded { .. }),
            HostedRunPhase::AcquiringSlot => matches!(event, HostedRunEvent::SlotAcquired { .. }),
            HostedRunPhase::Reserving => matches!(event, HostedRunEvent::ReservationFinished(_)),
            HostedRunPhase::HandlingRejection => matches!(event, HostedRunEvent::RejectionHandled(_)),
            HostedRunPhase::Dispatching => matches!(event, HostedRunEvent::DispatchFinished(_)),
            HostedRunPhase::Completing => matches!(event, HostedRunEvent::CompletionLoaded { .. }),
            HostedRunPhase::Finished => false,
        }
    }

    /// Take one event and say what to do next.
    pub fn step(&mut self, event: HostedRunEvent) -> (action: HostedRunAction)
        requires
            accepts(old(self).phase, event),
            old(self).phase == HostedRunPhase::HandlingRejection ==> old(self).rejection_message is Some,
        ensures
            final(self).policy == old(self).policy,
            step_spec(old(self).policy, old(self).phase, old(self).rejection_message, event, final(self).phase, action),
            final(self).phase == HostedRunPhase::HandlingRejection ==> final(self).rejection_message is Some,
            stores_rejection(old(self).policy, event) ==> (final(self).rejection_message matches Some(m)
                && event matches HostedRunEvent::ReservationFinished(Err(ExecutionReservationError::Capacity { error, .. }))
                && m@ == error_message(error)),
            !stores_rejection(old(self).policy, event) ==> final(self).rejection_message == old(self).rejection_message,
    {
        match event {
            HostedRunEvent::SnapshotLoaded { present, cancelled } => {
                if !present || cancelled {
                    self.phase = HostedRunPhase::Finished;
                    HostedRunAction::Return(Ok(HostedJobRunOutcome::Completed))
                } else {
                    self.phase = HostedRunPhase::AcquiringSlot;
                    HostedRunAction::AcquireSlot
                }
            },
            HostedRunEvent::SlotAcquired { cancelled } => {
                if cancelled {
                    self.phase = HostedRunPhase::Finished;
                    HostedRunAction::Return(Ok(HostedJobRunOutcome::Completed))
                } else {
                    self.phase = HostedRunPhase::Reserving;
                    HostedRunAction::Reserve
                }
            },
            HostedRunEvent::ReservationFinished(r) => match r {
                Ok(workers) => {
                    self.phase = HostedRunPhase::Dispatching;
                    HostedRunAction::Dispatch { workers, pre_scale: workers > 1 }
                },
                Err(ExecutionReservationError::Capacity { requested_workers, error }) => match self.policy {
                    MemoryGateFailurePolicy::Queued => {
                        self.rejection_message = Some(error.message());
                        self.phase = HostedRunPhase::HandlingRejection;
                        HostedRunAction::HandleRejection { requested_workers, error }
                    },
                    MemoryGateFailurePolicy::FailJob => {
                        self.phase = HostedRunPhase::Finished;
                        fail_for_memory(error.message())
                    },
                },
                Err(ExecutionReservationError::Fatal(e)) => {
                    self.phase = HostedRunPhase::Finished;
                    fail_with(e)
                },
            },
            HostedRunEvent::RejectionHandled(d) => {
                self.phase = HostedRunPhase::Finished;
                match d {
                    Ok(MemoryGateRejectionDisposition::Requeued { retry_at }) => {
                        HostedRunAction::Return(Ok(HostedJobRunOutcome::Requeued { retry_at }))
                    },
                    Ok(MemoryGateRejectionDisposition::FailJob) => {
                        let message = match &self.rejection_message {
                            Some(m) => m.clone(),
                            None => String::new(),
                        };
                        fail_for_memory(message)
                    },
                    Err(e) => HostedRunAction::Return(Err(e)),
                }
            },
            HostedRunEvent::DispatchFinished(r) => match r {
                Ok(()) => {
                    self.phase = HostedRunPhase::Completing;
                    HostedRunAction::Complete
                },
                Err(e) => {
                    self.phase = HostedRunPhase::Finished;
                    fail_with(e)
                },
            },
            HostedRunEvent::CompletionLoaded { forced_errors, snapshot } => {
                self.phase = HostedRunPhase::Finished;
                match snapshot {
                    None => HostedRunAction::Return(Ok(HostedJobRunOutcome::Completed)),
                    Some(c) => HostedRunAction::Finalize {
                        status: final_job_status(c.cancelled, forced_errors, c.all_failed),
                    },
                }
            },
        }
    }
}

} // verus!
