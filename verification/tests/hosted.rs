use batchalign_core::error::ServerError;
use batchalign_core::host_memory::HostMemoryError;
use batchalign_core::hosted::{
    CompletionSnapshot, HostedJobRun, HostedRunAction, HostedRunEvent, HostedRunPhase, MemoryGateFailurePolicy,
    MemoryGateRejectionDisposition, requeue_after_rejection,
};
use batchalign_core::job::{JobStatus, UnixTimestamp};
use batchalign_core::runner::ExecutionReservationError;
use batchalign_core::temporal::HostedJobRunOutcome;

fn capacity_error() -> HostMemoryError {
    HostMemoryError::CapacityRejected {
        label: "job-execution:job-1:morphotag:eng".to_string(),
        available_mb: 1000,
        pending_reserved_mb: 0,
        requested_mb: 4000,
        reserve_mb: 2000,
    }
}

fn step(run: &mut HostedJobRun, event: HostedRunEvent) -> HostedRunAction {
    assert!(run.accepts(&event));
    run.step(event)
}

#[test]
fn hosted_run_happy_path_finalizes_with_earned_status() {
    let mut run = HostedJobRun::new(MemoryGateFailurePolicy::Queued);
    assert_eq!(step(&mut run, HostedRunEvent::SnapshotLoaded { present: true, cancelled: false }), HostedRunAction::AcquireSlot);
    assert_eq!(step(&mut run, HostedRunEvent::SlotAcquired { cancelled: false }), HostedRunAction::Reserve);
    assert_eq!(
        step(&mut run, HostedRunEvent::ReservationFinished(Ok(3))),
        HostedRunAction::Dispatch { workers: 3, pre_scale: true }
    );
    assert_eq!(step(&mut run, HostedRunEvent::DispatchFinished(Ok(()))), HostedRunAction::Complete);
    let done = step(
        &mut run,
        HostedRunEvent::CompletionLoaded {
            forced_errors: 0,
            snapshot: Some(CompletionSnapshot { cancelled: false, all_failed: false }),
        },
    );
    assert_eq!(done, HostedRunAction::Finalize { status: JobStatus::Completed });
    assert_eq!(run.phase, HostedRunPhase::Finished);
    assert!(!run.accepts(&HostedRunEvent::DispatchFinished(Ok(()))));
}

#[test]
fn hosted_run_single_worker_is_not_prescaled_and_forced_errors_fail_the_job() {
    let mut run = HostedJobRun::new(MemoryGateFailurePolicy::FailJob);
    step(&mut run, HostedRunEvent::SnapshotLoaded { present: true, cancelled: false });
    step(&mut run, HostedRunEvent::SlotAcquired { cancelled: false });
    assert_eq!(
        step(&mut run, HostedRunEvent::ReservationFinished(Ok(1))),
        HostedRunAction::Dispatch { workers: 1, pre_scale: false }
    );
    step(&mut run, HostedRunEvent::DispatchFinished(Ok(())));
    let done = step(
        &mut run,
        HostedRunEvent::CompletionLoaded {
            forced_errors: 2,
            snapshot: Some(CompletionSnapshot { cancelled: false, all_failed: false }),
        },
    );
    assert_eq!(done, HostedRunAction::Finalize { status: JobStatus::Failed });
}

#[test]
fn hosted_run_stops_quietly_for_missing_or_cancelled_jobs() {
    let mut run = HostedJobRun::new(MemoryGateFailurePolicy::Queued);
    assert_eq!(
        step(&mut run, HostedRunEvent::SnapshotLoaded { present: false, cancelled: false }),
        HostedRunAction::Return(Ok(HostedJobRunOutcome::Completed))
    );

    let mut run = HostedJobRun::new(MemoryGateFailurePolicy::Queued);
    step(&mut run, HostedRunEvent::SnapshotLoaded { present: true, cancelled: false });
    assert_eq!(
        step(&mut run, HostedRunEvent::SlotAcquired { cancelled: true }),
        HostedRunAction::Return(Ok(HostedJobRunOutcome::Completed))
    );
}

#[test]
fn queued_policy_asks_orchestrator_and_requeues() {
    let mut run = HostedJobRun::new(MemoryGateFailurePolicy::Queued);
    step(&mut run, HostedRunEvent::SnapshotLoaded { present: true, cancelled: false });
    step(&mut run, HostedRunEvent::SlotAcquired { cancelled: false });
    let action = step(
        &mut run,
        HostedRunEvent::ReservationFinished(Err(ExecutionReservationError::Capacity {
            requested_workers: 4,
            error: capacity_error(),
        })),
    );
    assert_eq!(action, HostedRunAction::HandleRejection { requested_workers: 4, error: capacity_error() });
    let action = step(
        &mut run,
        HostedRunEvent::RejectionHandled(Ok(MemoryGateRejectionDisposition::Requeued { retry_at: UnixTimestamp(9000) })),
    );
    assert_eq!(action, HostedRunAction::Return(Ok(HostedJobRunOutcome::Requeued { retry_at: UnixTimestamp(9000) })));
}

#[test]
fn queued_policy_can_still_fail_the_job_for_memory() {
    let mut run = HostedJobRun::new(MemoryGateFailurePolicy::Queued);
    step(&mut run, HostedRunEvent::SnapshotLoaded { present: true, cancelled: false });
    step(&mut run, HostedRunEvent::SlotAcquired { cancelled: false });
    step(
        &mut run,
        HostedRunEvent::ReservationFinished(Err(ExecutionReservationError::Capacity {
            requested_workers: 4,
            error: capacity_error(),
        })),
    );
    let expected = capacity_error().message();
    let action = step(&mut run, HostedRunEvent::RejectionHandled(Ok(MemoryGateRejectionDisposition::FailJob)));
    assert_eq!(
        action,
        HostedRunAction::FailJob {
            message: expected.clone(),
            memory_gate_abort: true,
            error: ServerError::MemoryPressure(expected),
        }
    );
}

#[test]
fn fail_policy_fails_capacity_rejections_at_once() {
    let mut run = HostedJobRun::new(MemoryGateFailurePolicy::FailJob);
    step(&mut run, HostedRunEvent::SnapshotLoaded { present: true, cancelled: false });
    step(&mut run, HostedRunEvent::SlotAcquired { cancelled: false });
    let expected = capacity_error().message();
    assert!(expected.starts_with("host-memory reserve would be exceeded for job-execution:job-1:morphotag:eng"));
    let action = step(
        &mut run,
        HostedRunEvent::ReservationFinished(Err(ExecutionReservationError::Capacity {
            requested_workers: 4,
            error: capacity_error(),
        })),
    );
    assert_eq!(
        action,
        HostedRunAction::FailJob {
            message: expected.clone(),
            memory_gate_abort: true,
            error: ServerError::MemoryPressure(expected),
        }
    );
}

#[test]
fn fatal_reservation_and_dispatch_errors_fail_the_job_with_their_message() {
    let mut run = HostedJobRun::new(MemoryGateFailurePolicy::Queued);
    step(&mut run, HostedRunEvent::SnapshotLoaded { present: true, cancelled: false });
    step(&mut run, HostedRunEvent::SlotAcquired { cancelled: false });
    let action = step(
        &mut run,
        HostedRunEvent::ReservationFinished(Err(ExecutionReservationError::Fatal(ServerError::Persistence(
            "host-memory coordinator failed for job job-1: boom".to_string(),
        )))),
    );
    assert_eq!(
        action,
        HostedRunAction::FailJob {
            message: "host-memory coordinator failed for job job-1: boom".to_string(),
            memory_gate_abort: false,
            error: ServerError::Persistence("host-memory coordinator failed for job job-1: boom".to_string()),
        }
    );

    let mut run = HostedJobRun::new(MemoryGateFailurePolicy::Queued);
    step(&mut run, HostedRunEvent::SnapshotLoaded { present: true, cancelled: false });
    step(&mut run, HostedRunEvent::SlotAcquired { cancelled: false });
    step(&mut run, HostedRunEvent::ReservationFinished(Ok(2)));
    let action = step(&mut run, HostedRunEvent::DispatchFinished(Err(ServerError::Validation("bad options".to_string()))));
    assert_eq!(
        action,
        HostedRunAction::FailJob {
            message: "bad options".to_string(),
            memory_gate_abort: false,
            error: ServerError::Validation("bad options".to_string()),
        }
    );
}

#[test]
fn orchestrator_requeues_one_backoff_from_now() {
    assert_eq!(
        requeue_after_rejection(UnixTimestamp(10_000), 5_000),
        MemoryGateRejectionDisposition::Requeued { retry_at: UnixTimestamp(15_000) }
    );
}
