use batchalign_core::error::ServerError;
use batchalign_core::job::UnixTimestamp;

fn now_ms() -> i64 {
    std::time::SystemTime::now().duration_since(std::time::UNIX_EPOCH).expect("clock after epoch").as_millis() as i64
}
use batchalign_core::queue::{wait_duration, IDLE_POLL_INTERVAL_MS};
use batchalign_core::runtime::{shutdown_result, shutdown_summary, ShutdownError, ShutdownSummary};
use batchalign_core::temporal::{
    non_empty_string, retry_after_ms, retry_after_ms_from_retry_at, temporal_workflow_status_is_active,
    temporal_workflow_status_name, BatchalignJobWorkflow, BatchalignTemporalActivities, HeartbeatAction,
    HostedJobRunOutcome, TemporalJobActivityInput, TemporalJobActivityOutcome, TemporalJobWorkflowInput,
    TemporalWorkflowStatus, WorkflowAction, WorkflowEvent, workflow_execution_info, workflow_conflict_policy,
    workflow_start_result, DescribedExecution, DescribedWorkflow, TemporalWorkflowStartMode, WorkflowDescribeOutcome,
    WorkflowIdConflictPolicy, WorkflowStartOutcome, cancel_reason, jobs_to_resume, workflow_interaction_result,
    WorkflowInteraction, WorkflowInteractionOutcome,
};
use batchalign_core::job::JobStatus;

#[test]
fn wait_duration_uses_idle_poll_interval_without_deadline() {
    assert_eq!(wait_duration(UnixTimestamp(10), None), IDLE_POLL_INTERVAL_MS);
}

#[test]
fn wait_duration_is_zero_for_expired_deadline() {
    assert_eq!(wait_duration(UnixTimestamp(20), Some(UnixTimestamp(19))), 0);
}

#[test]
fn wait_duration_runs_until_a_future_deadline() {
    assert_eq!(wait_duration(UnixTimestamp(1_000), Some(UnixTimestamp(4_500))), 3_500);
    assert_eq!(wait_duration(UnixTimestamp(20), Some(UnixTimestamp(20))), 0);
    assert_eq!(IDLE_POLL_INTERVAL_MS, 30_000);
}

#[test]
fn retry_after_ms_clamps_past_deadlines() {
    assert_eq!(retry_after_ms_from_retry_at(UnixTimestamp(now_ms() - 10_000)), 0);
}

#[test]
fn retry_after_ms_counts_down_to_the_deadline() {
    assert_eq!(retry_after_ms(UnixTimestamp(5_250), UnixTimestamp(5_000)), 250);
    assert_eq!(retry_after_ms(UnixTimestamp(5_000), UnixTimestamp(5_000)), 0);
    let far = retry_after_ms_from_retry_at(UnixTimestamp(now_ms() + 60_000));
    assert!(far > 50_000 && far <= 60_000);
}

#[test]
fn temporal_status_name_normalizes_proto_values() {
    assert_eq!(temporal_workflow_status_name(TemporalWorkflowStatus::Canceled), "cancelled");
    assert_eq!(temporal_workflow_status_name(TemporalWorkflowStatus::ContinuedAsNew), "continued-as-new");
}

#[test]
fn temporal_active_status_matches_running_and_paused_only() {
    assert!(temporal_workflow_status_is_active(TemporalWorkflowStatus::Running));
    assert!(temporal_workflow_status_is_active(TemporalWorkflowStatus::Paused));
    for status in [
        TemporalWorkflowStatus::Unspecified,
        TemporalWorkflowStatus::Completed,
        TemporalWorkflowStatus::Failed,
        TemporalWorkflowStatus::Canceled,
        TemporalWorkflowStatus::Terminated,
        TemporalWorkflowStatus::ContinuedAsNew,
        TemporalWorkflowStatus::TimedOut,
    ] {
        assert!(!temporal_workflow_status_is_active(status));
    }
}

#[test]
fn non_empty_string_rejects_whitespace() {
    assert_eq!(non_empty_string(""), None);
    assert_eq!(non_empty_string("   "), None);
    assert_eq!(non_empty_string("run-123"), Some("run-123".to_string()));
}

#[test]
fn workflow_runs_attempts_until_completion() {
    let workflow = BatchalignJobWorkflow::new(TemporalJobWorkflowInput {
        job_id: "job-7".to_string(),
        activity_timeout_s: 0,
        heartbeat_timeout_s: 30,
    });
    assert_eq!(
        workflow.next_action(WorkflowEvent::Started),
        WorkflowAction::StartActivity {
            input: TemporalJobActivityInput { job_id: "job-7".to_string() },
            start_to_close_timeout_s: 1,
            heartbeat_timeout_s: 30,
        }
    );
    assert_eq!(
        workflow.next_action(WorkflowEvent::ActivityFinished(TemporalJobActivityOutcome::Requeued { retry_after_ms: 0 })),
        WorkflowAction::Sleep { ms: 1 }
    );
    assert_eq!(
        workflow.next_action(WorkflowEvent::ActivityFinished(TemporalJobActivityOutcome::Requeued { retry_after_ms: 750 })),
        WorkflowAction::Sleep { ms: 750 }
    );
    assert!(matches!(workflow.next_action(WorkflowEvent::TimerFired), WorkflowAction::StartActivity { .. }));
    assert_eq!(
        workflow.next_action(WorkflowEvent::ActivityFinished(TemporalJobActivityOutcome::Completed)),
        WorkflowAction::Finish
    );
}

#[test]
fn activity_forwards_cancellation_once() {
    let mut activity = BatchalignTemporalActivities::new();
    assert_eq!(activity.on_heartbeat(false), HeartbeatAction::Record);
    assert_eq!(activity.on_heartbeat(true), HeartbeatAction::RecordAndForwardCancel);
    assert_eq!(activity.on_heartbeat(true), HeartbeatAction::Record);
    assert!(activity.forwarded_cancel);
}

#[test]
fn activity_heartbeat_is_half_the_timeout() {
    assert_eq!(BatchalignTemporalActivities::heartbeat_interval_ms(None), 5_000);
    assert_eq!(BatchalignTemporalActivities::heartbeat_interval_ms(Some(30_000)), 15_000);
    assert_eq!(BatchalignTemporalActivities::heartbeat_interval_ms(Some(1_500)), 1_000);
}

#[test]
fn activity_outcome_carries_the_retry_delay() {
    let now = UnixTimestamp(10_000);
    assert_eq!(
        BatchalignTemporalActivities::attempt_outcome(Ok(HostedJobRunOutcome::Completed), now),
        Ok(TemporalJobActivityOutcome::Completed)
    );
    assert_eq!(
        BatchalignTemporalActivities::attempt_outcome(
            Ok(HostedJobRunOutcome::Requeued { retry_at: UnixTimestamp(12_500) }),
            now
        ),
        Ok(TemporalJobActivityOutcome::Requeued { retry_after_ms: 2_500 })
    );
    assert_eq!(
        BatchalignTemporalActivities::attempt_outcome(Err(ServerError::Validation("x".to_string())), now),
        Err(ServerError::Validation("x".to_string()))
    );
}

#[test]
fn shutdown_reports_unavailable_and_dropped_supervisors() {
    assert_eq!(shutdown_result(false, None), Err(ShutdownError::Unavailable));
    assert_eq!(shutdown_result(true, None), Err(ShutdownError::ReplyDropped));
    let summary = shutdown_summary(true, 2);
    assert_eq!(summary, ShutdownSummary { timed_out: true, remaining_jobs: 2 });
    assert_eq!(shutdown_result(true, Some(summary)), Ok(summary));
    assert_eq!(
        ShutdownError::Unavailable.message(),
        "runtime supervisor unavailable before shutdown command could be sent"
    );
    assert_eq!(ShutdownError::ReplyDropped.message(), "runtime supervisor dropped shutdown status before replying");
}

#[test]
fn workflow_description_projects_to_operator_view() {
    let described = WorkflowDescribeOutcome::Described(Some(DescribedWorkflow {
        execution: Some(DescribedExecution { workflow_id: "  ".to_string(), run_id: "run-7".to_string() }),
        status: TemporalWorkflowStatus::Running,
        task_queue: "batchalign".to_string(),
        history_length: 12,
    }));
    let info = workflow_execution_info("job-1", described);
    assert_eq!(info.workflow_id, "job-1");
    assert_eq!(info.run_id.as_deref(), Some("run-7"));
    assert_eq!(info.status.as_deref(), Some("running"));
    assert_eq!(info.task_queue.as_deref(), Some("batchalign"));
    assert_eq!(info.history_length, Some(12));
    assert!(info.describe_error.is_none());

    let missing = workflow_execution_info("job-2", WorkflowDescribeOutcome::NotFound);
    assert_eq!(missing.workflow_id, "job-2");
    assert_eq!(missing.status.as_deref(), Some("not-found"));
    assert_eq!(missing.describe_error.as_deref(), Some("Workflow not found"));

    let failed = workflow_execution_info("job-3", WorkflowDescribeOutcome::Failed("transport closed".to_string()));
    assert_eq!(failed.status, None);
    assert_eq!(failed.describe_error.as_deref(), Some("transport closed"));
}

#[test]
fn workflow_start_policy_and_result() {
    assert_eq!(workflow_conflict_policy(TemporalWorkflowStartMode::ResumeOrUseExisting), WorkflowIdConflictPolicy::UseExisting);
    assert_eq!(workflow_conflict_policy(TemporalWorkflowStartMode::ReplaceExisting), WorkflowIdConflictPolicy::TerminateExisting);
    assert_eq!(workflow_start_result("job-1", WorkflowStartOutcome::Started), Ok(()));
    assert_eq!(workflow_start_result("job-1", WorkflowStartOutcome::AlreadyStarted), Ok(()));
    assert_eq!(
        workflow_start_result("job-1", WorkflowStartOutcome::Failed("unavailable".to_string())),
        Err(ServerError::Persistence("failed to start Temporal workflow for job job-1: unavailable".to_string()))
    );
}

#[test]
fn stopping_workflows_tolerates_missing_ones() {
    assert_eq!(workflow_interaction_result(WorkflowInteraction::Cancel, "job-1", WorkflowInteractionOutcome::NotFound), Ok(()));
    assert_eq!(workflow_interaction_result(WorkflowInteraction::Terminate, "job-1", WorkflowInteractionOutcome::Done), Ok(()));
    assert_eq!(
        workflow_interaction_result(WorkflowInteraction::Cancel, "job-1", WorkflowInteractionOutcome::Failed("deadline".to_string())),
        Err(ServerError::Persistence("failed to cancel Temporal workflow for job job-1: deadline".to_string()))
    );
    assert_eq!(
        workflow_interaction_result(WorkflowInteraction::Terminate, "job-2", WorkflowInteractionOutcome::Failed("denied".to_string())),
        Err(ServerError::Persistence("failed to terminate Temporal workflow for job job-2: denied".to_string()))
    );
    assert_eq!(cancel_reason("job-9"), "batchalign job job-9 cancelled");
}

#[test]
fn only_active_jobs_are_resumed() {
    let jobs = vec![
        ("a".to_string(), JobStatus::Queued),
        ("b".to_string(), JobStatus::Completed),
        ("c".to_string(), JobStatus::Running),
        ("d".to_string(), JobStatus::Cancelled),
    ];
    assert_eq!(jobs_to_resume(&jobs), vec!["a".to_string(), "c".to_string()]);
}
