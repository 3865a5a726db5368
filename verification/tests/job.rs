use batchalign_core::commands::ReleasedCommand;
use batchalign_core::job::{
    find_conflicts, CompletedFileOutput, ContentType, FailureCategory, FileFailureRecord, FileProgressRecord,
    FileResultEntry, FileRetryRecord, FileStatus, FileStatusKind, Job, JobDispatchConfig, JobExecutionState,
    JobFilesystemConfig, JobIdentity, JobLeaseState, JobRuntimeControl, JobScheduleState, JobSourceContext, JobStatus,
    RecoveryDisposition, UnixTimestamp,
};
use batchalign_core::progress::FileProgressStage;

/// A small queued job for projection and conflict tests.
fn sample_job(job_id: &str, filenames: &[&str]) -> Job {
    Job {
        identity: JobIdentity { job_id: job_id.to_string(), correlation_id: format!("corr-{job_id}") },
        dispatch: JobDispatchConfig {
            command: ReleasedCommand::Morphotag,
            lang: "eng".to_string(),
            num_speakers: 1,
            options: "{}".to_string(),
            runtime_state: Vec::new(),
            debug_traces: false,
        },
        source: JobSourceContext {
            submitted_by: "127.0.0.1".to_string(),
            submitted_by_name: "localhost".to_string(),
            source_dir: "/corpus".to_string(),
        },
        filesystem: JobFilesystemConfig {
            filenames: filenames.iter().map(|f| f.to_string()).collect(),
            has_chat: filenames.iter().map(|_| true).collect(),
            staging_dir: "/tmp/job".to_string(),
            paths_mode: false,
            source_paths: Vec::new(),
            output_paths: Vec::new(),
            before_paths: Vec::new(),
            media_mapping: String::new(),
            media_subdir: String::new(),
        },
        execution: JobExecutionState {
            status: JobStatus::Queued,
            file_statuses: filenames.iter().map(|f| FileStatus::new(f.to_string())).collect(),
            results: Vec::new(),
            error: None,
            completed_files: 0,
        },
        schedule: JobScheduleState {
            submitted_at: UnixTimestamp(100),
            completed_at: None,
            next_eligible_at: None,
            num_workers: None,
            lease: JobLeaseState { leased_by_node: None, expires_at: None, heartbeat_at: None },
        },
        runtime: JobRuntimeControl { cancel_requested: false, runner_active: false },
    }
}

fn index_of(job: &Job, name: &str) -> usize {
    job.execution.file_statuses.iter().position(|f| f.filename == name).expect("file")
}

#[test]
fn pending_files_skip_terminal_entries() {
    let mut job = sample_job("job-1", &["a.cha", "b.cha"]);
    let a = index_of(&job, "a.cha");
    job.execution.file_statuses[a].status = FileStatusKind::Done;

    let pending = job.pending_files();

    assert_eq!(pending.len(), 1);
    assert_eq!(pending[0].filename, "b.cha");
}

#[test]
fn find_conflicts_uses_submitter_and_source_scope() {
    let mut active = sample_job("active", &["a.cha"]);
    active.execution.status = JobStatus::Running;

    let incoming = sample_job("incoming", &["a.cha"]);
    let jobs = vec![active];

    let conflicts = find_conflicts(&jobs, &incoming);

    assert_eq!(conflicts.len(), 1);
    assert_eq!(conflicts[0].filename, "a.cha");
    assert_eq!(conflicts[0].job_id, "active");
}

#[test]
fn prepare_for_restart_resets_unfinished_state() {
    let mut job = sample_job("job-1", &["a.cha", "b.cha"]);
    job.execution.status = JobStatus::Failed;
    job.execution.error = Some("failed".to_string());
    let a = index_of(&job, "a.cha");
    let b = index_of(&job, "b.cha");
    job.execution.file_statuses[a].status = FileStatusKind::Done;
    let retry_file = &mut job.execution.file_statuses[b];
    retry_file.status = FileStatusKind::Error;
    retry_file.error = Some("boom".to_string());
    retry_file.started_at = Some(UnixTimestamp(10));
    retry_file.finished_at = Some(UnixTimestamp(12));
    retry_file.progress_stage = Some(FileProgressStage::Aligning);
    job.execution.results.push(FileResultEntry {
        filename: "a.cha".to_string(),
        content_type: ContentType::Chat,
        error: None,
    });
    job.execution.results.push(FileResultEntry {
        filename: "b.cha".to_string(),
        content_type: ContentType::Chat,
        error: Some("boom".to_string()),
    });
    job.schedule.completed_at = Some(UnixTimestamp(20));
    job.schedule.next_eligible_at = Some(UnixTimestamp(25));
    job.schedule.lease.leased_by_node = Some("node-1".to_string());
    job.schedule.lease.expires_at = Some(UnixTimestamp(30));
    job.schedule.lease.heartbeat_at = Some(UnixTimestamp(28));
    job.runtime.runner_active = true;

    job.prepare_for_restart();

    assert_eq!(job.execution.status, JobStatus::Queued);
    assert_eq!(job.execution.error, None);
    assert_eq!(job.execution.completed_files, 1);
    assert_eq!(job.execution.results.len(), 1);
    assert_eq!(job.execution.file_statuses[index_of(&job, "a.cha")].status, FileStatusKind::Done);
    assert_eq!(job.execution.file_statuses[index_of(&job, "b.cha")].status, FileStatusKind::Queued);
    assert!(job.schedule.completed_at.is_none());
    assert!(job.schedule.next_eligible_at.is_none());
    assert!(job.schedule.lease.leased_by_node.is_none());
    assert!(!job.runtime.runner_active);
}

#[test]
fn reconcile_recovered_runtime_state_requeues_resumable_files() {
    let mut job = sample_job("job-1", &["a.cha", "b.cha"]);
    job.execution.status = JobStatus::Running;
    let a = index_of(&job, "a.cha");
    let b = index_of(&job, "b.cha");
    job.execution.file_statuses[a].status = FileStatusKind::Done;
    let resumable = &mut job.execution.file_statuses[b];
    resumable.status = FileStatusKind::Interrupted;
    resumable.started_at = Some(UnixTimestamp(10));
    resumable.finished_at = Some(UnixTimestamp(11));
    job.schedule.completed_at = Some(UnixTimestamp(20));
    job.schedule.next_eligible_at = Some(UnixTimestamp(21));
    job.schedule.lease.leased_by_node = Some("node-1".to_string());
    job.schedule.lease.expires_at = Some(UnixTimestamp(30));
    job.schedule.lease.heartbeat_at = Some(UnixTimestamp(28));

    let disposition = job.reconcile_recovered_runtime_state();

    assert_eq!(disposition, RecoveryDisposition::Requeued);
    assert_eq!(job.execution.status, JobStatus::Queued);
    assert_eq!(job.execution.file_statuses[b].status, FileStatusKind::Queued);
    assert!(job.execution.file_statuses[b].started_at.is_none());
    assert!(job.schedule.completed_at.is_none());
    assert!(job.schedule.lease.leased_by_node.is_none());
}

#[test]
fn reconcile_recovered_runtime_state_promotes_terminal_jobs() {
    let mut job = sample_job("job-1", &["a.cha", "b.cha"]);
    job.execution.status = JobStatus::Interrupted;
    let a = index_of(&job, "a.cha");
    let b = index_of(&job, "b.cha");
    job.execution.file_statuses[a].status = FileStatusKind::Done;
    let failed = &mut job.execution.file_statuses[b];
    failed.status = FileStatusKind::Error;
    failed.error = Some("boom".to_string());
    job.schedule.completed_at = Some(UnixTimestamp(20));
    job.schedule.next_eligible_at = Some(UnixTimestamp(21));
    job.schedule.lease.leased_by_node = Some("node-1".to_string());
    job.schedule.lease.expires_at = Some(UnixTimestamp(30));
    job.schedule.lease.heartbeat_at = Some(UnixTimestamp(28));

    let disposition = job.reconcile_recovered_runtime_state();

    assert_eq!(disposition, RecoveryDisposition::Completed);
    assert_eq!(job.execution.status, JobStatus::Completed);
    assert_eq!(job.execution.completed_files, 2);
    assert!(job.schedule.next_eligible_at.is_none());
    assert!(job.schedule.lease.leased_by_node.is_none());
    assert!(job.schedule.lease.expires_at.is_none());
}

#[test]
fn local_dispatch_claim_and_renew_roundtrip() {
    let mut job = sample_job("job-1", &["a.cha"]);
    let node_id = "node-a";
    let claimed = job.claim_for_local_dispatch(node_id, UnixTimestamp(10), 30).expect("claim");

    assert_eq!(claimed.leased_by_node, node_id);
    assert_eq!(claimed.heartbeat_at, UnixTimestamp(10));
    assert_eq!(claimed.expires_at, UnixTimestamp(40));
    assert!(job.runtime.runner_active);

    let renewed = job.renew_local_dispatch_lease(node_id, UnixTimestamp(20), 30).expect("renew");
    assert_eq!(renewed.heartbeat_at, UnixTimestamp(20));
    assert_eq!(renewed.expires_at, UnixTimestamp(50));

    job.release_local_dispatch_claim();
    assert!(!job.runtime.runner_active);
    assert!(job.schedule.lease.leased_by_node.is_none());
}

#[test]
fn ready_for_local_dispatch_respects_leases_and_deferrals() {
    let mut job = sample_job("job-1", &["a.cha"]);
    let now = UnixTimestamp(10);
    assert!(job.ready_for_local_dispatch(now));

    job.schedule.next_eligible_at = Some(UnixTimestamp(20));
    assert!(!job.ready_for_local_dispatch(now));
    assert_eq!(job.next_local_dispatch_wake_at(now), Some(UnixTimestamp(20)));

    job.schedule.next_eligible_at = None;
    job.schedule.lease.leased_by_node = Some("node-a".to_string());
    job.schedule.lease.expires_at = Some(UnixTimestamp(30));
    assert!(!job.ready_for_local_dispatch(now));
    assert_eq!(job.next_local_dispatch_wake_at(now), Some(UnixTimestamp(30)));
}

#[test]
fn mark_file_done_updates_file_state() {
    let mut job = sample_job("job-1", &["a.cha"]);
    job.execution.file_statuses[0].error = Some("stale".to_string());
    job.execution.file_statuses[0].error_category = Some(FailureCategory::WorkerTimeout);

    assert!(job.mark_file_done(
        "a.cha",
        UnixTimestamp(12),
        Some(CompletedFileOutput { filename: "a.cha".to_string(), content_type: ContentType::Chat })
    ));

    assert_eq!(job.execution.file_statuses[0].status, FileStatusKind::Done);
    assert_eq!(job.execution.file_statuses[0].finished_at, Some(UnixTimestamp(12)));
    assert!(job.execution.file_statuses[0].error.is_none());
    assert!(job.execution.file_statuses[0].error_category.is_none());
    assert_eq!(job.execution.completed_files, 1);
    assert_eq!(job.execution.results.len(), 1);
}

#[test]
fn mark_file_retry_pending_sets_retry_metadata() {
    let mut job = sample_job("job-1", &["a.cha"]);

    assert!(job.mark_file_retry_pending(
        "a.cha",
        &FileRetryRecord {
            message: "retry".to_string(),
            category: FailureCategory::WorkerTimeout,
            finished_at: UnixTimestamp(11),
            retry_at: UnixTimestamp(20),
        }
    ));

    let file_status = &job.execution.file_statuses[0];
    assert_eq!(file_status.status, FileStatusKind::Processing);
    assert_eq!(file_status.next_eligible_at, Some(UnixTimestamp(20)));
    assert_eq!(file_status.progress_stage, Some(FileProgressStage::RetryScheduled));
}

#[test]
fn clear_file_retry_state_clears_retry_error_metadata() {
    let mut job = sample_job("job-1", &["a.cha"]);
    assert!(job.mark_file_retry_pending(
        "a.cha",
        &FileRetryRecord {
            message: "retry".to_string(),
            category: FailureCategory::WorkerTimeout,
            finished_at: UnixTimestamp(11),
            retry_at: UnixTimestamp(20),
        }
    ));

    assert!(job.clear_file_retry_state("a.cha"));
    let file_status = &job.execution.file_statuses[0];
    assert!(file_status.error.is_none());
    assert!(file_status.error_category.is_none());
    assert!(file_status.finished_at.is_none());
    assert!(file_status.next_eligible_at.is_none());
}

#[test]
fn unknown_files_are_left_alone() {
    let mut job = sample_job("job-1", &["a.cha"]);
    assert!(!job.mark_file_processing("zzz.cha", UnixTimestamp(1)));
    assert!(!job.mark_file_error(
        "zzz.cha",
        &FileFailureRecord { message: "x".to_string(), category: FailureCategory::System, finished_at: UnixTimestamp(1) }
    ));
    assert_eq!(job.execution.completed_files, 0);
    assert_eq!(job.file_status_label("zzz.cha"), None);
    assert_eq!(job.file_status_label("a.cha"), Some("queued".to_string()));
}

#[test]
fn error_marking_records_an_error_result() {
    let mut job = sample_job("job-1", &["a.cha", "b.cha"]);
    assert!(job.mark_file_error(
        "b.cha",
        &FileFailureRecord { message: "boom".to_string(), category: FailureCategory::WorkerCrash, finished_at: UnixTimestamp(5) }
    ));
    let b = index_of(&job, "b.cha");
    assert_eq!(job.execution.file_statuses[b].status, FileStatusKind::Error);
    assert_eq!(job.execution.file_statuses[b].error_category, Some(FailureCategory::WorkerCrash));
    assert_eq!(job.execution.results.last().unwrap().error, Some("boom".to_string()));
    assert!(job.all_terminal_files_failed());
    assert_eq!(job.unfinished_files(), vec!["a.cha".to_string()]);
}

#[test]
fn progress_updates_only_touch_progress_fields() {
    let mut job = sample_job("job-1", &["a.cha"]);
    assert!(job.set_file_progress(
        "a.cha",
        &FileProgressRecord { stage: FileProgressStage::Aligning, current: Some(2), total: Some(5) }
    ));
    let f = &job.execution.file_statuses[0];
    assert_eq!(f.progress_stage, Some(FileProgressStage::Aligning));
    assert_eq!(f.progress_current, Some(2));
    assert_eq!(f.progress_total, Some(5));
    assert_eq!(f.status, FileStatusKind::Queued);
}

#[test]
fn cancellation_is_recorded_once() {
    let mut job = sample_job("job-1", &["a.cha"]);
    assert!(!job.is_cancelled());
    let first = job.request_cancellation(UnixTimestamp(50));
    assert!(job.is_cancelled());
    assert_eq!(job.execution.status, JobStatus::Cancelled);
    assert_eq!(first, Some(UnixTimestamp(50)));
}

#[test]
fn claimed_job_is_not_ready_again() {
    let mut job = sample_job("job-1", &["a.cha"]);
    assert!(job.claim_for_local_dispatch("n", UnixTimestamp(10), 30).is_some());
    assert!(!job.ready_for_local_dispatch(UnixTimestamp(11)));
    assert!(job.claim_for_local_dispatch("n", UnixTimestamp(11), 30).is_none());
    assert!(job.renew_local_dispatch_lease("other", UnixTimestamp(12), 30).is_none());
}

#[test]
fn finalize_counts_terminal_files() {
    let mut job = sample_job("job-1", &["a.cha", "b.cha"]);
    assert!(job.mark_file_done("a.cha", UnixTimestamp(3), None));
    job.finalize(JobStatus::Completed, UnixTimestamp(9));
    assert_eq!(job.execution.status, JobStatus::Completed);
    assert_eq!(job.execution.completed_files, 1);
    assert_eq!(job.schedule.completed_at, Some(UnixTimestamp(9)));
}

#[test]
fn projections_report_job_totals() {
    let mut job = sample_job("job-9", &["a.cha", "b.cha"]);
    assert!(job.mark_file_done("a.cha", UnixTimestamp(150), None));
    job.finalize(JobStatus::Completed, UnixTimestamp(300));
    let info = job.to_info();
    assert_eq!(info.job_id, "job-9");
    assert_eq!(info.total_files, 2);
    assert_eq!(info.duration_ms, Some(200));
    let item = job.to_list_item();
    assert_eq!(item.total_files, 2);
    assert_eq!(item.error_files, 0);
    let snap = job.to_runner_snapshot();
    assert_eq!(snap.pending_files.len(), 1);
    assert_eq!(snap.pending_files[0].filename, "b.cha");
    assert_eq!(job.total_files(), 2);
    assert_eq!(job.job_id(), "job-9");
}

#[test]
fn releasing_a_fresh_claim_makes_the_job_ready_again() {
    let mut job = sample_job("job-2", &["a.cha", "b.cha"]);
    let now = UnixTimestamp(100);
    assert!(job.ready_for_local_dispatch(now));
    let status_before = job.execution.status;
    assert!(job.claim_for_local_dispatch("node-b", now, 50).is_some());
    assert!(!job.ready_for_local_dispatch(now));
    job.release_local_dispatch_claim();
    assert!(job.ready_for_local_dispatch(now));
    assert!(!job.runtime.runner_active);
    assert!(job.schedule.lease.leased_by_node.is_none());
    assert!(job.schedule.lease.heartbeat_at.is_none());
    assert!(job.schedule.lease.expires_at.is_none());
    assert_eq!(job.execution.status, status_before);
    assert_eq!(job.file_status_label("a.cha"), Some("queued".to_string()));
}

#[test]
fn total_file_count_survives_file_and_job_transitions() {
    let mut job = sample_job("job-3", &["a.cha", "b.cha", "c.cha"]);
    assert_eq!(job.total_files(), 3);
    assert!(job.mark_file_processing("a.cha", UnixTimestamp(10)));
    assert!(job.mark_file_done("a.cha", UnixTimestamp(20), None));
    assert!(job.mark_file_error(
        "b.cha",
        &FileFailureRecord { message: "bad".to_string(), category: FailureCategory::System, finished_at: UnixTimestamp(30) }
    ));
    assert!(job.clear_file_retry_state("c.cha"));
    assert_eq!(job.total_files(), 3);
    job.finalize(JobStatus::Failed, UnixTimestamp(40));
    job.prepare_for_restart();
    job.reconcile_recovered_runtime_state();
    assert_eq!(job.total_files(), 3);
    assert_eq!(job.to_info().total_files, 3);
}
