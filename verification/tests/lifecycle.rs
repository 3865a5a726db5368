use batchalign_core::batch_infer::{batch_window_size, file_index_for, window_bounds, window_count, BatchFileOutcome};
use batchalign_core::commands::ReleasedCommand;
use batchalign_core::job::{
    CompletedFileOutput, ContentType, FailureCategory, FileProgressRecord, FileStatus, FileStatusKind, Job,
    JobDispatchConfig, JobExecutionState, JobFilesystemConfig, JobIdentity, JobLeaseState, JobRuntimeControl,
    JobScheduleState, JobSourceContext, JobStatus, PendingJobFile, UnixTimestamp,
};
use batchalign_core::lifecycle::FileRunTracker;
use batchalign_core::progress::{FileProgressStage, FileStage};

fn tracked_job(filenames: &[&str]) -> Job {
    Job {
        identity: JobIdentity { job_id: "job-tracker".to_string(), correlation_id: "corr".to_string() },
        dispatch: JobDispatchConfig {
            command: ReleasedCommand::Morphotag,
            lang: "eng".to_string(),
            num_speakers: 1,
            options: "{}".to_string(),
            runtime_state: Vec::new(),
            debug_traces: false,
        },
        source: JobSourceContext {
            submitted_by: "127.0.0.1".to_string(),
            submitted_by_name: "localhost".to_string(),
            source_dir: String::new(),
        },
        filesystem: JobFilesystemConfig {
            filenames: filenames.iter().map(|f| f.to_string()).collect(),
            has_chat: filenames.iter().map(|_| true).collect(),
            staging_dir: "/tmp/job".to_string(),
            paths_mode: false,
            source_paths: Vec::new(),
            output_paths: Vec::new(),
            before_paths: Vec::new(),
            media_mapping: String::new(),
            media_subdir: String::new(),
        },
        execution: JobExecutionState {
            status: JobStatus::Running,
            file_statuses: filenames.iter().map(|f| FileStatus::new(f.to_string())).collect(),
            results: Vec::new(),
            error: None,
            completed_files: 0,
        },
        schedule: JobScheduleState {
            submitted_at: UnixTimestamp(1),
            completed_at: None,
            next_eligible_at: None,
            num_workers: None,
            lease: JobLeaseState { leased_by_node: None, expires_at: None, heartbeat_at: None },
        },
        runtime: JobRuntimeControl { cancel_requested: false, runner_active: true },
    }
}

fn status<'a>(job: &'a Job, name: &str) -> &'a FileStatus {
    job.execution.file_statuses.iter().find(|f| f.filename == name).expect("tracked file")
}

#[test]
fn tracker_retry_restart_complete_leaves_file_done() {
    let mut job = tracked_job(&["a.cha"]);
    let lifecycle = FileRunTracker::new("a.cha");

    assert!(lifecycle.begin_first_attempt(&mut job, UnixTimestamp(10), FileStage::Reading));
    let file = status(&job, "a.cha");
    assert_eq!(file.status, FileStatusKind::Processing);
    assert_eq!(file.progress_stage, Some(FileProgressStage::Reading));
    assert_eq!(file.started_at, Some(UnixTimestamp(10)));

    assert!(lifecycle.retry(&mut job, UnixTimestamp(50), FailureCategory::ProviderTransient, "temporary failure", UnixTimestamp(20)));
    let file = status(&job, "a.cha");
    assert_eq!(file.status, FileStatusKind::Processing);
    assert_eq!(file.next_eligible_at, Some(UnixTimestamp(50)));
    assert_eq!(file.error.as_deref(), Some("temporary failure"));
    assert_eq!(file.progress_stage, Some(FileProgressStage::RetryScheduled));

    assert!(lifecycle.restart_attempt(&mut job, UnixTimestamp(60), FileStage::Processing));
    let file = status(&job, "a.cha");
    assert_eq!(file.status, FileStatusKind::Processing);
    assert!(file.error.is_none());
    assert!(file.next_eligible_at.is_none());
    assert_eq!(file.progress_stage, Some(FileProgressStage::Processing));

    assert!(lifecycle.complete_with_result(&mut job, "a.ana".to_string(), ContentType::Chat, UnixTimestamp(70)));
    let file = status(&job, "a.cha");
    assert_eq!(file.status, FileStatusKind::Done);
    assert!(file.next_eligible_at.is_none());
    assert!(file.error.is_none());
    assert_eq!(file.finished_at, Some(UnixTimestamp(70)));
    assert_eq!(job.execution.completed_files, 1);
    assert_eq!(job.execution.results.len(), 1);
    assert_eq!(job.execution.results[0].filename, "a.ana");
    assert!(job.execution.results[0].error.is_none());
}

#[test]
fn tracker_records_setup_failure_as_terminal_error() {
    let mut job = tracked_job(&["a.cha"]);
    let lifecycle = FileRunTracker::new("a.cha");

    assert!(lifecycle.record_setup_failure(
        &mut job,
        UnixTimestamp(5),
        "media preflight failed",
        FailureCategory::Validation,
        UnixTimestamp(6),
    ));

    let file = status(&job, "a.cha");
    assert_eq!(file.status, FileStatusKind::Error);
    assert_eq!(file.error.as_deref(), Some("media preflight failed"));
    assert_eq!(file.error_category, Some(FailureCategory::Validation));
    assert_eq!(file.started_at, Some(UnixTimestamp(5)));
    assert_eq!(file.finished_at, Some(UnixTimestamp(6)));
    assert_eq!(job.execution.completed_files, 1);
    assert_eq!(job.execution.results[0].error.as_deref(), Some("media preflight failed"));
}

#[test]
fn tracker_on_unknown_file_changes_nothing() {
    let mut job = tracked_job(&["a.cha"]);
    let lifecycle = FileRunTracker::new("missing.cha");

    assert!(!lifecycle.begin_first_attempt(&mut job, UnixTimestamp(10), FileStage::Reading));
    assert!(!lifecycle.fail(&mut job, "boom", FailureCategory::System, UnixTimestamp(11)));
    assert!(!lifecycle.complete_without_result(&mut job, UnixTimestamp(12)));
    assert_eq!(status(&job, "a.cha").status, FileStatusKind::Queued);
    assert_eq!(job.execution.completed_files, 0);
    assert!(job.execution.results.is_empty());
}

#[test]
fn tracker_stage_and_completion_without_result() {
    let mut job = tracked_job(&["a.wav"]);
    let lifecycle = FileRunTracker::new("a.wav");
    assert!(lifecycle.begin_first_attempt(&mut job, UnixTimestamp(1), FileStage::Processing));
    assert!(lifecycle.stage(&mut job, FileStage::Aligning));
    assert_eq!(status(&job, "a.wav").progress_stage, Some(FileProgressStage::Aligning));
    assert!(lifecycle.complete_without_result(&mut job, UnixTimestamp(9)));
    assert_eq!(status(&job, "a.wav").status, FileStatusKind::Done);
    assert_eq!(job.execution.completed_files, 1);
    assert!(job.execution.results.is_empty());
}

#[test]
fn batch_window_size_follows_configuration() {
    assert_eq!(batch_window_size(0, 40), 40);
    assert_eq!(batch_window_size(25, 40), 25);
    assert_eq!(batch_window_size(1000, 40), 1000);
    assert_eq!(batch_window_size(5000, 40), 1000);
}

#[test]
fn windows_cover_the_batch() {
    assert_eq!(window_count(40, 25), 2);
    assert_eq!(window_count(50, 25), 2);
    assert_eq!(window_count(1, 25), 1);
    assert_eq!(window_count(0, 25), 0);
    assert_eq!(window_bounds(40, 25, 0), (0, 25));
    assert_eq!(window_bounds(40, 25, 1), (25, 40));
}

#[test]
fn file_index_lookup_falls_back_to_zero() {
    let files = vec![
        PendingJobFile { file_index: 3, filename: "a.cha".to_string(), has_chat: true },
        PendingJobFile { file_index: 7, filename: "b.cha".to_string(), has_chat: true },
    ];
    assert_eq!(file_index_for(&files, "b.cha"), 7);
    assert_eq!(file_index_for(&files, "a.cha"), 3);
    assert_eq!(file_index_for(&files, "c.cha"), 0);
}

#[test]
fn batch_start_total_and_outcomes_are_recorded_per_file() {
    let mut job = tracked_job(&["a.cha", "b.cha", "c.cha"]);
    let names = vec!["a.cha".to_string(), "b.cha".to_string()];
    job.begin_batch_files(&names, UnixTimestamp(10), FileStage::for_batch_command(ReleasedCommand::Morphotag));
    assert_eq!(status(&job, "a.cha").status, FileStatusKind::Processing);
    assert_eq!(status(&job, "a.cha").progress_stage, Some(FileProgressStage::Analyzing));
    assert_eq!(status(&job, "c.cha").status, FileStatusKind::Queued);

    let total = FileProgressRecord { stage: FileProgressStage::Analyzing, current: Some(0), total: Some(2) };
    job.publish_batch_progress(&names, total);
    assert_eq!(status(&job, "b.cha").progress_total, Some(2));
    assert_eq!(status(&job, "b.cha").progress_current, Some(0));
    assert_eq!(status(&job, "c.cha").progress_total, None);

    let written = BatchFileOutcome::Written(CompletedFileOutput { filename: "a.cha".to_string(), content_type: ContentType::Chat });
    assert!(job.record_batch_outcome("a.cha", written, 1, 2, UnixTimestamp(20)));
    let failed = BatchFileOutcome::Failed("worker rejected input".to_string());
    assert!(job.record_batch_outcome("b.cha", failed, 2, 2, UnixTimestamp(21)));

    assert_eq!(status(&job, "a.cha").status, FileStatusKind::Done);
    assert_eq!(status(&job, "b.cha").status, FileStatusKind::Error);
    assert_eq!(status(&job, "b.cha").error_category, Some(FailureCategory::ProviderTerminal));
    assert_eq!(job.execution.completed_files, 2);
    assert_eq!(job.execution.results.len(), 2);
    assert_eq!(job.execution.results[1].error.as_deref(), Some("worker rejected input"));
}
