use batchalign_core::commands::ReleasedCommand;
use batchalign_core::compare::{batch_position, compare_file_step, compare_planning_failure, missing_gold_error, CompareFileStep};
use batchalign_core::job::{
    FileStatus, FileStatusKind, Job, JobDispatchConfig, JobExecutionState, JobFilesystemConfig, JobIdentity,
    JobLeaseState, JobRuntimeControl, JobScheduleState, JobSourceContext, JobStatus, UnixTimestamp,
};
use batchalign_core::lifecycle::FileRunTracker;
use batchalign_core::progress::FileStage;

fn compare_job(filename: &str) -> Job {
    Job {
        identity: JobIdentity { job_id: "job-compare".to_string(), correlation_id: "corr".to_string() },
        dispatch: JobDispatchConfig {
            command: ReleasedCommand::Compare,
            lang: "eng".to_string(),
            num_speakers: 1,
            options: "{}".to_string(),
            runtime_state: Vec::new(),
            debug_traces: false,
        },
        source: JobSourceContext {
            submitted_by: "127.0.0.1".to_string(),
            submitted_by_name: "localhost".to_string(),
            source_dir: String::new(),
        },
        filesystem: JobFilesystemConfig {
            filenames: vec![filename.to_string()],
            has_chat: vec![true],
            staging_dir: "/tmp/job-compare".to_string(),
            paths_mode: false,
            source_paths: Vec::new(),
            output_paths: Vec::new(),
            before_paths: Vec::new(),
            media_mapping: String::new(),
            media_subdir: String::new(),
        },
        execution: JobExecutionState {
            status: JobStatus::Running,
            file_statuses: vec![FileStatus::new(filename.to_string())],
            results: Vec::new(),
            error: None,
            completed_files: 0,
        },
        schedule: JobScheduleState {
            submitted_at: UnixTimestamp(1),
            completed_at: None,
            next_eligible_at: None,
            num_workers: None,
            lease: JobLeaseState { leased_by_node: None, expires_at: None, heartbeat_at: None },
        },
        runtime: JobRuntimeControl { cancel_requested: false, runner_active: true },
    }
}

#[test]
fn gold_companions_are_finished_without_output() {
    let names = vec!["a.cha".to_string(), "a.gold.cha".to_string()];
    assert_eq!(compare_file_step("a.gold.cha", None, &names), CompareFileStep::FinishGold);
    assert_eq!(compare_file_step("a.gold.cha", Some("x.cha"), &names), CompareFileStep::FinishGold);
}

#[test]
fn main_files_use_the_batch_gold_or_read_it() {
    let names = vec!["a.cha".to_string(), "a.gold.cha".to_string()];
    assert_eq!(compare_file_step("a.cha", Some("a.gold.cha"), &names), CompareFileStep::UseBatchGold { index: 1 });
    assert_eq!(compare_file_step("b.cha", Some("b.gold.cha"), &names), CompareFileStep::ReadGold);
    assert_eq!(
        compare_file_step("c.cha", None, &names),
        CompareFileStep::FailNoPair { message: "Compare planning produced no pair for c.cha".to_string() }
    );
    assert_eq!(batch_position(&names, "a.cha"), Some(0));
    assert_eq!(batch_position(&names, "z.cha"), None);
}

#[test]
fn compare_failure_messages() {
    assert_eq!(compare_planning_failure("no gold companions"), "Compare planning failed: no gold companions");
    assert_eq!(
        missing_gold_error("a.cha", "a.gold.cha"),
        "No gold .cha file found for comparison. main: a.cha, expected: a.gold.cha"
    );
}

#[test]
fn gold_companion_is_finished_without_result() {
    let filename = "sample.gold.cha";
    let mut job = compare_job(filename);
    let lifecycle = FileRunTracker::new(filename);
    assert!(lifecycle.begin_first_attempt(&mut job, UnixTimestamp(10), FileStage::Comparing));

    let names = vec![filename.to_string()];
    assert_eq!(compare_file_step(filename, None, &names), CompareFileStep::FinishGold);
    assert!(lifecycle.complete_without_result(&mut job, UnixTimestamp(11)));

    assert_eq!(job.execution.file_statuses.len(), 1);
    assert_eq!(job.execution.file_statuses[0].status, FileStatusKind::Done);
    assert!(job.execution.results.is_empty());
}
