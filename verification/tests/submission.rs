use batchalign_core::commands::ReleasedCommand;
use batchalign_core::error::ServerError;
use batchalign_core::job::{FileStatusKind, Job, JobStatus, UnixTimestamp};
use batchalign_core::submission::{
    cancel_decision, delete_decision, new_job_id, plan_submission, source_is_chat, CancelDecision, FilePayload,
    JobSubmission, Submitter, cancel_reply, deleted_message,
};

fn submission(command: ReleasedCommand) -> JobSubmission {
    JobSubmission {
        command,
        lang: "eng".to_string(),
        num_speakers: 2,
        options: "{}".to_string(),
        files: Vec::new(),
        media_files: Vec::new(),
        paths_mode: false,
        source_paths: Vec::new(),
        output_paths: Vec::new(),
        display_names: Vec::new(),
        before_paths: Vec::new(),
        source_dir: "/corpus".to_string(),
        media_mapping: String::new(),
        media_subdir: String::new(),
        debug_traces: false,
    }
}

fn caps(names: &[&str]) -> Vec<String> {
    names.iter().map(|n| n.to_string()).collect()
}

#[test]
fn unknown_commands_are_refused_with_the_offered_list() {
    let s = submission(ReleasedCommand::Align);
    match plan_submission(&s, &caps(&["utseg", "morphotag", "test-echo"]), "/jobs", "abc") {
        Err(ServerError::UnknownCommand(m)) => {
            assert_eq!(m, "Unknown command: align. Valid commands: [\"morphotag\", \"utseg\"]")
        },
        other => panic!("unexpected: {:?}", other),
    }
}

#[test]
fn content_mode_needs_some_input() {
    let s = submission(ReleasedCommand::Morphotag);
    match plan_submission(&s, &caps(&["morphotag"]), "/jobs", "abc") {
        Err(ServerError::Validation(m)) => assert_eq!(m, "Must provide at least one file or media_file."),
        other => panic!("unexpected: {:?}", other),
    }
}

#[test]
fn content_mode_stages_inline_files() {
    let mut s = submission(ReleasedCommand::Morphotag);
    s.files = vec![FilePayload { filename: "sub/a.cha".to_string(), content: "@Begin".to_string() }];
    s.media_files = vec!["talk.wav".to_string()];
    let layout = plan_submission(&s, &caps(&["morphotag"]), "/jobs", "abc").expect("valid");
    assert_eq!(layout.filenames, vec!["sub/a.cha".to_string(), "talk.wav".to_string()]);
    assert_eq!(layout.has_chat, vec![true, false]);
    assert_eq!(layout.staging_dir, "/jobs/abc");
    assert_eq!(layout.dirs_to_create, vec!["/jobs/abc/input".to_string(), "/jobs/abc/output".to_string()]);
    assert_eq!(layout.staged_files.len(), 1);
    assert_eq!(layout.staged_files[0].dest, "/jobs/abc/input/sub/a.cha");
    assert_eq!(layout.staged_files[0].content, "@Begin");
    assert!(!layout.paths_mode);
}

#[test]
fn paths_mode_derives_display_names_and_chat_flags() {
    let mut s = submission(ReleasedCommand::Align);
    s.paths_mode = true;
    s.source_paths = vec!["/c/one.CHA".to_string(), "/c/two.wav".to_string()];
    s.output_paths = vec!["/o/one.cha".to_string(), "/o/two.cha".to_string()];
    let layout = plan_submission(&s, &caps(&["align"]), "/jobs", "abc").expect("valid");
    assert_eq!(layout.filenames, vec!["one.CHA".to_string(), "two.wav".to_string()]);
    assert_eq!(layout.has_chat, vec![true, false]);
    assert_eq!(layout.dirs_to_create, vec!["/jobs/abc".to_string()]);
    assert_eq!(layout.output_paths, s.output_paths);
    s.display_names = vec!["x".to_string(), "y".to_string()];
    let named = plan_submission(&s, &caps(&["align"]), "/jobs", "abc").expect("valid");
    assert_eq!(named.filenames, vec!["x".to_string(), "y".to_string()]);
}

#[test]
fn paths_mode_rejects_a_source_without_a_name() {
    let mut s = submission(ReleasedCommand::Align);
    s.paths_mode = true;
    s.source_paths = vec!["/c/one.cha".to_string(), "/".to_string()];
    match plan_submission(&s, &caps(&["align"]), "/jobs", "abc") {
        Err(ServerError::Validation(m)) => assert_eq!(m, "paths_mode source path has no filename component: /"),
        other => panic!("unexpected: {:?}", other),
    }
}

#[test]
fn chat_detection_ignores_case() {
    assert!(source_is_chat("A.CHA"));
    assert!(source_is_chat("a.cha"));
    assert!(!source_is_chat("a.chat"));
}

#[test]
fn submitted_jobs_start_queued_with_one_status_per_file() {
    let mut s = submission(ReleasedCommand::Morphotag);
    s.files = vec![
        FilePayload { filename: "a.cha".to_string(), content: String::new() },
        FilePayload { filename: "a.cha".to_string(), content: String::new() },
    ];
    let layout = plan_submission(&s, &caps(&["morphotag"]), "/jobs", "abc").expect("valid");
    let submitter = Submitter { address: "10.0.0.1".to_string(), name: "host".to_string() };
    let job = Job::from_submission("abc".to_string(), "corr".to_string(), &s, layout, submitter, UnixTimestamp(77));
    assert_eq!(job.execution.status, JobStatus::Queued);
    assert_eq!(job.execution.file_statuses.len(), 1);
    assert_eq!(job.execution.file_statuses[0].status, FileStatusKind::Queued);
    assert_eq!(job.filesystem.filenames.len(), 2);
    assert_eq!(job.schedule.submitted_at, UnixTimestamp(77));
    assert_eq!(job.source.submitted_by, "10.0.0.1");
    assert!(job.ready_for_local_dispatch(UnixTimestamp(78)));
}

#[test]
fn job_ids_are_twelve_characters() {
    let a = new_job_id();
    let b = new_job_id();
    assert_eq!(a.chars().count(), 12);
    assert_ne!(a, b);
}

#[test]
fn cancel_leaves_finished_jobs_alone() {
    assert_eq!(cancel_decision("j", Some(JobStatus::Completed)), Ok(CancelDecision::AlreadyFinished { status: JobStatus::Completed }));
    assert_eq!(cancel_decision("j", Some(JobStatus::Interrupted)), Ok(CancelDecision::Cancel));
    assert_eq!(cancel_decision("j", Some(JobStatus::Running)), Ok(CancelDecision::Cancel));
    assert_eq!(cancel_decision("j", None), Err(ServerError::JobNotFound("j".to_string())));
}

#[test]
fn running_jobs_cannot_be_deleted() {
    match delete_decision("j9", Some(true)) {
        Err(ServerError::JobConflict { message, conflicts }) => {
            assert_eq!(message, "Job j9 is running — cancel it first.");
            assert!(conflicts.is_empty());
        },
        other => panic!("unexpected: {:?}", other),
    }
    assert_eq!(delete_decision("j9", Some(false)), Ok(()));
    assert_eq!(delete_decision("j9", None), Err(ServerError::JobNotFound("j9".to_string())));
    assert_eq!(ServerError::JobNotFound("j9".to_string()).message(), "Job not found: j9");
}

#[test]
fn lifecycle_replies_name_the_job() {
    assert_eq!(cancel_reply("job-1", &CancelDecision::Cancel), (JobStatus::Cancelled, "Job job-1 cancelled.".to_string()));
    assert_eq!(
        cancel_reply("job-1", &CancelDecision::AlreadyFinished { status: JobStatus::Failed }),
        (JobStatus::Failed, "Job already finished.".to_string())
    );
    assert_eq!(deleted_message("job-2"), "Job job-2 deleted.");
}
