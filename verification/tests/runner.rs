use batchalign_core::pipeline::{cached_text_pipeline_start, morphosyntax_plan, transcribe_plan, StageGate, TextPipelineStart};
use batchalign_core::progress::StageId;
use batchalign_core::text::pre_validation_message;
use batchalign_core::batching::{
    looks_per_character, cache_hit_rate_pct, concat_file_items, group_indices_by_language, max_concurrent_groups, scatter_group_results,
    FileSlice, partition_by_cache, morphotag_pre_validation_error, language_group_timeout_error, injection_failure_error,
};
use batchalign_core::commands::{InferTask, ReleasedCommand};
use batchalign_core::error::ServerError;
use batchalign_core::host_memory::HostMemoryError;
use batchalign_core::job::{
    FailureCategory, FileStatus, FileStatusKind, Job, JobDispatchConfig, JobExecutionState, JobFilesystemConfig,
    JobIdentity, JobLeaseState, JobRuntimeControl, JobScheduleState, JobSourceContext, JobStatus, PendingJobFile,
    UnixTimestamp,
};
use batchalign_core::runner::{
    abnormal_exit_failure, classify_reservation_error, compute_job_workers, drop_failed_media, final_job_status,
    job_execution_label, select_dispatch_route, DispatchRoute, ExecutionReservationError, WorkerLimits,
    empty_echo_transcript, pending_file_with_index, test_echo_read_error, test_echo_write_error,
    capability_bootstrap_error, needs_capability_bootstrap,
};

fn limits(per_job: usize, available: Option<usize>) -> WorkerLimits {
    WorkerLimits {
        max_workers_per_job: per_job,
        gpu_thread_pool_size: 2,
        max_thread_workers: 8,
        max_gpu_workers: 4,
        available_parallelism: available,
    }
}

fn versions(pairs: &[(&str, &str)]) -> Vec<(String, String)> {
    pairs.iter().map(|(k, v)| (k.to_string(), v.to_string())).collect()
}

fn two_file_job() -> Job {
    Job {
        identity: JobIdentity { job_id: "j".to_string(), correlation_id: "c".to_string() },
        dispatch: JobDispatchConfig {
            command: ReleasedCommand::Align,
            lang: "eng".to_string(),
            num_speakers: 1,
            options: "{}".to_string(),
            runtime_state: Vec::new(),
            debug_traces: false,
        },
        source: JobSourceContext {
            submitted_by: "h".to_string(),
            submitted_by_name: "h".to_string(),
            source_dir: String::new(),
        },
        filesystem: JobFilesystemConfig {
            filenames: vec!["a.cha".to_string(), "b.cha".to_string()],
            has_chat: vec![true, true],
            staging_dir: "/tmp/j".to_string(),
            paths_mode: false,
            source_paths: Vec::new(),
            output_paths: Vec::new(),
            before_paths: Vec::new(),
            media_mapping: String::new(),
            media_subdir: String::new(),
        },
        execution: JobExecutionState {
            status: JobStatus::Running,
            file_statuses: vec![FileStatus::new("a.cha".to_string()), FileStatus::new("b.cha".to_string())],
            results: Vec::new(),
            error: None,
            completed_files: 0,
        },
        schedule: JobScheduleState {
            submitted_at: UnixTimestamp(0),
            completed_at: None,
            next_eligible_at: None,
            num_workers: None,
            lease: JobLeaseState { leased_by_node: None, expires_at: None, heartbeat_at: None },
        },
        runtime: JobRuntimeControl { cancel_requested: false, runner_active: true },
    }
}

#[test]
fn single_file_jobs_get_one_worker() {
    assert_eq!(compute_job_workers(1, false, limits(0, Some(16))), 1);
    assert_eq!(compute_job_workers(0, true, limits(6, None)), 1);
}

#[test]
fn operator_cap_bounds_file_workers() {
    assert_eq!(compute_job_workers(10, false, limits(3, Some(16))), 3);
    assert_eq!(compute_job_workers(2, false, limits(3, Some(16))), 2);
    assert_eq!(compute_job_workers(40, false, limits(20, Some(16))), 8);
}

#[test]
fn category_caps_bound_file_workers() {
    assert_eq!(compute_job_workers(10, false, limits(0, Some(16))), 8);
    assert_eq!(compute_job_workers(10, false, limits(0, None)), 4);
    assert_eq!(compute_job_workers(10, true, limits(0, Some(16))), 2);
    assert_eq!(compute_job_workers(3, false, limits(0, Some(16))), 3);
}

#[test]
fn job_execution_label_names_job_command_and_language() {
    assert_eq!(job_execution_label("abc", ReleasedCommand::Align, "eng"), "job-execution:abc:align:eng");
}

#[test]
fn capacity_failures_can_be_retried_later() {
    let capacity = HostMemoryError::TimedOut { label: "l".to_string(), waited_s: 3, last_reason: "full".to_string() };
    match classify_reservation_error("j1", 4, capacity) {
        ExecutionReservationError::Capacity { requested_workers, .. } => assert_eq!(requested_workers, 4),
        other => panic!("unexpected: {:?}", other),
    }
    let io = HostMemoryError::Io { path: "/l".to_string(), message: "denied".to_string() };
    match classify_reservation_error("j1", 4, io) {
        ExecutionReservationError::Fatal(ServerError::Persistence(m)) => {
            assert!(m.starts_with("host-memory coordinator failed for job j1: "));
        },
        other => panic!("unexpected: {:?}", other),
    }
}

#[test]
fn final_status_prefers_cancellation_then_failure() {
    assert_eq!(final_job_status(true, 3, true), JobStatus::Cancelled);
    assert_eq!(final_job_status(false, 1, false), JobStatus::Failed);
    assert_eq!(final_job_status(false, 0, true), JobStatus::Failed);
    assert_eq!(final_job_status(false, 0, false), JobStatus::Completed);
}

#[test]
fn unfinished_files_are_forced_to_errors() {
    let mut job = two_file_job();
    assert!(job.mark_file_done("a.cha", UnixTimestamp(5), None));
    assert!(job.mark_file_processing("b.cha", UnixTimestamp(6)));
    let forced = job.force_terminal_file_states(UnixTimestamp(9));
    assert_eq!(forced, 1);
    let b = &job.execution.file_statuses[1];
    assert_eq!(b.status, FileStatusKind::Error);
    assert_eq!(b.error, Some("File did not reach terminal status (last status: processing)".to_string()));
    assert_eq!(b.error_category, Some(FailureCategory::System));
    assert_eq!(job.execution.file_statuses[0].status, FileStatusKind::Done);
    assert_eq!(job.execution.completed_files, 2);
    assert_eq!(job.force_terminal_file_states(UnixTimestamp(10)), 0);
}

#[test]
fn abnormal_exits_are_classified() {
    assert_eq!(
        abnormal_exit_failure("file task", true, Some("boom")),
        (
            "file task stopped after job cancellation before recording a terminal file state".to_string(),
            FailureCategory::Cancelled
        )
    );
    assert_eq!(
        abnormal_exit_failure("file task", false, Some("boom")),
        ("file task panicked before recording a terminal file state: boom".to_string(), FailureCategory::System)
    );
    assert_eq!(
        abnormal_exit_failure("file task", false, None),
        ("file task exited without recording a terminal file state".to_string(), FailureCategory::System)
    );
}

#[test]
fn failed_media_is_dropped_from_the_pending_list() {
    let files = vec![
        PendingJobFile { file_index: 0, filename: "a.wav".to_string(), has_chat: false },
        PendingJobFile { file_index: 1, filename: "b.wav".to_string(), has_chat: false },
        PendingJobFile { file_index: 2, filename: "c.wav".to_string(), has_chat: false },
    ];
    let kept = drop_failed_media(&files, &vec![1]);
    assert_eq!(kept.len(), 2);
    assert_eq!(kept[0].filename, "a.wav");
    assert_eq!(kept[1].filename, "c.wav");
}

#[test]
fn chat_jobs_with_their_task_take_the_infer_path() {
    let v = versions(&[("fa", "whisper-fa")]);
    assert_eq!(
        select_dispatch_route(ReleasedCommand::Align, &[true, true], &[InferTask::Fa], &v, false),
        DispatchRoute::ForcedAlignment { engine_version: "whisper-fa".to_string() }
    );
    assert_eq!(
        select_dispatch_route(ReleasedCommand::Morphotag, &[true], &[InferTask::Morphosyntax], &Vec::new(), false),
        DispatchRoute::BatchedText { engine_version: "unknown".to_string() }
    );
}

#[test]
fn infer_commands_fail_without_their_task() {
    match select_dispatch_route(ReleasedCommand::Align, &[true, false], &[InferTask::Fa, InferTask::Asr], &Vec::new(), false) {
        DispatchRoute::Fail { message } => assert_eq!(
            message,
            "Rust-first dispatch requires infer task 'fa' for 'align' (all_chat=false). Worker advertises infer_tasks: [Fa, Asr]"
        ),
        other => panic!("unexpected: {:?}", other),
    }
}

#[test]
fn audio_commands_use_their_orchestrators() {
    let v = versions(&[("asr", "whisper")]);
    assert_eq!(
        select_dispatch_route(ReleasedCommand::Transcribe, &[false], &[InferTask::Asr], &v, false),
        DispatchRoute::Transcribe { engine_version: "whisper".to_string() }
    );
    assert_eq!(
        select_dispatch_route(ReleasedCommand::Benchmark, &[false], &[InferTask::Asr], &v, false),
        DispatchRoute::Benchmark { engine_version: "whisper".to_string() }
    );
    assert_eq!(
        select_dispatch_route(ReleasedCommand::Opensmile, &[true], &[InferTask::Opensmile], &Vec::new(), false),
        DispatchRoute::MediaAnalysis { engine_version: "unknown".to_string() }
    );
    assert!(matches!(
        select_dispatch_route(ReleasedCommand::Opensmile, &[false], &[InferTask::Opensmile], &Vec::new(), false),
        DispatchRoute::Fail { .. }
    ));
    assert_eq!(
        select_dispatch_route(ReleasedCommand::Transcribe, &[false], &[InferTask::Asr], &v, true),
        DispatchRoute::TestEcho
    );
    match select_dispatch_route(ReleasedCommand::Transcribe, &[false], &[], &v, false) {
        DispatchRoute::Fail { message } => assert_eq!(
            message,
            "No released dispatch path remains for command 'transcribe' (all_chat=false, infer_task=Some(Asr), infer_supported=false). Legacy process-path fallback is retired."
        ),
        other => panic!("unexpected: {:?}", other),
    }
}

#[test]
fn file_items_are_concatenated_with_their_slices() {
    let (all, slices) = concat_file_items(vec![vec![1, 2], vec![], vec![3]]);
    assert_eq!(all, vec![1, 2, 3]);
    assert_eq!(
        slices,
        vec![
            Some(FileSlice { global_start: 0, item_count: 2 }),
            None,
            Some(FileSlice { global_start: 2, item_count: 1 }),
        ]
    );
}

#[test]
fn items_are_grouped_by_language_in_first_seen_order() {
    let langs = vec!["eng".to_string(), "fra".to_string(), "eng".to_string()];
    let groups = group_indices_by_language(&langs);
    assert_eq!(groups.len(), 2);
    assert_eq!(groups[0].lang, "eng");
    assert_eq!(groups[0].indices, vec![0, 2]);
    assert_eq!(groups[1].lang, "fra");
    assert_eq!(groups[1].indices, vec![1]);
}

#[test]
fn group_responses_return_to_their_positions() {
    let groups = vec![vec![0, 2], vec![1], vec![3]];
    let outcomes = vec![Some(vec!["a", "c"]), None, Some(vec![])];
    assert_eq!(scatter_group_results(4, &groups, outcomes), vec![Some("a"), None, Some("c"), None]);
}

#[test]
fn language_group_concurrency_is_at_least_one() {
    assert_eq!(max_concurrent_groups(8, 2), 4);
    assert_eq!(max_concurrent_groups(1, 4), 1);
    assert_eq!(max_concurrent_groups(0, 0), 1);
}

#[test]
fn cache_hit_rate_discounts_failed_injections() {
    assert_eq!(cache_hit_rate_pct(10, 5, 1), 40);
    assert_eq!(cache_hit_rate_pct(0, 0, 0), 0);
    assert_eq!(cache_hit_rate_pct(3, 3, 0), 100);
}

#[test]
fn transcribe_plan_chains_the_requested_stages() {
    let plan = transcribe_plan(true, true, true);
    let ids: Vec<StageId> = plan.iter().map(|s| s.id).collect();
    assert_eq!(
        ids,
        vec![
            StageId::AsrInfer,
            StageId::SpeakerDiarization,
            StageId::AsrPostprocess,
            StageId::BuildChat,
            StageId::OptionalUtseg,
            StageId::OptionalMorphosyntax,
            StageId::Serialize,
        ]
    );
    assert_eq!(plan[1].gate, StageGate::DiarizationRequested);
    assert_eq!(plan[2].deps, vec![StageId::SpeakerDiarization]);
    assert_eq!(plan[5].deps, vec![StageId::OptionalUtseg]);
    assert_eq!(plan[6].deps, vec![StageId::OptionalMorphosyntax]);
    let bare = transcribe_plan(false, false, false);
    assert_eq!(bare.len(), 5);
    assert_eq!(bare[2].deps, vec![StageId::AsrInfer]);
    assert_eq!(bare[4].deps, vec![StageId::BuildChat]);
    let morph_only = transcribe_plan(false, false, true);
    assert_eq!(morph_only[4].id, StageId::OptionalMorphosyntax);
    assert_eq!(morph_only[4].deps, vec![StageId::BuildChat]);
}

#[test]
fn morphosyntax_plan_is_a_straight_chain() {
    let plan = morphosyntax_plan();
    assert_eq!(plan.len(), 11);
    assert_eq!(plan[0].id, StageId::Parse);
    assert!(plan[0].deps.is_empty());
    for i in 1..plan.len() {
        assert_eq!(plan[i].deps, vec![plan[i - 1].id]);
    }
    assert_eq!(plan[10].id, StageId::Serialize);
}

#[test]
fn per_character_cantonese_is_detected() {
    let words = |ws: &[&str]| ws.iter().map(|w| w.to_string()).collect::<Vec<String>>();
    assert!(looks_per_character(&words(&["我", "哋", "去", "食", "飯"])));
    assert!(!looks_per_character(&words(&["我哋", "去", "食飯"])));
    assert!(!looks_per_character(&words(&["a", "b", "c"])));
    assert!(!looks_per_character(&Vec::new()));
}

#[test]
fn cache_partition_keeps_item_order() {
    let partition = partition_by_cache(
        vec![2, 5, 9],
        vec!["k2".to_string(), "k5".to_string(), "k9".to_string()],
        vec!["two", "five", "nine"],
        vec![None, Some("cached-five"), None],
    );
    assert_eq!(partition.hits, vec![(5, "cached-five")]);
    assert_eq!(partition.miss_keys, vec!["k2".to_string(), "k9".to_string()]);
    assert_eq!(partition.misses, vec!["two", "nine"]);
}

#[test]
fn morphosyntax_failure_messages() {
    assert_eq!(
        morphotag_pre_validation_error(&vec!["E1".to_string(), "E2".to_string()]),
        "morphotag pre-validation failed: E1; E2"
    );
    assert_eq!(morphotag_pre_validation_error(&vec![]), "morphotag pre-validation failed: ");
    assert_eq!(
        language_group_timeout_error("fra", 1800),
        ServerError::Validation("language group fra timed out after 1800s".to_string())
    );
    assert_eq!(injection_failure_error("word count mismatch"), "Result injection failed: word count mismatch");
}

#[test]
fn test_echo_outputs_and_messages() {
    assert_eq!(empty_echo_transcript(), "@UTF8\n@Begin\n@End\n");
    assert_eq!(test_echo_read_error("denied"), "Failed to read input for test-echo dispatch: denied");
    assert_eq!(test_echo_write_error("disk full"), "Failed to write test-echo output: disk full");
}

#[test]
fn media_failures_find_their_pending_file() {
    let files = vec![
        PendingJobFile { file_index: 4, filename: "a.wav".to_string(), has_chat: false },
        PendingJobFile { file_index: 9, filename: "b.wav".to_string(), has_chat: false },
    ];
    assert_eq!(pending_file_with_index(&files, 9), Some(1));
    assert_eq!(pending_file_with_index(&files, 5), None);
}

#[test]
fn cached_text_pipeline_starts_by_file_shape() {
    assert_eq!(cached_text_pipeline_start(true, false, false), TextPipelineStart::PassThrough);
    assert_eq!(cached_text_pipeline_start(false, false, false), TextPipelineStart::Reject);
    assert_eq!(cached_text_pipeline_start(false, true, true), TextPipelineStart::PassThrough);
    assert_eq!(cached_text_pipeline_start(false, true, false), TextPipelineStart::Run);
}

#[test]
fn pre_validation_messages_name_the_command() {
    assert_eq!(
        pre_validation_message("utseg", &vec!["E1 bad".to_string()]),
        "utseg pre-validation failed: E1 bad"
    );
}

#[test]
fn capabilities_are_bootstrapped_only_when_unknown() {
    assert!(needs_capability_bootstrap(false, false, ReleasedCommand::Morphotag));
    assert!(!needs_capability_bootstrap(true, false, ReleasedCommand::Morphotag));
    assert!(!needs_capability_bootstrap(false, true, ReleasedCommand::Align));
    assert_eq!(
        capability_bootstrap_error(ReleasedCommand::Align, "worker exited"),
        "Failed to bootstrap live worker capabilities for 'align': worker exited"
    );
}
