use batchalign_core::commands::{
    command_performance_profile, command_requires_infer, command_runner_dispatch_kind, command_uses_local_audio,
    infer_task_for_command, released_command_spec, released_command_specs, released_command_uses_local_audio,
    BatchingPolicy, ConstrainedHostPolicy, InferTask, ReleasedCommand, RunnerDispatchKind, SchedulingPolicy,
    WarmupPolicy,
};
use batchalign_core::paths::result_filename_for_command;
use batchalign_core::progress::{progress_stage_for_stage, FileProgressStage, FileStage, StageId};

fn cmd(name: &str) -> ReleasedCommand {
    ReleasedCommand::parse(name).expect("released command")
}

#[test]
fn command_specs_have_unique_names() {
    let specs = released_command_specs();
    let mut names: Vec<&str> = specs.iter().map(|spec| spec.descriptor.command.as_str()).collect();
    let original_len = names.len();
    names.sort_unstable();
    names.dedup();
    assert_eq!(names.len(), original_len, "duplicate command specs");
}

#[test]
fn compare_keeps_paired_reference_profile() {
    let profile = command_performance_profile(ReleasedCommand::Compare);
    assert_eq!(profile.scheduling, SchedulingPolicy::ReferenceProjection);
    assert_eq!(profile.batching, BatchingPolicy::PairedInputs);
}

#[test]
fn morphotag_keeps_cross_file_batch_profile() {
    let profile = command_performance_profile(ReleasedCommand::Morphotag);
    assert_eq!(profile.scheduling, SchedulingPolicy::CrossFileBatch);
    assert_eq!(profile.batching, BatchingPolicy::CrossFileBatch);
}

#[test]
fn transcribe_profile_is_background_eligible_but_can_fallback() {
    let profile = command_performance_profile(ReleasedCommand::Transcribe);
    assert_eq!(profile.warmup, WarmupPolicy::BackgroundEligible);
    assert_eq!(profile.constrained_host, ConstrainedHostPolicy::SequentialFallback);
}

#[test]
fn benchmark_profile_delegates_constrained_host_behavior() {
    let profile = command_performance_profile(ReleasedCommand::Benchmark);
    assert_eq!(profile.warmup, WarmupPolicy::DelegatedToSubcommands);
    assert_eq!(profile.constrained_host, ConstrainedHostPolicy::DelegatedToSubcommands);
}

#[test]
fn infer_task_mapping_is_stable() {
    assert_eq!(infer_task_for_command(cmd("morphotag")), Some(InferTask::Morphosyntax));
    assert_eq!(infer_task_for_command(cmd("utseg")), Some(InferTask::Utseg));
    assert_eq!(infer_task_for_command(cmd("translate")), Some(InferTask::Translate));
    assert_eq!(infer_task_for_command(cmd("coref")), Some(InferTask::Coref));
    assert_eq!(infer_task_for_command(cmd("align")), Some(InferTask::Fa));
    assert_eq!(infer_task_for_command(cmd("transcribe")), Some(InferTask::Asr));
    assert_eq!(infer_task_for_command(cmd("compare")), Some(InferTask::Morphosyntax));
    assert_eq!(infer_task_for_command(cmd("opensmile")), Some(InferTask::Opensmile));
    assert_eq!(infer_task_for_command(cmd("avqi")), Some(InferTask::Avqi));
    assert_eq!(infer_task_for_command(cmd("benchmark")), Some(InferTask::Asr));
}

#[test]
fn text_commands_always_require_infer() {
    for command in ["morphotag", "utseg", "translate", "coref", "opensmile", "avqi"] {
        let c = cmd(command);
        assert!(command_requires_infer(c));
        assert!(command_requires_infer(c));
    }
}

#[test]
fn align_always_requires_infer() {
    let c = cmd("align");
    assert!(command_requires_infer(c));
    assert!(command_requires_infer(c));
}

#[test]
fn non_infer_commands_do_not_require_infer() {
    assert!(!command_requires_infer(cmd("transcribe")));
    assert!(!command_requires_infer(cmd("benchmark")));
}

#[test]
fn transcribe_result_filename_preserves_relative_path() {
    assert_eq!(result_filename_for_command(cmd("transcribe"), "sub/nested.wav"), "sub/nested.cha");
    assert_eq!(result_filename_for_command(cmd("transcribe_s"), "nested.mp3"), "nested.cha");
}

#[test]
fn non_transcribe_result_filename_is_unchanged() {
    assert_eq!(result_filename_for_command(cmd("morphotag"), "sub/nested.cha"), "sub/nested.cha");
}

#[test]
fn file_stage_for_batch_command_is_stable() {
    assert_eq!(FileStage::for_batch_command(ReleasedCommand::Morphotag), FileStage::Analyzing);
    assert_eq!(FileStage::for_batch_command(ReleasedCommand::Utseg), FileStage::Segmenting);
    assert_eq!(FileStage::for_batch_command(ReleasedCommand::Translate), FileStage::Translating);
    assert_eq!(FileStage::for_batch_command(ReleasedCommand::Coref), FileStage::ResolvingCoreference);
    assert_eq!(FileStage::for_batch_command(ReleasedCommand::Compare), FileStage::Comparing);
    assert_eq!(FileStage::for_batch_command(ReleasedCommand::Align), FileStage::Processing);
    assert_eq!(FileStage::Writing.api_stage().label(), "Writing");
    assert_eq!(FileStage::CheckingCache.api_stage().label(), "Checking cache");
    assert_eq!(FileStage::PostProcessing.api_stage().label(), "Post-processing");
    assert_eq!(FileStage::Aligning.api_stage(), FileProgressStage::Aligning);
    assert_eq!(FileStage::AnalyzingMorphosyntax.api_stage(), FileProgressStage::AnalyzingMorphosyntax);
    assert_eq!(FileStage::AnalyzingMorphosyntax.api_stage().label(), "Analyzing morphosyntax");
}

#[test]
fn transcribe_stage_progress_labels_are_stable() {
    assert_eq!(progress_stage_for_stage(StageId::AsrInfer), FileStage::Transcribing);
    assert_eq!(progress_stage_for_stage(StageId::SpeakerDiarization), FileStage::PostProcessing);
    assert_eq!(progress_stage_for_stage(StageId::AsrPostprocess), FileStage::PostProcessing);
    assert_eq!(progress_stage_for_stage(StageId::BuildChat), FileStage::BuildingChat);
    assert_eq!(progress_stage_for_stage(StageId::OptionalUtseg), FileStage::SegmentingUtterances);
    assert_eq!(progress_stage_for_stage(StageId::OptionalMorphosyntax), FileStage::AnalyzingMorphosyntax);
    assert_eq!(progress_stage_for_stage(StageId::Serialize), FileStage::Finalizing);
}

#[test]
fn command_names_parse_back_to_their_command() {
    for spec in released_command_specs() {
        let c = spec.descriptor.command;
        assert_eq!(ReleasedCommand::parse(c.as_str()), Some(c));
    }
    assert_eq!(ReleasedCommand::parse("cantotag"), None);
    assert_eq!(ReleasedCommand::parse(""), None);
}

#[test]
fn each_spec_describes_its_own_command() {
    for spec in released_command_specs() {
        let c = spec.descriptor.command;
        assert_eq!(released_command_spec(c).descriptor.command, c);
    }
}

#[test]
fn local_audio_is_read_by_media_commands_only() {
    assert!(released_command_uses_local_audio(ReleasedCommand::Transcribe));
    assert!(released_command_uses_local_audio(ReleasedCommand::Opensmile));
    assert!(!released_command_uses_local_audio(ReleasedCommand::Morphotag));
    assert!(command_uses_local_audio("transcribe_s"));
    assert!(!command_uses_local_audio("not-a-command"));
}

#[test]
fn dispatch_kinds_follow_command_family() {
    assert_eq!(command_runner_dispatch_kind(ReleasedCommand::Align), Some(RunnerDispatchKind::ForcedAlignment));
    assert_eq!(command_runner_dispatch_kind(ReleasedCommand::Morphotag), Some(RunnerDispatchKind::BatchedTextInfer));
    assert_eq!(command_runner_dispatch_kind(ReleasedCommand::Transcribe), Some(RunnerDispatchKind::TranscribeAudioInfer));
    assert_eq!(command_runner_dispatch_kind(ReleasedCommand::Benchmark), Some(RunnerDispatchKind::BenchmarkAudioInfer));
    assert_eq!(command_runner_dispatch_kind(ReleasedCommand::Avqi), Some(RunnerDispatchKind::MediaAnalysisV2));
}
