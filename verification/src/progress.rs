//! Per-file progress stages: the runner's stage vocabulary, the stable API
//! stage enum with its operator-facing labels, and the mapping of pipeline
//! stages onto them.

use vstd::prelude::*;
use crate::commands::ReleasedCommand;

verus! {

/// Stable API progress stage of one file.
#[derive(Clone, Copy, Debug, PartialEq, Eq, Structural)]
pub enum FileProgressStage {
    Processing,
    Reading,
    ResolvingAudio,
    RecoveringUtteranceTiming,
    RecoveringTimingFallback,
    Aligning,
    Transcribing,
    Benchmarking,
    CheckingCache,
    ApplyingResults,
    PostProcessing,
    BuildingChat,
    SegmentingUtterances,
    AnalyzingMorphosyntax,
    Finalizing,
    Writing,
    Analyzing,
    Segmenting,
    Translating,
    ResolvingCoreference,
    Comparing,
    RetryScheduled,
}

/// Runner-local stage vocabulary.
#[derive(Clone, Copy, Debug, PartialEq, Eq, Structural)]
pub enum FileStage {
    Processing,
    Reading,
    ResolvingAudio,
    RecoveringUtteranceTiming,
    RecoveringTimingFallback,
    Aligning,
    Transcribing,
    Benchmarking,
    CheckingCache,
    ApplyingResults,
    PostProcessing,
    BuildingChat,
    SegmentingUtterances,
    AnalyzingMorphosyntax,
    Finalizing,
    Writing,
    Analyzing,
    Segmenting,
    Translating,
    ResolvingCoreference,
    Comparing,
}

/// Stages of the per-file pipeline plans (transcription and
/// morphosyntax).
#[derive(Clone, Copy, Debug, PartialEq, Eq, Structural)]
pub enum StageId {
    AsrInfer,
    SpeakerDiarization,
    AsrPostprocess,
    BuildChat,
    OptionalUtseg,
    OptionalMorphosyntax,
    Serialize,
    Parse,
    PreValidate,
    ClearExisting,
    CollectPayloads,
    PartitionCache,
    InjectCacheHits,
    Infer,
    ApplyResults,
    CacheStore,
    PostValidate,
}

/// The stages the transcription plan can emit.
pub open spec fn is_transcribe_stage(stage: StageId) -> bool {
    ||| stage == StageId::AsrInfer
    ||| stage == StageId::SpeakerDiarization
    ||| stage == StageId::AsrPostprocess
    ||| stage == StageId::BuildChat
    ||| stage == StageId::OptionalUtseg
    ||| stage == StageId::OptionalMorphosyntax
    ||| stage == StageId::Serialize
}

/// Operator-facing label of an API stage.
pub open spec fn stage_label(s: FileProgressStage) -> Seq<char> {
    match s {
        FileProgressStage::Processing => "Processing"@,
        FileProgressStage::Reading => "Reading"@,
        FileProgressStage::ResolvingAudio => "Resolving audio"@,
        FileProgressStage::RecoveringUtteranceTiming => "Recovering utterance timing"@,
        FileProgressStage::RecoveringTimingFallback => "Recovering timing (fallback)"@,
        FileProgressStage::Aligning => "Aligning"@,
        FileProgressStage::Transcribing => "Transcribing"@,
        FileProgressStage::Benchmarking => "Benchmarking"@,
        FileProgressStage::CheckingCache => "Checking cache"@,
        FileProgressStage::ApplyingResults => "Applying results"@,
        FileProgressStage::PostProcessing => "Post-processing"@,
        FileProgressStage::BuildingChat => "Building CHAT"@,
        FileProgressStage::SegmentingUtterances => "Segmenting utterances"@,
        FileProgressStage::AnalyzingMorphosyntax => "Analyzing morphosyntax"@,
        FileProgressStage::Finalizing => "Finalizing"@,
        FileProgressStage::Writing => "Writing"@,
        FileProgressStage::Analyzing => "Analyzing"@,
        FileProgressStage::Segmenting => "Segmenting"@,
        FileProgressStage::Translating => "Translating"@,
        FileProgressStage::ResolvingCoreference => "Resolving coreference"@,
        FileProgressStage::Comparing => "Comparing"@,
        FileProgressStage::RetryScheduled => "Retry scheduled"@,
    }
}

impl FileProgressStage {
    /// The operator-facing label of this stage.
    pub fn label(self) -> (r: &'static str)
        ensures
            r@ == stage_label(self),
    {
        match self {
            FileProgressStage::Processing => "Processing",
            FileProgressStage::Reading => "Reading",
            FileProgressStage::ResolvingAudio => "Resolving audio",
            FileProgressStage::RecoveringUtteranceTiming => "Recovering utterance timing",
            FileProgressStage::RecoveringTimingFallback => "Recovering timing (fallback)",
            FileProgressStage::Aligning => "Aligning",
            FileProgressStage::Transcribing => "Transcribing",
            FileProgressStage::Benchmarking => "Benchmarking",
            FileProgressStage::CheckingCache => "Checking cache",
            FileProgressStage::ApplyingResults => "Applying results",
            FileProgressStage::PostProcessing => "Post-processing",
            FileProgressStage::BuildingChat => "Building CHAT",
            FileProgressStage::SegmentingUtterances => "Segmenting utterances",
            FileProgressStage::AnalyzingMorphosyntax => "Analyzing morphosyntax",
            FileProgressStage::Finalizing => "Finalizing",
            FileProgressStage::Writing => "Writing",
            FileProgressStage::Analyzing => "Analyzing",
            FileProgressStage::Segmenting => "Segmenting",
            FileProgressStage::Translating => "Translating",
            FileProgressStage::ResolvingCoreference => "Resolving coreference",
            FileProgressStage::Comparing => "Comparing",
            FileProgressStage::RetryScheduled => "Retry scheduled",
        }
    }
}

/// The API stage of each runner stage: the variant of the same name.
pub open spec fn spec_api_stage(s: FileStage) -> FileProgressStage {
    match s {
        FileStage::Processing => FileProgressStage::Processing,
        FileStage::Reading => FileProgressStage::Reading,
        FileStage::ResolvingAudio => FileProgressStage::ResolvingAudio,
        FileStage::RecoveringUtteranceTiming => FileProgressStage::RecoveringUtteranceTiming,
        FileStage::RecoveringTimingFallback => FileProgressStage::RecoveringTimingFallback,
        FileStage::Aligning => FileProgressStage::Aligning,
        FileStage::Transcribing => FileProgressStage::Transcribing,
        FileStage::Benchmarking => FileProgressStage::Benchmarking,
        FileStage::CheckingCache => FileProgressStage::CheckingCache,
        FileStage::ApplyingResults => FileProgressStage::ApplyingResults,
        FileStage::PostProcessing => FileProgressStage::PostProcessing,
        FileStage::BuildingChat => FileProgressStage::BuildingChat,
        FileStage::SegmentingUtterances => FileProgressStage::SegmentingUtterances,
        FileStage::AnalyzingMorphosyntax => FileProgressStage::AnalyzingMorphosyntax,
        FileStage::Finalizing => FileProgressStage::Finalizing,
        FileStage::Writing => FileProgressStage::Writing,
        FileStage::Analyzing => FileProgressStage::Analyzing,
        FileStage::Segmenting => FileProgressStage::Segmenting,
        FileStage::Translating => FileProgressStage::Translating,
        FileStage::ResolvingCoreference => FileProgressStage::ResolvingCoreference,
        FileStage::Comparing => FileProgressStage::Comparing,
    }
}

/// The initial batch-infer stage of each top-level command.
pub open spec fn spec_stage_for_batch_command(command: ReleasedCommand) -> FileStage {
    match command {
        ReleasedCommand::Morphotag => FileStage::Analyzing,
        ReleasedCommand::Utseg => FileStage::Segmenting,
        ReleasedCommand::Translate => FileStage::Translating,
        ReleasedCommand::Coref => FileStage::ResolvingCoreference,
        ReleasedCommand::Compare => FileStage::Comparing,
        _ => FileStage::Processing,
    }
}

impl FileStage {
    /// The initial batch-infer stage for a top-level command.
    pub fn for_batch_command(command: ReleasedCommand) -> (r: FileStage)
        ensures
            r == spec_stage_for_batch_command(command),
    {
        match command {
            ReleasedCommand::Morphotag => FileStage::Analyzing,
            ReleasedCommand::Utseg => FileStage::Segmenting,
            ReleasedCommand::Translate => FileStage::Translating,
            ReleasedCommand::Coref => FileStage::ResolvingCoreference,
            ReleasedCommand::Compare => FileStage::Comparing,
            _ => FileStage::Processing,
        }
    }

    /// The stable API stage for this runner stage.
    pub fn api_stage(self) -> (r: FileProgressStage)
        ensures
            r == spec_api_stage(self),
    {
        match self {
            FileStage::Processing => FileProgressStage::Processing,
            FileStage::Reading => FileProgressStage::Reading,
            FileStage::ResolvingAudio => FileProgressStage::ResolvingAudio,
            FileStage::RecoveringUtteranceTiming => FileProgressStage::RecoveringUtteranceTiming,
            FileStage::RecoveringTimingFallback => FileProgressStage::RecoveringTimingFallback,
            FileStage::Aligning => FileProgressStage::Aligning,
            FileStage::Transcribing => FileProgressStage::Transcribing,
            FileStage::Benchmarking => FileProgressStage::Benchmarking,
            FileStage::CheckingCache => FileProgressStage::CheckingCache,
            FileStage::ApplyingResults => FileProgressStage::ApplyingResults,
            FileStage::PostProcessing => FileProgressStage::PostProcessing,
            FileStage::BuildingChat => FileProgressStage::BuildingChat,
            FileStage::SegmentingUtterances => FileProgressStage::SegmentingUtterances,
            FileStage::AnalyzingMorphosyntax => FileProgressStage::AnalyzingMorphosyntax,
            FileStage::Finalizing => FileProgressStage::Finalizing,
            FileStage::Writing => FileProgressStage::Writing,
            FileStage::Analyzing => FileProgressStage::Analyzing,
            FileStage::Segmenting => FileProgressStage::Segmenting,
            FileStage::Translating => FileProgressStage::Translating,
            FileStage::ResolvingCoreference => FileProgressStage::ResolvingCoreference,
            FileStage::Comparing => FileProgressStage::Comparing,
        }
    }
}

/// Runner stages map one-to-one onto API stages, none of them onto the
/// retry marker.
pub proof fn lemma_api_stage_injective(a: FileStage, b: FileStage)
    ensures
        spec_api_stage(a) == spec_api_stage(b) ==> a == b,
        spec_api_stage(a) != FileProgressStage::RetryScheduled,
{
}

/// The operator-facing stage of each transcribe pipeline stage.
pub open spec fn spec_progress_stage_for_stage(stage: StageId) -> FileStage {
    match stage {
        StageId::AsrInfer => FileStage::Transcribing,
        StageId::SpeakerDiarization => FileStage::PostProcessing,
        StageId::AsrPostprocess => FileStage::PostProcessing,
        StageId::BuildChat => FileStage::BuildingChat,
        StageId::OptionalUtseg => FileStage::SegmentingUtterances,
        StageId::OptionalMorphosyntax => FileStage::AnalyzingMorphosyntax,
        StageId::Serialize => FileStage::Finalizing,
        _ => FileStage::Processing,
    }
}

/// The operator-facing stage of a stage of the transcription plan; other
/// stages never reach this mapping.
pub fn progress_stage_for_stage(stage: StageId) -> (r: FileStage)
    requires
        is_transcribe_stage(stage),
    ensures
        r == spec_progress_stage_for_stage(stage),
{
    match stage {
        StageId::AsrInfer => FileStage::Transcribing,
        StageId::SpeakerDiarization => FileStage::PostProcessing,
        StageId::AsrPostprocess => FileStage::PostProcessing,
        StageId::BuildChat => FileStage::BuildingChat,
        StageId::OptionalUtseg => FileStage::SegmentingUtterances,
        StageId::OptionalMorphosyntax => FileStage::AnalyzingMorphosyntax,
        _ => FileStage::Finalizing,
    }
}

/// A progress update that a file task reports.
#[derive(Clone, Copy, Debug, PartialEq, Eq)]
pub struct ProgressUpdate {
    pub label: FileStage,
    pub current: Option<i64>,
    pub total: Option<i64>,
}

impl ProgressUpdate {
    pub fn new(label: FileStage, current: Option<i64>, total: Option<i64>) -> (r: ProgressUpdate)
        ensures
            r.label == label,
            r.current == current,
            r.total == total,
    {
        ProgressUpdate { label, current, total }
    }
}

} // verus!
