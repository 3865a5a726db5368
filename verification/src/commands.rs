//! The released command surface: command names, the command-owned catalog
//! with its performance profiles, and the routing rules derived from it.

use vstd::prelude::*;
use crate::text::str_equal;

verus! {

/// A command released to users.
#[derive(Clone, Copy, Debug, PartialEq, Eq, Hash, Structural)]
pub enum ReleasedCommand {
    Morphotag,
    Utseg,
    Translate,
    Coref,
    Align,
    Transcribe,
    TranscribeS,
    Compare,
    Benchmark,
    Opensmile,
    Avqi,
}

/// Worker-level inference task behind a command.
#[derive(Clone, Copy, Debug, PartialEq, Eq, Hash, Structural)]
pub enum InferTask {
    Morphosyntax,
    Utseg,
    Translate,
    Coref,
    Fa,
    Asr,
    Opensmile,
    Avqi,
}

/// Workflow family that owns a command's semantics.
#[derive(Clone, Copy, Debug, PartialEq, Eq, Structural)]
pub enum WorkflowFamily {
    CrossFileBatch,
    PerFileTransform,
    ReferenceProjection,
    Composite,
    MediaAnalysis,
}

/// How a released command is surfaced relative to the worker infer-task layer.
#[derive(Clone, Copy, Debug, PartialEq, Eq, Structural)]
pub enum CommandCapabilityKind {
    /// Advertised directly from one infer task.
    DirectInfer,
    /// Synthesized by the server from lower-level infer capability.
    ServerComposed,
}

/// Output file extension a command may switch to.
#[derive(Clone, Copy, Debug, PartialEq, Eq, Structural)]
pub enum OutputExtension {
    Cha,
    Csv,
}

/// How a command maps an input filename to its primary output filename.
#[derive(Clone, Copy, Debug, PartialEq, Eq, Structural)]
pub enum CommandOutputPathKind {
    /// Keep the incoming relative path and extension unchanged.
    PreserveInputName,
    /// Replace the input extension with a fixed output extension.
    ReplaceExtension(OutputExtension),
}

/// Which server-side runtime path owns a command.
#[derive(Clone, Copy, Debug, PartialEq, Eq, Structural)]
pub enum RunnerDispatchKind {
    BatchedTextInfer,
    ForcedAlignment,
    TranscribeAudioInfer,
    BenchmarkAudioInfer,
    MediaAnalysisV2,
}

/// High-level scheduling shape a command expects.
#[derive(Clone, Copy, Debug, PartialEq, Eq, Structural)]
pub enum SchedulingPolicy {
    PerFileAudio,
    CrossFileBatch,
    ReferenceProjection,
    Composite,
    PerFileMediaAnalysis,
}

/// How a command expects model state to be shared.
#[derive(Clone, Copy, Debug, PartialEq, Eq, Structural)]
pub enum ModelSharingPolicy {
    SharedWarmWorkers,
    DelegatedToSubcommands,
}

/// Whether a command benefits from batching.
#[derive(Clone, Copy, Debug, PartialEq, Eq, Structural)]
pub enum BatchingPolicy {
    NoBatching,
    CrossFileBatch,
    InternalStageBatching,
    PairedInputs,
}

/// How much per-command parallelism the kernel exposes.
#[derive(Clone, Copy, Debug, PartialEq, Eq, Structural)]
pub enum ParallelismPolicy {
    BoundedFileWorkers,
    SingleDispatchPerJob,
    DelegatedToSubcommands,
}

/// Behavior on constrained-memory hosts.
#[derive(Clone, Copy, Debug, PartialEq, Eq, Structural)]
pub enum ConstrainedHostPolicy {
    SequentialFallback,
    DelegatedToSubcommands,
}

/// Participation in background warmup.
#[derive(Clone, Copy, Debug, PartialEq, Eq, Structural)]
pub enum WarmupPolicy {
    LazyOnDemand,
    BackgroundEligible,
    DelegatedToSubcommands,
}

/// Dominant resource lane of a command's hot path.
#[derive(Clone, Copy, Debug, PartialEq, Eq, Structural)]
pub enum ResourceLane {
    GpuHeavy,
    CpuBound,
    IoBound,
    Mixed,
}

/// Explicit performance contract for one command.
#[derive(Clone, Copy, Debug, PartialEq, Eq, Structural)]
pub struct CommandPerformanceProfile {
    pub scheduling: SchedulingPolicy,
    pub model_sharing: ModelSharingPolicy,
    pub batching: BatchingPolicy,
    pub parallelism: ParallelismPolicy,
    pub resource_lane: ResourceLane,
    pub constrained_host: ConstrainedHostPolicy,
    pub warmup: WarmupPolicy,
    pub uses_host_memory_gate: bool,
}

/// Typed descriptor for one released command.
#[derive(Clone, Copy, Debug, PartialEq, Eq, Structural)]
pub struct CommandWorkflowDescriptor {
    pub command: ReleasedCommand,
    pub family: WorkflowFamily,
    pub infer_task: InferTask,
    pub capability_kind: CommandCapabilityKind,
    pub uses_local_audio: bool,
    pub output_path_kind: CommandOutputPathKind,
    pub runner_dispatch_kind: RunnerDispatchKind,
}

/// Command metadata plus its performance contract.
#[derive(Clone, Copy, Debug, PartialEq, Eq, Structural)]
pub struct CommandModuleSpec {
    pub descriptor: CommandWorkflowDescriptor,
    pub performance: CommandPerformanceProfile,
}

// ---------------------------------------------------------------------------
// Names
// ---------------------------------------------------------------------------

/// The user-facing name of a released command.
pub open spec fn command_name(c: ReleasedCommand) -> Seq<char> {
    match c {
        ReleasedCommand::Morphotag => "morphotag"@,
        ReleasedCommand::Utseg => "utseg"@,
        ReleasedCommand::Translate => "translate"@,
        ReleasedCommand::Coref => "coref"@,
        ReleasedCommand::Align => "align"@,
        ReleasedCommand::Transcribe => "transcribe"@,
        ReleasedCommand::TranscribeS => "transcribe_s"@,
        ReleasedCommand::Compare => "compare"@,
        ReleasedCommand::Benchmark => "benchmark"@,
        ReleasedCommand::Opensmile => "opensmile"@,
        ReleasedCommand::Avqi => "avqi"@,
    }
}

/// Every released command, in catalog order.
pub open spec fn all_commands() -> Seq<ReleasedCommand> {
    seq![
        ReleasedCommand::Morphotag,
        ReleasedCommand::Utseg,
        ReleasedCommand::Translate,
        ReleasedCommand::Coref,
        ReleasedCommand::Align,
        ReleasedCommand::Transcribe,
        ReleasedCommand::TranscribeS,
        ReleasedCommand::Compare,
        ReleasedCommand::Benchmark,
        ReleasedCommand::Opensmile,
        ReleasedCommand::Avqi,
    ]
}

/// The command whose name is `s`, if any.
pub open spec fn parse_command_name(s: Seq<char>) -> Option<ReleasedCommand> {
    if s == "morphotag"@ { Some(ReleasedCommand::Morphotag) }
    else if s == "utseg"@ { Some(ReleasedCommand::Utseg) }
    else if s == "translate"@ { Some(ReleasedCommand::Translate) }
    else if s == "coref"@ { Some(ReleasedCommand::Coref) }
    else if s == "align"@ { Some(ReleasedCommand::Align) }
    else if s == "transcribe"@ { Some(ReleasedCommand::Transcribe) }
    else if s == "transcribe_s"@ { Some(ReleasedCommand::TranscribeS) }
    else if s == "compare"@ { Some(ReleasedCommand::Compare) }
    else if s == "benchmark"@ { Some(ReleasedCommand::Benchmark) }
    else if s == "opensmile"@ { Some(ReleasedCommand::Opensmile) }
    else if s == "avqi"@ { Some(ReleasedCommand::Avqi) }
    else { None }
}

/// The wire name of an infer task, as worker capability reports key it.
pub open spec fn infer_task_name(t: InferTask) -> Seq<char> {
    match t {
        InferTask::Morphosyntax => "morphosyntax"@,
        InferTask::Utseg => "utseg"@,
        InferTask::Translate => "translate"@,
        InferTask::Coref => "coref"@,
        InferTask::Fa => "fa"@,
        InferTask::Asr => "asr"@,
        InferTask::Opensmile => "opensmile"@,
        InferTask::Avqi => "avqi"@,
    }
}

impl ReleasedCommand {
    /// The command's user-facing name.
    pub fn as_str(self) -> (r: &'static str)
        ensures
            r@ == command_name(self),
    {
        match self {
            ReleasedCommand::Morphotag => "morphotag",
            ReleasedCommand::Utseg => "utseg",
            ReleasedCommand::Translate => "translate",
            ReleasedCommand::Coref => "coref",
            ReleasedCommand::Align => "align",
            ReleasedCommand::Transcribe => "transcribe",
            ReleasedCommand::TranscribeS => "transcribe_s",
            ReleasedCommand::Compare => "compare",
            ReleasedCommand::Benchmark => "benchmark",
            ReleasedCommand::Opensmile => "opensmile",
            ReleasedCommand::Avqi => "avqi",
        }
    }

    /// Parse a released command from its user-facing name.
    pub fn parse(s: &str) -> (r: Option<ReleasedCommand>)
        ensures
            r == parse_command_name(s@),
    {
        if str_equal(s, "morphotag") { Some(ReleasedCommand::Morphotag) }
        else if str_equal(s, "utseg") { Some(ReleasedCommand::Utseg) }
        else if str_equal(s, "translate") { Some(ReleasedCommand::Translate) }
        else if str_equal(s, "coref") { Some(ReleasedCommand::Coref) }
        else if str_equal(s, "align") { Some(ReleasedCommand::Align) }
        else if str_equal(s, "transcribe") { Some(ReleasedCommand::Transcribe) }
        else if str_equal(s, "transcribe_s") { Some(ReleasedCommand::TranscribeS) }
        else if str_equal(s, "compare") { Some(ReleasedCommand::Compare) }
        else if str_equal(s, "benchmark") { Some(ReleasedCommand::Benchmark) }
        else if str_equal(s, "opensmile") { Some(ReleasedCommand::Opensmile) }
        else if str_equal(s, "avqi") { Some(ReleasedCommand::Avqi) }
        else { None }
    }
}

impl InferTask {
    /// The infer task's wire name.
    pub fn task_name(self) -> (r: &'static str)
        ensures
            r@ == infer_task_name(self),
    {
        match self {
            InferTask::Morphosyntax => "morphosyntax",
            InferTask::Utseg => "utseg",
            InferTask::Translate => "translate",
            InferTask::Coref => "coref",
            InferTask::Fa => "fa",
            InferTask::Asr => "asr",
            InferTask::Opensmile => "opensmile",
            InferTask::Avqi => "avqi",
        }
    }
}

/// Names of distinct commands differ, and parsing a name gives its command
/// back.
proof fn lemma_command_name_facts()
    ensures
        "morphotag"@.len() == 9 && "morphotag"@[0] == 'm',
        "utseg"@.len() == 5 && "utseg"@[0] == 'u',
        "translate"@.len() == 9 && "translate"@[0] == 't',
        "coref"@.len() == 5 && "coref"@[0] == 'c',
        "align"@.len() == 5 && "align"@[0] == 'a',
        "transcribe"@.len() == 10 && "transcribe"@[0] == 't',
        "transcribe_s"@.len() == 12 && "transcribe_s"@[0] == 't',
        "compare"@.len() == 7 && "compare"@[0] == 'c',
        "benchmark"@.len() == 9 && "benchmark"@[0] == 'b',
        "opensmile"@.len() == 9 && "opensmile"@[0] == 'o',
        "avqi"@.len() == 4 && "avqi"@[0] == 'a',
{
    reveal_strlit("morphotag");
    assert("morphotag"@.len() == 9 && "morphotag"@[0] == 'm');
    reveal_strlit("utseg");
    assert("utseg"@.len() == 5 && "utseg"@[0] == 'u');
    reveal_strlit("translate");
    assert("translate"@.len() == 9 && "translate"@[0] == 't');
    reveal_strlit("coref");
    assert("coref"@.len() == 5 && "coref"@[0] == 'c');
    reveal_strlit("align");
    assert("align"@.len() == 5 && "align"@[0] == 'a');
    reveal_strlit("transcribe");
    assert("transcribe"@.len() == 10 && "transcribe"@[0] == 't');
    reveal_strlit("transcribe_s");
    assert("transcribe_s"@.len() == 12 && "transcribe_s"@[0] == 't');
    reveal_strlit("compare");
    assert("compare"@.len() == 7 && "compare"@[0] == 'c');
    reveal_strlit("benchmark");
    assert("benchmark"@.len() == 9 && "benchmark"@[0] == 'b');
    reveal_strlit("opensmile");
    assert("opensmile"@.len() == 9 && "opensmile"@[0] == 'o');
    reveal_strlit("avqi");
    assert("avqi"@.len() == 4 && "avqi"@[0] == 'a');
}

/// Every command's name parses back to that command.
pub proof fn lemma_command_names_roundtrip(c: ReleasedCommand)
    ensures
        parse_command_name(command_name(c)) == Some(c),
{
    lemma_command_name_facts();
}

/// Distinct commands have distinct names.
pub proof fn lemma_command_names_distinct(a: ReleasedCommand, b: ReleasedCommand)
    ensures
        command_name(a) == command_name(b) ==> a == b,
{
    lemma_command_names_roundtrip(a);
    lemma_command_names_roundtrip(b);
}


// ---------------------------------------------------------------------------
// Catalog
// ---------------------------------------------------------------------------

/// The command-owned spec of each released command.
pub open spec fn command_spec(c: ReleasedCommand) -> CommandModuleSpec {
    match c {
        ReleasedCommand::Morphotag => CommandModuleSpec {
            descriptor: CommandWorkflowDescriptor {
                command: ReleasedCommand::Morphotag,
                family: WorkflowFamily::CrossFileBatch,
                infer_task: InferTask::Morphosyntax,
                capability_kind: CommandCapabilityKind::DirectInfer,
                uses_local_audio: false,
                output_path_kind: CommandOutputPathKind::PreserveInputName,
                runner_dispatch_kind: RunnerDispatchKind::BatchedTextInfer,
            },
            performance: CommandPerformanceProfile {
                scheduling: SchedulingPolicy::CrossFileBatch,
                model_sharing: ModelSharingPolicy::SharedWarmWorkers,
                batching: BatchingPolicy::CrossFileBatch,
                parallelism: ParallelismPolicy::SingleDispatchPerJob,
                resource_lane: ResourceLane::CpuBound,
                constrained_host: ConstrainedHostPolicy::SequentialFallback,
                warmup: WarmupPolicy::BackgroundEligible,
                uses_host_memory_gate: true,
            },
        },
        ReleasedCommand::Utseg => CommandModuleSpec {
            descriptor: CommandWorkflowDescriptor {
                command: ReleasedCommand::Utseg,
                family: WorkflowFamily::CrossFileBatch,
                infer_task: InferTask::Utseg,
                capability_kind: CommandCapabilityKind::DirectInfer,
                uses_local_audio: false,
                output_path_kind: CommandOutputPathKind::PreserveInputName,
                runner_dispatch_kind: RunnerDispatchKind::BatchedTextInfer,
            },
            performance: CommandPerformanceProfile {
                scheduling: SchedulingPolicy::CrossFileBatch,
                model_sharing: ModelSharingPolicy::SharedWarmWorkers,
                batching: BatchingPolicy::CrossFileBatch,
                parallelism: ParallelismPolicy::SingleDispatchPerJob,
                resource_lane: ResourceLane::CpuBound,
                constrained_host: ConstrainedHostPolicy::SequentialFallback,
                warmup: WarmupPolicy::BackgroundEligible,
                uses_host_memory_gate: true,
            },
        },
        ReleasedCommand::Translate => CommandModuleSpec {
            descriptor: CommandWorkflowDescriptor {
                command: ReleasedCommand::Translate,
                family: WorkflowFamily::CrossFileBatch,
                infer_task: InferTask::Translate,
                capability_kind: CommandCapabilityKind::DirectInfer,
                uses_local_audio: false,
                output_path_kind: CommandOutputPathKind::PreserveInputName,
                runner_dispatch_kind: RunnerDispatchKind::BatchedTextInfer,
            },
            performance: CommandPerformanceProfile {
                scheduling: SchedulingPolicy::CrossFileBatch,
                model_sharing: ModelSharingPolicy::SharedWarmWorkers,
                batching: BatchingPolicy::CrossFileBatch,
                parallelism: ParallelismPolicy::SingleDispatchPerJob,
                resource_lane: ResourceLane::CpuBound,
                constrained_host: ConstrainedHostPolicy::SequentialFallback,
                warmup: WarmupPolicy::BackgroundEligible,
                uses_host_memory_gate: true,
            },
        },
        ReleasedCommand::Coref => CommandModuleSpec {
            descriptor: CommandWorkflowDescriptor {
                command: ReleasedCommand::Coref,
                family: WorkflowFamily::CrossFileBatch,
                infer_task: InferTask::Coref,
                capability_kind: CommandCapabilityKind::DirectInfer,
                uses_local_audio: false,
                output_path_kind: CommandOutputPathKind::PreserveInputName,
                runner_dispatch_kind: RunnerDispatchKind::BatchedTextInfer,
            },
            performance: CommandPerformanceProfile {
                scheduling: SchedulingPolicy::CrossFileBatch,
                model_sharing: ModelSharingPolicy::SharedWarmWorkers,
                batching: BatchingPolicy::CrossFileBatch,
                parallelism: ParallelismPolicy::SingleDispatchPerJob,
                resource_lane: ResourceLane::CpuBound,
                constrained_host: ConstrainedHostPolicy::SequentialFallback,
                warmup: WarmupPolicy::BackgroundEligible,
                uses_host_memory_gate: true,
            },
        },
        ReleasedCommand::Align => CommandModuleSpec {
            descriptor: CommandWorkflowDescriptor {
                command: ReleasedCommand::Align,
                family: WorkflowFamily::PerFileTransform,
                infer_task: InferTask::Fa,
                capability_kind: CommandCapabilityKind::DirectInfer,
                uses_local_audio: false,
                output_path_kind: CommandOutputPathKind::PreserveInputName,
                runner_dispatch_kind: RunnerDispatchKind::ForcedAlignment,
            },
            performance: CommandPerformanceProfile {
                scheduling: SchedulingPolicy::PerFileAudio,
                model_sharing: ModelSharingPolicy::SharedWarmWorkers,
                batching: BatchingPolicy::InternalStageBatching,
                parallelism: ParallelismPolicy::BoundedFileWorkers,
                resource_lane: ResourceLane::GpuHeavy,
                constrained_host: ConstrainedHostPolicy::SequentialFallback,
                warmup: WarmupPolicy::BackgroundEligible,
                uses_host_memory_gate: true,
            },
        },
        ReleasedCommand::Transcribe => CommandModuleSpec {
            descriptor: CommandWorkflowDescriptor {
                command: ReleasedCommand::Transcribe,
                family: WorkflowFamily::PerFileTransform,
                infer_task: InferTask::Asr,
                capability_kind: CommandCapabilityKind::ServerComposed,
                uses_local_audio: true,
                output_path_kind: CommandOutputPathKind::ReplaceExtension(OutputExtension::Cha),
                runner_dispatch_kind: RunnerDispatchKind::TranscribeAudioInfer,
            },
            performance: CommandPerformanceProfile {
                scheduling: SchedulingPolicy::PerFileAudio,
                model_sharing: ModelSharingPolicy::SharedWarmWorkers,
                batching: BatchingPolicy::InternalStageBatching,
                parallelism: ParallelismPolicy::BoundedFileWorkers,
                resource_lane: ResourceLane::GpuHeavy,
                constrained_host: ConstrainedHostPolicy::SequentialFallback,
                warmup: WarmupPolicy::BackgroundEligible,
                uses_host_memory_gate: true,
            },
        },
        ReleasedCommand::TranscribeS => CommandModuleSpec {
            descriptor: CommandWorkflowDescriptor {
                command: ReleasedCommand::TranscribeS,
                family: WorkflowFamily::PerFileTransform,
                infer_task: InferTask::Asr,
                capability_kind: CommandCapabilityKind::ServerComposed,
                uses_local_audio: true,
                output_path_kind: CommandOutputPathKind::ReplaceExtension(OutputExtension::Cha),
                runner_dispatch_kind: RunnerDispatchKind::TranscribeAudioInfer,
            },
            performance: CommandPerformanceProfile {
                scheduling: SchedulingPolicy::PerFileAudio,
                model_sharing: ModelSharingPolicy::SharedWarmWorkers,
                batching: BatchingPolicy::InternalStageBatching,
                parallelism: ParallelismPolicy::BoundedFileWorkers,
                resource_lane: ResourceLane::GpuHeavy,
                constrained_host: ConstrainedHostPolicy::SequentialFallback,
                warmup: WarmupPolicy::BackgroundEligible,
                uses_host_memory_gate: true,
            },
        },
        ReleasedCommand::Compare => CommandModuleSpec {
            descriptor: CommandWorkflowDescriptor {
                command: ReleasedCommand::Compare,
                family: WorkflowFamily::ReferenceProjection,
                infer_task: InferTask::Morphosyntax,
                capability_kind: CommandCapabilityKind::DirectInfer,
                uses_local_audio: false,
                output_path_kind: CommandOutputPathKind::PreserveInputName,
                runner_dispatch_kind: RunnerDispatchKind::BatchedTextInfer,
            },
            performance: CommandPerformanceProfile {
                scheduling: SchedulingPolicy::ReferenceProjection,
                model_sharing: ModelSharingPolicy::SharedWarmWorkers,
                batching: BatchingPolicy::PairedInputs,
                parallelism: ParallelismPolicy::SingleDispatchPerJob,
                resource_lane: ResourceLane::Mixed,
                constrained_host: ConstrainedHostPolicy::SequentialFallback,
                warmup: WarmupPolicy::BackgroundEligible,
                uses_host_memory_gate: true,
            },
        },
        ReleasedCommand::Benchmark => CommandModuleSpec {
            descriptor: CommandWorkflowDescriptor {
                command: ReleasedCommand::Benchmark,
                family: WorkflowFamily::Composite,
                infer_task: InferTask::Asr,
                capability_kind: CommandCapabilityKind::ServerComposed,
                uses_local_audio: true,
                output_path_kind: CommandOutputPathKind::PreserveInputName,
                runner_dispatch_kind: RunnerDispatchKind::BenchmarkAudioInfer,
            },
            performance: CommandPerformanceProfile {
                scheduling: SchedulingPolicy::Composite,
                model_sharing: ModelSharingPolicy::DelegatedToSubcommands,
                batching: BatchingPolicy::NoBatching,
                parallelism: ParallelismPolicy::DelegatedToSubcommands,
                resource_lane: ResourceLane::Mixed,
                constrained_host: ConstrainedHostPolicy::DelegatedToSubcommands,
                warmup: WarmupPolicy::DelegatedToSubcommands,
                uses_host_memory_gate: true,
            },
        },
        ReleasedCommand::Opensmile => CommandModuleSpec {
            descriptor: CommandWorkflowDescriptor {
                command: ReleasedCommand::Opensmile,
                family: WorkflowFamily::MediaAnalysis,
                infer_task: InferTask::Opensmile,
                capability_kind: CommandCapabilityKind::DirectInfer,
                uses_local_audio: true,
                output_path_kind: CommandOutputPathKind::ReplaceExtension(OutputExtension::Csv),
                runner_dispatch_kind: RunnerDispatchKind::MediaAnalysisV2,
            },
            performance: CommandPerformanceProfile {
                scheduling: SchedulingPolicy::PerFileMediaAnalysis,
                model_sharing: ModelSharingPolicy::SharedWarmWorkers,
                batching: BatchingPolicy::NoBatching,
                parallelism: ParallelismPolicy::BoundedFileWorkers,
                resource_lane: ResourceLane::IoBound,
                constrained_host: ConstrainedHostPolicy::SequentialFallback,
                warmup: WarmupPolicy::LazyOnDemand,
                uses_host_memory_gate: true,
            },
        },
        ReleasedCommand::Avqi => CommandModuleSpec {
            descriptor: CommandWorkflowDescriptor {
                command: ReleasedCommand::Avqi,
                family: WorkflowFamily::MediaAnalysis,
                infer_task: InferTask::Avqi,
                capability_kind: CommandCapabilityKind::DirectInfer,
                uses_local_audio: true,
                output_path_kind: CommandOutputPathKind::ReplaceExtension(OutputExtension::Csv),
                runner_dispatch_kind: RunnerDispatchKind::MediaAnalysisV2,
            },
            performance: CommandPerformanceProfile {
                scheduling: SchedulingPolicy::PerFileMediaAnalysis,
                model_sharing: ModelSharingPolicy::SharedWarmWorkers,
                batching: BatchingPolicy::NoBatching,
                parallelism: ParallelismPolicy::BoundedFileWorkers,
                resource_lane: ResourceLane::IoBound,
                constrained_host: ConstrainedHostPolicy::SequentialFallback,
                warmup: WarmupPolicy::LazyOnDemand,
                uses_host_memory_gate: true,
            },
        },
    }
}

/// The full command-owned spec for one released command.
pub fn released_command_spec(command: ReleasedCommand) -> (r: CommandModuleSpec)
    ensures
        r == command_spec(command),
{
    match command {
        ReleasedCommand::Morphotag => CommandModuleSpec {
            descriptor: CommandWorkflowDescriptor {
                command: ReleasedCommand::Morphotag,
                family: WorkflowFamily::CrossFileBatch,
                infer_task: InferTask::Morphosyntax,
                capability_kind: CommandCapabilityKind::DirectInfer,
                uses_local_audio: false,
                output_path_kind: CommandOutputPathKind::PreserveInputName,
                runner_dispatch_kind: RunnerDispatchKind::BatchedTextInfer,
            },
            performance: CommandPerformanceProfile {
                scheduling: SchedulingPolicy::CrossFileBatch,
                model_sharing: ModelSharingPolicy::SharedWarmWorkers,
                batching: BatchingPolicy::CrossFileBatch,
                parallelism: ParallelismPolicy::SingleDispatchPerJob,
                resource_lane: ResourceLane::CpuBound,
                constrained_host: ConstrainedHostPolicy::SequentialFallback,
                warmup: WarmupPolicy::BackgroundEligible,
                uses_host_memory_gate: true,
            },
        },
        ReleasedCommand::Utseg => CommandModuleSpec {
            descriptor: CommandWorkflowDescriptor {
                command: ReleasedCommand::Utseg,
                family: WorkflowFamily::CrossFileBatch,
                infer_task: InferTask::Utseg,
                capability_kind: CommandCapabilityKind::DirectInfer,
                uses_local_audio: false,
                output_path_kind: CommandOutputPathKind::PreserveInputName,
                runner_dispatch_kind: RunnerDispatchKind::BatchedTextInfer,
            },
            performance: CommandPerformanceProfile {
                scheduling: SchedulingPolicy::CrossFileBatch,
                model_sharing: ModelSharingPolicy::SharedWarmWorkers,
                batching: BatchingPolicy::CrossFileBatch,
                parallelism: ParallelismPolicy::SingleDispatchPerJob,
                resource_lane: ResourceLane::CpuBound,
                constrained_host: ConstrainedHostPolicy::SequentialFallback,
                warmup: WarmupPolicy::BackgroundEligible,
                uses_host_memory_gate: true,
            },
        },
        ReleasedCommand::Translate => CommandModuleSpec {
            descriptor: CommandWorkflowDescriptor {
                command: ReleasedCommand::Translate,
                family: WorkflowFamily::CrossFileBatch,
                infer_task: InferTask::Translate,
                capability_kind: CommandCapabilityKind::DirectInfer,
                uses_local_audio: false,
                output_path_kind: CommandOutputPathKind::PreserveInputName,
                runner_dispatch_kind: RunnerDispatchKind::BatchedTextInfer,
            },
            performance: CommandPerformanceProfile {
                scheduling: SchedulingPolicy::CrossFileBatch,
                model_sharing: ModelSharingPolicy::SharedWarmWorkers,
                batching: BatchingPolicy::CrossFileBatch,
                parallelism: ParallelismPolicy::SingleDispatchPerJob,
                resource_lane: ResourceLane::CpuBound,
                constrained_host: ConstrainedHostPolicy::SequentialFallback,
                warmup: WarmupPolicy::BackgroundEligible,
                uses_host_memory_gate: true,
            },
        },
        ReleasedCommand::Coref => CommandModuleSpec {
            descriptor: CommandWorkflowDescriptor {
                command: ReleasedCommand::Coref,
                family: WorkflowFamily::CrossFileBatch,
                infer_task: InferTask::Coref,
                capability_kind: CommandCapabilityKind::DirectInfer,
                uses_local_audio: false,
                output_path_kind: CommandOutputPathKind::PreserveInputName,
                runner_dispatch_kind: RunnerDispatchKind::BatchedTextInfer,
            },
            performance: CommandPerformanceProfile {
                scheduling: SchedulingPolicy::CrossFileBatch,
                model_sharing: ModelSharingPolicy::SharedWarmWorkers,
                batching: BatchingPolicy::CrossFileBatch,
                parallelism: ParallelismPolicy::SingleDispatchPerJob,
                resource_lane: ResourceLane::CpuBound,
                constrained_host: ConstrainedHostPolicy::SequentialFallback,
                warmup: WarmupPolicy::BackgroundEligible,
                uses_host_memory_gate: true,
            },
        },
        ReleasedCommand::Align => CommandModuleSpec {
            descriptor: CommandWorkflowDescriptor {
                command: ReleasedCommand::Align,
                family: WorkflowFamily::PerFileTransform,
                infer_task: InferTask::Fa,
                capability_kind: CommandCapabilityKind::DirectInfer,
                uses_local_audio: false,
                output_path_kind: CommandOutputPathKind::PreserveInputName,
                runner_dispatch_kind: RunnerDispatchKind::ForcedAlignment,
            },
            performance: CommandPerformanceProfile {
                scheduling: SchedulingPolicy::PerFileAudio,
                model_sharing: ModelSharingPolicy::SharedWarmWorkers,
                batching: BatchingPolicy::InternalStageBatching,
                parallelism: ParallelismPolicy::BoundedFileWorkers,
                resource_lane: ResourceLane::GpuHeavy,
                constrained_host: ConstrainedHostPolicy::SequentialFallback,
                warmup: WarmupPolicy::BackgroundEligible,
                uses_host_memory_gate: true,
            },
        },
        ReleasedCommand::Transcribe => CommandModuleSpec {
            descriptor: CommandWorkflowDescriptor {
                command: ReleasedCommand::Transcribe,
                family: WorkflowFamily::PerFileTransform,
                infer_task: InferTask::Asr,
                capability_kind: CommandCapabilityKind::ServerComposed,
                uses_local_audio: true,
                output_path_kind: CommandOutputPathKind::ReplaceExtension(OutputExtension::Cha),
                runner_dispatch_kind: RunnerDispatchKind::TranscribeAudioInfer,
            },
            performance: CommandPerformanceProfile {
                scheduling: SchedulingPolicy::PerFileAudio,
                model_sharing: ModelSharingPolicy::SharedWarmWorkers,
                batching: BatchingPolicy::InternalStageBatching,
                parallelism: ParallelismPolicy::BoundedFileWorkers,
                resource_lane: ResourceLane::GpuHeavy,
                constrained_host: ConstrainedHostPolicy::SequentialFallback,
                warmup: WarmupPolicy::BackgroundEligible,
                uses_host_memory_gate: true,
            },
        },
        ReleasedCommand::TranscribeS => CommandModuleSpec {
            descriptor: CommandWorkflowDescriptor {
                command: ReleasedCommand::TranscribeS,
                family: WorkflowFamily::PerFileTransform,
                infer_task: InferTask::Asr,
                capability_kind: CommandCapabilityKind::ServerComposed,
                uses_local_audio: true,
                output_path_kind: CommandOutputPathKind::ReplaceExtension(OutputExtension::Cha),
                runner_dispatch_kind: RunnerDispatchKind::TranscribeAudioInfer,
            },
            performance: CommandPerformanceProfile {
                scheduling: SchedulingPolicy::PerFileAudio,
                model_sharing: ModelSharingPolicy::SharedWarmWorkers,
                batching: BatchingPolicy::InternalStageBatching,
                parallelism: ParallelismPolicy::BoundedFileWorkers,
                resource_lane: ResourceLane::GpuHeavy,
                constrained_host: ConstrainedHostPolicy::SequentialFallback,
                warmup: WarmupPolicy::BackgroundEligible,
                uses_host_memory_gate: true,
            },
        },
        ReleasedCommand::Compare => CommandModuleSpec {
            descriptor: CommandWorkflowDescriptor {
                command: ReleasedCommand::Compare,
                family: WorkflowFamily::ReferenceProjection,
                infer_task: InferTask::Morphosyntax,
                capability_kind: CommandCapabilityKind::DirectInfer,
                uses_local_audio: false,
                output_path_kind: CommandOutputPathKind::PreserveInputName,
                runner_dispatch_kind: RunnerDispatchKind::BatchedTextInfer,
            },
            performance: CommandPerformanceProfile {
                scheduling: SchedulingPolicy::ReferenceProjection,
                model_sharing: ModelSharingPolicy::SharedWarmWorkers,
                batching: BatchingPolicy::PairedInputs,
                parallelism: ParallelismPolicy::SingleDispatchPerJob,
                resource_lane: ResourceLane::Mixed,
                constrained_host: ConstrainedHostPolicy::SequentialFallback,
                warmup: WarmupPolicy::BackgroundEligible,
                uses_host_memory_gate: true,
            },
        },
        ReleasedCommand::Benchmark => CommandModuleSpec {
            descriptor: CommandWorkflowDescriptor {
                command: ReleasedCommand::Benchmark,
                family: WorkflowFamily::Composite,
                infer_task: InferTask::Asr,
                capability_kind: CommandCapabilityKind::ServerComposed,
                uses_local_audio: true,
                output_path_kind: CommandOutputPathKind::PreserveInputName,
                runner_dispatch_kind: RunnerDispatchKind::BenchmarkAudioInfer,
            },
            performance: CommandPerformanceProfile {
                scheduling: SchedulingPolicy::Composite,
                model_sharing: ModelSharingPolicy::DelegatedToSubcommands,
                batching: BatchingPolicy::NoBatching,
                parallelism: ParallelismPolicy::DelegatedToSubcommands,
                resource_lane: ResourceLane::Mixed,
                constrained_host: ConstrainedHostPolicy::DelegatedToSubcommands,
                warmup: WarmupPolicy::DelegatedToSubcommands,
                uses_host_memory_gate: true,
            },
        },
        ReleasedCommand::Opensmile => CommandModuleSpec {
            descriptor: CommandWorkflowDescriptor {
                command: ReleasedCommand::Opensmile,
                family: WorkflowFamily::MediaAnalysis,
                infer_task: InferTask::Opensmile,
                capability_kind: CommandCapabilityKind::DirectInfer,
                uses_local_audio: true,
                output_path_kind: CommandOutputPathKind::ReplaceExtension(OutputExtension::Csv),
                runner_dispatch_kind: RunnerDispatchKind::MediaAnalysisV2,
            },
            performance: CommandPerformanceProfile {
                scheduling: SchedulingPolicy::PerFileMediaAnalysis,
                model_sharing: ModelSharingPolicy::SharedWarmWorkers,
                batching: BatchingPolicy::NoBatching,
                parallelism: ParallelismPolicy::BoundedFileWorkers,
                resource_lane: ResourceLane::IoBound,
                constrained_host: ConstrainedHostPolicy::SequentialFallback,
                warmup: WarmupPolicy::LazyOnDemand,
                uses_host_memory_gate: true,
            },
        },
        ReleasedCommand::Avqi => CommandModuleSpec {
            descriptor: CommandWorkflowDescriptor {
                command: ReleasedCommand::Avqi,
                family: WorkflowFamily::MediaAnalysis,
                infer_task: InferTask::Avqi,
                capability_kind: CommandCapabilityKind::DirectInfer,
                uses_local_audio: true,
                output_path_kind: CommandOutputPathKind::ReplaceExtension(OutputExtension::Csv),
                runner_dispatch_kind: RunnerDispatchKind::MediaAnalysisV2,
            },
            performance: CommandPerformanceProfile {
                scheduling: SchedulingPolicy::PerFileMediaAnalysis,
                model_sharing: ModelSharingPolicy::SharedWarmWorkers,
                batching: BatchingPolicy::NoBatching,
                parallelism: ParallelismPolicy::BoundedFileWorkers,
                resource_lane: ResourceLane::IoBound,
                constrained_host: ConstrainedHostPolicy::SequentialFallback,
                warmup: WarmupPolicy::LazyOnDemand,
                uses_host_memory_gate: true,
            },
        },
    }
}

/// The command-owned spec for one released command, if present (always).
pub fn command_module_spec(command: ReleasedCommand) -> (r: Option<CommandModuleSpec>)
    ensures
        r == Some(command_spec(command)),
{
    Some(released_command_spec(command))
}

/// All released command specs, in catalog order.
pub fn released_command_specs() -> (r: Vec<CommandModuleSpec>)
    ensures
        r@ == all_commands().map_values(|c: ReleasedCommand| command_spec(c)),
{
    let order = [
        ReleasedCommand::Morphotag,
        ReleasedCommand::Utseg,
        ReleasedCommand::Translate,
        ReleasedCommand::Coref,
        ReleasedCommand::Align,
        ReleasedCommand::Transcribe,
        ReleasedCommand::TranscribeS,
        ReleasedCommand::Compare,
        ReleasedCommand::Benchmark,
        ReleasedCommand::Opensmile,
        ReleasedCommand::Avqi,
    ];
    assert(order@ =~= all_commands());
    let mut r: Vec<CommandModuleSpec> = Vec::new();
    let mut i: usize = 0;
    while i < order.len()
        invariant
            order@ == all_commands(),
            i <= order@.len(),
            r@ =~= all_commands().take(i as int).map_values(|c: ReleasedCommand| command_spec(c)),
        decreases order@.len() - i,
    {
        r.push(released_command_spec(order[i]));
        i = i + 1;
        assert(all_commands().take(i as int) =~= all_commands().take(i - 1).push(all_commands()[i - 1]));
    }
    assert(all_commands().take(11) =~= all_commands());
    r
}

/// The workflow descriptor of one released command.
pub fn released_command_descriptor(command: ReleasedCommand) -> (r: CommandWorkflowDescriptor)
    ensures
        r == command_spec(command).descriptor,
{
    released_command_spec(command).descriptor
}

/// The workflow descriptor of one released command, if present (always).
pub fn command_workflow_descriptor(command: ReleasedCommand) -> (r: Option<CommandWorkflowDescriptor>)
    ensures
        r == Some(command_spec(command).descriptor),
{
    Some(released_command_descriptor(command))
}

/// The performance profile of one released command.
pub fn command_performance_profile(command: ReleasedCommand) -> (r: CommandPerformanceProfile)
    ensures
        r == command_spec(command).performance,
{
    released_command_spec(command).performance
}

/// Every catalog entry names a different command: the catalog holds each
/// released command exactly once.
pub proof fn lemma_catalog_commands_unique()
    ensures
        all_commands().len() == 11,
        forall|i: int, j: int|
            0 <= i < all_commands().len() && 0 <= j < all_commands().len() && i != j
                ==> command_spec(all_commands()[i]).descriptor.command
                != command_spec(all_commands()[j]).descriptor.command,
        forall|c: ReleasedCommand| #[trigger] all_commands().contains(c),
{
    assert forall|c: ReleasedCommand| #[trigger] all_commands().contains(c) by {
        match c {
            ReleasedCommand::Morphotag => assert(all_commands()[0] == c),
            ReleasedCommand::Utseg => assert(all_commands()[1] == c),
            ReleasedCommand::Translate => assert(all_commands()[2] == c),
            ReleasedCommand::Coref => assert(all_commands()[3] == c),
            ReleasedCommand::Align => assert(all_commands()[4] == c),
            ReleasedCommand::Transcribe => assert(all_commands()[5] == c),
            ReleasedCommand::TranscribeS => assert(all_commands()[6] == c),
            ReleasedCommand::Compare => assert(all_commands()[7] == c),
            ReleasedCommand::Benchmark => assert(all_commands()[8] == c),
            ReleasedCommand::Opensmile => assert(all_commands()[9] == c),
            ReleasedCommand::Avqi => assert(all_commands()[10] == c),
        }
    }
}

/// Each spec describes the command it is filed under.
pub proof fn lemma_spec_describes_its_command(c: ReleasedCommand)
    ensures
        command_spec(c).descriptor.command == c,
{
}


// ---------------------------------------------------------------------------
// Routing rules derived from the catalog
// ---------------------------------------------------------------------------

/// Whether a released command requires client-local audio access.
pub fn released_command_uses_local_audio(command: ReleasedCommand) -> (r: bool)
    ensures
        r == command_spec(command).descriptor.uses_local_audio,
{
    released_command_descriptor(command).uses_local_audio
}

/// Whether the command with this name requires client-local audio access;
/// `false` for a name that is no released command.
pub fn command_uses_local_audio(command: &str) -> (r: bool)
    ensures
        r == match parse_command_name(command@) {
            Some(c) => command_spec(c).descriptor.uses_local_audio,
            None => false,
        },
{
    match ReleasedCommand::parse(command) {
        Some(c) => released_command_uses_local_audio(c),
        None => false,
    }
}

/// The runner dispatch kind of a released command.
pub fn command_runner_dispatch_kind(command: ReleasedCommand) -> (r: Option<RunnerDispatchKind>)
    ensures
        r == Some(command_spec(command).descriptor.runner_dispatch_kind),
{
    match command_workflow_descriptor(command) {
        Some(d) => Some(d.runner_dispatch_kind),
        None => None,
    }
}

/// The primary infer task backing a released command.
pub fn infer_task_for_command(command: ReleasedCommand) -> (r: Option<InferTask>)
    ensures
        r == Some(command_spec(command).descriptor.infer_task),
{
    match command_workflow_descriptor(command) {
        Some(d) => Some(d.infer_task),
        None => None,
    }
}

/// Whether a command needs an infer-backed dispatch path: batched text,
/// forced alignment and media analysis do; compare does not, because its
/// morphosyntax enrichment is optional.
pub open spec fn spec_command_requires_infer(command: ReleasedCommand) -> bool {
    command != ReleasedCommand::Compare && match command_spec(command).descriptor.runner_dispatch_kind {
        RunnerDispatchKind::BatchedTextInfer => true,
        RunnerDispatchKind::ForcedAlignment => true,
        RunnerDispatchKind::MediaAnalysisV2 => true,
        _ => false,
    }
}

pub fn command_requires_infer(command: ReleasedCommand) -> (r: bool)
    ensures
        r == spec_command_requires_infer(command),
{
    if command == ReleasedCommand::Compare {
        return false;
    }
    match command_runner_dispatch_kind(command) {
        Some(RunnerDispatchKind::BatchedTextInfer) => true,
        Some(RunnerDispatchKind::ForcedAlignment) => true,
        Some(RunnerDispatchKind::MediaAnalysisV2) => true,
        _ => false,
    }
}

} // verus!
