//! Decisions of the job runner: how many file workers a job gets, which
//! dispatch path serves it, how a failed reservation is classified, how
//! stray files are forced to a terminal state, and the job's final status.

use vstd::prelude::*;
use vstd::string::*;
use crate::commands::{
    InferTask, ReleasedCommand, RunnerDispatchKind, command_name, command_spec, infer_task_name,
    spec_command_requires_infer, command_requires_infer, command_runner_dispatch_kind, infer_task_for_command,
};
use crate::error::ServerError;
use crate::host_memory::{HostMemoryError, error_message};
use crate::job::{
    FailureCategory, FileFailureRecord, FileStatus, FileStatusKind, Job, JobStatus, PendingJobFile, UnixTimestamp,
    has_file, is_first_file_index, lemma_first_index_unique, unfinished_names,
};
use crate::capabilities::{lookup_version, find_version_text};

verus! {

// ---------------------------------------------------------------------------
// Worker count
// ---------------------------------------------------------------------------

/// Host limits that bound a job's file parallelism.
#[derive(Clone, Copy, Debug, PartialEq, Eq, Structural)]
pub struct WorkerLimits {
    /// Operator cap on workers per job; 0 leaves it to the host.
    pub max_workers_per_job: usize,
    /// Size of the GPU thread pool.
    pub gpu_thread_pool_size: usize,
    /// Most file workers for CPU-bound commands.
    pub max_thread_workers: usize,
    /// Most file workers for GPU-heavy commands.
    pub max_gpu_workers: usize,
    /// The machine's available parallelism, when it can be read.
    pub available_parallelism: Option<usize>,
}

pub open spec fn spec_min(a: int, b: int) -> int {
    if a < b { a } else { b }
}

pub open spec fn spec_clamp(v: int, lo: int, hi: int) -> int {
    if v < lo { lo } else if v > hi { hi } else { v }
}

/// One worker for a single file; otherwise the operator cap (bounded by the
/// file count and the thread limit) when set, else the file count bounded
/// by the machine's parallelism (4 when unknown) and the cap of the
/// command's category.
pub open spec fn spec_job_workers(num_files: int, gpu_heavy: bool, l: WorkerLimits) -> int {
    if num_files <= 1 {
        1
    } else if l.max_workers_per_job > 0 {
        spec_clamp(spec_min(l.max_workers_per_job as int, num_files), 1, l.max_thread_workers as int)
    } else {
        let by_cpu = match l.available_parallelism { Some(p) => p as int, None => 4 };
        let cap = if gpu_heavy { spec_min(l.max_gpu_workers as int, l.gpu_thread_pool_size as int) } else { l.max_thread_workers as int };
        spec_clamp(spec_min(num_files, by_cpu), 1, cap)
    }
}

/// The number of parallel file workers for a job. The category caps must
/// be at least one (a zero cap is a configuration the server refuses).
pub fn compute_job_workers(num_files: usize, gpu_heavy: bool, limits: WorkerLimits) -> (r: usize)
    requires
        limits.max_thread_workers >= 1,
        gpu_heavy ==> limits.max_gpu_workers >= 1 && limits.gpu_thread_pool_size >= 1,
    ensures
        r == spec_job_workers(num_files as int, gpu_heavy, limits),
        r >= 1,
        num_files >= 1 ==> r <= num_files,
{
    if num_files <= 1 {
        return 1;
    }
    if limits.max_workers_per_job > 0 {
        let m = if limits.max_workers_per_job < num_files { limits.max_workers_per_job } else { num_files };
        return if m < 1 { 1 } else if m > limits.max_thread_workers { limits.max_thread_workers } else { m };
    }
    let by_cpu = match limits.available_parallelism {
        Some(p) => p,
        None => 4,
    };
    let cap = if gpu_heavy {
        if limits.max_gpu_workers < limits.gpu_thread_pool_size { limits.max_gpu_workers } else { limits.gpu_thread_pool_size }
    } else {
        limits.max_thread_workers
    };
    let m = if num_files < by_cpu { num_files } else { by_cpu };
    if m < 1 { 1 } else if m > cap { cap } else { m }
}

// ---------------------------------------------------------------------------
// Execution reservation
// ---------------------------------------------------------------------------

/// The ledger label of a job's execution reservation:
/// `job-execution:JOB:COMMAND:LANG`.
pub open spec fn spec_job_execution_label(job_id: Seq<char>, command: ReleasedCommand, lang: Seq<char>) -> Seq<char> {
    "job-execution:"@ + job_id + ":"@ + command_name(command) + ":"@ + lang
}

pub fn job_execution_label(job_id: &str, command: ReleasedCommand, lang: &str) -> (r: String)
    ensures
        r@ == spec_job_execution_label(job_id@, command, lang@),
{
    let mut s = String::from_str("job-execution:");
    s.append(job_id);
    s.append(":");
    s.append(command.as_str());
    s.append(":");
    s.append(lang);
    assert(s@ =~= spec_job_execution_label(job_id@, command, lang@));
    s
}

/// Why a job's execution memory could not be reserved.
#[derive(Debug, PartialEq, Eq)]
pub enum ExecutionReservationError {
    /// The host had no room in time: the job may be retried later.
    Capacity { requested_workers: usize, error: HostMemoryError },
    /// The coordinator itself failed.
    Fatal(ServerError),
}

pub open spec fn coordinator_failure_message(job_id: Seq<char>, e: HostMemoryError) -> Seq<char> {
    "host-memory coordinator failed for job "@ + job_id + ": "@ + error_message(e)
}

/// A capacity rejection or a timed-out wait is a capacity problem; any other
/// coordinator error fails the job.
pub fn classify_reservation_error(job_id: &str, requested_workers: usize, error: HostMemoryError) -> (r: ExecutionReservationError)
    ensures
        (error is CapacityRejected || error is TimedOut)
            ==> r == (ExecutionReservationError::Capacity { requested_workers, error }),
        !(error is CapacityRejected || error is TimedOut)
            ==> (r matches ExecutionReservationError::Fatal(ServerError::Persistence(m))
                && m@ == coordinator_failure_message(job_id@, error)),
{
    match error {
        HostMemoryError::CapacityRejected { .. } | HostMemoryError::TimedOut { .. } => {
            ExecutionReservationError::Capacity { requested_workers, error }
        },
        _ => {
            let mut m = String::from_str("host-memory coordinator failed for job ");
            m.append(job_id);
            m.append(": ");
            let text = error.message();
            m.append(text.as_str());
            assert(m@ =~= coordinator_failure_message(job_id@, error));
            ExecutionReservationError::Fatal(ServerError::Persistence(m))
        },
    }
}

// ---------------------------------------------------------------------------
// Dispatch path
// ---------------------------------------------------------------------------

/// The path that serves a job.
#[derive(Clone, Debug, PartialEq, Eq)]
pub enum DispatchRoute {
    /// Test-echo mode: files are echoed back.
    TestEcho,
    /// Server-side transcription orchestration.
    Transcribe { engine_version: String },
    /// Server-side benchmark orchestration.
    Benchmark { engine_version: String },
    /// Server-side media analysis.
    MediaAnalysis { engine_version: String },
    /// Forced alignment on the infer path.
    ForcedAlignment { engine_version: String },
    /// Batched text inference on the infer path.
    BatchedText { engine_version: String },
    /// The infer path was chosen for a dispatch kind it does not serve.
    UnsupportedInferKind,
    /// The job fails with this message.
    Fail { message: String },
}

/// `Debug` name of an infer task.
pub open spec fn infer_task_debug(t: InferTask) -> Seq<char> {
    match t {
        InferTask::Morphosyntax => "Morphosyntax"@,
        InferTask::Utseg => "Utseg"@,
        InferTask::Translate => "Translate"@,
        InferTask::Coref => "Coref"@,
        InferTask::Fa => "Fa"@,
        InferTask::Asr => "Asr"@,
        InferTask::Opensmile => "Opensmile"@,
        InferTask::Avqi => "Avqi"@,
    }
}

fn infer_task_debug_exec(t: InferTask) -> (r: &'static str)
    ensures
        r@ == infer_task_debug(t),
{
    match t {
        InferTask::Morphosyntax => "Morphosyntax",
        InferTask::Utseg => "Utseg",
        InferTask::Translate => "Translate",
        InferTask::Coref => "Coref",
        InferTask::Fa => "Fa",
        InferTask::Asr => "Asr",
        InferTask::Opensmile => "Opensmile",
        InferTask::Avqi => "Avqi",
    }
}

/// `{:?}` of a list of infer tasks: `[Morphosyntax, Fa]`.
pub open spec fn task_list_debug(s: Seq<InferTask>) -> Seq<char> {
    "["@ + task_list_items(s) + "]"@
}

pub open spec fn task_list_items(s: Seq<InferTask>) -> Seq<char>
    decreases s.len(),
{
    if s.len() == 0 {
        Seq::empty()
    } else if s.len() == 1 {
        infer_task_debug(s[0])
    } else {
        task_list_items(s.drop_last()) + ", "@ + infer_task_debug(s.last())
    }
}

fn format_task_list(s: &[InferTask]) -> (r: String)
    ensures
        r@ == task_list_debug(s@),
{
    let mut items = String::new();
    let mut i: usize = 0;
    assert(s@.take(0) =~= Seq::<InferTask>::empty());
    while i < s.len()
        invariant
            i <= s@.len(),
            items@ == task_list_items(s@.take(i as int)),
        decreases s@.len() - i,
    {
        let ghost prev = items@;
        if i > 0 {
            items.append(", ");
        }
        items.append(infer_task_debug_exec(s[i]));
        assert(s@.take(i + 1).drop_last() =~= s@.take(i as int));
        assert(items@ =~= task_list_items(s@.take(i + 1)));
        i = i + 1;
    }
    assert(s@.take(s@.len() as int) =~= s@);
    let mut r = String::from_str("[");
    r.append(items.as_str());
    r.append("]");
    assert(r@ =~= task_list_debug(s@));
    r
}

pub open spec fn bool_text(b: bool) -> Seq<char> {
    if b { "true"@ } else { "false"@ }
}

fn bool_str(b: bool) -> (r: &'static str)
    ensures
        r@ == bool_text(b),
{
    if b { "true" } else { "false" }
}

/// `{:?}` of an optional infer task: `Some(Fa)` or `None`.
pub open spec fn opt_task_debug(t: Option<InferTask>) -> Seq<char> {
    match t {
        Some(x) => "Some("@ + infer_task_debug(x) + ")"@,
        None => "None"@,
    }
}

/// The engine version recorded for a key, or `unknown`.
pub open spec fn version_or_unknown(versions: Seq<(String, String)>, key: Seq<char>) -> Seq<char> {
    match lookup_version(versions, key) {
        Some(v) => v,
        None => "unknown"@,
    }
}

fn engine_version_for(versions: &Vec<(String, String)>, key: &str) -> (r: String)
    ensures
        r@ == version_or_unknown(versions@, key@),
{
    match find_version_text(versions, key) {
        Some(v) => v,
        None => String::from_str("unknown"),
    }
}

fn contains_task(tasks: &[InferTask], t: InferTask) -> (r: bool)
    ensures
        r == tasks@.contains(t),
{
    let mut i: usize = 0;
    while i < tasks.len()
        invariant
            i <= tasks@.len(),
            forall|k: int| 0 <= k < i ==> tasks@[k] != t,
        decreases tasks@.len() - i,
    {
        if tasks[i] == t {
            assert(tasks@[i as int] == t);
            return true;
        }
        i = i + 1;
    }
    false
}

pub open spec fn all_true(s: Seq<bool>) -> bool {
    forall|i: int| 0 <= i < s.len() ==> s[i]
}

pub open spec fn missing_infer_message(command: ReleasedCommand, all_chat: bool, tasks: Seq<InferTask>) -> Seq<char> {
    "Rust-first dispatch requires infer task '"@ + infer_task_name(command_spec(command).descriptor.infer_task)
        + "' for '"@ + command_name(command) + "' (all_chat="@ + bool_text(all_chat)
        + "). Worker advertises infer_tasks: "@ + task_list_debug(tasks)
}

pub open spec fn no_path_message(command: ReleasedCommand, all_chat: bool, supported: bool) -> Seq<char> {
    "No released dispatch path remains for command '"@ + command_name(command) + "' (all_chat="@ + bool_text(all_chat)
        + ", infer_task="@ + opt_task_debug(Some(command_spec(command).descriptor.infer_task))
        + ", infer_supported="@ + bool_text(supported) + "). Legacy process-path fallback is retired."@
}

/// The dispatch path of a job, from its command, whether each pending file
/// is CHAT, and the capability snapshot in force.
pub open spec fn spec_dispatch_route(
    command: ReleasedCommand,
    has_chat: Seq<bool>,
    tasks: Seq<InferTask>,
    versions: Seq<(String, String)>,
    test_echo_mode: bool,
) -> (DispatchRouteKind, Seq<char>) {
    let task = command_spec(command).descriptor.infer_task;
    let kind = command_spec(command).descriptor.runner_dispatch_kind;
    let all_chat = all_true(has_chat);
    let supported = tasks.contains(task);
    let use_infer = all_chat && supported;
    if spec_command_requires_infer(command) && !use_infer {
        (DispatchRouteKind::Fail, missing_infer_message(command, all_chat, tasks))
    } else if test_echo_mode {
        (DispatchRouteKind::TestEcho, Seq::empty())
    } else if kind == RunnerDispatchKind::TranscribeAudioInfer && tasks.contains(InferTask::Asr) {
        (DispatchRouteKind::Transcribe, version_or_unknown(versions, "asr"@))
    } else if kind == RunnerDispatchKind::BenchmarkAudioInfer && tasks.contains(InferTask::Asr) {
        (DispatchRouteKind::Benchmark, version_or_unknown(versions, "asr"@))
    } else if kind == RunnerDispatchKind::MediaAnalysisV2 && supported {
        (DispatchRouteKind::MediaAnalysis, version_or_unknown(versions, infer_task_name(task)))
    } else if use_infer {
        if kind == RunnerDispatchKind::ForcedAlignment {
            (DispatchRouteKind::ForcedAlignment, version_or_unknown(versions, infer_task_name(task)))
        } else if kind == RunnerDispatchKind::BatchedTextInfer {
            (DispatchRouteKind::BatchedText, version_or_unknown(versions, infer_task_name(task)))
        } else {
            (DispatchRouteKind::UnsupportedInferKind, Seq::empty())
        }
    } else {
        (DispatchRouteKind::Fail, no_path_message(command, all_chat, supported))
    }
}

/// The variant of a route, and the text it carries.
#[derive(Clone, Copy, Debug, PartialEq, Eq, Structural)]
pub enum DispatchRouteKind {
    TestEcho,
    Transcribe,
    Benchmark,
    MediaAnalysis,
    ForcedAlignment,
    BatchedText,
    UnsupportedInferKind,
    Fail,
}

pub open spec fn route_parts(r: DispatchRoute) -> (DispatchRouteKind, Seq<char>) {
    match r {
        DispatchRoute::TestEcho => (DispatchRouteKind::TestEcho, Seq::empty()),
        DispatchRoute::Transcribe { engine_version } => (DispatchRouteKind::Transcribe, engine_version@),
        DispatchRoute::Benchmark { engine_version } => (DispatchRouteKind::Benchmark, engine_version@),
        DispatchRoute::MediaAnalysis { engine_version } => (DispatchRouteKind::MediaAnalysis, engine_version@),
        DispatchRoute::ForcedAlignment { engine_version } => (DispatchRouteKind::ForcedAlignment, engine_version@),
        DispatchRoute::BatchedText { engine_version } => (DispatchRouteKind::BatchedText, engine_version@),
        DispatchRoute::UnsupportedInferKind => (DispatchRouteKind::UnsupportedInferKind, Seq::empty()),
        DispatchRoute::Fail { message } => (DispatchRouteKind::Fail, message@),
    }
}

/// Chooses the dispatch path of a job: commands that need an infer task fail
/// without it; test-echo mode echoes; transcription, benchmark and media
/// analysis use their server-side orchestrators when the worker offers the
/// task; CHAT-only jobs with a supported task take the infer path; anything
/// else fails, since no legacy path remains.
pub fn select_dispatch_route(
    command: ReleasedCommand,
    has_chat: &[bool],
    infer_tasks: &[InferTask],
    engine_versions: &Vec<(String, String)>,
    test_echo_mode: bool,
) -> (r: DispatchRoute)
    ensures
        route_parts(r) == spec_dispatch_route(command, has_chat@, infer_tasks@, engine_versions@, test_echo_mode),
{
    let mut all_chat = true;
    let mut i: usize = 0;
    while i < has_chat.len()
        invariant
            i <= has_chat@.len(),
            all_chat == forall|k: int| 0 <= k < i ==> has_chat@[k],
        decreases has_chat@.len() - i,
    {
        if !has_chat[i] {
            all_chat = false;
        }
        i = i + 1;
    }
    let task = match infer_task_for_command(command) {
        Some(t) => t,
        None => InferTask::Morphosyntax,
    };
    let kind = match command_runner_dispatch_kind(command) {
        Some(k) => k,
        None => RunnerDispatchKind::BatchedTextInfer,
    };
    let supported = contains_task(infer_tasks, task);
    let use_infer = all_chat && supported;
    if command_requires_infer(command) && !use_infer {
        let mut m = String::from_str("Rust-first dispatch requires infer task '");
        m.append(task.task_name());
        m.append("' for '");
        m.append(command.as_str());
        m.append("' (all_chat=");
        m.append(bool_str(all_chat));
        m.append("). Worker advertises infer_tasks: ");
        let listed = format_task_list(infer_tasks);
        m.append(listed.as_str());
        assert(m@ =~= missing_infer_message(command, all_chat, infer_tasks@));
        return DispatchRoute::Fail { message: m };
    }
    if test_echo_mode {
        return DispatchRoute::TestEcho;
    }
    let has_asr = contains_task(infer_tasks, InferTask::Asr);
    if kind == RunnerDispatchKind::TranscribeAudioInfer && has_asr {
        return DispatchRoute::Transcribe { engine_version: engine_version_for(engine_versions, "asr") };
    }
    if kind == RunnerDispatchKind::BenchmarkAudioInfer && has_asr {
        return DispatchRoute::Benchmark { engine_version: engine_version_for(engine_versions, "asr") };
    }
    if kind == RunnerDispatchKind::MediaAnalysisV2 && supported {
        return DispatchRoute::MediaAnalysis { engine_version: engine_version_for(engine_versions, task.task_name()) };
    }
    if use_infer {
        if kind == RunnerDispatchKind::ForcedAlignment {
            return DispatchRoute::ForcedAlignment { engine_version: engine_version_for(engine_versions, task.task_name()) };
        } else if kind == RunnerDispatchKind::BatchedTextInfer {
            return DispatchRoute::BatchedText { engine_version: engine_version_for(engine_versions, task.task_name()) };
        } else {
            return DispatchRoute::UnsupportedInferKind;
        }
    }
    let mut m = String::from_str("No released dispatch path remains for command '");
    m.append(command.as_str());
    m.append("' (all_chat=");
    m.append(bool_str(all_chat));
    m.append(", infer_task=");
    m.append("Some(");
    m.append(infer_task_debug_exec(task));
    m.append(")");
    m.append(", infer_supported=");
    m.append(bool_str(supported));
    m.append("). Legacy process-path fallback is retired.");
    assert(m@ =~= no_path_message(command, all_chat, supported));
    DispatchRoute::Fail { message: m }
}

// ---------------------------------------------------------------------------
// Finishing a job
// ---------------------------------------------------------------------------

/// A cancelled job ends cancelled; one with forced or only failed files
/// ends failed; any other completes.
pub fn final_job_status(cancelled: bool, forced_errors: usize, all_failed: bool) -> (r: JobStatus)
    ensures
        r == (if cancelled { JobStatus::Cancelled } else if forced_errors > 0 || all_failed { JobStatus::Failed } else { JobStatus::Completed }),
{
    if cancelled {
        JobStatus::Cancelled
    } else if forced_errors > 0 || all_failed {
        JobStatus::Failed
    } else {
        JobStatus::Completed
    }
}

/// The message recorded for a file forced to a terminal state.
pub open spec fn forced_message(label: Seq<char>) -> Seq<char> {
    "File did not reach terminal status (last status: "@ + label + ")"@
}

/// `new` is `old` forced to a terminal error at `now`, or `old` itself when
/// it was already terminal.
pub open spec fn forced_entry(old: FileStatus, new: FileStatus, now: UnixTimestamp) -> bool {
    if old.status.spec_is_terminal() {
        new == old
    } else {
        &&& new.filename == old.filename
        &&& new.status == FileStatusKind::Error
        &&& (new.error matches Some(m) && m@ == forced_message(old.status.spec_label()))
        &&& new.error_category == Some(FailureCategory::System)
        &&& new.finished_at == Some(now)
        &&& new.next_eligible_at is None
        &&& new.started_at == old.started_at
        &&& new.current_attempt_id == old.current_attempt_id
        &&& new.progress_current is None
        &&& new.progress_total is None
        &&& new.progress_stage is None
    }
}

impl Job {
    /// Forces every file that has not reached a terminal state to a system
    /// error naming its last state, and returns how many were forced.
    pub fn force_terminal_file_states(&mut self, now: UnixTimestamp) -> (r: usize)
        requires
            old(self).wf(),
            old(self).execution.completed_files + old(self).execution.file_statuses@.len() <= i64::MAX,
        ensures
            final(self).wf(),
            r == unfinished_names(old(self).execution.file_statuses@).len(),
            final(self).execution.file_statuses@.len() == old(self).execution.file_statuses@.len(),
            forall|i: int| 0 <= i < old(self).execution.file_statuses@.len() ==> forced_entry(
                old(self).execution.file_statuses@[i], #[trigger] final(self).execution.file_statuses@[i], now),
            forall|i: int| 0 <= i < final(self).execution.file_statuses@.len()
                ==> (#[trigger] final(self).execution.file_statuses@[i]).status.spec_is_terminal(),
            final(self).execution.completed_files == old(self).execution.completed_files + r,
            final(self).execution.results@.len() == old(self).execution.results@.len() + r,
            final(self).execution.results@.take(old(self).execution.results@.len() as int) == old(self).execution.results@,
            final(self).identity == old(self).identity,
            final(self).dispatch == old(self).dispatch,
            final(self).source == old(self).source,
            final(self).filesystem == old(self).filesystem,
            final(self).execution.status == old(self).execution.status,
            final(self).execution.error == old(self).execution.error,
            final(self).schedule == old(self).schedule,
            final(self).runtime == old(self).runtime,
    {
        let ghost s0 = self.execution.file_statuses@;
        let ghost r0 = self.execution.results@;
        let ghost c0 = self.execution.completed_files;
        let n = self.execution.file_statuses.len();
        let mut forced: usize = 0;
        let mut i: usize = 0;
        assert(s0.take(0) =~= Seq::<FileStatus>::empty());
        while i < n
            invariant
                n == s0.len(),
                i <= n,
                self.wf(),
                self.execution.file_statuses@.len() == n,
                forall|k: int| 0 <= k < n ==> (#[trigger] self.execution.file_statuses@[k]).filename == s0[k].filename,
                forall|k: int| 0 <= k < i ==> forced_entry(s0[k], #[trigger] self.execution.file_statuses@[k], now),
                forall|k: int| i <= k < n ==> #[trigger] self.execution.file_statuses@[k] == s0[k],
                forced == unfinished_names(s0.take(i as int)).len(),
                forced <= i,
                self.execution.completed_files == c0 + forced,
                c0 + n <= i64::MAX,
                self.execution.results@.len() == r0.len() + forced,
                self.execution.results@.take(r0.len() as int) == r0,
                self.identity == old(self).identity,
                self.dispatch == old(self).dispatch,
                self.source == old(self).source,
                self.filesystem == old(self).filesystem,
                self.execution.status == old(self).execution.status,
                self.execution.error == old(self).execution.error,
                self.schedule == old(self).schedule,
                self.runtime == old(self).runtime,
            decreases n - i,
        {
            assert(s0.take(i + 1).drop_last() =~= s0.take(i as int));
            let status = self.execution.file_statuses[i].status;
            if !status.is_terminal() {
                let name = self.execution.file_statuses[i].filename.clone();
                let mut message = String::from_str("File did not reach terminal status (last status: ");
                message.append(status.label());
                message.append(")");
                let failure = FileFailureRecord { message, category: FailureCategory::System, finished_at: now };
                let ghost before = *self;
                let ghost sb = self.execution.file_statuses@;
                proof {
                    assert(is_first_file_index(sb, name@, i as int)) by {
                        assert forall|j: int| 0 <= j < i implies sb[j].filename@ != name@ by {
                            assert(sb[j].filename@ != sb[i as int].filename@);
                        }
                    }
                }
                let found = self.mark_file_error(name.as_str(), &failure);
                proof {
                    assert(has_file(sb, name@));
                    let w = choose|w: int| #![trigger is_first_file_index(sb, name@, w)]
                        is_first_file_index(sb, name@, w)
                            && self.execution.file_statuses@ == sb.update(w, crate::job::error_status(sb[w], failure));
                    lemma_first_index_unique(sb, name@, w, i as int);
                    assert(self.execution.results@.take(r0.len() as int) =~= before.execution.results@.take(r0.len() as int));
                }
                forced = forced + 1;
            }
            i = i + 1;
        }
        proof {
            assert(s0.take(n as int) =~= s0);
        }
        forced
    }
}

// ---------------------------------------------------------------------------
// Supervision failures
// ---------------------------------------------------------------------------

/// The failure recorded when a file task ends without recording a terminal
/// state: a cancellation when the job was cancelled, a panic when the task
/// could not be joined, or a plain early exit.
pub open spec fn spec_abnormal_exit(role: Seq<char>, job_cancelled: bool, join_error: Option<Seq<char>>) -> (Seq<char>, FailureCategory) {
    if job_cancelled {
        (role + " stopped after job cancellation before recording a terminal file state"@, FailureCategory::Cancelled)
    } else {
        match join_error {
            Some(e) => (role + " panicked before recording a terminal file state: "@ + e, FailureCategory::System),
            None => (role + " exited without recording a terminal file state"@, FailureCategory::System),
        }
    }
}

pub fn abnormal_exit_failure(role: &str, job_cancelled: bool, join_error: Option<&str>) -> (r: (String, FailureCategory))
    ensures
        (r.0@, r.1) == spec_abnormal_exit(role@, job_cancelled, match join_error { Some(e) => Some(e@), None => None }),
{
    let mut m = String::from_str(role);
    if job_cancelled {
        m.append(" stopped after job cancellation before recording a terminal file state");
        return (m, FailureCategory::Cancelled);
    }
    match join_error {
        Some(e) => {
            m.append(" panicked before recording a terminal file state: ");
            m.append(e);
            (m, FailureCategory::System)
        },
        None => {
            m.append(" exited without recording a terminal file state");
            (m, FailureCategory::System)
        },
    }
}

/// The pending files whose index has no media failure, in order.
pub open spec fn without_failed(files: Seq<PendingJobFile>, failed: Seq<usize>) -> Seq<PendingJobFile>
    decreases files.len(),
{
    if files.len() == 0 {
        Seq::empty()
    } else {
        let prev = without_failed(files.drop_last(), failed);
        if failed.contains(files.last().file_index) { prev } else { prev.push(files.last()) }
    }
}

/// Drops the files whose media failed validation from a job's pending list.
pub fn drop_failed_media(files: &Vec<PendingJobFile>, failed_indices: &Vec<usize>) -> (r: Vec<PendingJobFile>)
    ensures
        r@ == without_failed(files@, failed_indices@),
{
    let mut out: Vec<PendingJobFile> = Vec::new();
    let mut i: usize = 0;
    while i < files.len()
        invariant
            i <= files@.len(),
            out@ == without_failed(files@.take(i as int), failed_indices@),
        decreases files@.len() - i,
    {
        assert(files@.take(i + 1).drop_last() =~= files@.take(i as int));
        let idx = files[i].file_index;
        let mut failed = false;
        let mut k: usize = 0;
        while k < failed_indices.len()
            invariant
                k <= failed_indices@.len(),
                failed == exists|j: int| 0 <= j < k && failed_indices@[j] == idx,
            decreases failed_indices@.len() - k,
        {
            if failed_indices[k] == idx {
                failed = true;
            }
            k = k + 1;
        }
        assert(failed == failed_indices@.contains(idx));
        if !failed {
            let f = PendingJobFile {
                file_index: files[i].file_index,
                filename: files[i].filename.clone(),
                has_chat: files[i].has_chat,
            };
            out.push(f);
        }
        i = i + 1;
    }
    assert(files@.take(files@.len() as int) =~= files@);
    out
}

/// The output of the test-echo path for a media file: an empty transcript.
pub fn empty_echo_transcript() -> (r: &'static str)
    ensures
        r@ == "@UTF8\n@Begin\n@End\n"@,
{
    let r = "@UTF8\n@Begin\n@End\n";
    proof {
        reveal_strlit("@UTF8\n@Begin\n@End\n");
    }
    r
}

/// The error of a file the test-echo path could not read.
pub fn test_echo_read_error(io_error: &str) -> (r: String)
    ensures
        r@ == "Failed to read input for test-echo dispatch: "@ + io_error@,
{
    let mut m = String::from_str("Failed to read input for test-echo dispatch: ");
    m.append(io_error);
    m
}

/// The error of a file whose test-echo output could not be written.
pub fn test_echo_write_error(io_error: &str) -> (r: String)
    ensures
        r@ == "Failed to write test-echo output: "@ + io_error@,
{
    let mut m = String::from_str("Failed to write test-echo output: ");
    m.append(io_error);
    m
}

/// Position of the first pending file with this job-wide index, if any.
pub fn pending_file_with_index(files: &Vec<PendingJobFile>, file_index: usize) -> (r: Option<usize>)
    ensures
        match r {
            Some(p) => p < files@.len() && files@[p as int].file_index == file_index
                && forall|j: int| 0 <= j < p ==> files@[j].file_index != file_index,
            None => forall|j: int| 0 <= j < files@.len() ==> files@[j].file_index != file_index,
        },
{
    let mut p: usize = 0;
    while p < files.len()
        invariant
            p <= files@.len(),
            forall|j: int| 0 <= j < p ==> files@[j].file_index != file_index,
        decreases files@.len() - p,
    {
        if files[p].file_index == file_index {
            return Some(p);
        }
        p = p + 1;
    }
    None
}

/// Live worker capabilities are bootstrapped before a run only when the
/// server is not echoing, nothing was detected yet, and the command is
/// served by an infer task (every released command is).
pub fn needs_capability_bootstrap(test_echo_mode: bool, detected_present: bool, command: ReleasedCommand) -> (r: bool)
    ensures
        r == (!test_echo_mode && !detected_present),
{
    !test_echo_mode && !detected_present && infer_task_for_command(command).is_some()
}

/// The error when the bootstrap of live capabilities fails.
pub fn capability_bootstrap_error(command: ReleasedCommand, cause: &str) -> (r: String)
    ensures
        r@ == "Failed to bootstrap live worker capabilities for '"@ + command_name(command) + "': "@ + cause@,
{
    let mut m = String::from_str("Failed to bootstrap live worker capabilities for '");
    m.append(command.as_str());
    m.append("': ");
    m.append(cause);
    m
}

} // verus!
