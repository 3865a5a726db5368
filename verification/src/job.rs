//! The in-memory job model and its lifecycle transitions: per-file status
//! changes, the local dispatch lease, cancellation, restart and startup
//! recovery, the API projections, and conflict detection between jobs.

use vstd::prelude::*;
use crate::commands::ReleasedCommand;
use crate::progress::FileProgressStage;
use crate::text::str_equal;
use vstd::string::*;

verus! {

/// A point in time, in milliseconds since the Unix epoch.
#[derive(Clone, Copy, Debug, PartialEq, Eq, Structural)]
pub struct UnixTimestamp(pub i64);

/// The wall clock, from `std::time::SystemTime::now`, in milliseconds since
/// the Unix epoch; 0 when the clock reads before the epoch. Nothing is
/// promised beyond the value not being negative.
#[verifier::external_body]
pub(crate) fn unix_now() -> (r: UnixTimestamp)
    ensures
        r.0 >= 0,
{
    match std::time::SystemTime::now().duration_since(std::time::UNIX_EPOCH) {
        Ok(d) => UnixTimestamp(i64::try_from(d.as_millis()).unwrap_or(i64::MAX)),
        Err(_) => UnixTimestamp(0),
    }
}

/// Lifecycle state of a job.
#[derive(Clone, Copy, Debug, PartialEq, Eq, Structural)]
pub enum JobStatus {
    Queued,
    Running,
    Completed,
    Failed,
    Cancelled,
    Interrupted,
}

/// Lifecycle state of one file within a job.
#[derive(Clone, Copy, Debug, PartialEq, Eq, Structural)]
pub enum FileStatusKind {
    Queued,
    Processing,
    Done,
    Error,
    Interrupted,
}

/// Why an attempt failed.
#[derive(Clone, Copy, Debug, PartialEq, Eq, Structural)]
pub enum FailureCategory {
    Validation,
    InputMissing,
    WorkerCrash,
    WorkerTimeout,
    WorkerProtocol,
    ProviderTransient,
    ProviderTerminal,
    MemoryPressure,
    Cancelled,
    System,
}

/// Content type of a result artifact.
#[derive(Clone, Copy, Debug, PartialEq, Eq, Structural)]
pub enum ContentType {
    Chat,
    Csv,
}

/// What startup recovery did with an interrupted job.
#[derive(Clone, Copy, Debug, PartialEq, Eq, Structural)]
pub enum RecoveryDisposition {
    Requeued,
    Completed,
    Failed,
}

impl JobStatus {
    pub open spec fn spec_is_terminal(self) -> bool {
        self == JobStatus::Completed || self == JobStatus::Failed || self == JobStatus::Cancelled
    }

    /// Whether a cancellation request still changes the job's state.
    pub open spec fn spec_can_cancel(self) -> bool {
        !self.spec_is_terminal()
    }

    /// Whether the job is queued or running.
    pub open spec fn spec_is_active(self) -> bool {
        self == JobStatus::Queued || self == JobStatus::Running
    }

    pub fn is_terminal(self) -> (r: bool)
        ensures
            r == self.spec_is_terminal(),
    {
        match self {
            JobStatus::Completed | JobStatus::Failed | JobStatus::Cancelled => true,
            _ => false,
        }
    }

    pub fn can_cancel(self) -> (r: bool)
        ensures
            r == self.spec_can_cancel(),
    {
        !self.is_terminal()
    }

    pub fn is_active(self) -> (r: bool)
        ensures
            r == self.spec_is_active(),
    {
        match self {
            JobStatus::Queued | JobStatus::Running => true,
            _ => false,
        }
    }
}

impl FileStatusKind {
    /// Done and errored files are terminal.
    pub open spec fn spec_is_terminal(self) -> bool {
        self == FileStatusKind::Done || self == FileStatusKind::Error
    }

    /// Files that startup recovery may run again.
    pub open spec fn spec_is_resumable(self) -> bool {
        !self.spec_is_terminal()
    }

    pub open spec fn spec_label(self) -> Seq<char> {
        match self {
            FileStatusKind::Queued => "queued"@,
            FileStatusKind::Processing => "processing"@,
            FileStatusKind::Done => "done"@,
            FileStatusKind::Error => "error"@,
            FileStatusKind::Interrupted => "interrupted"@,
        }
    }

    pub fn is_terminal(self) -> (r: bool)
        ensures
            r == self.spec_is_terminal(),
    {
        match self {
            FileStatusKind::Done | FileStatusKind::Error => true,
            _ => false,
        }
    }

    pub fn is_resumable(self) -> (r: bool)
        ensures
            r == self.spec_is_resumable(),
    {
        !self.is_terminal()
    }

    /// The lower-case label of this state.
    pub fn label(self) -> (r: &'static str)
        ensures
            r@ == self.spec_label(),
    {
        match self {
            FileStatusKind::Queued => "queued",
            FileStatusKind::Processing => "processing",
            FileStatusKind::Done => "done",
            FileStatusKind::Error => "error",
            FileStatusKind::Interrupted => "interrupted",
        }
    }
}

/// Status of one file of a job.
#[derive(Clone, Debug, PartialEq, Eq)]
pub struct FileStatus {
    pub filename: String,
    pub status: FileStatusKind,
    pub error: Option<String>,
    pub error_category: Option<FailureCategory>,
    pub started_at: Option<UnixTimestamp>,
    pub finished_at: Option<UnixTimestamp>,
    pub next_eligible_at: Option<UnixTimestamp>,
    pub current_attempt_id: Option<i64>,
    pub progress_current: Option<i64>,
    pub progress_total: Option<i64>,
    pub progress_stage: Option<FileProgressStage>,
}

/// One result artifact (or error) recorded for a file.
#[derive(Clone, Debug, PartialEq, Eq)]
pub struct FileResultEntry {
    pub filename: String,
    pub content_type: ContentType,
    pub error: Option<String>,
}

/// Output of a successfully completed file.
#[derive(Clone, Debug, PartialEq, Eq)]
pub struct CompletedFileOutput {
    pub filename: String,
    pub content_type: ContentType,
}

/// A terminal file failure.
#[derive(Clone, Debug, PartialEq, Eq)]
pub struct FileFailureRecord {
    pub message: String,
    pub category: FailureCategory,
    pub finished_at: UnixTimestamp,
}

/// A transient file failure with its retry time.
#[derive(Clone, Debug, PartialEq, Eq)]
pub struct FileRetryRecord {
    pub message: String,
    pub category: FailureCategory,
    pub finished_at: UnixTimestamp,
    pub retry_at: UnixTimestamp,
}

/// An ephemeral progress update for one file.
#[derive(Clone, Copy, Debug, PartialEq, Eq)]
pub struct FileProgressRecord {
    pub stage: FileProgressStage,
    pub current: Option<i64>,
    pub total: Option<i64>,
}

/// A live queue lease.
#[derive(Clone, Debug, PartialEq, Eq)]
pub struct LeaseRecord {
    pub leased_by_node: String,
    pub heartbeat_at: UnixTimestamp,
    pub expires_at: UnixTimestamp,
}

/// A file that has not reached a terminal state yet.
#[derive(Clone, Debug, PartialEq, Eq)]
pub struct PendingJobFile {
    pub file_index: usize,
    pub filename: String,
    pub has_chat: bool,
}

pub struct JobIdentity {
    pub job_id: String,
    pub correlation_id: String,
}

pub struct JobDispatchConfig {
    pub command: ReleasedCommand,
    pub lang: String,
    pub num_speakers: u32,
    /// Command options in their serialized form.
    pub options: String,
    pub runtime_state: Vec<(String, String)>,
    pub debug_traces: bool,
}

pub struct JobSourceContext {
    pub submitted_by: String,
    pub submitted_by_name: String,
    pub source_dir: String,
}

pub struct JobFilesystemConfig {
    pub filenames: Vec<String>,
    pub has_chat: Vec<bool>,
    pub staging_dir: String,
    pub paths_mode: bool,
    pub source_paths: Vec<String>,
    pub output_paths: Vec<String>,
    pub before_paths: Vec<String>,
    pub media_mapping: String,
    pub media_subdir: String,
}

pub struct JobExecutionState {
    pub status: JobStatus,
    /// One entry per file; filenames are unique.
    pub file_statuses: Vec<FileStatus>,
    pub results: Vec<FileResultEntry>,
    pub error: Option<String>,
    pub completed_files: i64,
}

pub struct JobLeaseState {
    pub leased_by_node: Option<String>,
    pub expires_at: Option<UnixTimestamp>,
    pub heartbeat_at: Option<UnixTimestamp>,
}

pub struct JobScheduleState {
    pub submitted_at: UnixTimestamp,
    pub completed_at: Option<UnixTimestamp>,
    pub next_eligible_at: Option<UnixTimestamp>,
    pub num_workers: Option<i64>,
    pub lease: JobLeaseState,
}

/// Runtime control: whether cancellation was requested for the current run,
/// and whether a runner currently owns the job.
pub struct JobRuntimeControl {
    pub cancel_requested: bool,
    pub runner_active: bool,
}

/// One job of the server.
pub struct Job {
    pub identity: JobIdentity,
    pub dispatch: JobDispatchConfig,
    pub source: JobSourceContext,
    pub filesystem: JobFilesystemConfig,
    pub execution: JobExecutionState,
    pub schedule: JobScheduleState,
    pub runtime: JobRuntimeControl,
}

// ---------------------------------------------------------------------------
// File-status lookup
// ---------------------------------------------------------------------------

/// `i` is the position of the first status entry for `name`.
pub open spec fn is_first_file_index(s: Seq<FileStatus>, name: Seq<char>, i: int) -> bool {
    &&& 0 <= i < s.len()
    &&& s[i].filename@ == name
    &&& forall|j: int| 0 <= j < i ==> s[j].filename@ != name
}

/// Some status entry is recorded for `name`.
pub open spec fn has_file(s: Seq<FileStatus>, name: Seq<char>) -> bool {
    exists|i: int| 0 <= i < s.len() && s[i].filename@ == name
}

/// Status entries never share a filename.
pub open spec fn unique_filenames(s: Seq<FileStatus>) -> bool {
    forall|i: int, j: int|
        0 <= i < s.len() && 0 <= j < s.len() && i != j ==> s[i].filename@ != s[j].filename@
}

impl FileStatus {
    /// A fresh queued status for `filename`.
    pub fn new(filename: String) -> (r: FileStatus)
        ensures
            r == queued_status(filename),
    {
        FileStatus {
            filename,
            status: FileStatusKind::Queued,
            error: None,
            error_category: None,
            started_at: None,
            finished_at: None,
            next_eligible_at: None,
            current_attempt_id: None,
            progress_current: None,
            progress_total: None,
            progress_stage: None,
        }
    }
}

pub open spec fn queued_status(filename: String) -> FileStatus {
    FileStatus {
        filename,
        status: FileStatusKind::Queued,
        error: None,
        error_category: None,
        started_at: None,
        finished_at: None,
        next_eligible_at: None,
        current_attempt_id: None,
        progress_current: None,
        progress_total: None,
        progress_stage: None,
    }
}

impl Job {
    /// The job's invariant: one status entry per filename.
    pub open spec fn wf(&self) -> bool {
        unique_filenames(self.execution.file_statuses@)
    }

    /// Everything but the file statuses is unchanged from `old`.
    pub open spec fn same_except_statuses(&self, old: &Job) -> bool {
        &&& self.identity == old.identity
        &&& self.dispatch == old.dispatch
        &&& self.source == old.source
        &&& self.filesystem == old.filesystem
        &&& self.execution.status == old.execution.status
        &&& self.execution.results == old.execution.results
        &&& self.execution.error == old.execution.error
        &&& self.execution.completed_files == old.execution.completed_files
        &&& self.schedule == old.schedule
        &&& self.runtime == old.runtime
    }

    /// Position of the first status entry for `filename`, if any.
    fn find_file(&self, filename: &str) -> (r: Option<usize>)
        ensures
            match r {
                Some(i) => is_first_file_index(self.execution.file_statuses@, filename@, i as int),
                None => !has_file(self.execution.file_statuses@, filename@),
            },
    {
        let n = self.execution.file_statuses.len();
        let mut i: usize = 0;
        while i < n
            invariant
                n == self.execution.file_statuses@.len(),
                i <= n,
                forall|j: int| 0 <= j < i ==> self.execution.file_statuses@[j].filename@ != filename@,
            decreases n - i,
        {
            if str_equal(self.execution.file_statuses[i].filename.as_str(), filename) {
                return Some(i);
            }
            i = i + 1;
        }
        None
    }
}

/// In a well-formed status list the first entry for a name is its only one.
pub proof fn lemma_first_index_unique(s: Seq<FileStatus>, name: Seq<char>, i: int, j: int)
    requires
        unique_filenames(s),
        is_first_file_index(s, name, i),
        0 <= j < s.len(),
        s[j].filename@ == name,
    ensures
        i == j,
{
}


// ---------------------------------------------------------------------------
// Per-file transitions
// ---------------------------------------------------------------------------

/// Entering processing clears stale retry/error metadata and progress.
pub open spec fn processing_status(f: FileStatus, started_at: UnixTimestamp) -> FileStatus {
    FileStatus {
        status: FileStatusKind::Processing,
        error: None,
        error_category: None,
        started_at: Some(started_at),
        finished_at: None,
        next_eligible_at: None,
        progress_current: None,
        progress_total: None,
        progress_stage: None,
        ..f
    }
}

pub open spec fn done_status(f: FileStatus, finished_at: UnixTimestamp) -> FileStatus {
    FileStatus {
        status: FileStatusKind::Done,
        error: None,
        error_category: None,
        finished_at: Some(finished_at),
        next_eligible_at: None,
        progress_current: None,
        progress_total: None,
        progress_stage: None,
        ..f
    }
}

pub open spec fn error_status(f: FileStatus, failure: FileFailureRecord) -> FileStatus {
    FileStatus {
        status: FileStatusKind::Error,
        error: Some(failure.message),
        error_category: Some(failure.category),
        finished_at: Some(failure.finished_at),
        next_eligible_at: None,
        progress_current: None,
        progress_total: None,
        progress_stage: None,
        ..f
    }
}

pub open spec fn attempt_started_status(f: FileStatus, started_at: UnixTimestamp) -> FileStatus {
    FileStatus {
        started_at: Some(started_at),
        finished_at: None,
        next_eligible_at: None,
        progress_stage: None,
        ..f
    }
}

pub open spec fn retry_pending_status(f: FileStatus, retry: FileRetryRecord) -> FileStatus {
    FileStatus {
        status: FileStatusKind::Processing,
        error: Some(retry.message),
        error_category: Some(retry.category),
        finished_at: Some(retry.finished_at),
        next_eligible_at: Some(retry.retry_at),
        progress_current: None,
        progress_total: None,
        progress_stage: Some(FileProgressStage::RetryScheduled),
        ..f
    }
}

pub open spec fn retry_cleared_status(f: FileStatus) -> FileStatus {
    FileStatus {
        error: None,
        error_category: None,
        finished_at: None,
        next_eligible_at: None,
        progress_stage: None,
        ..f
    }
}

pub open spec fn progress_status(f: FileStatus, progress: FileProgressRecord) -> FileStatus {
    FileStatus {
        progress_stage: Some(progress.stage),
        progress_current: progress.current,
        progress_total: progress.total,
        ..f
    }
}

/// `new` is `old` with the first status entry for `name` replaced by
/// `f(entry)`; everything else is unchanged.
pub open spec fn file_updated(old: Job, new: Job, name: Seq<char>, entry: spec_fn(FileStatus) -> FileStatus) -> bool {
    exists|i: int|
        #![trigger is_first_file_index(old.execution.file_statuses@, name, i)]
        is_first_file_index(old.execution.file_statuses@, name, i)
            && new.execution.file_statuses@ == old.execution.file_statuses@.update(
            i,
            entry(old.execution.file_statuses@[i]),
        )
}

fn clone_opt_string(o: &Option<String>) -> (r: Option<String>)
    ensures
        r == *o,
{
    match o {
        Some(s) => Some(s.clone()),
        None => None,
    }
}

impl Job {
    /// Mark one file as actively processing. Returns whether the file exists.
    pub fn mark_file_processing(&mut self, filename: &str, started_at: UnixTimestamp) -> (r: bool)
        requires
            old(self).wf(),
        ensures
            final(self).wf(),
            r == has_file(old(self).execution.file_statuses@, filename@),
            final(self).same_except_statuses(&*old(self)),
            r ==> file_updated(*old(self), *final(self), filename@, |f: FileStatus| processing_status(f, started_at)),
            !r ==> final(self).execution.file_statuses@ == old(self).execution.file_statuses@,
    {
        let Some(i) = self.find_file(filename) else {
            return false;
        };
        let ghost old_s = self.execution.file_statuses@;
        let fs = &mut self.execution.file_statuses[i];
        fs.status = FileStatusKind::Processing;
        fs.error = None;
        fs.error_category = None;
        fs.started_at = Some(started_at);
        fs.finished_at = None;
        fs.next_eligible_at = None;
        fs.progress_current = None;
        fs.progress_total = None;
        fs.progress_stage = None;
        assert(self.execution.file_statuses@ =~= old_s.update(i as int, processing_status(old_s[i as int], started_at)));
        assert(is_first_file_index(old_s, filename@, i as int));
        true
    }

    /// Mark one file as complete, optionally recording its result, and count
    /// it as completed.
    pub fn mark_file_done(
        &mut self,
        filename: &str,
        finished_at: UnixTimestamp,
        result: Option<CompletedFileOutput>,
    ) -> (r: bool)
        requires
            old(self).wf(),
            old(self).execution.completed_files < i64::MAX,
        ensures
            final(self).wf(),
            r == has_file(old(self).execution.file_statuses@, filename@),
            !r ==> *final(self) == *old(self),
            r ==> file_updated(*old(self), *final(self), filename@, |f: FileStatus| done_status(f, finished_at)),
            r ==> final(self).execution.completed_files == old(self).execution.completed_files + 1,
            r ==> final(self).execution.results@ == match result {
                Some(out) => old(self).execution.results@.push(FileResultEntry {
                    filename: out.filename,
                    content_type: out.content_type,
                    error: None,
                }),
                None => old(self).execution.results@,
            },
            r ==> {
                &&& final(self).identity == old(self).identity
                &&& final(self).dispatch == old(self).dispatch
                &&& final(self).source == old(self).source
                &&& final(self).filesystem == old(self).filesystem
                &&& final(self).execution.status == old(self).execution.status
                &&& final(self).execution.error == old(self).execution.error
                &&& final(self).schedule == old(self).schedule
                &&& final(self).runtime == old(self).runtime
            },
    {
        let Some(i) = self.find_file(filename) else {
            return false;
        };
        let ghost old_s = self.execution.file_statuses@;
        let fs = &mut self.execution.file_statuses[i];
        fs.status = FileStatusKind::Done;
        fs.error = None;
        fs.error_category = None;
        fs.finished_at = Some(finished_at);
        fs.next_eligible_at = None;
        fs.progress_current = None;
        fs.progress_total = None;
        fs.progress_stage = None;
        assert(self.execution.file_statuses@ =~= old_s.update(i as int, done_status(old_s[i as int], finished_at)));
        assert(is_first_file_index(old_s, filename@, i as int));
        if let Some(result) = result {
            self.execution.results.push(FileResultEntry {
                filename: result.filename,
                content_type: result.content_type,
                error: None,
            });
        }
        self.execution.completed_files += 1;
        true
    }

    /// Mark one file as terminally failed, record an error result for it and
    /// count it as completed.
    pub fn mark_file_error(&mut self, filename: &str, failure: &FileFailureRecord) -> (r: bool)
        requires
            old(self).wf(),
            old(self).execution.completed_files < i64::MAX,
        ensures
            final(self).wf(),
            r == has_file(old(self).execution.file_statuses@, filename@),
            !r ==> *final(self) == *old(self),
            r ==> file_updated(*old(self), *final(self), filename@, |f: FileStatus| error_status(f, *failure)),
            r ==> final(self).execution.completed_files == old(self).execution.completed_files + 1,
            r ==> final(self).execution.results@.len() == old(self).execution.results@.len() + 1,
            r ==> final(self).execution.results@.drop_last() == old(self).execution.results@,
            r ==> final(self).execution.results@.last().filename@ == filename@,
            r ==> final(self).execution.results@.last().content_type == ContentType::Chat,
            r ==> final(self).execution.results@.last().error == Some(failure.message),
            r ==> {
                &&& final(self).identity == old(self).identity
                &&& final(self).dispatch == old(self).dispatch
                &&& final(self).source == old(self).source
                &&& final(self).filesystem == old(self).filesystem
                &&& final(self).execution.status == old(self).execution.status
                &&& final(self).execution.error == old(self).execution.error
                &&& final(self).schedule == old(self).schedule
                &&& final(self).runtime == old(self).runtime
            },
    {
        let Some(i) = self.find_file(filename) else {
            return false;
        };
        let ghost old_s = self.execution.file_statuses@;
        let ghost old_results = self.execution.results@;
        let fs = &mut self.execution.file_statuses[i];
        fs.status = FileStatusKind::Error;
        fs.error = Some(failure.message.clone());
        fs.error_category = Some(failure.category);
        fs.finished_at = Some(failure.finished_at);
        fs.next_eligible_at = None;
        fs.progress_current = None;
        fs.progress_total = None;
        fs.progress_stage = None;
        assert(self.execution.file_statuses@ =~= old_s.update(i as int, error_status(old_s[i as int], *failure)));
        assert(is_first_file_index(old_s, filename@, i as int));
        self.execution.results.push(FileResultEntry {
            filename: String::from_str(filename),
            content_type: ContentType::Chat,
            error: Some(failure.message.clone()),
        });
        assert(self.execution.results@.drop_last() =~= old_results);
        self.execution.completed_files += 1;
        true
    }

    /// Record the start of a new attempt for one file.
    pub fn start_file_attempt(&mut self, filename: &str, started_at: UnixTimestamp) -> (r: bool)
        requires
            old(self).wf(),
        ensures
            final(self).wf(),
            r == has_file(old(self).execution.file_statuses@, filename@),
            final(self).same_except_statuses(&*old(self)),
            r ==> file_updated(*old(self), *final(self), filename@, |f: FileStatus| attempt_started_status(f, started_at)),
            !r ==> final(self).execution.file_statuses@ == old(self).execution.file_statuses@,
    {
        let Some(i) = self.find_file(filename) else {
            return false;
        };
        let ghost old_s = self.execution.file_statuses@;
        let fs = &mut self.execution.file_statuses[i];
        fs.started_at = Some(started_at);
        fs.finished_at = None;
        fs.next_eligible_at = None;
        fs.progress_stage = None;
        assert(self.execution.file_statuses@ =~= old_s.update(i as int, attempt_started_status(old_s[i as int], started_at)));
        assert(is_first_file_index(old_s, filename@, i as int));
        true
    }

    /// Mark one file as waiting for a retry after a transient failure.
    pub fn mark_file_retry_pending(&mut self, filename: &str, retry: &FileRetryRecord) -> (r: bool)
        requires
            old(self).wf(),
        ensures
            final(self).wf(),
            r == has_file(old(self).execution.file_statuses@, filename@),
            final(self).same_except_statuses(&*old(self)),
            r ==> file_updated(*old(self), *final(self), filename@, |f: FileStatus| retry_pending_status(f, *retry)),
            !r ==> final(self).execution.file_statuses@ == old(self).execution.file_statuses@,
    {
        let Some(i) = self.find_file(filename) else {
            return false;
        };
        let ghost old_s = self.execution.file_statuses@;
        let fs = &mut self.execution.file_statuses[i];
        fs.status = FileStatusKind::Processing;
        fs.error = Some(retry.message.clone());
        fs.error_category = Some(retry.category);
        fs.finished_at = Some(retry.finished_at);
        fs.next_eligible_at = Some(retry.retry_at);
        fs.progress_current = None;
        fs.progress_total = None;
        fs.progress_stage = Some(FileProgressStage::RetryScheduled);
        assert(self.execution.file_statuses@ =~= old_s.update(i as int, retry_pending_status(old_s[i as int], *retry)));
        assert(is_first_file_index(old_s, filename@, i as int));
        true
    }

    /// Clear transient retry state before a new attempt starts or succeeds.
    pub fn clear_file_retry_state(&mut self, filename: &str) -> (r: bool)
        requires
            old(self).wf(),
        ensures
            final(self).wf(),
            r == has_file(old(self).execution.file_statuses@, filename@),
            final(self).same_except_statuses(&*old(self)),
            r ==> file_updated(*old(self), *final(self), filename@, |f: FileStatus| retry_cleared_status(f)),
            !r ==> final(self).execution.file_statuses@ == old(self).execution.file_statuses@,
    {
        let Some(i) = self.find_file(filename) else {
            return false;
        };
        let ghost old_s = self.execution.file_statuses@;
        let fs = &mut self.execution.file_statuses[i];
        fs.error = None;
        fs.error_category = None;
        fs.finished_at = None;
        fs.next_eligible_at = None;
        fs.progress_stage = None;
        assert(self.execution.file_statuses@ =~= old_s.update(i as int, retry_cleared_status(old_s[i as int])));
        assert(is_first_file_index(old_s, filename@, i as int));
        true
    }

    /// Apply an ephemeral progress update to one file.
    pub fn set_file_progress(&mut self, filename: &str, progress: &FileProgressRecord) -> (r: bool)
        requires
            old(self).wf(),
        ensures
            final(self).wf(),
            r == has_file(old(self).execution.file_statuses@, filename@),
            final(self).same_except_statuses(&*old(self)),
            r ==> file_updated(*old(self), *final(self), filename@, |f: FileStatus| progress_status(f, *progress)),
            !r ==> final(self).execution.file_statuses@ == old(self).execution.file_statuses@,
    {
        let Some(i) = self.find_file(filename) else {
            return false;
        };
        let ghost old_s = self.execution.file_statuses@;
        let fs = &mut self.execution.file_statuses[i];
        fs.progress_stage = Some(progress.stage);
        fs.progress_current = progress.current;
        fs.progress_total = progress.total;
        assert(self.execution.file_statuses@ =~= old_s.update(i as int, progress_status(old_s[i as int], *progress)));
        assert(is_first_file_index(old_s, filename@, i as int));
        true
    }
}


// ---------------------------------------------------------------------------
// Dispatch lease and job-level transitions
// ---------------------------------------------------------------------------

/// `after` is `before` claimed for local dispatch by `node` at `now`: the
/// runner is active, the lease names `node`, was renewed at `now` and
/// expires `ttl` milliseconds later, and nothing else changed.
pub open spec fn claimed_for(before: Job, after: Job, node: Seq<char>, now: UnixTimestamp, ttl: i64) -> bool {
    &&& after.runtime.runner_active
    &&& after.runtime.cancel_requested == before.runtime.cancel_requested
    &&& after.schedule.lease.leased_by_node matches Some(n) && n@ == node
    &&& after.schedule.lease.heartbeat_at == Some(now)
    &&& after.schedule.lease.expires_at == Some(UnixTimestamp((now.0 + ttl) as i64))
    &&& after.identity == before.identity
    &&& after.dispatch == before.dispatch
    &&& after.source == before.source
    &&& after.filesystem == before.filesystem
    &&& after.execution == before.execution
    &&& after.schedule.submitted_at == before.schedule.submitted_at
    &&& after.schedule.completed_at == before.schedule.completed_at
    &&& after.schedule.next_eligible_at == before.schedule.next_eligible_at
    &&& after.schedule.num_workers == before.schedule.num_workers
}

/// `after` is `before` with its local dispatch claim released: no runner,
/// no lease node, heartbeat or expiry, and nothing else changed.
pub open spec fn claim_released(before: Job, after: Job) -> bool {
    &&& !after.runtime.runner_active
    &&& after.runtime.cancel_requested == before.runtime.cancel_requested
    &&& after.schedule.lease.leased_by_node is None
    &&& after.schedule.lease.expires_at is None
    &&& after.schedule.lease.heartbeat_at is None
    &&& after.identity == before.identity
    &&& after.dispatch == before.dispatch
    &&& after.source == before.source
    &&& after.filesystem == before.filesystem
    &&& after.execution == before.execution
    &&& after.schedule.submitted_at == before.schedule.submitted_at
    &&& after.schedule.completed_at == before.schedule.completed_at
    &&& after.schedule.next_eligible_at == before.schedule.next_eligible_at
    &&& after.schedule.num_workers == before.schedule.num_workers
}

impl Job {
    pub open spec fn spec_lease_blocks_local_dispatch(&self, now: UnixTimestamp) -> bool {
        &&& self.schedule.lease.leased_by_node is Some
        &&& match self.schedule.lease.expires_at {
            Some(t) => t.0 > now.0,
            None => false,
        }
    }

    pub open spec fn spec_ready_for_local_dispatch(&self, now: UnixTimestamp) -> bool {
        &&& self.execution.status == JobStatus::Queued
        &&& !self.runtime.runner_active
        &&& !self.spec_lease_blocks_local_dispatch(now)
        &&& match self.schedule.next_eligible_at {
            Some(t) => t.0 <= now.0,
            None => true,
        }
    }

    /// The earliest future time worth reconsidering the job: its deferral
    /// time if still ahead, or the expiry of a blocking lease if earlier.
    pub open spec fn spec_next_local_dispatch_wake_at(&self, now: UnixTimestamp) -> Option<UnixTimestamp> {
        let deferral = match self.schedule.next_eligible_at {
            Some(t) => if t.0 > now.0 { Some(t) } else { None },
            None => None,
        };
        if self.spec_lease_blocks_local_dispatch(now) {
            match (deferral, self.schedule.lease.expires_at) {
                (Some(d), Some(e)) => if d.0 < e.0 { Some(d) } else { Some(e) },
                (None, Some(e)) => Some(e),
                (d, None) => d,
            }
        } else {
            deferral
        }
    }

    /// The live lease, when node, heartbeat and expiry are all recorded.
    pub open spec fn spec_active_lease(&self) -> Option<LeaseRecord> {
        match (self.schedule.lease.leased_by_node, self.schedule.lease.heartbeat_at, self.schedule.lease.expires_at) {
            (Some(node), Some(hb), Some(exp)) => Some(LeaseRecord { leased_by_node: node, heartbeat_at: hb, expires_at: exp }),
            _ => None,
        }
    }

    /// The stable job identifier.
    pub fn job_id(&self) -> (r: &String)
        ensures
            *r == self.identity.job_id,
    {
        &self.identity.job_id
    }

    /// The total number of logical files in the job.
    pub fn total_files(&self) -> (r: usize)
        ensures
            r == self.filesystem.filenames@.len(),
    {
        self.filesystem.filenames.len()
    }

    /// Clear the queue lease metadata.
    pub fn clear_lease(&mut self)
        ensures
            final(self).schedule.lease.leased_by_node is None,
            final(self).schedule.lease.expires_at is None,
            final(self).schedule.lease.heartbeat_at is None,
            final(self).identity == old(self).identity,
            final(self).dispatch == old(self).dispatch,
            final(self).source == old(self).source,
            final(self).filesystem == old(self).filesystem,
            final(self).execution == old(self).execution,
            final(self).runtime == old(self).runtime,
            final(self).schedule.submitted_at == old(self).schedule.submitted_at,
            final(self).schedule.completed_at == old(self).schedule.completed_at,
            final(self).schedule.next_eligible_at == old(self).schedule.next_eligible_at,
            final(self).schedule.num_workers == old(self).schedule.num_workers,
    {
        self.schedule.lease.leased_by_node = None;
        self.schedule.lease.expires_at = None;
        self.schedule.lease.heartbeat_at = None;
    }

    /// Whether a live queue lease blocks local dispatch at `now`.
    pub fn lease_blocks_local_dispatch(&self, now: UnixTimestamp) -> (r: bool)
        ensures
            r == self.spec_lease_blocks_local_dispatch(now),
    {
        self.schedule.lease.leased_by_node.is_some() && match self.schedule.lease.expires_at {
            Some(t) => t.0 > now.0,
            None => false,
        }
    }

    /// The earliest time when the job should be reconsidered for dispatch.
    pub fn next_local_dispatch_wake_at(&self, now: UnixTimestamp) -> (r: Option<UnixTimestamp>)
        ensures
            r == self.spec_next_local_dispatch_wake_at(now),
    {
        let mut wake_at = match self.schedule.next_eligible_at {
            Some(t) => if t.0 > now.0 { Some(t) } else { None },
            None => None,
        };
        if self.lease_blocks_local_dispatch(now) {
            wake_at = match (wake_at, self.schedule.lease.expires_at) {
                (Some(next_eligible_at), Some(lease_expires_at)) => {
                    if next_eligible_at.0 < lease_expires_at.0 {
                        Some(next_eligible_at)
                    } else {
                        Some(lease_expires_at)
                    }
                },
                (None, Some(lease_expires_at)) => Some(lease_expires_at),
                (some, None) => some,
            };
        }
        wake_at
    }

    /// Whether the local queue dispatcher may claim the job at `now`.
    pub fn ready_for_local_dispatch(&self, now: UnixTimestamp) -> (r: bool)
        ensures
            r == self.spec_ready_for_local_dispatch(now),
    {
        self.execution.status == JobStatus::Queued && !self.runtime.runner_active
            && !self.lease_blocks_local_dispatch(now) && match self.schedule.next_eligible_at {
            Some(t) => t.0 <= now.0,
            None => true,
        }
    }

    /// The live lease record, if node, heartbeat and expiry are all set.
    pub fn active_lease(&self) -> (r: Option<LeaseRecord>)
        ensures
            r == self.spec_active_lease(),
    {
        match (&self.schedule.lease.leased_by_node, self.schedule.lease.heartbeat_at, self.schedule.lease.expires_at) {
            (Some(node), Some(hb), Some(exp)) => Some(LeaseRecord {
                leased_by_node: node.clone(),
                heartbeat_at: hb,
                expires_at: exp,
            }),
            _ => None,
        }
    }

    /// Claim the job for local dispatch: mark the runner active and take a
    /// lease for `node_id` that expires `lease_ttl_ms` after `now`. Returns
    /// `None`, changing nothing, when the job is not ready.
    pub fn claim_for_local_dispatch(&mut self, node_id: &str, now: UnixTimestamp, lease_ttl_ms: i64) -> (r: Option<LeaseRecord>)
        requires
            i64::MIN <= now.0 + lease_ttl_ms <= i64::MAX,
        ensures
            !old(self).spec_ready_for_local_dispatch(now) ==> r is None && *final(self) == *old(self),
            old(self).spec_ready_for_local_dispatch(now) ==> {
                &&& claimed_for(*old(self), *final(self), node_id@, now, lease_ttl_ms)
                &&& r == final(self).spec_active_lease()
                &&& r is Some
            },
    {
        if !self.ready_for_local_dispatch(now) {
            return None;
        }
        self.runtime.runner_active = true;
        self.schedule.lease.leased_by_node = Some(String::from_str(node_id));
        self.schedule.lease.heartbeat_at = Some(now);
        self.schedule.lease.expires_at = Some(UnixTimestamp(now.0 + lease_ttl_ms));
        self.active_lease()
    }

    /// Release any local dispatch claim and clear the live lease.
    pub fn release_local_dispatch_claim(&mut self)
        ensures
            claim_released(*old(self), *final(self)),
    {
        self.runtime.runner_active = false;
        self.clear_lease();
    }

    /// Whether `node_id` may renew the lease: this node's runner owns it and
    /// the job has not finished.
    pub open spec fn spec_may_renew(&self, node_id: Seq<char>) -> bool {
        &&& self.runtime.runner_active
        &&& self.schedule.lease.leased_by_node matches Some(n) && n@ == node_id
        &&& !self.execution.status.spec_is_terminal()
    }

    /// Renew the local dispatch lease when this node still owns it.
    pub fn renew_local_dispatch_lease(&mut self, node_id: &str, now: UnixTimestamp, lease_ttl_ms: i64) -> (r: Option<LeaseRecord>)
        requires
            i64::MIN <= now.0 + lease_ttl_ms <= i64::MAX,
        ensures
            !old(self).spec_may_renew(node_id@) ==> r is None && *final(self) == *old(self),
            old(self).spec_may_renew(node_id@) ==> {
                &&& final(self).schedule.lease.leased_by_node == old(self).schedule.lease.leased_by_node
                &&& final(self).schedule.lease.heartbeat_at == Some(now)
                &&& final(self).schedule.lease.expires_at == Some(UnixTimestamp((now.0 + lease_ttl_ms) as i64))
                &&& r == final(self).spec_active_lease()
                &&& r is Some
                &&& final(self).identity == old(self).identity
                &&& final(self).dispatch == old(self).dispatch
                &&& final(self).source == old(self).source
                &&& final(self).filesystem == old(self).filesystem
                &&& final(self).execution == old(self).execution
                &&& final(self).runtime == old(self).runtime
                &&& final(self).schedule.submitted_at == old(self).schedule.submitted_at
                &&& final(self).schedule.completed_at == old(self).schedule.completed_at
                &&& final(self).schedule.next_eligible_at == old(self).schedule.next_eligible_at
                &&& final(self).schedule.num_workers == old(self).schedule.num_workers
            },
    {
        let owns = match &self.schedule.lease.leased_by_node {
            Some(n) => str_equal(n.as_str(), node_id),
            None => false,
        };
        if self.runtime.runner_active && owns && !self.execution.status.is_terminal() {
            self.schedule.lease.heartbeat_at = Some(now);
            self.schedule.lease.expires_at = Some(UnixTimestamp(now.0 + lease_ttl_ms));
            self.active_lease()
        } else {
            None
        }
    }

    /// Whether cancellation was requested for the current run.
    pub fn is_cancelled(&self) -> (r: bool)
        ensures
            r == self.runtime.cancel_requested,
    {
        self.runtime.cancel_requested
    }

    /// Request cancellation; a job that can still be cancelled becomes
    /// cancelled at `completed_at`, which is returned.
    pub fn request_cancellation(&mut self, completed_at: UnixTimestamp) -> (r: Option<UnixTimestamp>)
        requires
            old(self).wf(),
        ensures
            final(self).wf(),
            final(self).runtime.cancel_requested,
            final(self).execution.status.spec_is_terminal(),
            final(self).runtime.runner_active == old(self).runtime.runner_active,
            final(self).identity == old(self).identity,
            final(self).dispatch == old(self).dispatch,
            final(self).source == old(self).source,
            final(self).filesystem == old(self).filesystem,
            final(self).execution.file_statuses == old(self).execution.file_statuses,
            final(self).execution.results == old(self).execution.results,
            final(self).execution.error == old(self).execution.error,
            final(self).execution.completed_files == old(self).execution.completed_files,
            final(self).schedule.submitted_at == old(self).schedule.submitted_at,
            final(self).schedule.num_workers == old(self).schedule.num_workers,
            final(self).schedule.lease == old(self).schedule.lease,
            old(self).execution.status.spec_can_cancel() ==> {
                &&& r == Some(completed_at)
                &&& final(self).execution.status == JobStatus::Cancelled
                &&& final(self).schedule.completed_at == Some(completed_at)
                &&& final(self).schedule.next_eligible_at is None
            },
            !old(self).execution.status.spec_can_cancel() ==> {
                &&& r is None
                &&& final(self).execution.status == old(self).execution.status
                &&& final(self).schedule.completed_at == old(self).schedule.completed_at
                &&& final(self).schedule.next_eligible_at == old(self).schedule.next_eligible_at
            },
    {
        self.runtime.cancel_requested = true;
        if self.execution.status.can_cancel() {
            self.execution.status = JobStatus::Cancelled;
            self.schedule.completed_at = Some(completed_at);
            self.schedule.next_eligible_at = None;
            Some(completed_at)
        } else {
            None
        }
    }

    /// Re-queue the job after memory pressure prevented dispatch, deferring
    /// it until `retry_at`.
    pub fn requeue_after_memory_gate(&mut self, retry_at: UnixTimestamp)
        requires
            old(self).wf(),
        ensures
            final(self).wf(),
            final(self).execution.status == JobStatus::Queued,
            final(self).schedule.completed_at is None,
            final(self).schedule.next_eligible_at == Some(retry_at),
            final(self).identity == old(self).identity,
            final(self).dispatch == old(self).dispatch,
            final(self).source == old(self).source,
            final(self).filesystem == old(self).filesystem,
            final(self).execution.file_statuses == old(self).execution.file_statuses,
            final(self).execution.results == old(self).execution.results,
            final(self).execution.error == old(self).execution.error,
            final(self).execution.completed_files == old(self).execution.completed_files,
            final(self).schedule.submitted_at == old(self).schedule.submitted_at,
            final(self).schedule.num_workers == old(self).schedule.num_workers,
            final(self).schedule.lease == old(self).schedule.lease,
            final(self).runtime == old(self).runtime,
    {
        self.execution.status = JobStatus::Queued;
        self.schedule.completed_at = None;
        self.schedule.next_eligible_at = Some(retry_at);
    }

    /// Mark the job as actively running.
    pub fn mark_running(&mut self)
        requires
            old(self).wf(),
        ensures
            final(self).wf(),
            final(self).execution.status == JobStatus::Running,
            final(self).schedule.next_eligible_at is None,
            final(self).identity == old(self).identity,
            final(self).dispatch == old(self).dispatch,
            final(self).source == old(self).source,
            final(self).filesystem == old(self).filesystem,
            final(self).execution.file_statuses == old(self).execution.file_statuses,
            final(self).execution.results == old(self).execution.results,
            final(self).execution.error == old(self).execution.error,
            final(self).execution.completed_files == old(self).execution.completed_files,
            final(self).schedule.submitted_at == old(self).schedule.submitted_at,
            final(self).schedule.completed_at == old(self).schedule.completed_at,
            final(self).schedule.num_workers == old(self).schedule.num_workers,
            final(self).schedule.lease == old(self).schedule.lease,
            final(self).runtime == old(self).runtime,
    {
        self.execution.status = JobStatus::Running;
        self.schedule.next_eligible_at = None;
    }

    /// Record the per-job worker count chosen for this run.
    pub fn record_worker_count(&mut self, num_workers: usize)
        requires
            old(self).wf(),
        ensures
            final(self).wf(),
            final(self).schedule.num_workers == Some(num_workers as i64),
            final(self).identity == old(self).identity,
            final(self).dispatch == old(self).dispatch,
            final(self).source == old(self).source,
            final(self).filesystem == old(self).filesystem,
            final(self).execution == old(self).execution,
            final(self).schedule.submitted_at == old(self).schedule.submitted_at,
            final(self).schedule.completed_at == old(self).schedule.completed_at,
            final(self).schedule.next_eligible_at == old(self).schedule.next_eligible_at,
            final(self).schedule.lease == old(self).schedule.lease,
            final(self).runtime == old(self).runtime,
    {
        self.schedule.num_workers = Some(num_workers as i64);
    }

    /// Fail the job immediately with a job-level error message.
    pub fn fail(&mut self, error: &str, completed_at: UnixTimestamp)
        requires
            old(self).wf(),
        ensures
            final(self).wf(),
            final(self).execution.status == JobStatus::Failed,
            final(self).execution.error matches Some(e) && e@ == error@,
            final(self).schedule.completed_at == Some(completed_at),
            final(self).identity == old(self).identity,
            final(self).dispatch == old(self).dispatch,
            final(self).source == old(self).source,
            final(self).filesystem == old(self).filesystem,
            final(self).execution.file_statuses == old(self).execution.file_statuses,
            final(self).execution.results == old(self).execution.results,
            final(self).execution.completed_files == old(self).execution.completed_files,
            final(self).schedule.submitted_at == old(self).schedule.submitted_at,
            final(self).schedule.next_eligible_at == old(self).schedule.next_eligible_at,
            final(self).schedule.num_workers == old(self).schedule.num_workers,
            final(self).schedule.lease == old(self).schedule.lease,
            final(self).runtime == old(self).runtime,
    {
        self.execution.status = JobStatus::Failed;
        self.execution.error = Some(String::from_str(error));
        self.schedule.completed_at = Some(completed_at);
    }

    /// Force a still-cancellable job into a cancelled shutdown state and clear
    /// its runtime claims. Returns whether the job changed state.
    pub fn cancel_for_shutdown(&mut self, completed_at: UnixTimestamp) -> (r: bool)
        requires
            old(self).wf(),
        ensures
            final(self).wf(),
            r == old(self).execution.status.spec_can_cancel(),
            final(self).runtime.cancel_requested,
            final(self).identity == old(self).identity,
            final(self).dispatch == old(self).dispatch,
            final(self).source == old(self).source,
            final(self).filesystem == old(self).filesystem,
            final(self).execution.file_statuses == old(self).execution.file_statuses,
            final(self).execution.results == old(self).execution.results,
            final(self).execution.error == old(self).execution.error,
            final(self).execution.completed_files == old(self).execution.completed_files,
            final(self).schedule.submitted_at == old(self).schedule.submitted_at,
            final(self).schedule.num_workers == old(self).schedule.num_workers,
            r ==> {
                &&& final(self).execution.status == JobStatus::Cancelled
                &&& final(self).schedule.completed_at == Some(completed_at)
                &&& final(self).schedule.next_eligible_at is None
                &&& final(self).schedule.lease.leased_by_node is None
                &&& final(self).schedule.lease.expires_at is None
                &&& final(self).schedule.lease.heartbeat_at is None
                &&& !final(self).runtime.runner_active
            },
            !r ==> {
                &&& final(self).execution.status == old(self).execution.status
                &&& final(self).schedule.completed_at == old(self).schedule.completed_at
                &&& final(self).schedule.next_eligible_at == old(self).schedule.next_eligible_at
                &&& final(self).schedule.lease == old(self).schedule.lease
                &&& final(self).runtime.runner_active == old(self).runtime.runner_active
            },
    {
        self.runtime.cancel_requested = true;
        if self.execution.status.can_cancel() {
            self.execution.status = JobStatus::Cancelled;
            self.schedule.completed_at = Some(completed_at);
            self.schedule.next_eligible_at = None;
            self.clear_lease();
            self.runtime.runner_active = false;
            true
        } else {
            false
        }
    }
}


// ---------------------------------------------------------------------------
// Aggregate views and whole-job transitions
// ---------------------------------------------------------------------------

/// Number of entries in a terminal state.
pub open spec fn count_terminal(s: Seq<FileStatus>) -> nat
    decreases s.len(),
{
    if s.len() == 0 {
        0
    } else {
        count_terminal(s.drop_last()) + if s.last().status.spec_is_terminal() { 1nat } else { 0nat }
    }
}

/// Number of entries in state `k`.
pub open spec fn count_kind(s: Seq<FileStatus>, k: FileStatusKind) -> nat
    decreases s.len(),
{
    if s.len() == 0 {
        0
    } else {
        count_kind(s.drop_last(), k) + if s.last().status == k { 1nat } else { 0nat }
    }
}

/// Names of the entries not yet in a terminal state, in order.
pub open spec fn unfinished_names(s: Seq<FileStatus>) -> Seq<Seq<char>>
    decreases s.len(),
{
    if s.len() == 0 {
        Seq::empty()
    } else if !s.last().status.spec_is_terminal() {
        unfinished_names(s.drop_last()).push(s.last().filename@)
    } else {
        unfinished_names(s.drop_last())
    }
}

/// The results that carry no error, in order.
pub open spec fn successful_results(r: Seq<FileResultEntry>) -> Seq<FileResultEntry>
    decreases r.len(),
{
    if r.len() == 0 {
        Seq::empty()
    } else if r.last().error is None {
        successful_results(r.drop_last()).push(r.last())
    } else {
        successful_results(r.drop_last())
    }
}

/// An unfinished file is reset to a fresh queued state on restart.
pub open spec fn restart_status(f: FileStatus) -> FileStatus {
    if f.status != FileStatusKind::Done {
        FileStatus {
            status: FileStatusKind::Queued,
            error: None,
            error_category: None,
            started_at: None,
            finished_at: None,
            next_eligible_at: None,
            current_attempt_id: None,
            progress_current: None,
            progress_total: None,
            progress_stage: None,
            ..f
        }
    } else {
        f
    }
}

/// A resumable file is requeued by startup recovery; its error metadata
/// stays.
pub open spec fn recovered_status(f: FileStatus) -> FileStatus {
    if f.status.spec_is_resumable() {
        FileStatus {
            status: FileStatusKind::Queued,
            started_at: None,
            finished_at: None,
            next_eligible_at: None,
            current_attempt_id: None,
            progress_current: None,
            progress_total: None,
            progress_stage: None,
            ..f
        }
    } else {
        f
    }
}

/// The first entry for `name` exists and is terminal.
pub open spec fn file_is_terminal(s: Seq<FileStatus>, name: Seq<char>) -> bool {
    exists|i: int| #[trigger] is_first_file_index(s, name, i) && s[i].status.spec_is_terminal()
}

/// The files still to run, as `(index, name, has_chat)` over the paired
/// prefix of the filename and has-chat lists.
pub open spec fn pending_spec(names: Seq<String>, has_chat: Seq<bool>, s: Seq<FileStatus>, n: int) -> Seq<PendingJobFile>
    decreases n,
{
    if n <= 0 {
        Seq::empty()
    } else {
        let prev = pending_spec(names, has_chat, s, n - 1);
        if file_is_terminal(s, names[n - 1]@) {
            prev
        } else {
            prev.push(PendingJobFile { file_index: (n - 1) as usize, filename: names[n - 1], has_chat: has_chat[n - 1] })
        }
    }
}

pub open spec fn min_len(a: int, b: int) -> int {
    if a < b { a } else { b }
}

proof fn lemma_take_push<A>(s: Seq<A>, i: int)
    requires
        0 <= i < s.len(),
    ensures
        s.take(i + 1).drop_last() == s.take(i),
        s.take(i + 1).last() == s[i],
{
    assert(s.take(i + 1).drop_last() =~= s.take(i));
}

impl Job {
    /// Names of the files that have not reached a terminal state.
    pub fn unfinished_files(&self) -> (r: Vec<String>)
        ensures
            r@.map_values(|x: String| x@) == unfinished_names(self.execution.file_statuses@),
    {
        let s = &self.execution.file_statuses;
        let mut out: Vec<String> = Vec::new();
        let mut i: usize = 0;
        while i < s.len()
            invariant
                i <= s@.len(),
                out@.map_values(|x: String| x@) == unfinished_names(s@.take(i as int)),
            decreases s@.len() - i,
        {
            proof { lemma_take_push(s@, i as int); }
            if !s[i].status.is_terminal() {
                out.push(s[i].filename.clone());
            }
            i = i + 1;
            assert(out@.map_values(|x: String| x@) =~= unfinished_names(s@.take(i as int)));
        }
        assert(s@.take(s@.len() as int) =~= s@);
        out
    }

    /// The lifecycle label of one file, if it exists.
    pub fn file_status_label(&self, filename: &str) -> (r: Option<String>)
        ensures
            match r {
                Some(l) => exists|i: int|
                    #[trigger] is_first_file_index(self.execution.file_statuses@, filename@, i)
                        && l@ == self.execution.file_statuses@[i].status.spec_label(),
                None => !has_file(self.execution.file_statuses@, filename@),
            },
    {
        match self.find_file(filename) {
            Some(i) => Some(String::from_str(self.execution.file_statuses[i].status.label())),
            None => None,
        }
    }

    /// Whether some file is terminal and every terminal file has errored.
    pub fn all_terminal_files_failed(&self) -> (r: bool)
        ensures
            r == ((exists|i: int| 0 <= i < self.execution.file_statuses@.len()
                && (#[trigger] self.execution.file_statuses@[i]).status.spec_is_terminal())
                && (forall|i: int| 0 <= i < self.execution.file_statuses@.len()
                && (#[trigger] self.execution.file_statuses@[i]).status.spec_is_terminal()
                ==> self.execution.file_statuses@[i].status == FileStatusKind::Error)),
    {
        let s = &self.execution.file_statuses;
        let mut any_terminal = false;
        let mut all_error = true;
        let mut i: usize = 0;
        while i < s.len()
            invariant
                i <= s@.len(),
                any_terminal == exists|j: int| 0 <= j < i && (#[trigger] s@[j]).status.spec_is_terminal(),
                all_error == forall|j: int| 0 <= j < i && (#[trigger] s@[j]).status.spec_is_terminal()
                    ==> s@[j].status == FileStatusKind::Error,
            decreases s@.len() - i,
        {
            if s[i].status.is_terminal() {
                any_terminal = true;
                if s[i].status != FileStatusKind::Error {
                    all_error = false;
                }
            }
            i = i + 1;
        }
        any_terminal && all_error
    }

    fn count_terminal_files(&self) -> (r: usize)
        ensures
            r == count_terminal(self.execution.file_statuses@),
    {
        let s = &self.execution.file_statuses;
        let mut n: usize = 0;
        let mut i: usize = 0;
        while i < s.len()
            invariant
                i <= s@.len(),
                n == count_terminal(s@.take(i as int)),
                n <= i,
            decreases s@.len() - i,
        {
            proof { lemma_take_push(s@, i as int); }
            if s[i].status.is_terminal() {
                n = n + 1;
            }
            i = i + 1;
        }
        assert(s@.take(s@.len() as int) =~= s@);
        n
    }

    fn count_files_with(&self, k: FileStatusKind) -> (r: usize)
        ensures
            r == count_kind(self.execution.file_statuses@, k),
    {
        let s = &self.execution.file_statuses;
        let mut n: usize = 0;
        let mut i: usize = 0;
        while i < s.len()
            invariant
                i <= s@.len(),
                n == count_kind(s@.take(i as int), k),
                n <= i,
            decreases s@.len() - i,
        {
            proof { lemma_take_push(s@, i as int); }
            if s[i].status == k {
                n = n + 1;
            }
            i = i + 1;
        }
        assert(s@.take(s@.len() as int) =~= s@);
        n
    }

    /// Finalize the job once file tasks stopped: set the final status and
    /// count the terminal files as completed.
    pub fn finalize(&mut self, final_status: JobStatus, completed_at: UnixTimestamp)
        requires
            old(self).wf(),
        ensures
            final(self).wf(),
            final(self).execution.status == final_status,
            final(self).schedule.completed_at == Some(completed_at),
            final(self).schedule.next_eligible_at is None,
            final(self).execution.completed_files == count_terminal(old(self).execution.file_statuses@) as i64,
            final(self).identity == old(self).identity,
            final(self).dispatch == old(self).dispatch,
            final(self).source == old(self).source,
            final(self).filesystem == old(self).filesystem,
            final(self).execution.file_statuses == old(self).execution.file_statuses,
            final(self).execution.results == old(self).execution.results,
            final(self).execution.error == old(self).execution.error,
            final(self).schedule.submitted_at == old(self).schedule.submitted_at,
            final(self).schedule.num_workers == old(self).schedule.num_workers,
            final(self).schedule.lease == old(self).schedule.lease,
            final(self).runtime == old(self).runtime,
    {
        self.execution.status = final_status;
        self.schedule.completed_at = Some(completed_at);
        self.schedule.next_eligible_at = None;
        let n = self.count_terminal_files();
        self.execution.completed_files = n as i64;
    }

    /// Reset the job so its unfinished files run again from a queued state.
    /// Done files and their results are kept; error results are dropped.
    pub fn prepare_for_restart(&mut self)
        requires
            old(self).wf(),
        ensures
            final(self).wf(),
            final(self).execution.file_statuses@.len() == old(self).execution.file_statuses@.len(),
            forall|i: int| 0 <= i < old(self).execution.file_statuses@.len()
                ==> #[trigger] final(self).execution.file_statuses@[i] == restart_status(old(self).execution.file_statuses@[i]),
            final(self).execution.status == JobStatus::Queued,
            final(self).execution.error is None,
            final(self).schedule.completed_at is None,
            final(self).schedule.next_eligible_at is None,
            final(self).schedule.lease.leased_by_node is None,
            final(self).schedule.lease.expires_at is None,
            final(self).schedule.lease.heartbeat_at is None,
            !final(self).runtime.cancel_requested,
            !final(self).runtime.runner_active,
            final(self).execution.completed_files == count_kind(old(self).execution.file_statuses@, FileStatusKind::Done) as i64,
            final(self).execution.results@ == successful_results(old(self).execution.results@),
            final(self).identity == old(self).identity,
            final(self).dispatch == old(self).dispatch,
            final(self).source == old(self).source,
            final(self).filesystem == old(self).filesystem,
            final(self).schedule.submitted_at == old(self).schedule.submitted_at,
            final(self).schedule.num_workers == old(self).schedule.num_workers,
    {
        let ghost old_s = self.execution.file_statuses@;
        let mut statuses: Vec<FileStatus> = Vec::new();
        std::mem::swap(&mut statuses, &mut self.execution.file_statuses);
        let n = statuses.len();
        let mut i: usize = 0;
        while i < n
            invariant
                n == old_s.len(),
                statuses@.len() == n,
                i <= n,
                forall|j: int| 0 <= j < i ==> #[trigger] statuses@[j] == restart_status(old_s[j]),
                forall|j: int| i <= j < n ==> #[trigger] statuses@[j] == old_s[j],
            decreases n - i,
        {
            if statuses[i].status != FileStatusKind::Done {
                let fs = &mut statuses[i];
                fs.status = FileStatusKind::Queued;
                fs.error = None;
                fs.error_category = None;
                fs.started_at = None;
                fs.finished_at = None;
                fs.next_eligible_at = None;
                fs.current_attempt_id = None;
                fs.progress_current = None;
                fs.progress_total = None;
                fs.progress_stage = None;
            }
            i = i + 1;
        }
        assert forall|a: int, b: int|
            0 <= a < n && 0 <= b < n && a != b implies
            statuses@[a].filename@ != statuses@[b].filename@ by {
            assert(statuses@[a].filename == old_s[a].filename);
            assert(statuses@[b].filename == old_s[b].filename);
        }
        self.execution.file_statuses = statuses;

        self.execution.status = JobStatus::Queued;
        self.execution.error = None;
        self.schedule.completed_at = None;
        self.schedule.next_eligible_at = None;
        self.clear_lease();
        self.runtime.cancel_requested = false;
        self.runtime.runner_active = false;
        let done = self.count_files_with(FileStatusKind::Done);
        proof { lemma_count_kind_restart(old_s, self.execution.file_statuses@); }
        self.execution.completed_files = done as i64;

        let ghost old_r = self.execution.results@;
        let mut kept: Vec<FileResultEntry> = Vec::new();
        let mut results = Vec::new();
        std::mem::swap(&mut results, &mut self.execution.results);
        let mut j: usize = 0;
        let m = results.len();
        while j < m
            invariant
                results@ == old_r,
                m == old_r.len(),
                j <= m,
                kept@ == successful_results(old_r.take(j as int)),
            decreases m - j,
        {
            proof { lemma_take_push(old_r, j as int); }
            if results[j].error.is_none() {
                kept.push(results[j].clone_entry());
            }
            j = j + 1;
        }
        assert(old_r.take(m as int) =~= old_r);
        self.execution.results = kept;
    }
}

/// Restarting keeps every Done entry Done and creates none, so the Done
/// count is the same before and after.
proof fn lemma_count_kind_restart(old_s: Seq<FileStatus>, new_s: Seq<FileStatus>)
    requires
        old_s.len() == new_s.len(),
        forall|j: int| 0 <= j < old_s.len() ==> #[trigger] new_s[j] == restart_status(old_s[j]),
    ensures
        count_kind(new_s, FileStatusKind::Done) == count_kind(old_s, FileStatusKind::Done),
    decreases old_s.len(),
{
    if old_s.len() > 0 {
        let o = old_s.drop_last();
        let n = new_s.drop_last();
        assert forall|j: int| 0 <= j < o.len() implies #[trigger] n[j] == restart_status(o[j]) by {
            assert(n[j] == new_s[j]);
        }
        lemma_count_kind_restart(o, n);
        assert(new_s.last() == restart_status(old_s.last()));
    }
}

impl FileResultEntry {
    /// A copy of this entry.
    pub fn clone_entry(&self) -> (r: FileResultEntry)
        ensures
            r == *self,
    {
        FileResultEntry {
            filename: self.filename.clone(),
            content_type: self.content_type,
            error: clone_opt_string(&self.error),
        }
    }
}


impl Job {
    /// Reconcile a persisted interrupted/running job during startup
    /// recovery. With resumable files left, those files are requeued and the
    /// job is queued again; otherwise the job is promoted to failed (every
    /// file errored) or completed, with every file counted.
    pub fn reconcile_recovered_runtime_state(&mut self) -> (r: RecoveryDisposition)
        requires
            old(self).wf(),
        ensures
            final(self).wf(),
            final(self).schedule.next_eligible_at is None,
            final(self).schedule.lease.leased_by_node is None,
            final(self).schedule.lease.expires_at is None,
            final(self).schedule.lease.heartbeat_at is None,
            final(self).identity == old(self).identity,
            final(self).dispatch == old(self).dispatch,
            final(self).source == old(self).source,
            final(self).filesystem == old(self).filesystem,
            final(self).execution.results == old(self).execution.results,
            final(self).execution.error == old(self).execution.error,
            final(self).schedule.submitted_at == old(self).schedule.submitted_at,
            final(self).schedule.num_workers == old(self).schedule.num_workers,
            final(self).runtime == old(self).runtime,
            ({
                let s = old(self).execution.file_statuses@;
                let has_resumable = exists|i: int| 0 <= i < s.len() && (#[trigger] s[i]).status.spec_is_resumable();
                let all_errored = forall|i: int| 0 <= i < s.len() ==> (#[trigger] s[i]).status == FileStatusKind::Error;
                if has_resumable {
                    &&& r == RecoveryDisposition::Requeued
                    &&& final(self).execution.status == JobStatus::Queued
                    &&& final(self).schedule.completed_at is None
                    &&& final(self).execution.completed_files == old(self).execution.completed_files
                    &&& final(self).execution.file_statuses@.len() == s.len()
                    &&& forall|i: int| 0 <= i < s.len()
                        ==> #[trigger] final(self).execution.file_statuses@[i] == recovered_status(s[i])
                } else {
                    &&& r == (if all_errored { RecoveryDisposition::Failed } else { RecoveryDisposition::Completed })
                    &&& final(self).execution.status == (if all_errored { JobStatus::Failed } else { JobStatus::Completed })
                    &&& final(self).execution.completed_files == old(self).filesystem.filenames@.len() as i64
                    &&& final(self).schedule.completed_at == old(self).schedule.completed_at
                    &&& final(self).execution.file_statuses == old(self).execution.file_statuses
                }
            }),
    {
        let ghost old_s = self.execution.file_statuses@;
        let n = self.execution.file_statuses.len();
        let mut has_resumable = false;
        let mut all_errored = true;
        let mut i: usize = 0;
        while i < n
            invariant
                n == self.execution.file_statuses@.len(),
                i <= n,
                has_resumable == exists|j: int| 0 <= j < i && (#[trigger] self.execution.file_statuses@[j]).status.spec_is_resumable(),
                all_errored == forall|j: int| 0 <= j < i ==> (#[trigger] self.execution.file_statuses@[j]).status == FileStatusKind::Error,
            decreases n - i,
        {
            if self.execution.file_statuses[i].status.is_resumable() {
                has_resumable = true;
            }
            if self.execution.file_statuses[i].status != FileStatusKind::Error {
                all_errored = false;
            }
            i = i + 1;
        }

        if has_resumable {
            let mut statuses: Vec<FileStatus> = Vec::new();
            std::mem::swap(&mut statuses, &mut self.execution.file_statuses);
            let mut k: usize = 0;
            while k < n
                invariant
                    n == old_s.len(),
                    statuses@.len() == n,
                    k <= n,
                    forall|j: int| 0 <= j < k ==> #[trigger] statuses@[j] == recovered_status(old_s[j]),
                    forall|j: int| k <= j < n ==> #[trigger] statuses@[j] == old_s[j],
                decreases n - k,
            {
                if statuses[k].status.is_resumable() {
                    let fs = &mut statuses[k];
                    fs.status = FileStatusKind::Queued;
                    fs.started_at = None;
                    fs.finished_at = None;
                    fs.next_eligible_at = None;
                    fs.current_attempt_id = None;
                    fs.progress_current = None;
                    fs.progress_total = None;
                    fs.progress_stage = None;
                }
                k = k + 1;
            }
            assert forall|a: int, b: int|
                0 <= a < n && 0 <= b < n && a != b implies
                statuses@[a].filename@ != statuses@[b].filename@ by {
                assert(statuses@[a].filename == old_s[a].filename);
                assert(statuses@[b].filename == old_s[b].filename);
            }
            self.execution.file_statuses = statuses;
            self.execution.status = JobStatus::Queued;
            self.schedule.completed_at = None;
            self.schedule.next_eligible_at = None;
            self.clear_lease();
            RecoveryDisposition::Requeued
        } else {
            self.execution.status = if all_errored { JobStatus::Failed } else { JobStatus::Completed };
            self.execution.completed_files = self.total_files() as i64;
            self.schedule.next_eligible_at = None;
            self.clear_lease();
            if all_errored {
                RecoveryDisposition::Failed
            } else {
                RecoveryDisposition::Completed
            }
        }
    }

    /// The files that have not yet reached a terminal state, with their
    /// position in the job and whether they already hold CHAT.
    pub fn pending_files(&self) -> (r: Vec<PendingJobFile>)
        ensures
            r@ == pending_spec(
                self.filesystem.filenames@,
                self.filesystem.has_chat@,
                self.execution.file_statuses@,
                min_len(self.filesystem.filenames@.len() as int, self.filesystem.has_chat@.len() as int),
            ),
    {
        let names = &self.filesystem.filenames;
        let has_chat = &self.filesystem.has_chat;
        let n = if names.len() < has_chat.len() { names.len() } else { has_chat.len() };
        let mut out: Vec<PendingJobFile> = Vec::new();
        let mut i: usize = 0;
        while i < n
            invariant
                n == min_len(names@.len() as int, has_chat@.len() as int),
                i <= n,
                out@ == pending_spec(names@, has_chat@, self.execution.file_statuses@, i as int),
            decreases n - i,
        {
            let already_done = match self.find_file(names[i].as_str()) {
                Some(k) => self.execution.file_statuses[k].status.is_terminal(),
                None => false,
            };
            proof {
                if !already_done {
                    assert forall|k: int| #[trigger] is_first_file_index(self.execution.file_statuses@, names@[i as int]@, k)
                        implies !self.execution.file_statuses@[k].status.spec_is_terminal() by {}
                }
            }
            if !already_done {
                out.push(PendingJobFile { file_index: i, filename: names[i].clone(), has_chat: has_chat[i] });
            }
            i = i + 1;
        }
        out
    }
}


// ---------------------------------------------------------------------------
// Projections
// ---------------------------------------------------------------------------

/// The API view of a job.
pub struct JobInfo {
    pub job_id: String,
    pub status: JobStatus,
    pub command: ReleasedCommand,
    pub options: String,
    pub lang: String,
    pub source_dir: String,
    pub total_files: i64,
    pub completed_files: i64,
    pub current_file: Option<String>,
    pub error: Option<String>,
    pub file_statuses: Vec<FileStatus>,
    pub submitted_at: Option<UnixTimestamp>,
    pub submitted_by: Option<String>,
    pub submitted_by_name: Option<String>,
    pub completed_at: Option<UnixTimestamp>,
    /// Milliseconds from submission to completion.
    pub duration_ms: Option<i128>,
    pub next_eligible_at: Option<UnixTimestamp>,
    pub num_workers: Option<i64>,
    pub active_lease: Option<LeaseRecord>,
}

/// The API list summary of a job.
pub struct JobListItem {
    pub job_id: String,
    pub status: JobStatus,
    pub command: ReleasedCommand,
    pub lang: String,
    pub source_dir: String,
    pub total_files: i64,
    pub completed_files: i64,
    pub error_files: i64,
    pub submitted_at: Option<UnixTimestamp>,
    pub submitted_by: Option<String>,
    pub submitted_by_name: Option<String>,
    pub completed_at: Option<UnixTimestamp>,
    pub duration_ms: Option<i128>,
    pub next_eligible_at: Option<UnixTimestamp>,
    pub num_workers: Option<i64>,
    pub active_lease: Option<LeaseRecord>,
}

pub struct RunnerJobIdentity {
    pub job_id: String,
    pub correlation_id: String,
}

pub struct RunnerDispatchConfig {
    pub command: ReleasedCommand,
    pub lang: String,
    pub num_speakers: u32,
    pub options: String,
    pub runtime_state: Vec<(String, String)>,
    pub debug_traces: bool,
}

pub struct RunnerFilesystemConfig {
    pub paths_mode: bool,
    pub source_paths: Vec<String>,
    pub output_paths: Vec<String>,
    pub before_paths: Vec<String>,
    pub staging_dir: String,
    pub media_mapping: String,
    pub media_subdir: String,
    pub source_dir: String,
}

/// The immutable runner-facing snapshot of a job.
pub struct RunnerJobSnapshot {
    pub identity: RunnerJobIdentity,
    pub dispatch: RunnerDispatchConfig,
    pub filesystem: RunnerFilesystemConfig,
    /// Whether cancellation had been requested when the snapshot was taken.
    /// A later request is recorded on the job itself, where the runner's
    /// driver reads it (`Job::is_cancelled`).
    pub cancel_requested: bool,
    pub pending_files: Vec<PendingJobFile>,
}

/// A name that is empty is reported as absent.
pub open spec fn nonempty_name(s: String) -> Option<String> {
    if s@.len() == 0 { None } else { Some(s) }
}

/// Time from submission to completion, once completed.
pub open spec fn spec_duration(submitted_at: UnixTimestamp, completed_at: Option<UnixTimestamp>) -> Option<i128> {
    match completed_at {
        Some(c) => Some((c.0 - submitted_at.0) as i128),
        None => None,
    }
}

fn nonempty_clone(s: &String) -> (r: Option<String>)
    ensures
        r == nonempty_name(*s),
{
    if s.as_str().unicode_len() == 0 { None } else { Some(s.clone()) }
}

fn duration_between(submitted_at: UnixTimestamp, completed_at: Option<UnixTimestamp>) -> (r: Option<i128>)
    ensures
        r == spec_duration(submitted_at, completed_at),
{
    match completed_at {
        Some(c) => Some(c.0 as i128 - submitted_at.0 as i128),
        None => None,
    }
}

fn clone_strings(v: &Vec<String>) -> (r: Vec<String>)
    ensures
        r@ == v@,
{
    let mut out: Vec<String> = Vec::new();
    let mut i: usize = 0;
    while i < v.len()
        invariant
            i <= v@.len(),
            out@ == v@.take(i as int),
        decreases v@.len() - i,
    {
        out.push(v[i].clone());
        i = i + 1;
        assert(out@ =~= v@.take(i as int));
    }
    assert(v@.take(v@.len() as int) =~= v@);
    out
}

fn clone_pairs(v: &Vec<(String, String)>) -> (r: Vec<(String, String)>)
    ensures
        r@ == v@,
{
    let mut out: Vec<(String, String)> = Vec::new();
    let mut i: usize = 0;
    while i < v.len()
        invariant
            i <= v@.len(),
            out@ == v@.take(i as int),
        decreases v@.len() - i,
    {
        let (a, b) = &v[i];
        out.push((a.clone(), b.clone()));
        i = i + 1;
        assert(out@ =~= v@.take(i as int));
    }
    assert(v@.take(v@.len() as int) =~= v@);
    out
}

impl FileStatus {
    /// A copy of this status.
    pub fn duplicate(&self) -> (r: FileStatus)
        ensures
            r == *self,
    {
        FileStatus {
            filename: self.filename.clone(),
            status: self.status,
            error: clone_opt_string(&self.error),
            error_category: self.error_category,
            started_at: self.started_at,
            finished_at: self.finished_at,
            next_eligible_at: self.next_eligible_at,
            current_attempt_id: self.current_attempt_id,
            progress_current: self.progress_current,
            progress_total: self.progress_total,
            progress_stage: self.progress_stage,
        }
    }
}

fn clone_statuses(v: &Vec<FileStatus>) -> (r: Vec<FileStatus>)
    ensures
        r@ == v@,
{
    let mut out: Vec<FileStatus> = Vec::new();
    let mut i: usize = 0;
    while i < v.len()
        invariant
            i <= v@.len(),
            out@ == v@.take(i as int),
        decreases v@.len() - i,
    {
        out.push(v[i].duplicate());
        i = i + 1;
        assert(out@ =~= v@.take(i as int));
    }
    assert(v@.take(v@.len() as int) =~= v@);
    out
}

impl Job {
    /// The API view of the job.
    pub fn to_info(&self) -> (r: JobInfo)
        ensures
            r.job_id == self.identity.job_id,
            r.status == self.execution.status,
            r.command == self.dispatch.command,
            r.options == self.dispatch.options,
            r.lang == self.dispatch.lang,
            r.source_dir == self.source.source_dir,
            r.total_files == self.filesystem.filenames@.len() as i64,
            r.completed_files == self.execution.completed_files,
            r.current_file is None,
            r.error == self.execution.error,
            r.file_statuses@ == self.execution.file_statuses@,
            r.submitted_at == Some(self.schedule.submitted_at),
            r.submitted_by == nonempty_name(self.source.submitted_by),
            r.submitted_by_name == nonempty_name(self.source.submitted_by_name),
            r.completed_at == self.schedule.completed_at,
            r.duration_ms == spec_duration(self.schedule.submitted_at, self.schedule.completed_at),
            r.next_eligible_at == self.schedule.next_eligible_at,
            r.num_workers == self.schedule.num_workers,
            r.active_lease == self.spec_active_lease(),
    {
        JobInfo {
            job_id: self.identity.job_id.clone(),
            status: self.execution.status,
            command: self.dispatch.command,
            options: self.dispatch.options.clone(),
            lang: self.dispatch.lang.clone(),
            source_dir: self.source.source_dir.clone(),
            total_files: self.total_files() as i64,
            completed_files: self.execution.completed_files,
            current_file: None,
            error: clone_opt_string(&self.execution.error),
            file_statuses: clone_statuses(&self.execution.file_statuses),
            submitted_at: Some(self.schedule.submitted_at),
            submitted_by: nonempty_clone(&self.source.submitted_by),
            submitted_by_name: nonempty_clone(&self.source.submitted_by_name),
            completed_at: self.schedule.completed_at,
            duration_ms: duration_between(self.schedule.submitted_at, self.schedule.completed_at),
            next_eligible_at: self.schedule.next_eligible_at,
            num_workers: self.schedule.num_workers,
            active_lease: self.active_lease(),
        }
    }

    /// The API list summary of the job; `error_files` counts errored files.
    pub fn to_list_item(&self) -> (r: JobListItem)
        ensures
            r.job_id == self.identity.job_id,
            r.status == self.execution.status,
            r.command == self.dispatch.command,
            r.lang == self.dispatch.lang,
            r.source_dir == self.source.source_dir,
            r.total_files == self.filesystem.filenames@.len() as i64,
            r.completed_files == self.execution.completed_files,
            r.error_files == count_kind(self.execution.file_statuses@, FileStatusKind::Error) as i64,
            r.submitted_at == Some(self.schedule.submitted_at),
            r.submitted_by == nonempty_name(self.source.submitted_by),
            r.submitted_by_name == nonempty_name(self.source.submitted_by_name),
            r.completed_at == self.schedule.completed_at,
            r.duration_ms == spec_duration(self.schedule.submitted_at, self.schedule.completed_at),
            r.next_eligible_at == self.schedule.next_eligible_at,
            r.num_workers == self.schedule.num_workers,
            r.active_lease == self.spec_active_lease(),
    {
        let error_files = self.count_files_with(FileStatusKind::Error) as i64;
        JobListItem {
            job_id: self.identity.job_id.clone(),
            status: self.execution.status,
            command: self.dispatch.command,
            lang: self.dispatch.lang.clone(),
            source_dir: self.source.source_dir.clone(),
            total_files: self.total_files() as i64,
            completed_files: self.execution.completed_files,
            error_files,
            submitted_at: Some(self.schedule.submitted_at),
            submitted_by: nonempty_clone(&self.source.submitted_by),
            submitted_by_name: nonempty_clone(&self.source.submitted_by_name),
            completed_at: self.schedule.completed_at,
            duration_ms: duration_between(self.schedule.submitted_at, self.schedule.completed_at),
            next_eligible_at: self.schedule.next_eligible_at,
            num_workers: self.schedule.num_workers,
            active_lease: self.active_lease(),
        }
    }

    /// The immutable runner-facing snapshot of the job.
    pub fn to_runner_snapshot(&self) -> (r: RunnerJobSnapshot)
        ensures
            r.identity.job_id == self.identity.job_id,
            r.identity.correlation_id == self.identity.correlation_id,
            r.dispatch.command == self.dispatch.command,
            r.dispatch.lang == self.dispatch.lang,
            r.dispatch.num_speakers == self.dispatch.num_speakers,
            r.dispatch.options == self.dispatch.options,
            r.dispatch.runtime_state@ == self.dispatch.runtime_state@,
            r.dispatch.debug_traces == self.dispatch.debug_traces,
            r.filesystem.paths_mode == self.filesystem.paths_mode,
            r.filesystem.source_paths@ == self.filesystem.source_paths@,
            r.filesystem.output_paths@ == self.filesystem.output_paths@,
            r.filesystem.before_paths@ == self.filesystem.before_paths@,
            r.filesystem.staging_dir == self.filesystem.staging_dir,
            r.filesystem.media_mapping == self.filesystem.media_mapping,
            r.filesystem.media_subdir == self.filesystem.media_subdir,
            r.filesystem.source_dir == self.source.source_dir,
            r.cancel_requested == self.runtime.cancel_requested,
            r.pending_files@ == pending_spec(
                self.filesystem.filenames@,
                self.filesystem.has_chat@,
                self.execution.file_statuses@,
                min_len(self.filesystem.filenames@.len() as int, self.filesystem.has_chat@.len() as int),
            ),
    {
        RunnerJobSnapshot {
            identity: RunnerJobIdentity {
                job_id: self.identity.job_id.clone(),
                correlation_id: self.identity.correlation_id.clone(),
            },
            dispatch: RunnerDispatchConfig {
                command: self.dispatch.command,
                lang: self.dispatch.lang.clone(),
                num_speakers: self.dispatch.num_speakers,
                options: self.dispatch.options.clone(),
                runtime_state: clone_pairs(&self.dispatch.runtime_state),
                debug_traces: self.dispatch.debug_traces,
            },
            filesystem: RunnerFilesystemConfig {
                paths_mode: self.filesystem.paths_mode,
                source_paths: clone_strings(&self.filesystem.source_paths),
                output_paths: clone_strings(&self.filesystem.output_paths),
                before_paths: clone_strings(&self.filesystem.before_paths),
                staging_dir: self.filesystem.staging_dir.clone(),
                media_mapping: self.filesystem.media_mapping.clone(),
                media_subdir: self.filesystem.media_subdir.clone(),
                source_dir: self.source.source_dir.clone(),
            },
            cancel_requested: self.runtime.cancel_requested,
            pending_files: self.pending_files(),
        }
    }
}


// ---------------------------------------------------------------------------
// Conflict detection
// ---------------------------------------------------------------------------

/// One file-level collision between an incoming submission and an active
/// job: same submitter, same source-scoped filename.
#[derive(Clone, Debug, PartialEq, Eq)]
pub struct ConflictEntry {
    pub filename: String,
    pub job_id: String,
    pub command: ReleasedCommand,
    pub status: JobStatus,
}

/// The source-scoped path of a job's file: `source_dir/name`, or `name`
/// when the job has no source directory.
pub open spec fn scoped_path(source_dir: Seq<char>, name: Seq<char>) -> Seq<char> {
    if source_dir.len() == 0 { name } else { source_dir + "/"@ + name }
}

/// Whether the incoming job submits `path` for `submitter`.
pub open spec fn incoming_has_key(incoming: Job, submitter: Seq<char>, path: Seq<char>) -> bool {
    &&& submitter == incoming.source.submitted_by@
    &&& exists|k: int| 0 <= k < incoming.filesystem.filenames@.len()
        && scoped_path(incoming.source.source_dir@, (#[trigger] incoming.filesystem.filenames@[k])@) == path
}

/// Conflicts contributed by the first `n` files of `active`.
pub open spec fn job_conflicts(active: Job, incoming: Job, n: int) -> Seq<ConflictEntry>
    decreases n,
{
    if n <= 0 {
        Seq::empty()
    } else {
        let prev = job_conflicts(active, incoming, n - 1);
        let name = active.filesystem.filenames@[n - 1];
        if incoming_has_key(incoming, active.source.submitted_by@, scoped_path(active.source.source_dir@, name@)) {
            prev.push(ConflictEntry {
                filename: name,
                job_id: active.identity.job_id,
                command: active.dispatch.command,
                status: active.execution.status,
            })
        } else {
            prev
        }
    }
}

/// Conflicts with the first `m` jobs, in order; inactive jobs contribute none.
pub open spec fn conflicts_spec(jobs: Seq<Job>, incoming: Job, m: int) -> Seq<ConflictEntry>
    decreases m,
{
    if m <= 0 {
        Seq::empty()
    } else {
        let prev = conflicts_spec(jobs, incoming, m - 1);
        let active = jobs[m - 1];
        if active.execution.status.spec_is_active() {
            prev + job_conflicts(active, incoming, active.filesystem.filenames@.len() as int)
        } else {
            prev
        }
    }
}

fn scoped_path_exec(source_dir: &String, name: &String) -> (r: String)
    ensures
        r@ == scoped_path(source_dir@, name@),
{
    if source_dir.as_str().unicode_len() == 0 {
        name.clone()
    } else {
        let mut p = source_dir.clone();
        p.append("/");
        p.append(name.as_str());
        p
    }
}

/// Whether `path` is among `paths`.
fn contains_path(paths: &Vec<String>, path: &String) -> (r: bool)
    ensures
        r == exists|k: int| 0 <= k < paths@.len() && (#[trigger] paths@[k])@ == path@,
{
    let mut i: usize = 0;
    while i < paths.len()
        invariant
            i <= paths@.len(),
            forall|k: int| 0 <= k < i ==> (#[trigger] paths@[k])@ != path@,
        decreases paths@.len() - i,
    {
        if str_equal(paths[i].as_str(), path.as_str()) {
            return true;
        }
        i = i + 1;
    }
    false
}

/// `e` reports a real collision with `active`: it names `active`, which was
/// submitted by the incoming job's submitter, and one of `active`'s files
/// whose source-scoped path the incoming job submits too.
pub open spec fn conflict_from(active: Job, incoming: Job, e: ConflictEntry) -> bool {
    &&& e.job_id == active.identity.job_id
    &&& e.command == active.dispatch.command
    &&& e.status == active.execution.status
    &&& active.source.submitted_by@ == incoming.source.submitted_by@
    &&& exists|f: int, k: int|
        #![trigger active.filesystem.filenames@[f], incoming.filesystem.filenames@[k]]
        0 <= f < active.filesystem.filenames@.len() && 0 <= k < incoming.filesystem.filenames@.len()
            && active.filesystem.filenames@[f] == e.filename
            && scoped_path(incoming.source.source_dir@, incoming.filesystem.filenames@[k]@)
                == scoped_path(active.source.source_dir@, e.filename@)
}

/// Every conflict of one active job is a real collision with it.
proof fn lemma_job_conflicts_are_collisions(active: Job, incoming: Job, n: int)
    requires
        n <= active.filesystem.filenames@.len(),
    ensures
        forall|i: int| 0 <= i < job_conflicts(active, incoming, n).len() ==>
            conflict_from(active, incoming, #[trigger] job_conflicts(active, incoming, n)[i]),
    decreases n,
{
    if n > 0 {
        lemma_job_conflicts_are_collisions(active, incoming, n - 1);
        let prev = job_conflicts(active, incoming, n - 1);
        let name = active.filesystem.filenames@[n - 1];
        if incoming_has_key(incoming, active.source.submitted_by@, scoped_path(active.source.source_dir@, name@)) {
            let k = choose|k: int| 0 <= k < incoming.filesystem.filenames@.len()
                && scoped_path(incoming.source.source_dir@, (#[trigger] incoming.filesystem.filenames@[k])@)
                    == scoped_path(active.source.source_dir@, name@);
            let e = ConflictEntry {
                filename: name,
                job_id: active.identity.job_id,
                command: active.dispatch.command,
                status: active.execution.status,
            };
            assert(active.filesystem.filenames@[n - 1] == e.filename && incoming.filesystem.filenames@[k] == incoming.filesystem.filenames@[k]);
            assert(conflict_from(active, incoming, e));
            assert forall|i: int| 0 <= i < prev.push(e).len() implies
                conflict_from(active, incoming, #[trigger] prev.push(e)[i]) by {
                if i < prev.len() {
                    assert(prev.push(e)[i] == prev[i]);
                }
            }
        }
    }
}

/// Every conflict with the first `m` jobs is a real collision with one of
/// them that is active.
proof fn lemma_conflicts_are_collisions(jobs: Seq<Job>, incoming: Job, m: int)
    requires
        m <= jobs.len(),
    ensures
        forall|i: int| 0 <= i < conflicts_spec(jobs, incoming, m).len() ==>
            exists|j: int| 0 <= j < m && (#[trigger] jobs[j]).execution.status.spec_is_active()
                && conflict_from(jobs[j], incoming, #[trigger] conflicts_spec(jobs, incoming, m)[i]),
    decreases m,
{
    if m > 0 {
        lemma_conflicts_are_collisions(jobs, incoming, m - 1);
        let prev = conflicts_spec(jobs, incoming, m - 1);
        let active = jobs[m - 1];
        if active.execution.status.spec_is_active() {
            let add = job_conflicts(active, incoming, active.filesystem.filenames@.len() as int);
            lemma_job_conflicts_are_collisions(active, incoming, active.filesystem.filenames@.len() as int);
            assert forall|i: int| 0 <= i < (prev + add).len() implies
                exists|j: int| 0 <= j < m && (#[trigger] jobs[j]).execution.status.spec_is_active()
                    && conflict_from(jobs[j], incoming, #[trigger] (prev + add)[i]) by {
                if i < prev.len() {
                    assert((prev + add)[i] == prev[i]);
                    let j = choose|j: int| 0 <= j < m - 1 && (#[trigger] jobs[j]).execution.status.spec_is_active()
                        && conflict_from(jobs[j], incoming, #[trigger] prev[i]);
                    assert(conflict_from(jobs[j], incoming, (prev + add)[i]));
                } else {
                    assert((prev + add)[i] == add[i - prev.len()]);
                    assert(conflict_from(jobs[m - 1], incoming, add[i - prev.len()]));
                }
            }
        }
    }
}

/// Conflicts are keyed on the submitter: every reported conflict comes from
/// an active job submitted by the incoming job's submitter and names one of
/// its files whose source-scoped path the incoming job submits too; so when
/// no active job shares the incoming job's submitter, there is none.
pub proof fn lemma_conflicts_need_same_submitter(jobs: Seq<Job>, incoming: Job)
    ensures
        forall|i: int| 0 <= i < conflicts_spec(jobs, incoming, jobs.len() as int).len() ==>
            exists|j: int| 0 <= j < jobs.len() && (#[trigger] jobs[j]).execution.status.spec_is_active()
                && conflict_from(jobs[j], incoming, #[trigger] conflicts_spec(jobs, incoming, jobs.len() as int)[i]),
        (forall|j: int| 0 <= j < jobs.len() && (#[trigger] jobs[j]).execution.status.spec_is_active()
            ==> jobs[j].source.submitted_by@ != incoming.source.submitted_by@)
            ==> conflicts_spec(jobs, incoming, jobs.len() as int).len() == 0,
{
    lemma_conflicts_are_collisions(jobs, incoming, jobs.len() as int);
    let c = conflicts_spec(jobs, incoming, jobs.len() as int);
    if c.len() > 0 {
        let j = choose|j: int| 0 <= j < jobs.len() && (#[trigger] jobs[j]).execution.status.spec_is_active()
            && conflict_from(jobs[j], incoming, c[0]);
        assert(jobs[j].source.submitted_by@ == incoming.source.submitted_by@);
    }
}

/// File-level collisions between `incoming` and the active jobs of `jobs`,
/// keyed on submitter and source-scoped filename: one entry per colliding
/// file of an active job, in order.
pub fn find_conflicts(jobs: &Vec<Job>, incoming: &Job) -> (r: Vec<ConflictEntry>)
    ensures
        r@ == conflicts_spec(jobs@, *incoming, jobs@.len() as int),
        forall|i: int| 0 <= i < r@.len() ==>
            exists|j: int| 0 <= j < jobs@.len() && (#[trigger] jobs@[j]).execution.status.spec_is_active()
                && conflict_from(jobs@[j], *incoming, #[trigger] r@[i]),
        (forall|j: int| 0 <= j < jobs@.len() && (#[trigger] jobs@[j]).execution.status.spec_is_active()
            ==> jobs@[j].source.submitted_by@ != incoming.source.submitted_by@) ==> r@.len() == 0,
{
    proof { lemma_conflicts_need_same_submitter(jobs@, *incoming); }
    let inc_names = &incoming.filesystem.filenames;
    let mut incoming_paths: Vec<String> = Vec::new();
    let mut i: usize = 0;
    while i < inc_names.len()
        invariant
            i <= inc_names@.len(),
            incoming_paths@.len() == i,
            forall|k: int| 0 <= k < i ==> (#[trigger] incoming_paths@[k])@ == scoped_path(incoming.source.source_dir@, inc_names@[k]@),
        decreases inc_names@.len() - i,
    {
        incoming_paths.push(scoped_path_exec(&incoming.source.source_dir, &inc_names[i]));
        i = i + 1;
    }

    let mut conflicts: Vec<ConflictEntry> = Vec::new();
    let mut j: usize = 0;
    while j < jobs.len()
        invariant
            j <= jobs@.len(),
            inc_names@ == incoming.filesystem.filenames@,
            incoming_paths@.len() == inc_names@.len(),
            forall|k: int| 0 <= k < inc_names@.len() ==> (#[trigger] incoming_paths@[k])@ == scoped_path(incoming.source.source_dir@, inc_names@[k]@),
            conflicts@ == conflicts_spec(jobs@, *incoming, j as int),
        decreases jobs@.len() - j,
    {
        let active = &jobs[j];
        if active.execution.status.is_active() {
            let same_submitter = str_equal(active.source.submitted_by.as_str(), incoming.source.submitted_by.as_str());
            let ghost before = conflicts@;
            let names = &active.filesystem.filenames;
            let mut f: usize = 0;
            while f < names.len()
                invariant
                    f <= names@.len(),
                    inc_names@ == incoming.filesystem.filenames@,
                    names@ == active.filesystem.filenames@,
                    same_submitter == (active.source.submitted_by@ == incoming.source.submitted_by@),
                    incoming_paths@.len() == inc_names@.len(),
                    forall|k: int| 0 <= k < inc_names@.len() ==> (#[trigger] incoming_paths@[k])@ == scoped_path(incoming.source.source_dir@, inc_names@[k]@),
                    conflicts@ == before + job_conflicts(*active, *incoming, f as int),
                decreases names@.len() - f,
            {
                let path = scoped_path_exec(&active.source.source_dir, &names[f]);
                let hit = same_submitter && contains_path(&incoming_paths, &path);
                proof {
                    if same_submitter {
                        if hit {
                            let k = choose|k: int| 0 <= k < incoming_paths@.len() && (#[trigger] incoming_paths@[k])@ == path@;
                            assert(scoped_path(incoming.source.source_dir@, inc_names@[k]@) == path@);
                            assert(incoming_has_key(*incoming, active.source.submitted_by@, path@));
                        } else {
                            assert forall|k: int| 0 <= k < inc_names@.len() implies
                                scoped_path(incoming.source.source_dir@, (#[trigger] inc_names@[k])@) != path@ by {
                                assert(incoming_paths@[k]@ == scoped_path(incoming.source.source_dir@, inc_names@[k]@));
                            }
                            assert(!incoming_has_key(*incoming, active.source.submitted_by@, path@));
                        }
                    }
                    assert(hit == incoming_has_key(*incoming, active.source.submitted_by@, scoped_path(active.source.source_dir@, names@[f as int]@)));
                }
                if hit {
                    conflicts.push(ConflictEntry {
                        filename: names[f].clone(),
                        job_id: active.identity.job_id.clone(),
                        command: active.dispatch.command,
                        status: active.execution.status,
                    });
                }
                f = f + 1;
                assert(conflicts@ =~= before + job_conflicts(*active, *incoming, f as int));
            }
        }
        j = j + 1;
    }
    conflicts
}


// ---------------------------------------------------------------------------
// Laws
// ---------------------------------------------------------------------------

/// A job whose runner is active is never ready for another local claim, so
/// two dispatchers cannot both claim it.
pub proof fn lemma_claimed_job_is_not_ready(job: Job, now: UnixTimestamp)
    requires
        job.runtime.runner_active,
    ensures
        !job.spec_ready_for_local_dispatch(now),
{
}

/// Claiming a ready job and then releasing the claim, with nothing in
/// between, leaves it ready for local dispatch again at the same time: no
/// runner, no lease, and its status, file statuses and files as before.
pub proof fn lemma_claim_then_release(before: Job, claimed: Job, released: Job, node: Seq<char>, now: UnixTimestamp, ttl: i64)
    requires
        before.spec_ready_for_local_dispatch(now),
        claimed_for(before, claimed, node, now, ttl),
        claim_released(claimed, released),
    ensures
        released.spec_ready_for_local_dispatch(now),
        !released.runtime.runner_active,
        released.schedule.lease.leased_by_node is None,
        released.schedule.lease.heartbeat_at is None,
        released.schedule.lease.expires_at is None,
        released.execution == before.execution,
        released.filesystem == before.filesystem,
        released.identity == before.identity,
        released.schedule.next_eligible_at == before.schedule.next_eligible_at,
{
}

/// Consecutive states of one job keep its files.
pub open spec fn files_kept_at(trace: Seq<Job>, i: int) -> bool {
    trace[i + 1].filesystem == trace[i].filesystem
}

/// The job's file count never changes: along any sequence of states in
/// which each step keeps the job's files, `total_files` (and so the
/// `total_files` of `to_info`) stays that of the first state. Every file
/// transition (`mark_file_processing`, `mark_file_done`, `mark_file_error`,
/// `start_file_attempt`, `mark_file_retry_pending`, `clear_file_retry_state`,
/// `set_file_progress`), every lease and status transition, `finalize`,
/// `prepare_for_restart` and `reconcile_recovered_runtime_state` is such a
/// step by its contract.
pub proof fn lemma_total_files_is_kept(trace: Seq<Job>)
    requires
        trace.len() > 0,
        forall|i: int| 0 <= i < trace.len() - 1 ==> #[trigger] files_kept_at(trace, i),
    ensures
        forall|i: int| 0 <= i < trace.len() ==>
            (#[trigger] trace[i]).filesystem.filenames@.len() == trace[0].filesystem.filenames@.len(),
    decreases trace.len(),
{
    if trace.len() > 1 {
        let prefix = trace.drop_last();
        assert forall|i: int| 0 <= i < prefix.len() - 1 implies #[trigger] files_kept_at(prefix, i) by {
            assert(files_kept_at(trace, i));
        }
        lemma_total_files_is_kept(prefix);
        assert(files_kept_at(trace, trace.len() - 2));
        assert forall|i: int| 0 <= i < trace.len() implies
            (#[trigger] trace[i]).filesystem.filenames@.len() == trace[0].filesystem.filenames@.len() by {
            if i < trace.len() - 1 {
                assert(trace[i] == prefix[i]);
            } else {
                assert(prefix[i - 1] == trace[i - 1]);
            }
        }
    }
}

/// Right after a successful claim by `node`, that node may renew the lease.
pub proof fn lemma_claim_enables_renewal(before: Job, after: Job, node: Seq<char>, now: UnixTimestamp)
    requires
        before.spec_ready_for_local_dispatch(now),
        after.runtime.runner_active,
        after.schedule.lease.leased_by_node matches Some(n) && n@ == node,
        after.execution == before.execution,
    ensures
        after.spec_may_renew(node),
{
}

/// A queued job that is not ready only because of a live lease or a
/// deferral always has a future wake-up time, so the dispatcher never
/// sleeps past the moment it becomes claimable.
pub proof fn lemma_blocked_queued_job_has_future_wake(job: Job, now: UnixTimestamp)
    requires
        job.execution.status == JobStatus::Queued,
        !job.runtime.runner_active,
        !job.spec_ready_for_local_dispatch(now),
    ensures
        job.spec_next_local_dispatch_wake_at(now) matches Some(t) && t.0 > now.0,
{
}

/// The wake-up time is never later than a deferral that is still ahead, nor
/// than the expiry of a blocking lease.
pub proof fn lemma_wake_is_earliest(job: Job, now: UnixTimestamp)
    requires
        job.spec_next_local_dispatch_wake_at(now) is Some,
    ensures
        job.schedule.next_eligible_at is Some && job.schedule.next_eligible_at.unwrap().0 > now.0
            ==> job.spec_next_local_dispatch_wake_at(now).unwrap().0 <= job.schedule.next_eligible_at.unwrap().0,
        job.spec_lease_blocks_local_dispatch(now)
            ==> job.spec_next_local_dispatch_wake_at(now).unwrap().0 <= job.schedule.lease.expires_at.unwrap().0,
{
}

/// Restart leaves every file either done (exactly the files that were done,
/// untouched) or freshly queued with no error or attempt metadata.
pub proof fn lemma_restart_keeps_done_and_requeues_rest(f: FileStatus)
    ensures
        f.status == FileStatusKind::Done ==> restart_status(f) == f,
        f.status != FileStatusKind::Done ==> restart_status(f) == (FileStatus { filename: f.filename, ..queued_status(f.filename) }),
        restart_status(f).filename == f.filename,
{
}

/// Restarting twice is the same as restarting once.
pub proof fn lemma_restart_idempotent(f: FileStatus, results: Seq<FileResultEntry>)
    ensures
        restart_status(restart_status(f)) == restart_status(f),
        successful_results(successful_results(results)) == successful_results(results),
    decreases results.len(),
{
    if results.len() > 0 {
        lemma_restart_idempotent(f, results.drop_last());
        let prev = successful_results(results.drop_last());
        if results.last().error is None {
            assert(successful_results(results) == prev.push(results.last()));
            assert(successful_results(results).drop_last() =~= prev);
        }
    }
}

/// Every result kept by a restart carries no error.
pub proof fn lemma_successful_results_have_no_error(results: Seq<FileResultEntry>)
    ensures
        forall|i: int| 0 <= i < successful_results(results).len() ==> (#[trigger] successful_results(results)[i]).error is None,
    decreases results.len(),
{
    if results.len() > 0 {
        lemma_successful_results_have_no_error(results.drop_last());
    }
}

/// Startup recovery leaves no file half-run: every file ends queued or
/// terminal.
pub proof fn lemma_recovery_leaves_queued_or_terminal(f: FileStatus)
    ensures
        recovered_status(f).status == FileStatusKind::Queued || recovered_status(f).status.spec_is_terminal(),
        recovered_status(f).filename == f.filename,
        recovered_status(f).error == f.error,
{
}

/// A retry marker followed by clearing the retry state leaves the file
/// processing with no error, no retry time and no stage, as a fresh attempt
/// presents.
pub proof fn lemma_clear_after_retry_presents_running(f: FileStatus, retry: FileRetryRecord)
    ensures
        retry_cleared_status(retry_pending_status(f, retry)).status == FileStatusKind::Processing,
        retry_cleared_status(retry_pending_status(f, retry)).error is None,
        retry_cleared_status(retry_pending_status(f, retry)).error_category is None,
        retry_cleared_status(retry_pending_status(f, retry)).next_eligible_at is None,
        retry_cleared_status(retry_pending_status(f, retry)).finished_at is None,
        retry_cleared_status(retry_pending_status(f, retry)).progress_stage is None,
{
}

/// Completion and failure are terminal; processing and retry marking are not.
pub proof fn lemma_file_transitions_terminality(f: FileStatus, t: UnixTimestamp, failure: FileFailureRecord, retry: FileRetryRecord)
    ensures
        done_status(f, t).status.spec_is_terminal(),
        error_status(f, failure).status.spec_is_terminal(),
        !processing_status(f, t).status.spec_is_terminal(),
        !retry_pending_status(f, retry).status.spec_is_terminal(),
{
}

/// Every pending file is a non-terminal file of the job, at its position.
pub proof fn lemma_pending_files_are_unfinished(names: Seq<String>, has_chat: Seq<bool>, s: Seq<FileStatus>, n: int)
    requires
        0 <= n <= names.len(),
        n <= has_chat.len(),
        n <= usize::MAX,
    ensures
        forall|k: int| 0 <= k < pending_spec(names, has_chat, s, n).len() ==> {
            let p = #[trigger] pending_spec(names, has_chat, s, n)[k];
            &&& 0 <= p.file_index < n
            &&& p.filename == names[p.file_index as int]
            &&& p.has_chat == has_chat[p.file_index as int]
            &&& !file_is_terminal(s, p.filename@)
        },
    decreases n,
{
    if n > 0 {
        lemma_pending_files_are_unfinished(names, has_chat, s, n - 1);
        let prev = pending_spec(names, has_chat, s, n - 1);
        let cur = pending_spec(names, has_chat, s, n);
        assert forall|k: int| 0 <= k < cur.len() implies {
            let p = #[trigger] cur[k];
            &&& 0 <= p.file_index < n
            &&& p.filename == names[p.file_index as int]
            &&& p.has_chat == has_chat[p.file_index as int]
            &&& !file_is_terminal(s, p.filename@)
        } by {
            if k < prev.len() {
                assert(cur[k] == prev[k]);
            } else {
                assert(cur[k] == PendingJobFile { file_index: (n - 1) as usize, filename: names[n - 1], has_chat: has_chat[n - 1] });
            }
        }
    }
}

/// Cancellation is final: a request leaves the job in a terminal status,
/// where a further request can no longer cancel it, so it returns `None`
/// and changes neither status nor completion time.
pub proof fn lemma_cancellation_is_final(after_first_request: JobStatus)
    requires
        after_first_request.spec_is_terminal(),
    ensures
        !after_first_request.spec_can_cancel(),
{
}

} // verus!
