//! Job submission: the checks on a submitted job, the layout of its inputs
//! (display names, which inputs are CHAT, where content is staged), the new
//! job's initial state, and the answers to cancel and delete requests.

use vstd::prelude::*;
use vstd::string::*;
use crate::capabilities::{command_supported, supported_command_list};
use crate::commands::{ReleasedCommand, command_name};
use crate::error::ServerError;
use crate::host_memory::{debug_format_list, debug_list_text, new_lease_id};
use crate::job::{
    FileStatus, Job, JobDispatchConfig, JobExecutionState, JobFilesystemConfig, JobIdentity, JobLeaseState,
    JobRuntimeControl, JobScheduleState, JobSourceContext, JobStatus, UnixTimestamp, has_file, queued_status,
    unique_filenames,
};
use crate::ordered::strictly_sorted;
use crate::paths::{ends_with, no_filename_message, path_file_name, path_mode_filename_from_source, str_ends_with};
use crate::text::str_equal;

verus! {

/// One CHAT file sent inline with a submission.
#[derive(Clone, Debug, PartialEq, Eq)]
pub struct FilePayload {
    pub filename: String,
    pub content: String,
}

/// A job as submitted by a client.
#[derive(Clone, Debug, PartialEq, Eq)]
pub struct JobSubmission {
    pub command: ReleasedCommand,
    pub lang: String,
    pub num_speakers: u32,
    /// Command options in their serialized form.
    pub options: String,
    /// Inline CHAT files (content mode).
    pub files: Vec<FilePayload>,
    /// Media files to process (content mode).
    pub media_files: Vec<String>,
    /// Whether the server reads and writes the client's paths directly.
    pub paths_mode: bool,
    pub source_paths: Vec<String>,
    pub output_paths: Vec<String>,
    /// Display names for the sources (paths mode); derived from the paths
    /// when empty.
    pub display_names: Vec<String>,
    pub before_paths: Vec<String>,
    pub source_dir: String,
    pub media_mapping: String,
    pub media_subdir: String,
    pub debug_traces: bool,
}

/// Content to write under the staging directory.
#[derive(Clone, Debug, PartialEq, Eq)]
pub struct StagedFile {
    pub dest: String,
    pub content: String,
}

/// Where a submitted job's inputs come from and where they are staged.
#[derive(Clone, Debug, PartialEq, Eq)]
pub struct SubmissionLayout {
    pub filenames: Vec<String>,
    pub has_chat: Vec<bool>,
    pub staging_dir: String,
    pub paths_mode: bool,
    pub source_paths: Vec<String>,
    pub output_paths: Vec<String>,
    pub before_paths: Vec<String>,
    /// Directories to create before the job is queued, in order.
    pub dirs_to_create: Vec<String>,
    /// Inline files to write into the staging input directory.
    pub staged_files: Vec<StagedFile>,
}

/// `s.to_lowercase()`, as text.
pub uninterp spec fn lowercase(s: Seq<char>) -> Seq<char>;

/// `str::to_lowercase`: the lowercase form of the string under Unicode's
/// case mapping. Only its name is stated.
#[verifier::external_body]
fn std_to_lowercase(s: &str) -> (r: String)
    ensures
        r@ == lowercase(s@),
{
    s.to_lowercase()
}

/// A source path is a CHAT file when it ends in `.cha`, ignoring case.
pub open spec fn is_chat_path(p: Seq<char>) -> bool {
    ends_with(lowercase(p), ".cha"@)
}

/// Whether a source path names a CHAT file, ignoring case.
pub fn source_is_chat(path: &str) -> (r: bool)
    ensures
        r == is_chat_path(path@),
{
    let lower = std_to_lowercase(path);
    str_ends_with(lower.as_str(), ".cha")
}

/// The message for a command this server does not offer, given the sorted
/// list of the commands it does offer.
pub open spec fn unknown_command_message(command: ReleasedCommand, supported: Seq<Seq<char>>) -> Seq<char> {
    "Unknown command: "@ + command_name(command) + ". Valid commands: "@ + debug_list_text(supported)
}

/// The offered commands: the advertised names but the test-echo pseudo
/// command, sorted.
pub open spec fn offered_list(l: Seq<Seq<char>>, capabilities: Seq<String>) -> bool {
    &&& strictly_sorted(l)
    &&& l.to_set() == capabilities.map_values(|x: String| x@).to_set().remove("test-echo"@)
}

pub open spec fn advertised(command: ReleasedCommand, capabilities: Seq<String>) -> bool {
    exists|k: int| 0 <= k < capabilities.len() && (#[trigger] capabilities[k])@ == command_name(command)
}

/// A source path has a non-empty file name.
pub open spec fn has_display_name(p: Seq<char>) -> bool {
    path_file_name(p) matches Some(n) && n.len() > 0
}

pub open spec fn no_input_message() -> Seq<char> {
    "Must provide at least one file or media_file."@
}

/// `staging_dir/input/filename`.
pub open spec fn staged_dest(staging_dir: Seq<char>, filename: Seq<char>) -> Seq<char> {
    staging_dir + "/input"@ + "/"@ + filename
}

/// What a valid paths-mode submission lays out.
pub open spec fn paths_layout_ok(s: JobSubmission, staging_dir: Seq<char>, l: SubmissionLayout) -> bool {
    &&& l.paths_mode
    &&& l.staging_dir@ == staging_dir
    &&& l.source_paths@ == s.source_paths@
    &&& l.output_paths@ == s.output_paths@
    &&& l.before_paths@ == s.before_paths@
    &&& l.has_chat@.len() == s.source_paths@.len()
    &&& forall|i: int| 0 <= i < s.source_paths@.len() ==> l.has_chat@[i] == is_chat_path((#[trigger] s.source_paths@[i])@)
    &&& if s.display_names@.len() > 0 {
        l.filenames@ == s.display_names@
    } else {
        &&& l.filenames@.len() == s.source_paths@.len()
        &&& forall|i: int| 0 <= i < s.source_paths@.len()
            ==> path_file_name((#[trigger] s.source_paths@[i])@) == Some(l.filenames@[i]@)
    }
    &&& l.dirs_to_create@.len() == 1 && l.dirs_to_create@[0]@ == staging_dir
    &&& l.staged_files@.len() == 0
}

/// What a valid content-mode submission lays out: the inline files first,
/// then the media files; inline files are CHAT and staged under `input`.
pub open spec fn content_layout_ok(s: JobSubmission, staging_dir: Seq<char>, l: SubmissionLayout) -> bool {
    let nf = s.files@.len();
    let nm = s.media_files@.len();
    &&& !l.paths_mode
    &&& l.staging_dir@ == staging_dir
    &&& l.source_paths@.len() == 0 && l.output_paths@.len() == 0 && l.before_paths@.len() == 0
    &&& l.filenames@.len() == nf + nm
    &&& l.has_chat@.len() == nf + nm
    &&& forall|i: int| 0 <= i < nf ==> (#[trigger] l.filenames@[i]) == s.files@[i].filename && l.has_chat@[i]
    &&& forall|i: int| 0 <= i < nm ==> (#[trigger] l.filenames@[nf + i]) == s.media_files@[i] && !l.has_chat@[nf + i]
    &&& l.staged_files@.len() == nf
    &&& forall|i: int| 0 <= i < nf ==> (#[trigger] l.staged_files@[i]).dest@ == staged_dest(staging_dir, s.files@[i].filename@)
        && l.staged_files@[i].content == s.files@[i].content
    &&& l.dirs_to_create@.len() == 2
    &&& l.dirs_to_create@[0]@ == staging_dir + "/input"@
    &&& l.dirs_to_create@[1]@ == staging_dir + "/output"@
}

fn append_all(dst: &mut Vec<String>, src: &Vec<String>)
    ensures
        final(dst)@ == old(dst)@ + src@,
{
    let mut i: usize = 0;
    let ghost start = dst@;
    while i < src.len()
        invariant
            i <= src@.len(),
            dst@ == start + src@.take(i as int),
        decreases src@.len() - i,
    {
        dst.push(src[i].clone());
        i = i + 1;
        assert(dst@ =~= start + src@.take(i as int));
    }
    assert(src@.take(src@.len() as int) =~= src@);
}

fn copy_strings(src: &Vec<String>) -> (r: Vec<String>)
    ensures
        r@ == src@,
{
    let mut r: Vec<String> = Vec::new();
    append_all(&mut r, src);
    assert(r@ =~= src@);
    r
}

/// Checks a submission against the advertised commands and lays out its
/// inputs under `jobs_dir/job_id`. A command that is not advertised is
/// refused first, naming the offered commands; in paths mode each source
/// needs a file name unless display names are given; in content mode at
/// least one inline or media file is required.
pub fn plan_submission(submission: &JobSubmission, capabilities: &[String], jobs_dir: &str, job_id: &str) -> (r: Result<SubmissionLayout, ServerError>)
    ensures
        !advertised(submission.command, capabilities@) ==> (r matches Err(ServerError::UnknownCommand(m))
            && exists|l: Seq<Seq<char>>| offered_list(l, capabilities@) && m@ == unknown_command_message(submission.command, l)),
        advertised(submission.command, capabilities@) && submission.paths_mode && submission.display_names@.len() == 0
            ==> match r {
                Ok(l) => (forall|i: int| 0 <= i < submission.source_paths@.len() ==> has_display_name((#[trigger] submission.source_paths@[i])@))
                    && paths_layout_ok(*submission, jobs_dir@ + "/"@ + job_id@, l),
                Err(e) => exists|i: int| 0 <= i < submission.source_paths@.len()
                    && !has_display_name((#[trigger] submission.source_paths@[i])@)
                    && (forall|j: int| 0 <= j < i ==> has_display_name(submission.source_paths@[j]@))
                    && (e matches ServerError::Validation(m) && m@ == no_filename_message(submission.source_paths@[i]@)),
            },
        advertised(submission.command, capabilities@) && submission.paths_mode && submission.display_names@.len() > 0
            ==> (r matches Ok(l) && paths_layout_ok(*submission, jobs_dir@ + "/"@ + job_id@, l)),
        advertised(submission.command, capabilities@) && !submission.paths_mode
            && submission.files@.len() == 0 && submission.media_files@.len() == 0
            ==> (r matches Err(ServerError::Validation(m)) && m@ == no_input_message()),
        advertised(submission.command, capabilities@) && !submission.paths_mode
            && !(submission.files@.len() == 0 && submission.media_files@.len() == 0)
            ==> (r matches Ok(l) && content_layout_ok(*submission, jobs_dir@ + "/"@ + job_id@, l)),
{
    if !command_supported(submission.command, capabilities) {
        let supported = supported_command_list(capabilities);
        let mut m = String::from_str("Unknown command: ");
        m.append(submission.command.as_str());
        m.append(". Valid commands: ");
        let listed = debug_format_list(&supported);
        m.append(listed.as_str());
        assert(m@ =~= unknown_command_message(submission.command, supported@.map_values(|x: String| x@)));
        return Err(ServerError::UnknownCommand(m));
    }
    let mut staging_dir = String::from_str(jobs_dir);
    staging_dir.append("/");
    staging_dir.append(job_id);
    if submission.paths_mode {
        let n = submission.source_paths.len();
        let mut filenames: Vec<String> = Vec::new();
        if submission.display_names.len() > 0 {
            filenames = copy_strings(&submission.display_names);
        } else {
            let mut i: usize = 0;
            while i < n
                invariant
                    advertised(submission.command, capabilities@),
                    submission.paths_mode,
                    submission.display_names@.len() == 0,
                    n == submission.source_paths@.len(),
                    i <= n,
                    filenames@.len() == i,
                    forall|k: int| 0 <= k < i ==> has_display_name((#[trigger] submission.source_paths@[k])@)
                        && path_file_name(submission.source_paths@[k]@) == Some(filenames@[k]@),
                decreases n - i,
            {
                match path_mode_filename_from_source(submission.source_paths[i].as_str()) {
                    Ok(f) => {
                        filenames.push(f);
                    },
                    Err(e) => {
                        assert(!has_display_name(submission.source_paths@[i as int]@));
                        return Err(e);
                    },
                }
                i = i + 1;
            }
        }
        let mut has_chat: Vec<bool> = Vec::new();
        let mut i: usize = 0;
        while i < n
            invariant
                n == submission.source_paths@.len(),
                i <= n,
                has_chat@.len() == i,
                forall|k: int| 0 <= k < i ==> has_chat@[k] == is_chat_path((#[trigger] submission.source_paths@[k])@),
            decreases n - i,
        {
            has_chat.push(source_is_chat(submission.source_paths[i].as_str()));
            i = i + 1;
        }
        let mut dirs: Vec<String> = Vec::new();
        dirs.push(staging_dir.clone());
        let layout = SubmissionLayout {
            filenames,
            has_chat,
            staging_dir,
            paths_mode: true,
            source_paths: copy_strings(&submission.source_paths),
            output_paths: copy_strings(&submission.output_paths),
            before_paths: copy_strings(&submission.before_paths),
            dirs_to_create: dirs,
            staged_files: Vec::new(),
        };
        return Ok(layout);
    }
    if submission.files.len() == 0 && submission.media_files.len() == 0 {
        return Err(ServerError::Validation(String::from_str("Must provide at least one file or media_file.")));
    }
    let mut input_dir = staging_dir.clone();
    input_dir.append("/input");
    let mut output_dir = staging_dir.clone();
    output_dir.append("/output");
    let nf = submission.files.len();
    let nm = submission.media_files.len();
    let mut filenames: Vec<String> = Vec::new();
    let mut has_chat: Vec<bool> = Vec::new();
    let mut staged: Vec<StagedFile> = Vec::new();
    let mut i: usize = 0;
    while i < nf
        invariant
            nf == submission.files@.len(),
            i <= nf,
            input_dir@ == staging_dir@ + "/input"@,
            filenames@.len() == i,
            has_chat@.len() == i,
            staged@.len() == i,
            forall|k: int| 0 <= k < i ==> (#[trigger] filenames@[k]) == submission.files@[k].filename && has_chat@[k],
            forall|k: int| 0 <= k < i ==> (#[trigger] staged@[k]).dest@ == staged_dest(staging_dir@, submission.files@[k].filename@)
                && staged@[k].content == submission.files@[k].content,
        decreases nf - i,
    {
        let fp = &submission.files[i];
        filenames.push(fp.filename.clone());
        has_chat.push(true);
        let mut dest = input_dir.clone();
        dest.append("/");
        dest.append(fp.filename.as_str());
        assert(dest@ =~= staged_dest(staging_dir@, fp.filename@));
        staged.push(StagedFile { dest, content: fp.content.clone() });
        i = i + 1;
    }
    let mut j: usize = 0;
    while j < nm
        invariant
            nf == submission.files@.len(),
            nm == submission.media_files@.len(),
            j <= nm,
            filenames@.len() == nf + j,
            has_chat@.len() == nf + j,
            forall|k: int| 0 <= k < nf ==> (#[trigger] filenames@[k]) == submission.files@[k].filename && has_chat@[k],
            forall|k: int| 0 <= k < j ==> (#[trigger] filenames@[nf + k]) == submission.media_files@[k] && !has_chat@[nf + k],
        decreases nm - j,
    {
        let ghost f0 = filenames@;
        let ghost h0 = has_chat@;
        filenames.push(submission.media_files[j].clone());
        has_chat.push(false);
        assert forall|k: int| 0 <= k < j + 1 implies (#[trigger] filenames@[nf + k]) == submission.media_files@[k] && !has_chat@[nf + k] by {
            if k < j {
                assert(filenames@[nf + k] == f0[nf + k]);
                assert(has_chat@[nf + k] == h0[nf + k]);
            }
        }
        assert forall|k: int| 0 <= k < nf implies (#[trigger] filenames@[k]) == submission.files@[k].filename && has_chat@[k] by {
            assert(filenames@[k] == f0[k]);
            assert(has_chat@[k] == h0[k]);
        }
        j = j + 1;
    }
    let mut dirs: Vec<String> = Vec::new();
    dirs.push(input_dir);
    dirs.push(output_dir);
    Ok(SubmissionLayout {
        filenames,
        has_chat,
        staging_dir,
        paths_mode: false,
        source_paths: Vec::new(),
        output_paths: Vec::new(),
        before_paths: Vec::new(),
        dirs_to_create: dirs,
        staged_files: staged,
    })
}

/// A fresh job id: the first 12 characters of a random UUID.
pub fn new_job_id() -> (r: String)
    ensures
        r@.len() == 12,
{
    let full = new_lease_id();
    String::from_str(full.as_str().substring_char(0, 12))
}

/// One queued status per distinct filename.
pub open spec fn statuses_cover(s: Seq<FileStatus>, names: Seq<String>) -> bool {
    &&& unique_filenames(s)
    &&& forall|i: int| 0 <= i < s.len() ==> (#[trigger] s[i]) == queued_status(s[i].filename)
    &&& forall|name: Seq<char>| has_file(s, name) <==> exists|k: int| 0 <= k < names.len() && (#[trigger] names[k])@ == name
}

fn initial_statuses(names: &Vec<String>) -> (r: Vec<FileStatus>)
    ensures
        statuses_cover(r@, names@),
{
    let mut out: Vec<FileStatus> = Vec::new();
    let mut i: usize = 0;
    while i < names.len()
        invariant
            i <= names@.len(),
            statuses_cover(out@, names@.take(i as int)),
        decreases names@.len() - i,
    {
        let name = &names[i];
        let mut present = false;
        let mut k: usize = 0;
        while k < out.len()
            invariant
                k <= out@.len(),
                present == exists|j: int| 0 <= j < k && out@[j].filename@ == name@,
            decreases out@.len() - k,
        {
            if str_equal(out[k].filename.as_str(), name.as_str()) {
                present = true;
            }
            k = k + 1;
        }
        let ghost before = out@;
        if !present {
            out.push(FileStatus::new(name.clone()));
        }
        proof {
            let prev = names@.take(i as int);
            let next = names@.take(i + 1);
            assert(next =~= prev.push(names@[i as int]));
            assert forall|a: int, b: int| 0 <= a < out@.len() && 0 <= b < out@.len() && a != b
                implies out@[a].filename@ != out@[b].filename@ by {
                if a < before.len() && b < before.len() {
                } else if a == before.len() {
                    assert(out@[a].filename@ == name@);
                    assert(before[b] == out@[b]);
                } else {
                    assert(out@[b].filename@ == name@);
                    assert(before[a] == out@[a]);
                }
            }
            assert forall|nm: Seq<char>| has_file(out@, nm) <==> exists|q: int| 0 <= q < next.len() && (#[trigger] next[q])@ == nm by {
                if has_file(out@, nm) {
                    let j = choose|j: int| 0 <= j < out@.len() && out@[j].filename@ == nm;
                    if j < before.len() {
                        assert(before[j] == out@[j]);
                        assert(has_file(before, nm));
                        let q = choose|q: int| 0 <= q < prev.len() && (#[trigger] prev[q])@ == nm;
                        assert(next[q] == prev[q]);
                    } else {
                        assert(next[i as int]@ == nm);
                    }
                }
                if exists|q: int| 0 <= q < next.len() && (#[trigger] next[q])@ == nm {
                    let q = choose|q: int| 0 <= q < next.len() && (#[trigger] next[q])@ == nm;
                    if q < i {
                        assert(prev[q] == next[q]);
                        assert(has_file(before, nm));
                        let j = choose|j: int| 0 <= j < before.len() && before[j].filename@ == nm;
                        assert(out@[j] == before[j]);
                    } else if present {
                        let j = choose|j: int| 0 <= j < k && before[j].filename@ == name@;
                        assert(out@[j] == before[j]);
                    } else {
                        assert(out@[before.len() as int].filename@ == nm);
                    }
                }
            }
        }
        i = i + 1;
    }
    assert(names@.take(names@.len() as int) =~= names@);
    out
}

/// Who submitted a job.
#[derive(Clone, Debug, PartialEq, Eq)]
pub struct Submitter {
    /// The client's address.
    pub address: String,
    /// The client's host name.
    pub name: String,
}

impl Job {
    /// The new queued job for an accepted submission: one queued status per
    /// distinct filename, no results, no lease, nothing scheduled.
    pub fn from_submission(
        job_id: String,
        correlation_id: String,
        submission: &JobSubmission,
        layout: SubmissionLayout,
        submitter: Submitter,
        submitted_at: UnixTimestamp,
    ) -> (r: Job)
        ensures
            r.wf(),
            r.identity.job_id == job_id,
            r.identity.correlation_id == correlation_id,
            r.dispatch.command == submission.command,
            r.dispatch.lang@ == submission.lang@,
            r.dispatch.num_speakers == submission.num_speakers,
            r.dispatch.options@ == submission.options@,
            r.dispatch.runtime_state@.len() == 0,
            r.dispatch.debug_traces == submission.debug_traces,
            r.source.submitted_by == submitter.address,
            r.source.submitted_by_name == submitter.name,
            r.source.source_dir@ == submission.source_dir@,
            r.filesystem.filenames == layout.filenames,
            r.filesystem.has_chat == layout.has_chat,
            r.filesystem.staging_dir == layout.staging_dir,
            r.filesystem.paths_mode == layout.paths_mode,
            r.filesystem.source_paths == layout.source_paths,
            r.filesystem.output_paths == layout.output_paths,
            r.filesystem.before_paths == layout.before_paths,
            r.filesystem.media_mapping@ == submission.media_mapping@,
            r.filesystem.media_subdir@ == submission.media_subdir@,
            r.execution.status == JobStatus::Queued,
            statuses_cover(r.execution.file_statuses@, layout.filenames@),
            r.execution.results@.len() == 0,
            r.execution.error is None,
            r.execution.completed_files == 0,
            r.schedule.submitted_at == submitted_at,
            r.schedule.completed_at is None,
            r.schedule.next_eligible_at is None,
            r.schedule.num_workers is None,
            r.schedule.lease.leased_by_node is None,
            r.schedule.lease.expires_at is None,
            r.schedule.lease.heartbeat_at is None,
            !r.runtime.cancel_requested,
            !r.runtime.runner_active,
            forall|now: UnixTimestamp| r.spec_ready_for_local_dispatch(now),
    {
        let statuses = initial_statuses(&layout.filenames);
        Job {
            identity: JobIdentity { job_id, correlation_id },
            dispatch: JobDispatchConfig {
                command: submission.command,
                lang: submission.lang.clone(),
                num_speakers: submission.num_speakers,
                options: submission.options.clone(),
                runtime_state: Vec::new(),
                debug_traces: submission.debug_traces,
            },
            source: JobSourceContext {
                submitted_by: submitter.address,
                submitted_by_name: submitter.name,
                source_dir: submission.source_dir.clone(),
            },
            filesystem: JobFilesystemConfig {
                filenames: layout.filenames,
                has_chat: layout.has_chat,
                staging_dir: layout.staging_dir,
                paths_mode: layout.paths_mode,
                source_paths: layout.source_paths,
                output_paths: layout.output_paths,
                before_paths: layout.before_paths,
                media_mapping: submission.media_mapping.clone(),
                media_subdir: submission.media_subdir.clone(),
            },
            execution: JobExecutionState {
                status: JobStatus::Queued,
                file_statuses: statuses,
                results: Vec::new(),
                error: None,
                completed_files: 0,
            },
            schedule: JobScheduleState {
                submitted_at,
                completed_at: None,
                next_eligible_at: None,
                num_workers: None,
                lease: JobLeaseState { leased_by_node: None, expires_at: None, heartbeat_at: None },
            },
            runtime: JobRuntimeControl { cancel_requested: false, runner_active: false },
        }
    }
}

/// The answer to a cancel request.
#[derive(Clone, Debug, PartialEq, Eq)]
pub enum CancelDecision {
    /// The job had already finished; it is left as it is.
    AlreadyFinished { status: JobStatus },
    /// The job is cancelled.
    Cancel,
}

/// A finished job (completed, failed or cancelled) is left alone; any other
/// job, an interrupted one included, is cancelled. An unknown id is an error.
pub fn cancel_decision(job_id: &str, status: Option<JobStatus>) -> (r: Result<CancelDecision, ServerError>)
    ensures
        status is None ==> (r matches Err(ServerError::JobNotFound(id)) && id@ == job_id@),
        status matches Some(s) ==> r == Ok::<CancelDecision, ServerError>(
            if s == JobStatus::Completed || s == JobStatus::Failed || s == JobStatus::Cancelled {
                CancelDecision::AlreadyFinished { status: s }
            } else {
                CancelDecision::Cancel
            }),
{
    match status {
        None => Err(ServerError::JobNotFound(String::from_str(job_id))),
        Some(s) => match s {
            JobStatus::Completed | JobStatus::Failed | JobStatus::Cancelled => Ok(CancelDecision::AlreadyFinished { status: s }),
            _ => Ok(CancelDecision::Cancel),
        },
    }
}

pub open spec fn running_conflict_message(job_id: Seq<char>) -> Seq<char> {
    "Job "@ + job_id + " is running — cancel it first."@
}

/// A running job cannot be deleted; an unknown id is an error.
pub fn delete_decision(job_id: &str, is_running: Option<bool>) -> (r: Result<(), ServerError>)
    ensures
        is_running is None ==> (r matches Err(ServerError::JobNotFound(id)) && id@ == job_id@),
        is_running == Some(true) ==> (r matches Err(ServerError::JobConflict { message, conflicts })
            && message@ == running_conflict_message(job_id@) && conflicts@.len() == 0),
        is_running == Some(false) ==> r is Ok,
{
    match is_running {
        None => Err(ServerError::JobNotFound(String::from_str(job_id))),
        Some(true) => {
            let mut m = String::from_str("Job ");
            m.append(job_id);
            m.append(" is running — cancel it first.");
            Err(ServerError::JobConflict { message: m, conflicts: Vec::new() })
        },
        Some(false) => Ok(()),
    }
}

/// The reply to a cancel request: the status shown and its message.
pub fn cancel_reply(job_id: &str, decision: &CancelDecision) -> (r: (JobStatus, String))
    ensures
        match *decision {
            CancelDecision::AlreadyFinished { status } => r.0 == status && r.1@ == "Job already finished."@,
            CancelDecision::Cancel => r.0 == JobStatus::Cancelled && r.1@ == "Job "@ + job_id@ + " cancelled."@,
        },
{
    match decision {
        CancelDecision::AlreadyFinished { status } => (*status, String::from_str("Job already finished.")),
        CancelDecision::Cancel => {
            let mut m = String::from_str("Job ");
            m.append(job_id);
            m.append(" cancelled.");
            (JobStatus::Cancelled, m)
        },
    }
}

/// The message of a successful delete.
pub fn deleted_message(job_id: &str) -> (r: String)
    ensures
        r@ == "Job "@ + job_id@ + " deleted."@,
{
    let mut m = String::from_str("Job ");
    m.append(job_id);
    m.append(" deleted.");
    m
}

} // verus!
