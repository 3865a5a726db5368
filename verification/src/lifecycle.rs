//! One file's lifecycle inside a running job: the first attempt, setup
//! failures, retries and restarts, stage labels, and the two ways a file
//! finishes. Each step is a fixed sequence of the job's per-file
//! transitions, so a dispatcher never hand-sequences raw status changes.

use vstd::prelude::*;
use crate::job::{
    Job, FileStatus, FileStatusKind, FailureCategory, ContentType, UnixTimestamp,
    FileFailureRecord, FileRetryRecord, FileProgressRecord, CompletedFileOutput,
    FileResultEntry, file_updated, has_file, is_first_file_index, processing_status,
    retry_cleared_status, attempt_started_status, progress_status, error_status,
    retry_pending_status, done_status,
};
use crate::progress::{FileStage, FileProgressStage, spec_api_stage};

verus! {

/// A file whose first attempt has begun: processing, started now, no stale
/// error or retry deadline, showing `stage`.
pub open spec fn begun_status(f: FileStatus, started_at: UnixTimestamp, stage: FileStage) -> FileStatus {
    FileStatus {
        status: FileStatusKind::Processing,
        error: None,
        error_category: None,
        started_at: Some(started_at),
        finished_at: None,
        next_eligible_at: None,
        progress_current: None,
        progress_total: None,
        progress_stage: Some(spec_api_stage(stage)),
        ..f
    }
}

/// A file whose next attempt has begun: the retry error and deadline are
/// gone, the attempt started now and shows `stage`; its status is kept.
pub open spec fn restarted_status(f: FileStatus, started_at: UnixTimestamp, stage: FileStage) -> FileStatus {
    FileStatus {
        error: None,
        error_category: None,
        started_at: Some(started_at),
        finished_at: None,
        next_eligible_at: None,
        progress_current: None,
        progress_total: None,
        progress_stage: Some(spec_api_stage(stage)),
        ..f
    }
}

/// A file that failed before it entered processing: its setup attempt
/// started at `started_at` and failed with `failure`.
pub open spec fn setup_failed_status(f: FileStatus, started_at: UnixTimestamp, failure: FileFailureRecord) -> FileStatus {
    FileStatus {
        status: FileStatusKind::Error,
        error: Some(failure.message),
        error_category: Some(failure.category),
        started_at: Some(started_at),
        finished_at: Some(failure.finished_at),
        next_eligible_at: None,
        progress_current: None,
        progress_total: None,
        progress_stage: None,
        ..f
    }
}

/// The progress record a bare stage label publishes.
pub open spec fn stage_record(stage: FileStage) -> FileProgressRecord {
    FileProgressRecord { stage: spec_api_stage(stage), current: None, total: None }
}

/// Two successive updates of the same file's entry are one update by the
/// composed function, provided the first keeps the filename.
pub proof fn lemma_file_updated_compose(
    a: Job,
    b: Job,
    c: Job,
    name: Seq<char>,
    f: spec_fn(FileStatus) -> FileStatus,
    g: spec_fn(FileStatus) -> FileStatus,
)
    requires
        file_updated(a, b, name, f),
        file_updated(b, c, name, g),
        forall|x: FileStatus| #[trigger] f(x).filename == x.filename,
    ensures
        file_updated(a, c, name, |x: FileStatus| g(f(x))),
{
    let sa = a.execution.file_statuses@;
    let sb = b.execution.file_statuses@;
    let sc = c.execution.file_statuses@;
    let i = choose|i: int| #![trigger is_first_file_index(sa, name, i)]
        is_first_file_index(sa, name, i) && sb == sa.update(i, f(sa[i]));
    assert(f(sa[i]).filename == sa[i].filename);
    assert(is_first_file_index(sb, name, i));
    let k = choose|k: int| #![trigger is_first_file_index(sb, name, k)]
        is_first_file_index(sb, name, k) && sc == sb.update(k, g(sb[k]));
    assert(k == i) by {
        if k < i {
            assert(sb[k].filename@ != name);
        } else if i < k {
            assert(sb[i].filename@ != name);
        }
    }
    let h = |x: FileStatus| g(f(x));
    assert(sc =~= sa.update(i, h(sa[i])));
    assert(is_first_file_index(sa, name, i) && sc == sa.update(i, h(sa[i])));
}


/// A file that retried, restarted and then completed ends done, with no
/// error and no retry deadline left from the failed attempt, whatever it
/// held before its first attempt.
pub proof fn lemma_retry_restart_complete_is_clean(
    f: FileStatus,
    first_started: UnixTimestamp,
    first_stage: FileStage,
    retry: FileRetryRecord,
    restarted_at: UnixTimestamp,
    stage: FileStage,
    finished_at: UnixTimestamp,
)
    ensures
        ({
            let end = done_status(
                restarted_status(retry_pending_status(begun_status(f, first_started, first_stage), retry), restarted_at, stage),
                finished_at,
            );
            &&& end.status == FileStatusKind::Done
            &&& end.error is None
            &&& end.error_category is None
            &&& end.next_eligible_at is None
            &&& end.started_at == Some(restarted_at)
            &&& end.finished_at == Some(finished_at)
            &&& end.filename == f.filename
        }),
{
}

/// A restarted attempt after a scheduled retry presents as running: still
/// processing, without the retry's error or deadline, showing the new stage
/// rather than the retry marker.
pub proof fn lemma_restart_after_retry_is_running(f: FileStatus, retry: FileRetryRecord, started_at: UnixTimestamp, stage: FileStage)
    ensures
        ({
            let r = restarted_status(retry_pending_status(f, retry), started_at, stage);
            &&& r.status == FileStatusKind::Processing
            &&& r.error is None
            &&& r.next_eligible_at is None
            &&& r.progress_stage == Some(spec_api_stage(stage))
            &&& r.progress_stage != Some(FileProgressStage::RetryScheduled)
        }),
{
}

/// A setup failure leaves the file failed with exactly that error, and
/// beginning a first attempt twice is the same as beginning it once.
pub proof fn lemma_setup_failure_and_begin(f: FileStatus, started_at: UnixTimestamp, failure: FileFailureRecord, stage: FileStage)
    ensures
        setup_failed_status(f, started_at, failure).status == FileStatusKind::Error,
        setup_failed_status(f, started_at, failure).error == Some(failure.message),
        setup_failed_status(f, started_at, failure).error_category == Some(failure.category),
        begun_status(begun_status(f, started_at, stage), started_at, stage) == begun_status(f, started_at, stage),
{
}

/// After an update that keeps filenames, the file is still present.
pub proof fn lemma_still_has_file(a: Job, b: Job, name: Seq<char>, f: spec_fn(FileStatus) -> FileStatus)
    requires
        file_updated(a, b, name, f),
        forall|x: FileStatus| #[trigger] f(x).filename == x.filename,
    ensures
        has_file(b.execution.file_statuses@, name),
{
    let sa = a.execution.file_statuses@;
    let i = choose|i: int| #![trigger is_first_file_index(sa, name, i)]
        is_first_file_index(sa, name, i) && b.execution.file_statuses@ == sa.update(i, f(sa[i]));
    assert(f(sa[i]).filename == sa[i].filename);
    assert(b.execution.file_statuses@[i].filename@ == name);
}

/// Runner-side helper for one file's lifecycle. Every step returns whether
/// the job has a status entry for the file; when it has none the job is left
/// unchanged.
pub struct FileRunTracker {
    pub filename: String,
}

impl FileRunTracker {
    /// Bind the helper to one file.
    pub fn new(filename: &str) -> (r: FileRunTracker)
        ensures
            r.filename@ == filename@,
    {
        FileRunTracker { filename: String::from_str(filename) }
    }

    /// Mark the file as processing, open its first attempt and show the
    /// initial stage.
    pub fn begin_first_attempt(&self, job: &mut Job, started_at: UnixTimestamp, stage: FileStage) -> (r: bool)
        requires
            old(job).wf(),
        ensures
            final(job).wf(),
            r == has_file(old(job).execution.file_statuses@, self.filename@),
            final(job).same_except_statuses(&*old(job)),
            r ==> file_updated(*old(job), *final(job), self.filename@, |f: FileStatus| begun_status(f, started_at, stage)),
            !r ==> final(job).execution.file_statuses@ == old(job).execution.file_statuses@,
    {
        let ghost j0 = *job;
        let name = self.filename.as_str();
        if !job.mark_file_processing(name, started_at) {
            return false;
        }
        let ghost j1 = *job;
        job.clear_file_retry_state(name);
        let ghost j2 = *job;
        job.start_file_attempt(name, started_at);
        let ghost j3 = *job;
        let progress = FileProgressRecord { stage: stage.api_stage(), current: None, total: None };
        job.set_file_progress(name, &progress);
        proof {
            let p = |f: FileStatus| processing_status(f, started_at);
            let q = |f: FileStatus| retry_cleared_status(f);
            let s = |f: FileStatus| attempt_started_status(f, started_at);
            let t = |f: FileStatus| progress_status(f, progress);
            lemma_still_has_file(j0, j1, name@, p);
            lemma_file_updated_compose(j0, j1, j2, name@, p, q);
            let pq = |f: FileStatus| q(p(f));
            lemma_still_has_file(j0, j2, name@, pq);
            lemma_file_updated_compose(j0, j2, j3, name@, pq, s);
            let pqs = |f: FileStatus| s(pq(f));
            lemma_still_has_file(j0, j3, name@, pqs);
            lemma_file_updated_compose(j0, j3, *job, name@, pqs, t);
            let all = |f: FileStatus| t(pqs(f));
            let want = |f: FileStatus| begun_status(f, started_at, stage);
            assert(all =~= want);
        }
        true
    }

    /// Open a setup attempt that fails before the file enters processing,
    /// and record the failure.
    pub fn record_setup_failure(
        &self,
        job: &mut Job,
        started_at: UnixTimestamp,
        error: &str,
        category: FailureCategory,
        finished_at: UnixTimestamp,
    ) -> (r: bool)
        requires
            old(job).wf(),
            old(job).execution.completed_files < i64::MAX,
        ensures
            final(job).wf(),
            r == has_file(old(job).execution.file_statuses@, self.filename@),
            !r ==> final(job).same_except_statuses(&*old(job)),
            !r ==> final(job).execution.file_statuses@ == old(job).execution.file_statuses@,
            r ==> exists|m: String| #![trigger m@]
                m@ == error@
                && final(job).execution.results@.last().error == Some(m)
                && file_updated(*old(job), *final(job), self.filename@,
                    |f: FileStatus| setup_failed_status(f, started_at, FileFailureRecord { message: m, category, finished_at })),
            r ==> final(job).execution.completed_files == old(job).execution.completed_files + 1,
            r ==> final(job).execution.results@.len() == old(job).execution.results@.len() + 1,
            r ==> final(job).execution.results@.drop_last() == old(job).execution.results@,
            r ==> final(job).execution.results@.last().filename@ == self.filename@,
            r ==> final(job).execution.results@.last().content_type == ContentType::Chat,
            r ==> {
                &&& final(job).identity == old(job).identity
                &&& final(job).dispatch == old(job).dispatch
                &&& final(job).source == old(job).source
                &&& final(job).filesystem == old(job).filesystem
                &&& final(job).execution.status == old(job).execution.status
                &&& final(job).execution.error == old(job).execution.error
                &&& final(job).schedule == old(job).schedule
                &&& final(job).runtime == old(job).runtime
            },
    {
        let ghost j0 = *job;
        let name = self.filename.as_str();
        if !job.clear_file_retry_state(name) {
            return false;
        }
        let ghost j1 = *job;
        job.start_file_attempt(name, started_at);
        let ghost j2 = *job;
        let failure = FileFailureRecord { message: String::from_str(error), category, finished_at };
        job.mark_file_error(name, &failure);
        proof {
            let q = |f: FileStatus| retry_cleared_status(f);
            let s = |f: FileStatus| attempt_started_status(f, started_at);
            let e = |f: FileStatus| error_status(f, failure);
            lemma_still_has_file(j0, j1, name@, q);
            lemma_file_updated_compose(j0, j1, j2, name@, q, s);
            let qs = |f: FileStatus| s(q(f));
            lemma_still_has_file(j0, j2, name@, qs);
            lemma_file_updated_compose(j0, j2, *job, name@, qs, e);
            let all = |f: FileStatus| e(qs(f));
            let want = |f: FileStatus| setup_failed_status(f, started_at, failure);
            assert(all =~= want);
            let m = failure.message;
            assert(m@ == error@ && job.execution.results@.last().error == Some(m));
        }
        true
    }

    /// Clear the retry state, open the next attempt and show its stage.
    pub fn restart_attempt(&self, job: &mut Job, started_at: UnixTimestamp, stage: FileStage) -> (r: bool)
        requires
            old(job).wf(),
        ensures
            final(job).wf(),
            r == has_file(old(job).execution.file_statuses@, self.filename@),
            final(job).same_except_statuses(&*old(job)),
            r ==> file_updated(*old(job), *final(job), self.filename@, |f: FileStatus| restarted_status(f, started_at, stage)),
            !r ==> final(job).execution.file_statuses@ == old(job).execution.file_statuses@,
    {
        let ghost j0 = *job;
        let name = self.filename.as_str();
        if !job.clear_file_retry_state(name) {
            return false;
        }
        let ghost j1 = *job;
        job.start_file_attempt(name, started_at);
        let ghost j2 = *job;
        let progress = FileProgressRecord { stage: stage.api_stage(), current: None, total: None };
        job.set_file_progress(name, &progress);
        proof {
            let q = |f: FileStatus| retry_cleared_status(f);
            let s = |f: FileStatus| attempt_started_status(f, started_at);
            let t = |f: FileStatus| progress_status(f, progress);
            lemma_still_has_file(j0, j1, name@, q);
            lemma_file_updated_compose(j0, j1, j2, name@, q, s);
            let qs = |f: FileStatus| s(q(f));
            lemma_still_has_file(j0, j2, name@, qs);
            lemma_file_updated_compose(j0, j2, *job, name@, qs, t);
            let all = |f: FileStatus| t(qs(f));
            let want = |f: FileStatus| restarted_status(f, started_at, stage);
            assert(all =~= want);
        }
        true
    }

    /// Show a new stage label, with no counters.
    pub fn stage(&self, job: &mut Job, stage: FileStage) -> (r: bool)
        requires
            old(job).wf(),
        ensures
            final(job).wf(),
            r == has_file(old(job).execution.file_statuses@, self.filename@),
            final(job).same_except_statuses(&*old(job)),
            r ==> file_updated(*old(job), *final(job), self.filename@, |f: FileStatus| progress_status(f, stage_record(stage))),
            !r ==> final(job).execution.file_statuses@ == old(job).execution.file_statuses@,
    {
        let progress = FileProgressRecord { stage: stage.api_stage(), current: None, total: None };
        let r = job.set_file_progress(self.filename.as_str(), &progress);
        proof {
            let t = |f: FileStatus| progress_status(f, progress);
            let want = |f: FileStatus| progress_status(f, stage_record(stage));
            assert(t =~= want);
        }
        r
    }

    /// Record a retryable failure and its retry time.
    pub fn retry(
        &self,
        job: &mut Job,
        retry_at: UnixTimestamp,
        category: FailureCategory,
        message: &str,
        finished_at: UnixTimestamp,
    ) -> (r: bool)
        requires
            old(job).wf(),
        ensures
            final(job).wf(),
            r == has_file(old(job).execution.file_statuses@, self.filename@),
            final(job).same_except_statuses(&*old(job)),
            r ==> exists|m: String| #![trigger m@] m@ == message@ && file_updated(*old(job), *final(job), self.filename@,
                |f: FileStatus| retry_pending_status(f, FileRetryRecord { message: m, category, finished_at, retry_at })),
            !r ==> final(job).execution.file_statuses@ == old(job).execution.file_statuses@,
    {
        let retry = FileRetryRecord { message: String::from_str(message), category, finished_at, retry_at };
        let r = job.mark_file_retry_pending(self.filename.as_str(), &retry);
        proof {
            if r {
                let m = retry.message;
                assert(m@ == message@ && file_updated(*old(job), *job, self.filename@,
                    |f: FileStatus| retry_pending_status(f, FileRetryRecord { message: m, category, finished_at, retry_at })));
            }
        }
        r
    }

    /// Record a terminal failure of the file.
    pub fn fail(
        &self,
        job: &mut Job,
        error: &str,
        category: FailureCategory,
        finished_at: UnixTimestamp,
    ) -> (r: bool)
        requires
            old(job).wf(),
            old(job).execution.completed_files < i64::MAX,
        ensures
            final(job).wf(),
            r == has_file(old(job).execution.file_statuses@, self.filename@),
            !r ==> *final(job) == *old(job),
            r ==> exists|m: String| #![trigger m@]
                m@ == error@
                && final(job).execution.results@.last().error == Some(m)
                && file_updated(*old(job), *final(job), self.filename@,
                    |f: FileStatus| error_status(f, FileFailureRecord { message: m, category, finished_at })),
            r ==> final(job).execution.completed_files == old(job).execution.completed_files + 1,
            r ==> final(job).execution.results@.len() == old(job).execution.results@.len() + 1,
            r ==> final(job).execution.results@.drop_last() == old(job).execution.results@,
            r ==> final(job).execution.results@.last().filename@ == self.filename@,
            r ==> final(job).execution.results@.last().content_type == ContentType::Chat,
            r ==> {
                &&& final(job).identity == old(job).identity
                &&& final(job).dispatch == old(job).dispatch
                &&& final(job).source == old(job).source
                &&& final(job).filesystem == old(job).filesystem
                &&& final(job).execution.status == old(job).execution.status
                &&& final(job).execution.error == old(job).execution.error
                &&& final(job).schedule == old(job).schedule
                &&& final(job).runtime == old(job).runtime
            },
    {
        let failure = FileFailureRecord { message: String::from_str(error), category, finished_at };
        let r = job.mark_file_error(self.filename.as_str(), &failure);
        proof {
            if r {
                let m = failure.message;
                assert(m@ == error@ && job.execution.results@.last().error == Some(m));
            }
        }
        r
    }

    /// Mark the file done with a downloadable result.
    pub fn complete_with_result(
        &self,
        job: &mut Job,
        result_filename: String,
        content_type: ContentType,
        finished_at: UnixTimestamp,
    ) -> (r: bool)
        requires
            old(job).wf(),
            old(job).execution.completed_files < i64::MAX,
        ensures
            final(job).wf(),
            r == has_file(old(job).execution.file_statuses@, self.filename@),
            !r ==> *final(job) == *old(job),
            r ==> file_updated(*old(job), *final(job), self.filename@, |f: FileStatus| done_status(f, finished_at)),
            r ==> final(job).execution.completed_files == old(job).execution.completed_files + 1,
            r ==> final(job).execution.results@ == old(job).execution.results@.push(FileResultEntry {
                filename: result_filename,
                content_type,
                error: None,
            }),
            r ==> {
                &&& final(job).identity == old(job).identity
                &&& final(job).dispatch == old(job).dispatch
                &&& final(job).source == old(job).source
                &&& final(job).filesystem == old(job).filesystem
                &&& final(job).execution.status == old(job).execution.status
                &&& final(job).execution.error == old(job).execution.error
                &&& final(job).schedule == old(job).schedule
                &&& final(job).runtime == old(job).runtime
            },
    {
        job.mark_file_done(
            self.filename.as_str(),
            finished_at,
            Some(CompletedFileOutput { filename: result_filename, content_type }),
        )
    }

    /// Mark the file done without a downloadable artifact.
    pub fn complete_without_result(&self, job: &mut Job, finished_at: UnixTimestamp) -> (r: bool)
        requires
            old(job).wf(),
            old(job).execution.completed_files < i64::MAX,
        ensures
            final(job).wf(),
            r == has_file(old(job).execution.file_statuses@, self.filename@),
            !r ==> *final(job) == *old(job),
            r ==> file_updated(*old(job), *final(job), self.filename@, |f: FileStatus| done_status(f, finished_at)),
            r ==> final(job).execution.completed_files == old(job).execution.completed_files + 1,
            r ==> final(job).execution.results@ == old(job).execution.results@,
            r ==> {
                &&& final(job).identity == old(job).identity
                &&& final(job).dispatch == old(job).dispatch
                &&& final(job).source == old(job).source
                &&& final(job).filesystem == old(job).filesystem
                &&& final(job).execution.status == old(job).execution.status
                &&& final(job).execution.error == old(job).execution.error
                &&& final(job).schedule == old(job).schedule
                &&& final(job).runtime == old(job).runtime
            },
    {
        job.mark_file_done(self.filename.as_str(), finished_at, None)
    }
}

} // verus!
