//! Decisions of the batched text dispatch (morphotag, utseg, translate,
//! coref, compare): how files are cut into windows, which job file a result
//! belongs to, and how the job records the start of the batch, its total and
//! each file's outcome. Reading inputs and writing outputs happen around
//! these steps.

use vstd::prelude::*;
use crate::job::{
    Job, FileStatus, PendingJobFile, FailureCategory, ContentType, UnixTimestamp,
    FileProgressRecord, FileFailureRecord, CompletedFileOutput, FileResultEntry, file_updated, has_file, is_first_file_index,
    unique_filenames, progress_status, error_status, done_status,
};
use crate::progress::{FileStage, spec_api_stage};
use crate::lifecycle::{FileRunTracker, begun_status, lemma_file_updated_compose, lemma_still_has_file};
use crate::text::str_equal;

verus! {

/// The largest window a configuration may ask for.
pub const MAX_BATCH_WINDOW: usize = 1000;

/// The window size for `file_count` files: 0 means all files in one window,
/// and larger requests are capped at [`MAX_BATCH_WINDOW`].
pub open spec fn spec_batch_window_size(configured: usize, file_count: usize) -> usize {
    if configured == 0 {
        file_count
    } else if configured <= MAX_BATCH_WINDOW {
        configured
    } else {
        MAX_BATCH_WINDOW
    }
}

pub fn batch_window_size(configured: usize, file_count: usize) -> (r: usize)
    ensures
        r == spec_batch_window_size(configured, file_count),
        file_count > 0 ==> r > 0,
        r <= file_count || r <= MAX_BATCH_WINDOW,
{
    if configured == 0 {
        file_count
    } else if configured <= MAX_BATCH_WINDOW {
        configured
    } else {
        MAX_BATCH_WINDOW
    }
}

/// The number of windows of size `window` that cover `total` files.
pub fn window_count(total: usize, window: usize) -> (r: usize)
    requires
        window > 0,
    ensures
        r * window >= total,
        r == 0 || (r - 1) * window < total,
        r as int == (total + window - 1) / (window as int),
{
    let q = total / window;
    proof {
        if total % window != 0 {
            assert(window >= 2) by {
                if window == 1 {
                    assert(total % 1 == 0) by (nonlinear_arith);
                }
            }
            assert(q * 2 <= total) by (nonlinear_arith)
                requires q == total / window, window >= 2;
        }
    }
    let r = if total % window == 0 { q } else { q + 1 };
    proof {
        assert(q * window + total % window == total) by (nonlinear_arith)
            requires q == total / window, window > 0;
        assert(q * window <= total);
        if total % window == 0 {
            if q > 0 {
                assert((q - 1) * window == q * window - window) by (nonlinear_arith);
            }
            assert((total + window - 1) / (window as int) == q) by (nonlinear_arith)
                requires q * window == total, window > 0;
        } else {
            assert((q + 1) * window == q * window + window) by (nonlinear_arith);
            assert((total + window - 1) / (window as int) == q + 1) by (nonlinear_arith)
                requires q * window + total % window == total, 0 < total % window < window, window > 0;
        }
    }
    r
}

/// The files of window `idx`: positions `start..end` of the batch.
pub fn window_bounds(total: usize, window: usize, idx: usize) -> (r: (usize, usize))
    requires
        window > 0,
        idx * window < total,
    ensures
        r.0 == idx * window,
        r.1 == if (idx + 1) * window < total { ((idx + 1) * window) as usize } else { total },
        r.0 < r.1 <= total,
        r.1 - r.0 <= window,
{
    let start = idx * window;
    let rest = total - start;
    let end = if rest > window { start + window } else { total };
    proof {
        assert((idx + 1) * window == idx * window + window) by (nonlinear_arith);
    }
    (start, end)
}

/// Position of the batch's file named `filename`, or 0 when none is.
pub open spec fn spec_file_index_for(files: Seq<PendingJobFile>, filename: Seq<char>) -> usize
    decreases files.len(),
{
    if files.len() == 0 {
        0
    } else if files[0].filename@ == filename {
        files[0].file_index
    } else {
        spec_file_index_for(files.drop_first(), filename)
    }
}

/// The job-wide index of the first pending file with this name (0 if none).
pub fn file_index_for(files: &Vec<PendingJobFile>, filename: &str) -> (r: usize)
    ensures
        r == spec_file_index_for(files@, filename@),
{
    let mut i: usize = 0;
    assert(files@.skip(0) =~= files@);
    while i < files.len()
        invariant
            i <= files@.len(),
            spec_file_index_for(files@, filename@) == spec_file_index_for(files@.skip(i as int), filename@),
        decreases files@.len() - i,
    {
        assert(files@.skip(i as int).drop_first() =~= files@.skip(i + 1));
        if str_equal(files[i].filename.as_str(), filename) {
            return files[i].file_index;
        }
        i = i + 1;
    }
    0
}

/// `name` is one of `names`.
pub open spec fn names_contain(names: Seq<String>, name: Seq<char>) -> bool {
    exists|k: int| #![trigger names[k]] 0 <= k < names.len() && names[k]@ == name
}

/// The statuses after every named file began its first attempt.
pub open spec fn begun_files(s: Seq<FileStatus>, names: Seq<String>, started_at: UnixTimestamp, stage: FileStage) -> Seq<FileStatus> {
    Seq::new(s.len(), |j: int|
        if names_contain(names, s[j].filename@) { begun_status(s[j], started_at, stage) } else { s[j] })
}

/// The statuses after every named file showed `progress`.
pub open spec fn progressed_files(s: Seq<FileStatus>, names: Seq<String>, progress: FileProgressRecord) -> Seq<FileStatus> {
    Seq::new(s.len(), |j: int|
        if names_contain(names, s[j].filename@) { progress_status(s[j], progress) } else { s[j] })
}

/// The single entry that a first-index update touches in a job with unique
/// filenames: the entry carrying that name.
proof fn lemma_update_hits_named_entry(a: Job, b: Job, name: Seq<char>, f: spec_fn(FileStatus) -> FileStatus)
    requires
        a.wf(),
        file_updated(a, b, name, f),
        forall|x: FileStatus| #[trigger] f(x).filename == x.filename,
    ensures
        b.wf(),
        b.execution.file_statuses@.len() == a.execution.file_statuses@.len(),
        forall|j: int| 0 <= j < a.execution.file_statuses@.len() ==> #[trigger] b.execution.file_statuses@[j] == (
            if a.execution.file_statuses@[j].filename@ == name { f(a.execution.file_statuses@[j]) } else { a.execution.file_statuses@[j] }),
{
    let sa = a.execution.file_statuses@;
    let i = choose|i: int| #![trigger is_first_file_index(sa, name, i)]
        is_first_file_index(sa, name, i) && b.execution.file_statuses@ == sa.update(i, f(sa[i]));
    assert forall|j: int| 0 <= j < sa.len() implies #[trigger] b.execution.file_statuses@[j] == (
        if sa[j].filename@ == name { f(sa[j]) } else { sa[j] }) by {
        if j != i && sa[j].filename@ == name {
            assert(sa[i].filename@ != sa[j].filename@);
        }
    }
    assert(f(sa[i]).filename == sa[i].filename);
}

impl Job {
    /// Every named file begins its first attempt and shows `stage`.
    pub fn begin_batch_files(&mut self, names: &Vec<String>, started_at: UnixTimestamp, stage: FileStage)
        requires
            old(self).wf(),
        ensures
            final(self).wf(),
            final(self).same_except_statuses(&*old(self)),
            final(self).execution.file_statuses@ == begun_files(old(self).execution.file_statuses@, names@, started_at, stage),
    {
        let ghost s0 = self.execution.file_statuses@;
        let mut k: usize = 0;
        while k < names.len()
            invariant
                k <= names@.len(),
                self.wf(),
                self.same_except_statuses(&*old(self)),
                s0 == old(self).execution.file_statuses@,
                self.execution.file_statuses@ == begun_files(s0, names@.take(k as int), started_at, stage),
            decreases names@.len() - k,
        {
            let ghost before = *self;
            let tracker = FileRunTracker::new(names[k].as_str());
            let found = tracker.begin_first_attempt(self, started_at, stage);
            proof {
                let name = names@[k as int]@;
                let b = |f: FileStatus| begun_status(f, started_at, stage);
                let next = begun_files(s0, names@.take(k + 1), started_at, stage);
                assert forall|j: int| 0 <= j < s0.len() implies
                    names_contain(names@.take(k + 1), #[trigger] s0[j].filename@)
                    == (names_contain(names@.take(k as int), s0[j].filename@) || s0[j].filename@ == name) by {
                    if names_contain(names@.take(k + 1), s0[j].filename@) {
                        let m = choose|m: int| #![trigger names@.take(k + 1)[m]] 0 <= m < k + 1 && names@.take(k + 1)[m]@ == s0[j].filename@;
                        if m < k {
                            assert(names@.take(k as int)[m] == names@.take(k + 1)[m]);
                        }
                    }
                    if names_contain(names@.take(k as int), s0[j].filename@) {
                        let m = choose|m: int| #![trigger names@.take(k as int)[m]] 0 <= m < k && names@.take(k as int)[m]@ == s0[j].filename@;
                        assert(names@.take(k + 1)[m] == names@.take(k as int)[m]);
                    }
                    if s0[j].filename@ == name {
                        assert(names@.take(k + 1)[k as int] == names@[k as int]);
                    }
                }
                if found {
                    lemma_update_hits_named_entry(before, *self, name, b);
                    assert(self.execution.file_statuses@ =~= next);
                } else {
                    assert forall|j: int| 0 <= j < s0.len() implies #[trigger] s0[j].filename@ != name by {
                        assert(before.execution.file_statuses@[j].filename == s0[j].filename);
                    }
                    assert(self.execution.file_statuses@ =~= next);
                }
            }
            k = k + 1;
        }
        assert(names@.take(names@.len() as int) =~= names@);
    }
}

impl Job {
    /// Every named file shows `progress` (the batch total before inference).
    pub fn publish_batch_progress(&mut self, names: &Vec<String>, progress: FileProgressRecord)
        requires
            old(self).wf(),
        ensures
            final(self).wf(),
            final(self).same_except_statuses(&*old(self)),
            final(self).execution.file_statuses@ == progressed_files(old(self).execution.file_statuses@, names@, progress),
    {
        let ghost s0 = self.execution.file_statuses@;
        let mut k: usize = 0;
        while k < names.len()
            invariant
                k <= names@.len(),
                self.wf(),
                self.same_except_statuses(&*old(self)),
                s0 == old(self).execution.file_statuses@,
                self.execution.file_statuses@ == progressed_files(s0, names@.take(k as int), progress),
            decreases names@.len() - k,
        {
            let ghost before = *self;
            let found = self.set_file_progress(names[k].as_str(), &progress);
            proof {
                let name = names@[k as int]@;
                let p = |f: FileStatus| progress_status(f, progress);
                let next = progressed_files(s0, names@.take(k + 1), progress);
                assert forall|j: int| 0 <= j < s0.len() implies
                    names_contain(names@.take(k + 1), #[trigger] s0[j].filename@)
                    == (names_contain(names@.take(k as int), s0[j].filename@) || s0[j].filename@ == name) by {
                    if names_contain(names@.take(k + 1), s0[j].filename@) {
                        let m = choose|m: int| #![trigger names@.take(k + 1)[m]] 0 <= m < k + 1 && names@.take(k + 1)[m]@ == s0[j].filename@;
                        if m < k {
                            assert(names@.take(k as int)[m] == names@.take(k + 1)[m]);
                        }
                    }
                    if names_contain(names@.take(k as int), s0[j].filename@) {
                        let m = choose|m: int| #![trigger names@.take(k as int)[m]] 0 <= m < k && names@.take(k as int)[m]@ == s0[j].filename@;
                        assert(names@.take(k + 1)[m] == names@.take(k as int)[m]);
                    }
                    if s0[j].filename@ == name {
                        assert(names@.take(k + 1)[k as int] == names@[k as int]);
                    }
                }
                if found {
                    lemma_update_hits_named_entry(before, *self, name, p);
                    assert(self.execution.file_statuses@ =~= next);
                } else {
                    assert forall|j: int| 0 <= j < s0.len() implies #[trigger] s0[j].filename@ != name by {
                        assert(before.execution.file_statuses@[j].filename == s0[j].filename);
                    }
                    assert(self.execution.file_statuses@ =~= next);
                }
            }
            k = k + 1;
        }
        assert(names@.take(names@.len() as int) =~= names@);
    }
}

/// What the inference produced for one file of the batch.
pub enum BatchFileOutcome {
    /// The output was written; this is the artifact the job offers.
    Written(CompletedFileOutput),
    /// The inference failed for this file with this message.
    Failed(String),
}

impl Job {
    /// Record one file's batch outcome: a written file shows the writing
    /// stage at `current` of `total` and then completes with its artifact; a
    /// failed one fails terminally as a provider failure.
    pub fn record_batch_outcome(
        &mut self,
        filename: &str,
        outcome: BatchFileOutcome,
        current: i64,
        total: i64,
        finished_at: UnixTimestamp,
    ) -> (r: bool)
        requires
            old(self).wf(),
            old(self).execution.completed_files < i64::MAX,
        ensures
            final(self).wf(),
            r == has_file(old(self).execution.file_statuses@, filename@),
            !r ==> final(self).same_except_statuses(&*old(self)),
            !r ==> final(self).execution.file_statuses@ == old(self).execution.file_statuses@,
            r ==> final(self).execution.completed_files == old(self).execution.completed_files + 1,
            r ==> match outcome {
                BatchFileOutcome::Written(out) => {
                    &&& file_updated(*old(self), *final(self), filename@, |f: FileStatus| done_status(f, finished_at))
                    &&& final(self).execution.results@ == old(self).execution.results@.push(FileResultEntry {
                        filename: out.filename,
                        content_type: out.content_type,
                        error: None,
                    })
                },
                BatchFileOutcome::Failed(msg) => {
                    &&& file_updated(*old(self), *final(self), filename@,
                        |f: FileStatus| error_status(f, FileFailureRecord { message: msg, category: FailureCategory::ProviderTerminal, finished_at }))
                    &&& final(self).execution.results@ == old(self).execution.results@.push(FileResultEntry {
                        filename: final(self).execution.results@.last().filename,
                        content_type: ContentType::Chat,
                        error: Some(msg),
                    })
                    &&& final(self).execution.results@.last().filename@ == filename@
                },
            },
            r ==> {
                &&& final(self).identity == old(self).identity
                &&& final(self).dispatch == old(self).dispatch
                &&& final(self).source == old(self).source
                &&& final(self).filesystem == old(self).filesystem
                &&& final(self).execution.status == old(self).execution.status
                &&& final(self).execution.error == old(self).execution.error
                &&& final(self).schedule == old(self).schedule
                &&& final(self).runtime == old(self).runtime
            },
    {
        match outcome {
            BatchFileOutcome::Written(out) => {
                let ghost j0 = *self;
                let progress = FileProgressRecord {
                    stage: FileStage::Writing.api_stage(),
                    current: Some(current),
                    total: Some(total),
                };
                if !self.set_file_progress(filename, &progress) {
                    return false;
                }
                let ghost j1 = *self;
                let ghost out_v = out;
                self.mark_file_done(filename, finished_at, Some(out));
                proof {
                    let p = |f: FileStatus| progress_status(f, progress);
                    let d = |f: FileStatus| done_status(f, finished_at);
                    lemma_still_has_file(j0, j1, filename@, p);
                    lemma_file_updated_compose(j0, j1, *self, filename@, p, d);
                    let pd = |f: FileStatus| d(p(f));
                    assert(pd =~= d);
                }
                true
            }
            BatchFileOutcome::Failed(msg) => {
                let ghost msg_v = msg;
                let failure = FileFailureRecord {
                    message: msg,
                    category: FailureCategory::ProviderTerminal,
                    finished_at,
                };
                let r = self.mark_file_error(filename, &failure);
                proof {
                    if r {
                        assert(self.execution.results@ =~= old(self).execution.results@.push(self.execution.results@.last()));
                    }
                }
                r
            }
        }
    }
}

} // verus!
