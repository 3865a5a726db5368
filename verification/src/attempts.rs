//! The attempt loop of one media file (alignment or transcription): when to
//! recover utterance timing before alignment, how attempts open, when a
//! failed attempt is retried and when, with one fallback timing recovery at
//! most, and the messages of the failures that end a file early.

use vstd::prelude::*;
use vstd::string::*;
use crate::job::UnixTimestamp;

verus! {

/// What to do about utterances without timing before alignment.
#[derive(Clone, Copy, Debug, PartialEq, Eq, Structural)]
pub enum UtrPrepass {
    /// Every utterance is timed.
    Skip,
    /// Run utterance timing recovery first.
    Recover,
    /// No recovery engine: alignment interpolates the untimed utterances.
    Interpolate,
}

pub fn utr_prepass(untimed: usize, has_utr_engine: bool) -> (r: UtrPrepass)
    ensures
        r == (if untimed == 0 {
            UtrPrepass::Skip
        } else if has_utr_engine {
            UtrPrepass::Recover
        } else {
            UtrPrepass::Interpolate
        }),
{
    if untimed == 0 {
        UtrPrepass::Skip
    } else if has_utr_engine {
        UtrPrepass::Recover
    } else {
        UtrPrepass::Interpolate
    }
}

/// Whether untimed utterances remain after the pre-pass: none when it was
/// skipped; after a recovery run, those it could not match (all of them when
/// the run failed); all of them when interpolating.
pub fn unrecovered_after_prepass(prepass: UtrPrepass, unmatched_after_recovery: Option<usize>) -> (r: bool)
    ensures
        r == match prepass {
            UtrPrepass::Skip => false,
            UtrPrepass::Recover => match unmatched_after_recovery {
                Some(n) => n > 0,
                None => true,
            },
            UtrPrepass::Interpolate => true,
        },
{
    match prepass {
        UtrPrepass::Skip => false,
        UtrPrepass::Recover => match unmatched_after_recovery {
            Some(n) => n > 0,
            None => true,
        },
        UtrPrepass::Interpolate => true,
    }
}

/// How an alignment attempt opens.
#[derive(Clone, Copy, Debug, PartialEq, Eq, Structural)]
pub enum AttemptOpening {
    /// The first attempt: show the aligning stage.
    ShowAligning,
    /// A later attempt: restart the file's attempt at the aligning stage.
    RestartAttempt,
}

/// What follows a failed alignment attempt.
#[derive(Clone, Copy, Debug, PartialEq, Eq, Structural)]
pub enum FailedAttemptStep {
    /// Fail the file.
    Fail,
    /// Schedule another attempt, first trying to recover timing again when
    /// `fallback_utr`.
    Retry { fallback_utr: bool },
}

/// The attempt loop of one file. Transcription runs the same loop with no
/// timing recovery (`has_utr_engine` and `had_unrecovered_untimed` false).
#[derive(Clone, Copy, Debug, PartialEq, Eq, Structural)]
pub struct FileAttempts {
    /// The attempt under way, from 1.
    pub attempt: u32,
    pub max_attempts: u32,
    pub has_utr_engine: bool,
    pub had_unrecovered_untimed: bool,
    pub utr_fallback_attempted: bool,
}

impl FileAttempts {
    pub open spec fn wf(&self) -> bool {
        1 <= self.attempt <= self.max_attempts
    }

    /// The first attempt.
    pub fn new(max_attempts: u32, has_utr_engine: bool, had_unrecovered_untimed: bool) -> (r: FileAttempts)
        requires
            max_attempts >= 1,
        ensures
            r.wf(),
            r == (FileAttempts {
                attempt: 1,
                max_attempts,
                has_utr_engine,
                had_unrecovered_untimed,
                utr_fallback_attempted: false,
            }),
    {
        FileAttempts { attempt: 1, max_attempts, has_utr_engine, had_unrecovered_untimed, utr_fallback_attempted: false }
    }

    /// How the current attempt opens.
    pub fn opening(&self) -> (r: AttemptOpening)
        ensures
            r == (if self.attempt > 1 { AttemptOpening::RestartAttempt } else { AttemptOpening::ShowAligning }),
    {
        if self.attempt > 1 {
            AttemptOpening::RestartAttempt
        } else {
            AttemptOpening::ShowAligning
        }
    }

    /// The current attempt failed. Only a worker failure of a retryable
    /// category is retried, and only while attempts remain; the first such
    /// retry of a file with unrecovered untimed utterances tries timing
    /// recovery again when an engine is configured.
    pub fn on_failure(&mut self, worker_failure: bool, retryable_category: bool) -> (r: FailedAttemptStep)
        requires
            old(self).wf(),
        ensures
            final(self).wf(),
            final(self).max_attempts == old(self).max_attempts,
            final(self).has_utr_engine == old(self).has_utr_engine,
            final(self).had_unrecovered_untimed == old(self).had_unrecovered_untimed,
            (r is Retry) == (worker_failure && retryable_category && old(self).attempt < old(self).max_attempts),
            r matches FailedAttemptStep::Retry { fallback_utr } ==> {
                &&& fallback_utr == (old(self).had_unrecovered_untimed && !old(self).utr_fallback_attempted && old(self).has_utr_engine)
                &&& final(self).attempt == old(self).attempt + 1
                &&& final(self).utr_fallback_attempted == (old(self).utr_fallback_attempted || fallback_utr)
            },
            r is Fail ==> *final(self) == *old(self),
    {
        if worker_failure && retryable_category && self.attempt < self.max_attempts {
            let fallback_utr = self.had_unrecovered_untimed && !self.utr_fallback_attempted && self.has_utr_engine;
            if fallback_utr {
                self.utr_fallback_attempted = true;
            }
            self.attempt = self.attempt + 1;
            FailedAttemptStep::Retry { fallback_utr }
        } else {
            FailedAttemptStep::Fail
        }
    }

    /// A fallback recovery that injected timing leaves nothing unrecovered.
    pub fn on_fallback_recovery(&mut self, injected: usize)
        requires
            old(self).wf(),
        ensures
            *final(self) == (FileAttempts {
                had_unrecovered_untimed: old(self).had_unrecovered_untimed && injected == 0,
                ..*old(self)
            }),
    {
        if injected > 0 {
            self.had_unrecovered_untimed = false;
        }
    }
}

/// A file is tried at most `max_attempts` times, and timing recovery is
/// tried again at most once after the pre-pass.
pub proof fn lemma_attempts_are_bounded(before: FileAttempts, after: FileAttempts, fallback_utr: bool)
    requires
        before.wf(),
        after.wf(),
        after.max_attempts == before.max_attempts,
        after.attempt == before.attempt + 1,
        fallback_utr == (before.had_unrecovered_untimed && !before.utr_fallback_attempted && before.has_utr_engine),
        after.utr_fallback_attempted == (before.utr_fallback_attempted || fallback_utr),
    ensures
        after.attempt <= before.max_attempts,
        before.utr_fallback_attempted ==> !fallback_utr,
        fallback_utr ==> after.utr_fallback_attempted,
{
}

/// When a retried attempt becomes eligible: one backoff period after the
/// failed attempt finished.
pub fn retry_deadline(finished_at: UnixTimestamp, backoff_ms: i64) -> (r: UnixTimestamp)
    requires
        backoff_ms >= 0,
        finished_at.0 + backoff_ms <= i64::MAX,
    ensures
        r.0 == finished_at.0 + backoff_ms,
{
    UnixTimestamp(finished_at.0 + backoff_ms)
}

/// The error recorded when no audio was found for a file.
pub open spec fn missing_audio_message(filename: Seq<char>, media_mapping: Seq<char>, media_subdir: Seq<char>) -> Seq<char> {
    "Cannot find audio file for "@ + filename
        + ". Searched for media with known extensions (.wav, .mp3, .mp4, etc.) "@
        + (if media_mapping.len() > 0 {
            "in media mapping '"@ + media_mapping + "' subdir '"@ + media_subdir + "'"@
        } else {
            "alongside the .cha file"@
        })
        + "."@
}

pub fn missing_audio_error(filename: &str, media_mapping: &str, media_subdir: &str) -> (r: String)
    ensures
        r@ == missing_audio_message(filename@, media_mapping@, media_subdir@),
{
    let mut m = String::from_str("Cannot find audio file for ");
    m.append(filename);
    m.append(". Searched for media with known extensions (.wav, .mp3, .mp4, etc.) ");
    if media_mapping.unicode_len() > 0 {
        m.append("in media mapping '");
        m.append(media_mapping);
        m.append("' subdir '");
        m.append(media_subdir);
        m.append("'");
    } else {
        m.append("alongside the .cha file");
    }
    m.append(".");
    m
}

/// The error recorded when a file's input cannot be read.
pub fn input_read_error(io_error: &str) -> (r: String)
    ensures
        r@ == "Failed to read input: "@ + io_error@,
{
    let mut m = String::from_str("Failed to read input: ");
    m.append(io_error);
    m
}

/// The error recorded when a file's media cannot be converted to WAV.
pub fn media_conversion_error(filename: &str, conversion_error: &str) -> (r: String)
    ensures
        r@ == "Media conversion failed for "@ + filename@ + ": "@ + conversion_error@,
{
    let mut m = String::from_str("Media conversion failed for ");
    m.append(filename);
    m.append(": ");
    m.append(conversion_error);
    m
}

/// The error of a benchmark file whose reference transcript cannot be read.
pub fn benchmark_reference_read_error(gold_path: &str, io_error: &str) -> (r: String)
    ensures
        r@ == "Failed to read benchmark reference transcript "@ + gold_path@ + ": "@ + io_error@,
{
    let mut m = String::from_str("Failed to read benchmark reference transcript ");
    m.append(gold_path);
    m.append(": ");
    m.append(io_error);
    m
}

} // verus!
