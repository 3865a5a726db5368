//! Request-level rules of the HTTP surface: the correlation id taken from a
//! request header, the default page size of the bug-report listing, and
//! which broadcasts a job's event stream passes on.

use vstd::prelude::*;
use vstd::string::*;
use crate::plan::{trim_bounds, trimmed};
use crate::text::{char_is_ascii_alnum, is_ascii_alnum, push_char, str_equal};
use crate::job::JobStatus;

verus! {

/// Correlation ids are cut to this many characters.
pub const CORRELATION_ID_MAX_LEN: usize = 128;

/// Characters a correlation id may hold: ASCII letters and digits, `-`,
/// `_`, `.` and `:`.
pub open spec fn correlation_char(c: char) -> bool {
    is_ascii_alnum(c) || c == '-' || c == '_' || c == '.' || c == ':'
}

/// The characters of `s` a correlation id may hold, in order.
pub open spec fn kept_chars(s: Seq<char>) -> Seq<char>
    decreases s.len(),
{
    if s.len() == 0 {
        Seq::empty()
    } else if correlation_char(s.last()) {
        kept_chars(s.drop_last()).push(s.last())
    } else {
        kept_chars(s.drop_last())
    }
}

/// The sanitized id: the first `CORRELATION_ID_MAX_LEN` kept characters.
pub open spec fn spec_sanitized(raw: Seq<char>) -> Seq<char> {
    let k = kept_chars(raw);
    if k.len() <= CORRELATION_ID_MAX_LEN { k } else { k.take(CORRELATION_ID_MAX_LEN as int) }
}

proof fn lemma_kept_prefix(s: Seq<char>, i: int)
    requires
        0 <= i <= s.len(),
    ensures
        kept_chars(s.take(i)).len() <= kept_chars(s).len(),
        kept_chars(s).take(kept_chars(s.take(i)).len() as int) == kept_chars(s.take(i)),
    decreases s.len(),
{
    if i == s.len() {
        assert(s.take(i) =~= s);
    } else {
        assert(s.drop_last().take(i) =~= s.take(i));
        lemma_kept_prefix(s.drop_last(), i);
        let a = kept_chars(s.take(i));
        let b = kept_chars(s.drop_last());
        if correlation_char(s.last()) {
            assert(kept_chars(s).take(a.len() as int) =~= b.take(a.len() as int));
        }
    }
}

proof fn lemma_kept_chars_allowed(s: Seq<char>)
    ensures
        forall|i: int| 0 <= i < kept_chars(s).len() ==> correlation_char(#[trigger] kept_chars(s)[i]),
    decreases s.len(),
{
    if s.len() > 0 {
        lemma_kept_chars_allowed(s.drop_last());
        let prev = kept_chars(s.drop_last());
        if correlation_char(s.last()) {
            assert forall|i: int| 0 <= i < kept_chars(s).len() implies correlation_char(#[trigger] kept_chars(s)[i]) by {
                if i < prev.len() {
                    assert(kept_chars(s)[i] == prev[i]);
                }
            }
        }
    }
}

/// A sanitized correlation id is bounded and safe to log: at most
/// `CORRELATION_ID_MAX_LEN` characters, each an ASCII letter or digit or one
/// of `-`, `_`, `.`, `:`.
pub proof fn lemma_sanitized_is_bounded_and_safe(raw: Seq<char>)
    ensures
        spec_sanitized(raw).len() <= CORRELATION_ID_MAX_LEN,
        forall|i: int| 0 <= i < spec_sanitized(raw).len() ==> correlation_char(#[trigger] spec_sanitized(raw)[i]),
{
    lemma_kept_chars_allowed(raw);
    let k = kept_chars(raw);
    if k.len() > CORRELATION_ID_MAX_LEN {
        assert forall|i: int| 0 <= i < spec_sanitized(raw).len() implies correlation_char(#[trigger] spec_sanitized(raw)[i]) by {
            assert(spec_sanitized(raw)[i] == k[i]);
        }
    }
}

fn is_correlation_char(c: char) -> (r: bool)
    ensures
        r == correlation_char(c),
{
    char_is_ascii_alnum(c) || c == '-' || c == '_' || c == '.' || c == ':'
}

/// The id made of the allowed characters of `raw`, cut to the maximum
/// length; `None` when no character is allowed.
pub fn sanitize_correlation_id(raw: &str) -> (r: Option<String>)
    ensures
        spec_sanitized(raw@).len() == 0 ==> r is None,
        spec_sanitized(raw@).len() > 0 ==> (r matches Some(s) && s@ == spec_sanitized(raw@)),
{
    let n = raw.unicode_len();
    let mut out = String::new();
    let mut count: usize = 0;
    let mut i: usize = 0;
    assert(raw@.take(0) =~= Seq::<char>::empty());
    assert(raw@.take(n as int) =~= raw@);
    while i < n
        invariant_except_break
            i <= n,
            n == raw@.len(),
            raw@.take(n as int) == raw@,
            count == out@.len(),
            out@ == kept_chars(raw@.take(i as int)),
            count < CORRELATION_ID_MAX_LEN,
        ensures
            out@ == spec_sanitized(raw@),
            count == out@.len(),
        decreases n - i,
    {
        let c = raw.get_char(i);
        assert(raw@.take(i + 1).drop_last() =~= raw@.take(i as int));
        assert(raw@.take(i + 1).last() == c);
        if is_correlation_char(c) {
            push_char(&mut out, c);
            count = count + 1;
            if count >= CORRELATION_ID_MAX_LEN {
                proof {
                    lemma_kept_prefix(raw@, i + 1);
                }
                i = i + 1;
                break;
            }
        }
        i = i + 1;
    }
    if count == 0 {
        None
    } else {
        Some(out)
    }
}

/// The correlation id of a request: its trimmed `x-request-id` header when
/// that sanitizes to something, else the fallback.
pub open spec fn spec_correlation_id(header: Option<Seq<char>>, fallback: Seq<char>) -> Seq<char> {
    match header {
        Some(h) => if spec_sanitized(trimmed(h)).len() > 0 { spec_sanitized(trimmed(h)) } else { fallback },
        None => fallback,
    }
}

/// The correlation id for a request, from the text of its `x-request-id`
/// header when it has one that is valid text.
pub fn correlation_id_from_header_value(header: Option<&str>, fallback: &str) -> (r: String)
    ensures
        r@ == spec_correlation_id(
            match header { Some(h) => Some(h@), None => None },
            fallback@,
        ),
{
    match header {
        Some(h) => {
            let (lo, hi) = trim_bounds(h);
            let t = h.substring_char(lo, hi);
            match sanitize_correlation_id(t) {
                Some(id) => id,
                None => String::from_str(fallback),
            }
        },
        None => String::from_str(fallback),
    }
}

/// Query parameters of the bug-report listing.
#[derive(Clone, Copy, Debug, PartialEq, Eq, Structural)]
pub struct ListParams {
    /// How many reports to return, newest first.
    pub limit: usize,
}

/// The listing returns 50 reports unless asked otherwise.
pub fn default_limit() -> (r: usize)
    ensures
        r == 50,
{
    50
}

impl ListParams {
    /// The limit given in the query, or the default.
    pub fn from_query(limit: Option<usize>) -> (r: Self)
        ensures
            r.limit == match limit { Some(l) => l, None => 50 },
    {
        match limit {
            Some(l) => ListParams { limit: l },
            None => ListParams { limit: default_limit() },
        }
    }
}

/// A control-plane broadcast, as the job event stream reads it.
#[derive(Clone, Debug, PartialEq, Eq)]
pub enum BroadcastEvent {
    /// One file of a job changed.
    FileUpdate { job_id: String },
    /// A job changed; its status when the update carried a known one.
    JobUpdate { job_id: String, status: Option<JobStatus> },
    /// Anything else.
    Other,
}

/// The server-sent event a broadcast becomes on one job's stream.
#[derive(Clone, Copy, Debug, PartialEq, Eq, Structural)]
pub enum StreamEventKind {
    FileUpdate,
    JobUpdate,
    Complete,
}

/// Only the streamed job's updates pass: file updates as such, job updates
/// as `complete` once the job is terminal and as job updates before.
pub fn classify_stream_event(job_id: &str, event: &BroadcastEvent) -> (r: Option<StreamEventKind>)
    ensures
        r == match *event {
            BroadcastEvent::FileUpdate { job_id: e } =>
                if e@ == job_id@ { Some(StreamEventKind::FileUpdate) } else { None },
            BroadcastEvent::JobUpdate { job_id: e, status } =>
                if e@ != job_id@ {
                    None
                } else if status matches Some(s) && s.spec_is_terminal() {
                    Some(StreamEventKind::Complete)
                } else {
                    Some(StreamEventKind::JobUpdate)
                },
            BroadcastEvent::Other => None,
        },
{
    match event {
        BroadcastEvent::FileUpdate { job_id: e } => {
            if str_equal(e.as_str(), job_id) { Some(StreamEventKind::FileUpdate) } else { None }
        },
        BroadcastEvent::JobUpdate { job_id: e, status } => {
            if !str_equal(e.as_str(), job_id) {
                None
            } else {
                let terminal = match status {
                    Some(s) => s.is_terminal(),
                    None => false,
                };
                if terminal { Some(StreamEventKind::Complete) } else { Some(StreamEventKind::JobUpdate) }
            }
        },
        BroadcastEvent::Other => None,
    }
}

/// A stream opens with the job's snapshot; for a job already terminal it
/// then sends `complete` and ends instead of following broadcasts.
pub fn stream_ends_after_snapshot(status: JobStatus) -> (r: bool)
    ensures
        r == status.spec_is_terminal(),
{
    status.is_terminal()
}

} // verus!
