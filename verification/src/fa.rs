//! Forced alignment of one file: how alignment starts on a parsed file,
//! which groups reuse `%wor` timing, come from the cache or go to a worker,
//! the namespaced ids of one worker request, how inferred timings are put
//! back, and the check that every group came back timed.

use vstd::prelude::*;
use vstd::string::*;
use crate::error::ServerError;
use crate::plan::CacheTaskName;
use crate::text::{pre_validation_message, joined_messages, append_decimal, decimal, is_decimal_digit, lemma_decimal_digits, lemma_decimal_injective};

verus! {

/// The cache task forced alignment reads and writes.
pub const CACHE_TASK: CacheTaskName = CacheTaskName::ForcedAlignment;

/// The ids of one forced-alignment request and its two artifacts.
#[derive(Clone, Debug, PartialEq, Eq)]
pub struct PreparedFaRequestIds {
    pub request_id: String,
    pub payload_ref_id: String,
    pub audio_ref_id: String,
}

/// `PREFIX{namespace}-{group}`.
pub open spec fn namespaced_id(prefix: Seq<char>, namespace: u64, group: usize) -> Seq<char> {
    prefix + decimal(namespace as nat) + "-"@ + decimal(group as nat)
}

fn build_namespaced_id(prefix: &str, namespace: u64, group: usize) -> (r: String)
    ensures
        r@ == namespaced_id(prefix@, namespace, group),
{
    let mut s = String::from_str(prefix);
    append_decimal(&mut s, namespace);
    s.append("-");
    append_decimal(&mut s, group as u64);
    assert(s@ =~= namespaced_id(prefix@, namespace, group));
    s
}

/// The ids of the request for group `group_index` under the namespace
/// allocated for one file.
pub fn build_fa_request_ids(request_namespace: u64, group_index: usize) -> (r: PreparedFaRequestIds)
    ensures
        r.request_id@ == namespaced_id("fa-v2-request-"@, request_namespace, group_index),
        r.payload_ref_id@ == namespaced_id("fa-v2-payload-"@, request_namespace, group_index),
        r.audio_ref_id@ == namespaced_id("fa-v2-audio-"@, request_namespace, group_index),
{
    PreparedFaRequestIds {
        request_id: build_namespaced_id("fa-v2-request-", request_namespace, group_index),
        payload_ref_id: build_namespaced_id("fa-v2-payload-", request_namespace, group_index),
        audio_ref_id: build_namespaced_id("fa-v2-audio-", request_namespace, group_index),
    }
}

proof fn lemma_split_at_dash(a: Seq<char>, b: Seq<char>, c: Seq<char>, d: Seq<char>)
    requires
        forall|i: int| 0 <= i < a.len() ==> is_decimal_digit(#[trigger] a[i]),
        forall|i: int| 0 <= i < c.len() ==> is_decimal_digit(#[trigger] c[i]),
        a + "-"@ + b == c + "-"@ + d,
    ensures
        a == c,
        b == d,
{
    reveal_strlit("-");
    let l = a + "-"@ + b;
    let r = c + "-"@ + d;
    if a.len() < c.len() {
        assert(l[a.len() as int] == '-');
        assert(r[a.len() as int] == c[a.len() as int]);
        assert(false);
    } else if c.len() < a.len() {
        assert(r[c.len() as int] == '-');
        assert(l[c.len() as int] == a[c.len() as int]);
        assert(false);
    }
    assert(a =~= l.take(a.len() as int));
    assert(c =~= r.take(c.len() as int));
    assert(b =~= l.skip(a.len() as int + 1));
    assert(d =~= r.skip(c.len() as int + 1));
}

/// Ids under one prefix never collide: two requests share an id only when
/// they share both the namespace and the group index. Concurrent files get
/// distinct namespaces, so their requests never share an id.
pub proof fn lemma_namespaced_ids_distinct(prefix: Seq<char>, n1: u64, g1: usize, n2: u64, g2: usize)
    requires
        namespaced_id(prefix, n1, g1) == namespaced_id(prefix, n2, g2),
    ensures
        n1 == n2,
        g1 == g2,
{
    let s1 = decimal(n1 as nat) + "-"@ + decimal(g1 as nat);
    let s2 = decimal(n2 as nat) + "-"@ + decimal(g2 as nat);
    assert(namespaced_id(prefix, n1, g1) =~= prefix + s1);
    assert(namespaced_id(prefix, n2, g2) =~= prefix + s2);
    assert(s1 =~= (prefix + s1).skip(prefix.len() as int));
    assert(s2 =~= (prefix + s2).skip(prefix.len() as int));
    lemma_decimal_digits(n1 as nat);
    lemma_decimal_digits(n2 as nat);
    lemma_split_at_dash(decimal(n1 as nat), decimal(g1 as nat), decimal(n2 as nat), decimal(g2 as nat));
    lemma_decimal_injective(n1 as nat, n2 as nat);
    lemma_decimal_injective(g1 as nat, g2 as nat);
}

/// The indices of the groups that came back without timings.
pub open spec fn missing_groups<T>(all: Seq<Option<T>>) -> Seq<nat>
    decreases all.len(),
{
    if all.len() == 0 {
        Seq::empty()
    } else {
        let prev = missing_groups(all.drop_last());
        if all.last() is None { prev.push((all.len() - 1) as nat) } else { prev }
    }
}

/// `{:?}` of a list of indices: `[0, 2]`.
pub open spec fn debug_index_list(s: Seq<nat>) -> Seq<char> {
    "["@ + joined_decimals(s) + "]"@
}

pub open spec fn joined_decimals(s: Seq<nat>) -> Seq<char>
    decreases s.len(),
{
    if s.len() == 0 {
        Seq::empty()
    } else if s.len() == 1 {
        decimal(s[0])
    } else {
        joined_decimals(s.drop_last()) + ", "@ + decimal(s.last())
    }
}

pub open spec fn missing_timings_message(context: Seq<char>, missing: Seq<nat>) -> Seq<char> {
    context + " completed without timings for group(s): "@ + debug_index_list(missing)
}

proof fn lemma_missing_groups_bounded<T>(all: Seq<Option<T>>)
    ensures
        forall|k: int| 0 <= k < missing_groups(all).len() ==> #[trigger] missing_groups(all)[k] < all.len(),
        missing_groups(all).len() <= all.len(),
    decreases all.len(),
{
    if all.len() > 0 {
        lemma_missing_groups_bounded(all.drop_last());
    }
}

proof fn lemma_no_missing_means_all_some<T>(all: Seq<Option<T>>)
    ensures
        (missing_groups(all).len() == 0) == (forall|i: int| 0 <= i < all.len() ==> (#[trigger] all[i]) is Some),
    decreases all.len(),
{
    if all.len() > 0 {
        lemma_no_missing_means_all_some(all.drop_last());
        assert forall|i: int| 0 <= i < all.len() - 1 implies all.drop_last()[i] == #[trigger] all[i] by {}
        if all.last() is Some {
            assert(missing_groups(all) == missing_groups(all.drop_last()));
        }
    }
}

/// The timings of every group, in group order; an error naming the groups
/// that came back without timings when there are any.
pub fn collect_final_timings<T>(all_timings: Vec<Option<Vec<Option<T>>>>, context: &str) -> (r: Result<Vec<Vec<Option<T>>>, ServerError>)
    ensures
        match r {
            Ok(v) => {
                &&& missing_groups(all_timings@).len() == 0
                &&& v@.len() == all_timings@.len()
                &&& forall|i: int| 0 <= i < v@.len() ==> all_timings@[i] == Some(#[trigger] v@[i])
            },
            Err(e) => e matches ServerError::Validation(m)
                && missing_groups(all_timings@).len() > 0
                && m@ == missing_timings_message(context@, missing_groups(all_timings@)),
        },
{
    let ghost all = all_timings@;
    let mut listing = String::new();
    assert(all.take(0) =~= Seq::<Option<Vec<Option<T>>>>::empty());
    let mut count: usize = 0;
    let mut i: usize = 0;
    while i < all_timings.len()
        invariant
            all == all_timings@,
            i <= all.len(),
            count == missing_groups(all.take(i as int)).len(),
            listing@ == joined_decimals(missing_groups(all.take(i as int))),
        decreases all.len() - i,
    {
        assert(all.take(i + 1).drop_last() =~= all.take(i as int));
        if all_timings[i].is_none() {
            let ghost prev = missing_groups(all.take(i as int));
            if count > 0 {
                listing.append(", ");
            }
            append_decimal(&mut listing, i as u64);
            proof {
                lemma_missing_groups_bounded(all.take(i as int));
                let now = prev.push(i as nat);
                assert(missing_groups(all.take(i + 1)) == now);
                assert(now.drop_last() =~= prev);
                if count > 0 {
                    assert(listing@ =~= joined_decimals(now));
                } else {
                    assert(listing@ =~= joined_decimals(now));
                }
            }
            count = count + 1;
        }
        i = i + 1;
    }
    assert(all.take(all.len() as int) =~= all);
    if count > 0 {
        let mut m = String::from_str(context);
        m.append(" completed without timings for group(s): ");
        m.append("[");
        m.append(listing.as_str());
        m.append("]");
        assert(m@ =~= missing_timings_message(context@, missing_groups(all)));
        return Err(ServerError::Validation(m));
    }
    proof {
        lemma_no_missing_means_all_some(all);
    }
    let mut rest = all_timings;
    let mut out: Vec<Vec<Option<T>>> = Vec::new();
    while rest.len() > 0
        invariant
            out@.len() + rest@.len() == all.len(),
            rest@ == all.skip(out@.len() as int),
            forall|i: int| 0 <= i < all.len() ==> (#[trigger] all[i]) is Some,
            forall|i: int| 0 <= i < out@.len() ==> all[i] == Some(#[trigger] out@[i]),
        decreases rest@.len(),
    {
        let first = rest.remove(0);
        assert(first == all[out@.len() as int]);
        match first {
            Some(timings) => {
                out.push(timings);
            },
            None => {
                assert(false);
            },
        }
        assert(rest@ =~= all.skip(out@.len() as int));
    }
    Ok(out)
}

} // verus!

verus! {

/// How forced alignment starts on one parsed file.
#[derive(Clone, Copy, Debug, PartialEq, Eq, Structural)]
pub enum FaEntryPath {
    /// A dummy file, or one marked not to be aligned: serialize it as is.
    PassThrough,
    /// The main tiers do not validate: refuse the file.
    RejectPreValidation,
    /// Complete `%wor` timing is already there: rebuild from it, no audio.
    ReuseExistingTiming,
    /// Group the utterances and align them.
    Align,
}

/// The entry path of a file from what its parse shows, checked in this
/// order: dummy, no-align option, pre-validation, reusable timing.
pub fn fa_entry_path(is_dummy: bool, is_no_align: bool, pre_validation_ok: bool, has_reusable_wor_timing: bool) -> (r: FaEntryPath)
    ensures
        r == (if is_dummy || is_no_align {
            FaEntryPath::PassThrough
        } else if !pre_validation_ok {
            FaEntryPath::RejectPreValidation
        } else if has_reusable_wor_timing {
            FaEntryPath::ReuseExistingTiming
        } else {
            FaEntryPath::Align
        }),
{
    if is_dummy || is_no_align {
        FaEntryPath::PassThrough
    } else if !pre_validation_ok {
        FaEntryPath::RejectPreValidation
    } else if has_reusable_wor_timing {
        FaEntryPath::ReuseExistingTiming
    } else {
        FaEntryPath::Align
    }
}

/// The error for a file whose main tiers do not validate, listing the
/// validation messages.
pub fn pre_validation_failure(msgs: &Vec<String>) -> (r: ServerError)
    ensures
        r matches ServerError::Validation(m) && m@ == "align pre-validation failed: "@ + joined_messages(msgs@),
{
    let m = pre_validation_message("align", msgs);
    proof {
        reveal_strlit("align");
        reveal_strlit(" pre-validation failed: ");
        reveal_strlit("align pre-validation failed: ");
    }
    assert(m@ =~= "align pre-validation failed: "@ + joined_messages(msgs@));
    ServerError::Validation(m)
}

/// A group can take its timing from `%wor` only when some utterances are
/// reusable and all of the group's utterances are among them.
pub open spec fn spec_group_fully_reusable(utterances: Seq<usize>, reusable: Seq<usize>) -> bool {
    reusable.len() > 0 && forall|k: int| 0 <= k < utterances.len() ==> reusable.contains(#[trigger] utterances[k])
}

pub fn group_fully_reusable(utterances: &Vec<usize>, reusable: &Vec<usize>) -> (r: bool)
    ensures
        r == spec_group_fully_reusable(utterances@, reusable@),
{
    if reusable.len() == 0 {
        return false;
    }
    let mut k: usize = 0;
    while k < utterances.len()
        invariant
            k <= utterances@.len(),
            forall|m: int| 0 <= m < k ==> reusable@.contains(#[trigger] utterances@[m]),
        decreases utterances@.len() - k,
    {
        let u = utterances[k];
        let mut found = false;
        let mut j: usize = 0;
        while j < reusable.len() && !found
            invariant
                j <= reusable@.len(),
                found ==> reusable@.contains(u),
                !found ==> forall|m: int| 0 <= m < j ==> reusable@[m] != u,
            decreases reusable@.len() - j + if found { 0int } else { 1int },
        {
            if reusable[j] == u {
                found = true;
                assert(reusable@[j as int] == u);
            } else {
                j = j + 1;
            }
        }
        if !found {
            assert(!reusable@.contains(u)) by {
                if reusable@.contains(u) {
                    let w = choose|w: int| 0 <= w < reusable@.len() && reusable@[w] == u;
                    assert(reusable@[w] != u);
                }
            }
            return false;
        }
        k = k + 1;
    }
    true
}

/// The groups' timings before inference: from `%wor` where the group was
/// reusable and its timing was preserved, else from the cache; the groups
/// with neither are the misses, in group order.
pub struct FaGroupPartition<T> {
    pub timings: Vec<Option<Vec<Option<T>>>>,
    pub miss_indices: Vec<usize>,
    pub reused: usize,
    pub cache_hits: usize,
}

/// Positions `< n` where both sources are empty, in increasing order.
pub open spec fn miss_positions<T>(preserved: Seq<Option<T>>, cached: Seq<Option<T>>, n: int) -> Seq<usize>
    decreases n,
{
    if n <= 0 {
        Seq::empty()
    } else {
        let prev = miss_positions(preserved, cached, n - 1);
        if preserved[n - 1] is None && cached[n - 1] is None { prev.push((n - 1) as usize) } else { prev }
    }
}

/// How many positions `< n` satisfy `p`.
pub open spec fn count_where(p: spec_fn(int) -> bool, n: int) -> nat
    decreases n,
{
    if n <= 0 { 0 } else { count_where(p, n - 1) + if p(n - 1) { 1nat } else { 0nat } }
}

/// Partition the groups: `preserved[i]` holds the group's `%wor` timing when
/// the group was reusable and its timing could be read back, `cached[i]` the
/// decoded cache entry when there was one.
pub fn partition_fa_groups<T>(preserved: Vec<Option<Vec<Option<T>>>>, cached: Vec<Option<Vec<Option<T>>>>) -> (r: FaGroupPartition<T>)
    requires
        preserved@.len() == cached@.len(),
    ensures
        r.timings@.len() == preserved@.len(),
        forall|i: int| 0 <= i < preserved@.len() ==> #[trigger] r.timings@[i] == (
            if preserved@[i] is Some { preserved@[i] } else { cached@[i] }),
        r.miss_indices@ == miss_positions(preserved@, cached@, preserved@.len() as int),
        r.reused == count_where(|i: int| preserved@[i] is Some, preserved@.len() as int),
        r.cache_hits == count_where(|i: int| preserved@[i] is None && cached@[i] is Some, preserved@.len() as int),
        r.reused + r.cache_hits + r.miss_indices@.len() == preserved@.len(),
{
    let ghost p0 = preserved@;
    let ghost c0 = cached@;
    let n = preserved.len();
    let mut preserved = preserved;
    let mut cached = cached;
    let mut timings: Vec<Option<Vec<Option<T>>>> = Vec::new();
    let mut miss_indices: Vec<usize> = Vec::new();
    let mut reused: usize = 0;
    let mut cache_hits: usize = 0;
    let ghost pr = |i: int| p0[i] is Some;
    let ghost ch = |i: int| p0[i] is None && c0[i] is Some;
    let mut i: usize = 0;
    while i < n
        invariant
            n == p0.len(),
            n == c0.len(),
            i <= n,
            preserved@.len() == n - i,
            cached@.len() == n - i,
            preserved@ == p0.skip(i as int),
            cached@ == c0.skip(i as int),
            timings@.len() == i,
            forall|k: int| 0 <= k < i ==> #[trigger] timings@[k] == (if p0[k] is Some { p0[k] } else { c0[k] }),
            miss_indices@ == miss_positions(p0, c0, i as int),
            pr == (|k: int| p0[k] is Some),
            ch == (|k: int| p0[k] is None && c0[k] is Some),
            reused == count_where(pr, i as int),
            cache_hits == count_where(ch, i as int),
            reused + cache_hits + miss_indices@.len() == i,
        decreases n - i,
    {
        let p = preserved.remove(0);
        let c = cached.remove(0);
        assert(p == p0[i as int]);
        assert(c == c0[i as int]);
        assert(p0.skip(i as int).skip(1) =~= p0.skip(i + 1));
        assert(c0.skip(i as int).skip(1) =~= c0.skip(i + 1));
        assert(count_where(pr, i + 1) == count_where(pr, i as int) + if pr(i as int) { 1nat } else { 0nat });
        assert(count_where(ch, i + 1) == count_where(ch, i as int) + if ch(i as int) { 1nat } else { 0nat });
        match p {
            Some(t) => {
                assert(pr(i as int) && !ch(i as int));
                timings.push(Some(t));
                reused = reused + 1;
            },
            None => match c {
                Some(t) => {
                    assert(!pr(i as int) && ch(i as int));
                    timings.push(Some(t));
                    cache_hits = cache_hits + 1;
                },
                None => {
                    assert(!pr(i as int) && !ch(i as int));
                    timings.push(None);
                    miss_indices.push(i);
                },
            },
        }
        i = i + 1;
    }
    FaGroupPartition { timings, miss_indices, reused, cache_hits }
}

/// `timings` after the first `n` inferred results were put at their group
/// positions, one after the other.
pub open spec fn placed<T>(timings: Seq<Option<T>>, inferred: Seq<(usize, T)>, n: int) -> Seq<Option<T>>
    decreases n,
{
    if n <= 0 {
        timings
    } else {
        placed(timings, inferred, n - 1).update(inferred[n - 1].0 as int, Some(inferred[n - 1].1))
    }
}

/// Put each inferred group's timings at its group position.
pub fn place_inferred_timings<T>(timings: &mut Vec<Option<Vec<Option<T>>>>, inferred: Vec<(usize, Vec<Option<T>>)>)
    requires
        forall|k: int| 0 <= k < inferred@.len() ==> (#[trigger] inferred@[k]).0 < old(timings)@.len(),
    ensures
        final(timings)@ == placed(old(timings)@, inferred@, inferred@.len() as int),
{
    let ghost all = inferred@;
    let mut rest = inferred;
    let mut done: usize = 0;
    let total = rest.len();
    assert(all.skip(0) =~= all);
    while rest.len() > 0
        invariant
            done + rest@.len() == all.len(),
            all.len() <= usize::MAX,
            rest@ == all.skip(done as int),
            forall|k: int| 0 <= k < all.len() ==> (#[trigger] all[k]).0 < old(timings)@.len(),
            timings@ == placed(old(timings)@, all, done as int),
            timings@.len() == old(timings)@.len(),
        decreases rest@.len(),
    {
        let (g, t) = rest.remove(0);
        assert(all[done as int] == (g, t));
        assert(all.skip(done as int).skip(1) =~= all.skip(done + 1));
        timings.set(g, Some(t));
        done = done + 1;
    }
}

/// With distinct group positions, every inferred group ends up with its own
/// timings and the other groups keep theirs.
pub proof fn lemma_placed_distinct<T>(timings: Seq<Option<T>>, inferred: Seq<(usize, T)>, n: int)
    requires
        0 <= n <= inferred.len(),
        forall|k: int| 0 <= k < inferred.len() ==> (#[trigger] inferred[k]).0 < timings.len(),
        forall|k: int, m: int| 0 <= k < m < inferred.len() ==> inferred[k].0 != inferred[m].0,
    ensures
        placed(timings, inferred, n).len() == timings.len(),
        forall|k: int| 0 <= k < n ==> placed(timings, inferred, n)[(#[trigger] inferred[k]).0 as int] == Some(inferred[k].1),
        forall|g: int| 0 <= g < timings.len() && (forall|k: int| 0 <= k < n ==> (#[trigger] inferred[k]).0 != g)
            ==> placed(timings, inferred, n)[g] == timings[g],
    decreases n,
{
    if n > 0 {
        lemma_placed_distinct(timings, inferred, n - 1);
    }
}

/// An edited file keeps something to reuse when some utterances are
/// unchanged, only changed speaker, or only changed timing; otherwise it is
/// aligned as a whole.
pub fn incremental_has_reuse(unchanged: usize, speaker_changed: usize, timing_only: usize) -> (r: bool)
    ensures
        r == !(unchanged == 0 && speaker_changed == 0 && timing_only == 0),
{
    !(unchanged == 0 && speaker_changed == 0 && timing_only == 0)
}

/// In an incremental run a group is aligned again when one of its
/// utterances did not get its timing back from the earlier file.
pub open spec fn spec_group_needs_realign(utterances: Seq<usize>, reusable: Seq<usize>) -> bool {
    exists|k: int| 0 <= k < utterances.len() && !reusable.contains(#[trigger] utterances[k])
}

pub fn group_needs_realign(utterances: &Vec<usize>, reusable: &Vec<usize>) -> (r: bool)
    ensures
        r == spec_group_needs_realign(utterances@, reusable@),
{
    let mut k: usize = 0;
    while k < utterances.len()
        invariant
            k <= utterances@.len(),
            forall|m: int| 0 <= m < k ==> reusable@.contains(#[trigger] utterances@[m]),
        decreases utterances@.len() - k,
    {
        let u = utterances[k];
        let mut found = false;
        let mut j: usize = 0;
        while j < reusable.len() && !found
            invariant
                j <= reusable@.len(),
                found ==> reusable@.contains(u),
                !found ==> forall|m: int| 0 <= m < j ==> reusable@[m] != u,
            decreases reusable@.len() - j + if found { 0int } else { 1int },
        {
            if reusable[j] == u {
                found = true;
                assert(reusable@[j as int] == u);
            } else {
                j = j + 1;
            }
        }
        if !found {
            assert(!reusable@.contains(u)) by {
                if reusable@.contains(u) {
                    let w = choose|w: int| 0 <= w < reusable@.len() && reusable@[w] == u;
                    assert(reusable@[w] != u);
                }
            }
            assert(!reusable@.contains(utterances@[k as int]));
            return true;
        }
        k = k + 1;
    }
    false
}

/// With some timing reused, the full run and the incremental run agree on
/// which groups are aligned again.
pub proof fn lemma_realign_is_not_reusable(utterances: Seq<usize>, reusable: Seq<usize>)
    requires
        reusable.len() > 0,
    ensures
        spec_group_needs_realign(utterances, reusable) == !spec_group_fully_reusable(utterances, reusable),
{
}

/// One word of an alignment group: its utterance, its position in the
/// utterance, and its text.
#[derive(Clone, Debug, PartialEq, Eq)]
pub struct FaWord {
    pub utterance_index: usize,
    pub utterance_word_index: usize,
    pub text: String,
}

/// One alignment group: the audio window and the words aligned in it.
#[derive(Clone, Debug, PartialEq, Eq)]
pub struct FaGroup {
    pub audio_start_ms: u64,
    pub audio_end_ms: u64,
    pub words: Vec<FaWord>,
    pub utterance_indices: Vec<usize>,
}

/// What a worker gets for one group; `M` is the timing mode the worker is
/// asked for, passed through as given.
#[derive(Clone, Debug, PartialEq, Eq)]
pub struct FaInferItem<M> {
    pub words: Vec<String>,
    pub word_ids: Vec<String>,
    pub word_utterance_indices: Vec<usize>,
    pub word_utterance_word_indices: Vec<usize>,
    pub audio_path: String,
    pub audio_start_ms: u64,
    pub audio_end_ms: u64,
    pub timing_mode: M,
}

/// The stable id of a word: `u{utterance}:w{word}`.
pub open spec fn word_stable_id(utterance: usize, word: usize) -> Seq<char> {
    "u"@ + decimal(utterance as nat) + ":w"@ + decimal(word as nat)
}

/// The request item of one group: the words as sent (`word_texts`), each
/// word's stable id and its utterance coordinates, the audio file and the
/// group's window.
pub fn build_fa_infer_item<M>(word_texts: &Vec<String>, group: &FaGroup, audio_path: &str, timing_mode: M) -> (r: FaInferItem<M>)
    ensures
        r.words@ == word_texts@,
        r.word_ids@.len() == group.words@.len(),
        forall|i: int| 0 <= i < group.words@.len() ==>
            (#[trigger] r.word_ids@[i])@ == word_stable_id(group.words@[i].utterance_index, group.words@[i].utterance_word_index),
        r.word_utterance_indices@ == group.words@.map_values(|w: FaWord| w.utterance_index),
        r.word_utterance_word_indices@ == group.words@.map_values(|w: FaWord| w.utterance_word_index),
        r.audio_path@ == audio_path@,
        r.audio_start_ms == group.audio_start_ms,
        r.audio_end_ms == group.audio_end_ms,
        r.timing_mode == timing_mode,
{
    let mut word_ids: Vec<String> = Vec::new();
    let mut utts: Vec<usize> = Vec::new();
    let mut positions: Vec<usize> = Vec::new();
    let mut i: usize = 0;
    while i < group.words.len()
        invariant
            i <= group.words@.len(),
            word_ids@.len() == i,
            forall|t: int| 0 <= t < i ==>
                (#[trigger] word_ids@[t])@ == word_stable_id(group.words@[t].utterance_index, group.words@[t].utterance_word_index),
            utts@ == group.words@.map_values(|w: FaWord| w.utterance_index).take(i as int),
            positions@ == group.words@.map_values(|w: FaWord| w.utterance_word_index).take(i as int),
        decreases group.words@.len() - i,
    {
        let w = &group.words[i];
        let mut id = String::from_str("u");
        append_decimal(&mut id, w.utterance_index as u64);
        id.append(":w");
        append_decimal(&mut id, w.utterance_word_index as u64);
        assert(id@ =~= word_stable_id(w.utterance_index, w.utterance_word_index));
        word_ids.push(id);
        utts.push(w.utterance_index);
        positions.push(w.utterance_word_index);
        assert(utts@ =~= group.words@.map_values(|w: FaWord| w.utterance_index).take(i + 1));
        assert(positions@ =~= group.words@.map_values(|w: FaWord| w.utterance_word_index).take(i + 1));
        i = i + 1;
    }
    assert(utts@ =~= group.words@.map_values(|w: FaWord| w.utterance_index));
    assert(positions@ =~= group.words@.map_values(|w: FaWord| w.utterance_word_index));
    FaInferItem {
        words: clone_strings(word_texts),
        word_ids,
        word_utterance_indices: utts,
        word_utterance_word_indices: positions,
        audio_path: String::from_str(audio_path),
        audio_start_ms: group.audio_start_ms,
        audio_end_ms: group.audio_end_ms,
        timing_mode,
    }
}

fn clone_strings(v: &Vec<String>) -> (r: Vec<String>)
    ensures
        r@ == v@,
{
    let mut out: Vec<String> = Vec::new();
    let mut i: usize = 0;
    while i < v.len()
        invariant
            i <= v@.len(),
            out@ == v@.take(i as int),
        decreases v@.len() - i,
    {
        out.push(v[i].clone());
        assert(out@ =~= v@.take(i + 1));
        i = i + 1;
    }
    assert(out@ =~= v@);
    out
}

} // verus!
