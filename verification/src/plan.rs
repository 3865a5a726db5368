//! Dispatch plans read from a job's options: which cache tasks to bypass and
//! each task's cache policy, runtime-only flags with their defaults, the
//! speaker diarization backend, the plans of the batched text, transcription,
//! benchmark and media-analysis commands, and the speaker count of a
//! diarization result.

use vstd::prelude::*;
use vstd::string::*;
use crate::text::{is_unicode_whitespace, str_equal, char_is_unicode_whitespace};

verus! {

/// A cache namespace, one per cached task.
#[derive(Clone, Copy, Debug, PartialEq, Eq, Structural)]
pub enum CacheTaskName {
    Morphosyntax,
    UtrAsr,
    ForcedAlignment,
    UtteranceSegmentation,
    Translation,
}

pub open spec fn spec_cache_task_name(t: CacheTaskName) -> Seq<char> {
    match t {
        CacheTaskName::Morphosyntax => "morphosyntax"@,
        CacheTaskName::UtrAsr => "utr_asr"@,
        CacheTaskName::ForcedAlignment => "forced_alignment"@,
        CacheTaskName::UtteranceSegmentation => "utterance_segmentation"@,
        CacheTaskName::Translation => "translation"@,
    }
}

impl CacheTaskName {
    /// The wire name of the task.
    pub fn as_str(&self) -> (r: &'static str)
        ensures
            r@ == spec_cache_task_name(*self),
    {
        match self {
            CacheTaskName::Morphosyntax => "morphosyntax",
            CacheTaskName::UtrAsr => "utr_asr",
            CacheTaskName::ForcedAlignment => "forced_alignment",
            CacheTaskName::UtteranceSegmentation => "utterance_segmentation",
            CacheTaskName::Translation => "translation",
        }
    }
}

/// `s` with leading and trailing whitespace removed (`str::trim`).
pub open spec fn trimmed(s: Seq<char>) -> Seq<char>
    decreases s.len(),
{
    if s.len() > 0 && is_unicode_whitespace(s[0]) {
        trimmed(s.drop_first())
    } else if s.len() > 0 && is_unicode_whitespace(s.last()) {
        trimmed(s.drop_last())
    } else {
        s
    }
}

/// The cache task a (trimmed) wire name denotes, if any.
pub open spec fn spec_parse_cache_task_name(name: Seq<char>) -> Option<CacheTaskName> {
    let t = trimmed(name);
    if t == "morphosyntax"@ {
        Some(CacheTaskName::Morphosyntax)
    } else if t == "utr_asr"@ {
        Some(CacheTaskName::UtrAsr)
    } else if t == "forced_alignment"@ {
        Some(CacheTaskName::ForcedAlignment)
    } else if t == "utterance_segmentation"@ {
        Some(CacheTaskName::UtteranceSegmentation)
    } else if t == "translation"@ {
        Some(CacheTaskName::Translation)
    } else {
        None
    }
}

/// Bounds of the trimmed part of `s`: `s[lo..hi]`.
pub(crate) fn trim_bounds(s: &str) -> (r: (usize, usize))
    ensures
        r.0 <= r.1 <= s@.len(),
        s@.subrange(r.0 as int, r.1 as int) == trimmed(s@),
{
    let n = s.unicode_len();
    let mut lo: usize = 0;
    assert(s@.subrange(0, n as int) =~= s@);
    while lo < n && char_is_unicode_whitespace(s.get_char(lo))
        invariant
            lo <= n,
            n == s@.len(),
            trimmed(s@.subrange(lo as int, n as int)) == trimmed(s@),
        decreases n - lo,
    {
        assert(s@.subrange(lo as int, n as int).drop_first() =~= s@.subrange(lo + 1, n as int));
        lo = lo + 1;
    }
    let mut hi: usize = n;
    while hi > lo && char_is_unicode_whitespace(s.get_char(hi - 1))
        invariant
            lo <= hi <= n,
            n == s@.len(),
            trimmed(s@.subrange(lo as int, hi as int)) == trimmed(s@),
            lo < hi ==> !is_unicode_whitespace(s@[lo as int]),
        decreases hi - lo,
    {
        let ghost t = s@.subrange(lo as int, hi as int);
        assert(t.drop_last() =~= s@.subrange(lo as int, hi - 1));
        if hi - 1 > lo {
            assert(t[0] == s@[lo as int]);
        }
        hi = hi - 1;
    }
    proof {
        let t = s@.subrange(lo as int, hi as int);
        if t.len() > 0 {
            assert(t[0] == s@[lo as int]);
            assert(t.last() == s@[hi - 1]);
        }
    }
    (lo, hi)
}

/// Parses a cache task wire name, ignoring surrounding whitespace.
pub fn parse_cache_task_name(name: &str) -> (r: Option<CacheTaskName>)
    ensures
        r == spec_parse_cache_task_name(name@),
{
    let (lo, hi) = trim_bounds(name);
    let t = name.substring_char(lo, hi);
    if str_equal(t, "morphosyntax") {
        Some(CacheTaskName::Morphosyntax)
    } else if str_equal(t, "utr_asr") {
        Some(CacheTaskName::UtrAsr)
    } else if str_equal(t, "forced_alignment") {
        Some(CacheTaskName::ForcedAlignment)
    } else if str_equal(t, "utterance_segmentation") {
        Some(CacheTaskName::UtteranceSegmentation)
    } else if str_equal(t, "translation") {
        Some(CacheTaskName::Translation)
    } else {
        None
    }
}

/// Every task's wire name parses back to that task.
pub proof fn lemma_cache_task_name_roundtrip(t: CacheTaskName)
    ensures
        spec_parse_cache_task_name(spec_cache_task_name(t)) == Some(t),
{
    reveal_strlit("morphosyntax");
    reveal_strlit("utr_asr");
    reveal_strlit("forced_alignment");
    reveal_strlit("utterance_segmentation");
    reveal_strlit("translation");
    let n = spec_cache_task_name(t);
    assert(n.len() > 0 && !is_unicode_whitespace(n[0]) && !is_unicode_whitespace(n.last()));
    assert(trimmed(n) == n);
}

/// Which cached tasks a job bypasses.
#[derive(Clone, Debug, PartialEq, Eq)]
pub enum CacheOverrides {
    /// The listed tasks only.
    Tasks(Vec<CacheTaskName>),
    /// Every task.
    All,
    /// No task.
    NoTasks,
}

/// The tasks of the names that parse, in order.
pub open spec fn parsed_tasks(names: Seq<String>) -> Seq<CacheTaskName>
    decreases names.len(),
{
    if names.len() == 0 {
        Seq::empty()
    } else {
        let prev = parsed_tasks(names.drop_last());
        match spec_parse_cache_task_name(names.last()@) {
            Some(t) => prev.push(t),
            None => prev,
        }
    }
}

/// Per-task overrides win when any are listed; otherwise the all-or-nothing
/// flag decides.
pub fn resolve_cache_overrides(override_cache_tasks: &Vec<String>, override_cache: bool) -> (r: CacheOverrides)
    ensures
        override_cache_tasks@.len() > 0 ==> (r matches CacheOverrides::Tasks(ts) && ts@ == parsed_tasks(override_cache_tasks@)),
        override_cache_tasks@.len() == 0 && override_cache ==> r == CacheOverrides::All,
        override_cache_tasks@.len() == 0 && !override_cache ==> r == CacheOverrides::NoTasks,
{
    if override_cache_tasks.len() > 0 {
        let mut tasks: Vec<CacheTaskName> = Vec::new();
        let mut i: usize = 0;
        while i < override_cache_tasks.len()
            invariant
                i <= override_cache_tasks@.len(),
                tasks@ == parsed_tasks(override_cache_tasks@.take(i as int)),
            decreases override_cache_tasks@.len() - i,
        {
            assert(override_cache_tasks@.take(i + 1).drop_last() =~= override_cache_tasks@.take(i as int));
            match parse_cache_task_name(override_cache_tasks[i].as_str()) {
                Some(t) => tasks.push(t),
                None => {},
            }
            i = i + 1;
        }
        assert(override_cache_tasks@.take(override_cache_tasks@.len() as int) =~= override_cache_tasks@);
        CacheOverrides::Tasks(tasks)
    } else if override_cache {
        CacheOverrides::All
    } else {
        CacheOverrides::NoTasks
    }
}

/// The value a runtime-state entry holds for `key`: the first entry with
/// that key.
pub open spec fn runtime_lookup(state: Seq<(String, String)>, key: Seq<char>) -> Option<Seq<char>>
    decreases state.len(),
{
    if state.len() == 0 {
        None
    } else if state[0].0@ == key {
        Some(state[0].1@)
    } else {
        runtime_lookup(state.drop_first(), key)
    }
}

/// A runtime flag: its value when the entry is the JSON boolean `true` or
/// `false`, else the default.
pub open spec fn spec_runtime_flag(state: Seq<(String, String)>, key: Seq<char>, default: bool) -> bool {
    match runtime_lookup(state, key) {
        Some(v) => if v == "true"@ { true } else if v == "false"@ { false } else { default },
        None => default,
    }
}

/// Resolves one runtime-only flag of a job, with its documented default.
/// Runtime values are held as JSON text.
pub fn runtime_flag(runtime_state: &Vec<(String, String)>, key: &str, default: bool) -> (r: bool)
    ensures
        r == spec_runtime_flag(runtime_state@, key@, default),
{
    let mut i: usize = 0;
    assert(runtime_state@.skip(0) =~= runtime_state@);
    while i < runtime_state.len()
        invariant
            i <= runtime_state@.len(),
            runtime_lookup(runtime_state@.skip(i as int), key@) == runtime_lookup(runtime_state@, key@),
        decreases runtime_state@.len() - i,
    {
        let ghost rest = runtime_state@.skip(i as int);
        assert(rest[0] == runtime_state@[i as int]);
        if str_equal(runtime_state[i].0.as_str(), key) {
            let v = runtime_state[i].1.as_str();
            if str_equal(v, "true") {
                return true;
            } else if str_equal(v, "false") {
                return false;
            } else {
                return default;
            }
        }
        assert(rest.drop_first() =~= runtime_state@.skip(i + 1));
        i = i + 1;
    }
    default
}

/// The dedicated speaker diarization backend.
#[derive(Clone, Copy, Debug, PartialEq, Eq, Structural)]
pub enum SpeakerBackend {
    Pyannote,
    Nemo,
}

/// `nemo` when the speaker engine override says so; Pyannote otherwise.
pub fn resolve_speaker_backend(engine_override: Option<&str>) -> (r: SpeakerBackend)
    ensures
        r == (if engine_override matches Some(v) && v@ == "nemo"@ { SpeakerBackend::Nemo } else { SpeakerBackend::Pyannote }),
{
    match engine_override {
        Some(v) => if str_equal(v, "nemo") { SpeakerBackend::Nemo } else { SpeakerBackend::Pyannote },
        None => SpeakerBackend::Pyannote,
    }
}

/// One diarization segment's speaker label.
#[derive(Clone, Debug, PartialEq, Eq)]
pub struct SpeakerSegment {
    pub speaker: String,
    pub start_ms: u64,
    pub end_ms: u64,
}

/// The set of speaker labels of a list of segments.
pub open spec fn speaker_set(segments: Seq<SpeakerSegment>) -> Set<Seq<char>> {
    segments.map_values(|s: SpeakerSegment| s.speaker@).to_set()
}

/// How many distinct speakers a diarization result names.
pub fn unique_diarization_speaker_count(segments: &[SpeakerSegment]) -> (r: usize)
    ensures
        r == speaker_set(segments@).len(),
{
    let mut seen: Vec<String> = Vec::new();
    let mut i: usize = 0;
    while i < segments.len()
        invariant
            i <= segments@.len(),
            seen@.map_values(|x: String| x@).to_set() == speaker_set(segments@.take(i as int)),
            seen@.map_values(|x: String| x@).no_duplicates(),
            seen@.len() == seen@.map_values(|x: String| x@).len(),
        decreases segments@.len() - i,
    {
        let ghost before = seen@.map_values(|x: String| x@);
        let label = segments[i].speaker.as_str();
        let mut found = false;
        let mut j: usize = 0;
        while j < seen.len()
            invariant
                j <= seen@.len(),
                seen@.map_values(|x: String| x@) == before,
                found == exists|k: int| 0 <= k < j && before[k] == label@,
            decreases seen@.len() - j,
        {
            assert(before[j as int] == seen@[j as int]@);
            if str_equal(seen[j].as_str(), label) {
                found = true;
            }
            j = j + 1;
        }
        assert(segments@.take(i + 1).map_values(|s: SpeakerSegment| s.speaker@)
            =~= segments@.take(i as int).map_values(|s: SpeakerSegment| s.speaker@).push(label@));
        proof {
            segments@.take(i as int).map_values(|s: SpeakerSegment| s.speaker@).lemma_push_to_set_commute(label@);
        }
        if !found {
            seen.push(String::from_str(label));
            assert(seen@.map_values(|x: String| x@) =~= before.push(label@));
            proof {
                before.lemma_push_to_set_commute(label@);
            }
        } else {
            assert(before.contains(label@));
            assert(before.to_set().insert(label@) =~= before.to_set());
        }
        i = i + 1;
    }
    assert(segments@.take(segments@.len() as int) =~= segments@);
    proof {
        seen@.map_values(|x: String| x@).unique_seq_to_set();
    }
    seen.len()
}

/// Whether a task reads and writes the cache.
#[derive(Clone, Copy, Debug, PartialEq, Eq, Structural)]
pub enum CachePolicy {
    UseCache,
    SkipCache,
}

/// A bypassed task skips the cache; every other task uses it.
pub open spec fn spec_policy_for(overrides: CacheOverrides, task: CacheTaskName) -> CachePolicy {
    match overrides {
        CacheOverrides::Tasks(ts) => if ts@.contains(task) { CachePolicy::SkipCache } else { CachePolicy::UseCache },
        CacheOverrides::All => CachePolicy::SkipCache,
        CacheOverrides::NoTasks => CachePolicy::UseCache,
    }
}

fn contains_task(ts: &Vec<CacheTaskName>, task: CacheTaskName) -> (r: bool)
    ensures
        r == ts@.contains(task),
{
    let mut i: usize = 0;
    while i < ts.len()
        invariant
            i <= ts@.len(),
            forall|j: int| 0 <= j < i ==> ts@[j] != task,
        decreases ts@.len() - i,
    {
        if ts[i] == task {
            assert(ts@[i as int] == task);
            return true;
        }
        i = i + 1;
    }
    false
}

impl CacheOverrides {
    /// The cache policy of one task under these overrides.
    pub fn policy_for(&self, task: CacheTaskName) -> (r: CachePolicy)
        ensures
            r == spec_policy_for(*self, task),
    {
        match self {
            CacheOverrides::Tasks(ts) => if contains_task(ts, task) { CachePolicy::SkipCache } else { CachePolicy::UseCache },
            CacheOverrides::All => CachePolicy::SkipCache,
            CacheOverrides::NoTasks => CachePolicy::UseCache,
        }
    }
}

/// The all-or-nothing flag as a policy: set means skip the cache.
pub fn cache_policy_from_flag(override_cache: bool) -> (r: CachePolicy)
    ensures
        r == (if override_cache { CachePolicy::SkipCache } else { CachePolicy::UseCache }),
{
    if override_cache { CachePolicy::SkipCache } else { CachePolicy::UseCache }
}

/// A task's policy: the command's own override flag skips the cache;
/// otherwise the per-task overrides decide.
pub fn task_cache_policy(override_cache: bool, overrides: &CacheOverrides, task: CacheTaskName) -> (r: CachePolicy)
    ensures
        r == (if override_cache { CachePolicy::SkipCache } else { spec_policy_for(*overrides, task) }),
{
    if override_cache {
        CachePolicy::SkipCache
    } else {
        overrides.policy_for(task)
    }
}

/// How morphosyntax tokenizes.
#[derive(Clone, Copy, Debug, PartialEq, Eq, Structural)]
pub enum TokenizationMode {
    Preserve,
    StanzaRetokenize,
}

/// Which languages of a multilingual file morphosyntax processes.
#[derive(Clone, Copy, Debug, PartialEq, Eq, Structural)]
pub enum MultilingualPolicy {
    ProcessAll,
    SkipNonPrimary,
}

/// The options of a morphotag command that the batched plan reads.
#[derive(Clone, Copy, Debug, PartialEq, Eq, Structural)]
pub struct MorphotagSettings {
    pub retokenize: bool,
    pub skipmultilang: bool,
    pub override_cache: bool,
    pub merge_abbrev: bool,
}

/// The behaviour knobs of the batched text commands.
#[derive(Clone, Copy, Debug, PartialEq, Eq, Structural)]
pub struct BatchedInferDispatchPlan {
    pub tokenization_mode: TokenizationMode,
    pub multilingual_policy: MultilingualPolicy,
    pub cache_policy: CachePolicy,
    pub should_merge_abbrev: bool,
}

/// The batched plan: morphotag's own options when the command is morphotag,
/// else preserved tokens, all languages and the common options; the cache
/// policy is the morphosyntax task's.
pub fn batched_dispatch_plan(
    morphotag: Option<MorphotagSettings>,
    common_override_cache: bool,
    common_merge_abbrev: bool,
    overrides: &CacheOverrides,
) -> (r: BatchedInferDispatchPlan)
    ensures
        ({
            let (retok, skip, ovr, merge) = match morphotag {
                Some(m) => (m.retokenize, m.skipmultilang, m.override_cache, m.merge_abbrev),
                None => (false, false, common_override_cache, common_merge_abbrev),
            };
            &&& r.tokenization_mode == (if retok { TokenizationMode::StanzaRetokenize } else { TokenizationMode::Preserve })
            &&& r.multilingual_policy == (if skip { MultilingualPolicy::SkipNonPrimary } else { MultilingualPolicy::ProcessAll })
            &&& r.cache_policy == (if ovr { CachePolicy::SkipCache } else { spec_policy_for(*overrides, CacheTaskName::Morphosyntax) })
            &&& r.should_merge_abbrev == merge
        }),
{
    let (tokenization_mode, multilingual_policy, override_cache, merge_abbrev) = match morphotag {
        Some(m) => (
            if m.retokenize { TokenizationMode::StanzaRetokenize } else { TokenizationMode::Preserve },
            if m.skipmultilang { MultilingualPolicy::SkipNonPrimary } else { MultilingualPolicy::ProcessAll },
            m.override_cache,
            m.merge_abbrev,
        ),
        None => (TokenizationMode::Preserve, MultilingualPolicy::ProcessAll, common_override_cache, common_merge_abbrev),
    };
    BatchedInferDispatchPlan {
        tokenization_mode,
        multilingual_policy,
        cache_policy: task_cache_policy(override_cache, overrides, CacheTaskName::Morphosyntax),
        should_merge_abbrev: merge_abbrev,
    }
}

/// The base options of a transcription (or the ASR phase of a benchmark).
#[derive(Clone, Debug, PartialEq, Eq)]
pub struct TranscribeDispatchPlan {
    /// The recognition engine, by its wire name.
    pub asr_engine: String,
    pub diarize: bool,
    pub speaker_backend: Option<SpeakerBackend>,
    pub lang: String,
    pub num_speakers: u32,
    pub with_utseg: bool,
    pub with_morphosyntax: bool,
    pub override_cache: bool,
    pub write_wor: bool,
    pub should_merge_abbrev: bool,
}

/// The transcription plan: the dedicated speaker backend only when
/// diarizing, utterance segmentation on and morphosyntax off unless the
/// job's runtime flags say otherwise.
pub fn transcribe_dispatch_plan(
    asr_engine: &str,
    diarize: bool,
    merge_abbrev: bool,
    override_cache: bool,
    write_wor: bool,
    speaker_override: Option<&str>,
    runtime_state: &Vec<(String, String)>,
    lang: &str,
    num_speakers: u32,
) -> (r: TranscribeDispatchPlan)
    ensures
        r.asr_engine@ == asr_engine@,
        r.diarize == diarize,
        r.speaker_backend == (if diarize {
            Some(if speaker_override matches Some(v) && v@ == "nemo"@ { SpeakerBackend::Nemo } else { SpeakerBackend::Pyannote })
        } else {
            None
        }),
        r.lang@ == lang@,
        r.num_speakers == num_speakers,
        r.with_utseg == spec_runtime_flag(runtime_state@, "utseg"@, true),
        r.with_morphosyntax == spec_runtime_flag(runtime_state@, "morphosyntax"@, false),
        r.override_cache == override_cache,
        r.write_wor == write_wor,
        r.should_merge_abbrev == merge_abbrev,
{
    let speaker_backend = if diarize { Some(resolve_speaker_backend(speaker_override)) } else { None };
    let with_utseg = runtime_flag(runtime_state, "utseg", true);
    let with_morphosyntax = runtime_flag(runtime_state, "morphosyntax", false);
    proof {
        reveal_strlit("utseg");
        reveal_strlit("morphosyntax");
    }
    TranscribeDispatchPlan {
        asr_engine: String::from_str(asr_engine),
        diarize,
        speaker_backend,
        lang: String::from_str(lang),
        num_speakers,
        with_utseg,
        with_morphosyntax,
        override_cache,
        write_wor,
        should_merge_abbrev: merge_abbrev,
    }
}

/// The benchmark plan: recognition alone (no diarization, segmentation or
/// morphosyntax) and the comparison's cache policy from the override flag.
pub fn benchmark_dispatch_plan(
    asr_engine: &str,
    merge_abbrev: bool,
    override_cache: bool,
    write_wor: bool,
    lang: &str,
    num_speakers: u32,
) -> (r: (TranscribeDispatchPlan, CachePolicy))
    ensures
        r.0.asr_engine@ == asr_engine@,
        !r.0.diarize,
        r.0.speaker_backend is None,
        r.0.lang@ == lang@,
        r.0.num_speakers == num_speakers,
        !r.0.with_utseg,
        !r.0.with_morphosyntax,
        r.0.override_cache == override_cache,
        r.0.write_wor == write_wor,
        r.0.should_merge_abbrev == merge_abbrev,
        r.1 == (if override_cache { CachePolicy::SkipCache } else { CachePolicy::UseCache }),
{
    let plan = TranscribeDispatchPlan {
        asr_engine: String::from_str(asr_engine),
        diarize: false,
        speaker_backend: None,
        lang: String::from_str(lang),
        num_speakers,
        with_utseg: false,
        with_morphosyntax: false,
        override_cache,
        write_wor,
        should_merge_abbrev: merge_abbrev,
    };
    (plan, cache_policy_from_flag(override_cache))
}

/// What a media-analysis command needs.
#[derive(Clone, Debug, PartialEq, Eq)]
pub enum MediaAnalysisDispatchPlan {
    Opensmile { feature_set: String },
    Avqi,
}

/// The media-analysis plan of a command: OpenSMILE with its feature set
/// (when its options carry one), AVQI, or none for other commands.
pub fn media_analysis_plan(command: &str, opensmile_feature_set: Option<&str>) -> (r: Option<MediaAnalysisDispatchPlan>)
    ensures
        command@ == "opensmile"@ ==> match opensmile_feature_set {
            Some(f) => r matches Some(MediaAnalysisDispatchPlan::Opensmile { feature_set }) && feature_set@ == f@,
            None => r is None,
        },
        command@ == "avqi"@ ==> r == Some(MediaAnalysisDispatchPlan::Avqi),
        command@ != "opensmile"@ && command@ != "avqi"@ ==> r is None,
{
    proof {
        reveal_strlit("opensmile");
        reveal_strlit("avqi");
        assert("opensmile"@.len() != "avqi"@.len());
    }
    if str_equal(command, "opensmile") {
        match opensmile_feature_set {
            Some(f) => Some(MediaAnalysisDispatchPlan::Opensmile { feature_set: String::from_str(f) }),
            None => None,
        }
    } else if str_equal(command, "avqi") {
        Some(MediaAnalysisDispatchPlan::Avqi)
    } else {
        None
    }
}

} // verus!
