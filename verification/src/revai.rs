//! Rev.AI preflight: the language hint sent with each upload, the speaker
//! hint, the submission requests built for a batch, and how the outcomes of
//! the uploads are collected into per-path job ids and errors; and the words
//! a finished Rev.AI transcript yields.

use vstd::prelude::*;
use vstd::string::*;
use crate::paths::{path_file_stem, std_file_stem};
use crate::text::{str_equal, decimal, append_decimal};
use crate::plan::{trim_bounds, trimmed};

verus! {

/// The Rev.AI language code for an ISO 639-3 code, for the languages Rev.AI
/// supports; `None` for any other code.
pub open spec fn spec_revai_code(lang: Seq<char>) -> Option<Seq<char>> {
    if lang == "eng"@ {
        Some("en"@)
    } else if lang == "spa"@ {
        Some("es"@)
    } else if lang == "fra"@ {
        Some("fr"@)
    } else if lang == "deu"@ {
        Some("de"@)
    } else if lang == "ita"@ {
        Some("it"@)
    } else if lang == "por"@ {
        Some("pt"@)
    } else if lang == "nld"@ {
        Some("nl"@)
    } else if lang == "jpn"@ {
        Some("ja"@)
    } else if lang == "kor"@ {
        Some("ko"@)
    } else if lang == "rus"@ {
        Some("ru"@)
    } else if lang == "ara"@ {
        Some("ar"@)
    } else if lang == "tur"@ {
        Some("tr"@)
    } else if lang == "zho"@ {
        Some("cmn"@)
    } else if lang == "cmn"@ {
        Some("cmn"@)
    } else if lang == "pol"@ {
        Some("pl"@)
    } else if lang == "ces"@ {
        Some("cs"@)
    } else if lang == "ron"@ {
        Some("ro"@)
    } else if lang == "hun"@ {
        Some("hu"@)
    } else if lang == "bul"@ {
        Some("bg"@)
    } else if lang == "hrv"@ {
        Some("hr"@)
    } else if lang == "srp"@ {
        Some("sr"@)
    } else if lang == "slk"@ {
        Some("sk"@)
    } else if lang == "slv"@ {
        Some("sl"@)
    } else if lang == "ukr"@ {
        Some("uk"@)
    } else if lang == "lit"@ {
        Some("lt"@)
    } else if lang == "lav"@ {
        Some("lv"@)
    } else if lang == "est"@ {
        Some("et"@)
    } else if lang == "fin"@ {
        Some("fi"@)
    } else if lang == "dan"@ {
        Some("da"@)
    } else if lang == "nor"@ {
        Some("no"@)
    } else if lang == "nob"@ {
        Some("no"@)
    } else if lang == "nno"@ {
        Some("no"@)
    } else if lang == "swe"@ {
        Some("sv"@)
    } else if lang == "isl"@ {
        Some("is"@)
    } else if lang == "ell"@ {
        Some("el"@)
    } else if lang == "cat"@ {
        Some("ca"@)
    } else if lang == "glg"@ {
        Some("gl"@)
    } else if lang == "eus"@ {
        Some("eu"@)
    } else if lang == "cym"@ {
        Some("cy"@)
    } else if lang == "sqi"@ {
        Some("sq"@)
    } else if lang == "bel"@ {
        Some("be"@)
    } else if lang == "bos"@ {
        Some("bs"@)
    } else if lang == "mkd"@ {
        Some("mk"@)
    } else if lang == "mlt"@ {
        Some("mt"@)
    } else if lang == "hin"@ {
        Some("hi"@)
    } else if lang == "urd"@ {
        Some("ur"@)
    } else if lang == "ben"@ {
        Some("bn"@)
    } else if lang == "tam"@ {
        Some("ta"@)
    } else if lang == "tel"@ {
        Some("te"@)
    } else if lang == "kan"@ {
        Some("kn"@)
    } else if lang == "mal"@ {
        Some("ml"@)
    } else if lang == "mar"@ {
        Some("mr"@)
    } else if lang == "pan"@ {
        Some("pa"@)
    } else if lang == "nep"@ {
        Some("ne"@)
    } else if lang == "sin"@ {
        Some("si"@)
    } else if lang == "tha"@ {
        Some("th"@)
    } else if lang == "vie"@ {
        Some("vi"@)
    } else if lang == "ind"@ {
        Some("id"@)
    } else if lang == "msa"@ {
        Some("id"@)
    } else if lang == "tgl"@ {
        Some("tl"@)
    } else if lang == "mya"@ {
        Some("my"@)
    } else if lang == "khm"@ {
        Some("km"@)
    } else if lang == "lao"@ {
        Some("lo"@)
    } else if lang == "sun"@ {
        Some("su"@)
    } else if lang == "kat"@ {
        Some("ka"@)
    } else if lang == "hye"@ {
        Some("hy"@)
    } else if lang == "aze"@ {
        Some("az"@)
    } else if lang == "kaz"@ {
        Some("kk"@)
    } else if lang == "uzb"@ {
        Some("uz"@)
    } else if lang == "tgk"@ {
        Some("tg"@)
    } else if lang == "fas"@ {
        Some("fa"@)
    } else if lang == "heb"@ {
        Some("he"@)
    } else if lang == "yid"@ {
        Some("yi"@)
    } else if lang == "afr"@ {
        Some("af"@)
    } else if lang == "swa"@ {
        Some("sw"@)
    } else if lang == "hat"@ {
        Some("ht"@)
    } else if lang == "guj"@ {
        Some("gu"@)
    } else if lang == "mlg"@ {
        Some("mg"@)
    } else {
        None
    }
}

fn revai_code(lang: &str) -> (r: Option<&'static str>)
    ensures
        match r {
            Some(c) => spec_revai_code(lang@) == Some(c@),
            None => spec_revai_code(lang@) is None,
        },
{
    if str_equal(lang, "eng") {
        Some("en")
    } else if str_equal(lang, "spa") {
        Some("es")
    } else if str_equal(lang, "fra") {
        Some("fr")
    } else if str_equal(lang, "deu") {
        Some("de")
    } else if str_equal(lang, "ita") {
        Some("it")
    } else if str_equal(lang, "por") {
        Some("pt")
    } else if str_equal(lang, "nld") {
        Some("nl")
    } else if str_equal(lang, "jpn") {
        Some("ja")
    } else if str_equal(lang, "kor") {
        Some("ko")
    } else if str_equal(lang, "rus") {
        Some("ru")
    } else if str_equal(lang, "ara") {
        Some("ar")
    } else if str_equal(lang, "tur") {
        Some("tr")
    } else if str_equal(lang, "zho") {
        Some("cmn")
    } else if str_equal(lang, "cmn") {
        Some("cmn")
    } else if str_equal(lang, "pol") {
        Some("pl")
    } else if str_equal(lang, "ces") {
        Some("cs")
    } else if str_equal(lang, "ron") {
        Some("ro")
    } else if str_equal(lang, "hun") {
        Some("hu")
    } else if str_equal(lang, "bul") {
        Some("bg")
    } else if str_equal(lang, "hrv") {
        Some("hr")
    } else if str_equal(lang, "srp") {
        Some("sr")
    } else if str_equal(lang, "slk") {
        Some("sk")
    } else if str_equal(lang, "slv") {
        Some("sl")
    } else if str_equal(lang, "ukr") {
        Some("uk")
    } else if str_equal(lang, "lit") {
        Some("lt")
    } else if str_equal(lang, "lav") {
        Some("lv")
    } else if str_equal(lang, "est") {
        Some("et")
    } else if str_equal(lang, "fin") {
        Some("fi")
    } else if str_equal(lang, "dan") {
        Some("da")
    } else if str_equal(lang, "nor") {
        Some("no")
    } else if str_equal(lang, "nob") {
        Some("no")
    } else if str_equal(lang, "nno") {
        Some("no")
    } else if str_equal(lang, "swe") {
        Some("sv")
    } else if str_equal(lang, "isl") {
        Some("is")
    } else if str_equal(lang, "ell") {
        Some("el")
    } else if str_equal(lang, "cat") {
        Some("ca")
    } else if str_equal(lang, "glg") {
        Some("gl")
    } else if str_equal(lang, "eus") {
        Some("eu")
    } else if str_equal(lang, "cym") {
        Some("cy")
    } else if str_equal(lang, "sqi") {
        Some("sq")
    } else if str_equal(lang, "bel") {
        Some("be")
    } else if str_equal(lang, "bos") {
        Some("bs")
    } else if str_equal(lang, "mkd") {
        Some("mk")
    } else if str_equal(lang, "mlt") {
        Some("mt")
    } else if str_equal(lang, "hin") {
        Some("hi")
    } else if str_equal(lang, "urd") {
        Some("ur")
    } else if str_equal(lang, "ben") {
        Some("bn")
    } else if str_equal(lang, "tam") {
        Some("ta")
    } else if str_equal(lang, "tel") {
        Some("te")
    } else if str_equal(lang, "kan") {
        Some("kn")
    } else if str_equal(lang, "mal") {
        Some("ml")
    } else if str_equal(lang, "mar") {
        Some("mr")
    } else if str_equal(lang, "pan") {
        Some("pa")
    } else if str_equal(lang, "nep") {
        Some("ne")
    } else if str_equal(lang, "sin") {
        Some("si")
    } else if str_equal(lang, "tha") {
        Some("th")
    } else if str_equal(lang, "vie") {
        Some("vi")
    } else if str_equal(lang, "ind") {
        Some("id")
    } else if str_equal(lang, "msa") {
        Some("id")
    } else if str_equal(lang, "tgl") {
        Some("tl")
    } else if str_equal(lang, "mya") {
        Some("my")
    } else if str_equal(lang, "khm") {
        Some("km")
    } else if str_equal(lang, "lao") {
        Some("lo")
    } else if str_equal(lang, "sun") {
        Some("su")
    } else if str_equal(lang, "kat") {
        Some("ka")
    } else if str_equal(lang, "hye") {
        Some("hy")
    } else if str_equal(lang, "aze") {
        Some("az")
    } else if str_equal(lang, "kaz") {
        Some("kk")
    } else if str_equal(lang, "uzb") {
        Some("uz")
    } else if str_equal(lang, "tgk") {
        Some("tg")
    } else if str_equal(lang, "fas") {
        Some("fa")
    } else if str_equal(lang, "heb") {
        Some("he")
    } else if str_equal(lang, "yid") {
        Some("yi")
    } else if str_equal(lang, "afr") {
        Some("af")
    } else if str_equal(lang, "swa") {
        Some("sw")
    } else if str_equal(lang, "hat") {
        Some("ht")
    } else if str_equal(lang, "guj") {
        Some("gu")
    } else if str_equal(lang, "mlg") {
        Some("mg")
    } else {
        None
    }
}

/// Language hint in the code Rev.AI expects.
#[derive(Clone, Debug, PartialEq, Eq)]
pub struct RevAiLanguageHint(pub String);

/// The hint used for a language: its Rev.AI code, or `auto` (Rev.AI's own
/// detection) for a language outside the supported set.
pub open spec fn spec_hint_or_auto(lang: Seq<char>) -> Seq<char> {
    match spec_revai_code(lang) {
        Some(c) => c,
        None => "auto"@,
    }
}

impl RevAiLanguageHint {
    /// The Rev.AI language code.
    pub fn as_str(&self) -> (r: &str)
        ensures
            r@ == self.0@,
    {
        self.0.as_str()
    }

    /// The hint for an ISO 639-3 code, falling back to `auto`.
    pub fn from_language(lang: &str) -> (r: Self)
        ensures
            r.0@ == spec_hint_or_auto(lang@),
    {
        match try_revai_language_hint(lang) {
            Some(hint) => hint,
            None => RevAiLanguageHint(String::from_str("auto")),
        }
    }
}

/// The Rev.AI hint for an ISO 639-3 code, or `None` when Rev.AI does not
/// support the language.
pub fn try_revai_language_hint(lang: &str) -> (r: Option<RevAiLanguageHint>)
    ensures
        match r {
            Some(h) => spec_revai_code(lang@) == Some(h.0@),
            None => spec_revai_code(lang@) is None,
        },
{
    match revai_code(lang) {
        Some(c) => Some(RevAiLanguageHint(String::from_str(c))),
        None => None,
    }
}

/// Rev.AI takes a speaker-count hint for English and Spanish only.
pub open spec fn spec_speakers_count_hint(language: Seq<char>, num_speakers: u32) -> Option<u32> {
    if language == "en"@ || language == "es"@ { Some(num_speakers) } else { None }
}

pub fn speakers_count_hint(language: &str, num_speakers: u32) -> (r: Option<u32>)
    ensures
        r == spec_speakers_count_hint(language@, num_speakers),
{
    if str_equal(language, "en") || str_equal(language, "es") {
        Some(num_speakers)
    } else {
        None
    }
}

/// The job language: detected automatically, or a resolved ISO 639-3 code.
#[derive(Clone, Debug, PartialEq, Eq)]
pub enum LanguageSpec {
    Auto,
    Resolved(String),
}

/// A batch of audio files to upload ahead of processing.
#[derive(Clone, Debug, PartialEq, Eq)]
pub struct RevAiPreflightPlan {
    pub audio_paths: Vec<String>,
    pub lang: LanguageSpec,
    pub num_speakers: u32,
    /// Maximum concurrent uploads.
    pub max_concurrent: usize,
}

/// One upload request.
#[derive(Clone, Debug, PartialEq, Eq)]
pub struct RevAiSubmitRequest {
    pub audio_path: String,
    pub language: RevAiLanguageHint,
    pub speakers_count: Option<u32>,
    pub metadata: String,
}

/// The language hint of a plan: `auto` for automatic detection, else the
/// hint of the resolved code.
pub open spec fn spec_plan_language(lang: LanguageSpec) -> Seq<char> {
    match lang {
        LanguageSpec::Auto => "auto"@,
        LanguageSpec::Resolved(code) => spec_hint_or_auto(code@),
    }
}

/// The metadata tag of an upload: `batchalign3_` and the file's stem.
pub open spec fn spec_upload_metadata(audio_path: Seq<char>) -> Seq<char> {
    "batchalign3_"@ + match path_file_stem(audio_path) { Some(s) => s, None => Seq::empty() }
}

/// The request for one file of a plan.
pub open spec fn request_matches(r: RevAiSubmitRequest, plan: RevAiPreflightPlan, audio_path: String) -> bool {
    &&& r.audio_path == audio_path
    &&& r.language.0@ == spec_plan_language(plan.lang)
    &&& r.speakers_count == spec_speakers_count_hint(spec_plan_language(plan.lang), plan.num_speakers)
    &&& r.metadata@ == spec_upload_metadata(audio_path@)
}

/// How many uploads may run at once: the plan's limit, but at least one.
pub fn preflight_concurrency(plan: &RevAiPreflightPlan) -> (r: usize)
    ensures
        r == if plan.max_concurrent < 1 { 1 } else { plan.max_concurrent },
{
    if plan.max_concurrent < 1 { 1 } else { plan.max_concurrent }
}

/// The upload requests of a plan, one per audio path and in its order.
pub fn build_submit_requests(plan: &RevAiPreflightPlan) -> (r: Vec<RevAiSubmitRequest>)
    ensures
        r@.len() == plan.audio_paths@.len(),
        forall|i: int| 0 <= i < r@.len() ==> request_matches(#[trigger] r@[i], *plan, plan.audio_paths@[i]),
{
    let language = match &plan.lang {
        LanguageSpec::Auto => RevAiLanguageHint(String::from_str("auto")),
        LanguageSpec::Resolved(code) => RevAiLanguageHint::from_language(code.as_str()),
    };
    let speakers_count = speakers_count_hint(language.as_str(), plan.num_speakers);
    let mut out: Vec<RevAiSubmitRequest> = Vec::new();
    let mut i: usize = 0;
    while i < plan.audio_paths.len()
        invariant
            i <= plan.audio_paths@.len(),
            out@.len() == i,
            language.0@ == spec_plan_language(plan.lang),
            speakers_count == spec_speakers_count_hint(spec_plan_language(plan.lang), plan.num_speakers),
            forall|k: int| 0 <= k < i ==> request_matches(#[trigger] out@[k], *plan, plan.audio_paths@[k]),
        decreases plan.audio_paths@.len() - i,
    {
        let path = &plan.audio_paths[i];
        let mut metadata = String::from_str("batchalign3_");
        match std_file_stem(path.as_str()) {
            Some(stem) => {
                metadata.append(stem.as_str());
                assert(metadata@ =~= spec_upload_metadata(path@));
            },
            None => {
                assert(metadata@ =~= spec_upload_metadata(path@));
            },
        }
        out.push(RevAiSubmitRequest {
            audio_path: path.clone(),
            language: RevAiLanguageHint(language.0.clone()),
            speakers_count,
            metadata,
        });
        i = i + 1;
    }
    out
}

/// What became of one upload.
#[derive(Clone, Debug, PartialEq, Eq)]
pub enum PreflightOutcome {
    /// Rev.AI accepted the file under this job id.
    Submitted { audio_path: String, job_id: String },
    /// Rev.AI, or the upload itself, refused the file.
    Rejected { audio_path: String, error: String },
    /// The thread running the upload failed.
    WorkerThreadFailed { audio_path: String, detail: String },
    /// The upload task could not be joined.
    JoinFailed { detail: String },
}

/// Result of one preflight batch: job ids and errors by path. Each list holds
/// a key at most once; its order is not significant.
#[derive(Clone, Debug, Default, PartialEq, Eq)]
pub struct RevAiPreflightResult {
    pub job_ids: Vec<(String, String)>,
    pub errors: Vec<(String, String)>,
}

/// The map a list of pairs stands for; a later pair overrides an earlier one.
pub open spec fn pairs_map(s: Seq<(String, String)>) -> Map<Seq<char>, Seq<char>>
    decreases s.len(),
{
    if s.len() == 0 {
        Map::empty()
    } else {
        pairs_map(s.drop_last()).insert(s.last().0@, s.last().1@)
    }
}

/// No key occurs twice.
pub open spec fn keys_unique(s: Seq<(String, String)>) -> bool {
    forall|i: int, j: int| 0 <= i < j < s.len() ==> (#[trigger] s[i]).0@ != (#[trigger] s[j]).0@
}

pub open spec fn worker_thread_message(detail: Seq<char>) -> Seq<char> {
    "preflight worker thread failed: "@ + detail
}

pub open spec fn join_failure_message(detail: Seq<char>) -> Seq<char> {
    "preflight task join failed: "@ + detail
}

/// The job ids recorded after the outcomes `o`, in order.
pub open spec fn spec_job_ids(o: Seq<PreflightOutcome>) -> Map<Seq<char>, Seq<char>>
    decreases o.len(),
{
    if o.len() == 0 {
        Map::empty()
    } else {
        let prev = spec_job_ids(o.drop_last());
        match o.last() {
            PreflightOutcome::Submitted { audio_path, job_id } => prev.insert(audio_path@, job_id@),
            _ => prev,
        }
    }
}

/// The errors recorded after the outcomes `o`, in order.
pub open spec fn spec_errors(o: Seq<PreflightOutcome>) -> Map<Seq<char>, Seq<char>>
    decreases o.len(),
{
    if o.len() == 0 {
        Map::empty()
    } else {
        let prev = spec_errors(o.drop_last());
        match o.last() {
            PreflightOutcome::Submitted { .. } => prev,
            PreflightOutcome::Rejected { audio_path, error } => prev.insert(audio_path@, error@),
            PreflightOutcome::WorkerThreadFailed { audio_path, detail } =>
                prev.insert(audio_path@, worker_thread_message(detail@)),
            PreflightOutcome::JoinFailed { detail } => prev.insert("<internal>"@, join_failure_message(detail@)),
        }
    }
}

proof fn lemma_pairs_map_update(s: Seq<(String, String)>, j: int, p: (String, String))
    requires
        keys_unique(s),
        0 <= j < s.len(),
        s[j].0@ == p.0@,
    ensures
        pairs_map(s.update(j, p)) == pairs_map(s).insert(p.0@, p.1@),
    decreases s.len(),
{
    let t = s.update(j, p);
    if j == s.len() - 1 {
        assert(t.drop_last() =~= s.drop_last());
        assert(pairs_map(t) =~= pairs_map(s).insert(p.0@, p.1@));
    } else {
        assert(t.drop_last() =~= s.drop_last().update(j, p));
        assert(keys_unique(s.drop_last()));
        lemma_pairs_map_update(s.drop_last(), j, p);
        assert(s[j].0@ != s.last().0@);
        assert(pairs_map(t) =~= pairs_map(s).insert(p.0@, p.1@));
    }
}

/// Records `value` under `key`, replacing an earlier value for that key.
fn insert_pair(v: &mut Vec<(String, String)>, key: String, value: String)
    requires
        keys_unique(old(v)@),
    ensures
        keys_unique(final(v)@),
        pairs_map(final(v)@) == pairs_map(old(v)@).insert(key@, value@),
{
    let mut j: usize = 0;
    while j < v.len()
        invariant
            j <= v@.len(),
            v@ == old(v)@,
            keys_unique(v@),
            forall|k: int| 0 <= k < j ==> (#[trigger] v@[k]).0@ != key@,
        decreases v@.len() - j,
    {
        if str_equal(v[j].0.as_str(), key.as_str()) {
            proof {
                lemma_pairs_map_update(v@, j as int, (key, value));
            }
            let ghost before = v@;
            v.set(j, (key, value));
            assert(v@ == before.update(j as int, (key, value)));
            assert forall|a: int, b: int| 0 <= a < b < v@.len() implies (#[trigger] v@[a]).0@ != (#[trigger] v@[b]).0@ by {
                assert(before[a].0@ != before[b].0@);
            }
            return;
        }
        j = j + 1;
    }
    let ghost before = v@;
    v.push((key, value));
    assert(v@.drop_last() =~= before);
    assert forall|a: int, b: int| 0 <= a < b < v@.len() implies (#[trigger] v@[a]).0@ != (#[trigger] v@[b]).0@ by {
        if b < before.len() {
            assert(before[a].0@ != before[b].0@);
        }
    }
}

impl RevAiPreflightResult {
    /// The job id recorded for an audio path.
    pub fn job_id_for(&self, audio_path: &str) -> (r: Option<String>)
        requires
            keys_unique(self.job_ids@),
        ensures
            pairs_map(self.job_ids@).contains_key(audio_path@) == (r is Some),
            r matches Some(id) ==> id@ == pairs_map(self.job_ids@)[audio_path@],
    {
        lookup_pair(&self.job_ids, audio_path)
    }

    /// The error recorded for an audio path (or for `<internal>`).
    pub fn error_for(&self, audio_path: &str) -> (r: Option<String>)
        requires
            keys_unique(self.errors@),
        ensures
            pairs_map(self.errors@).contains_key(audio_path@) == (r is Some),
            r matches Some(e) ==> e@ == pairs_map(self.errors@)[audio_path@],
    {
        lookup_pair(&self.errors, audio_path)
    }
}

proof fn lemma_pairs_map_at(s: Seq<(String, String)>, j: int)
    requires
        keys_unique(s),
        0 <= j < s.len(),
    ensures
        pairs_map(s).contains_key(s[j].0@),
        pairs_map(s)[s[j].0@] == s[j].1@,
    decreases s.len(),
{
    if j < s.len() - 1 {
        assert(keys_unique(s.drop_last()));
        lemma_pairs_map_at(s.drop_last(), j);
        assert(s.drop_last()[j] == s[j]);
    }
}

proof fn lemma_pairs_map_absent(s: Seq<(String, String)>, key: Seq<char>)
    requires
        forall|k: int| 0 <= k < s.len() ==> (#[trigger] s[k]).0@ != key,
    ensures
        !pairs_map(s).contains_key(key),
    decreases s.len(),
{
    if s.len() > 0 {
        assert forall|k: int| 0 <= k < s.drop_last().len() implies (#[trigger] s.drop_last()[k]).0@ != key by {
            assert(s.drop_last()[k] == s[k]);
        }
        lemma_pairs_map_absent(s.drop_last(), key);
    }
}

fn lookup_pair(v: &Vec<(String, String)>, key: &str) -> (r: Option<String>)
    requires
        keys_unique(v@),
    ensures
        pairs_map(v@).contains_key(key@) == (r is Some),
        r matches Some(x) ==> x@ == pairs_map(v@)[key@],
{
    let mut j: usize = 0;
    while j < v.len()
        invariant
            j <= v@.len(),
            keys_unique(v@),
            forall|k: int| 0 <= k < j ==> (#[trigger] v@[k]).0@ != key@,
        decreases v@.len() - j,
    {
        if str_equal(v[j].0.as_str(), key) {
            proof {
                lemma_pairs_map_at(v@, j as int);
            }
            return Some(v[j].1.clone());
        }
        j = j + 1;
    }
    proof {
        lemma_pairs_map_absent(v@, key@);
    }
    None
}

/// Collects the outcomes of a batch's uploads, in the order they finished:
/// each accepted file's job id and each failure's message, by path.
pub fn collect_preflight_results(outcomes: Vec<PreflightOutcome>) -> (r: RevAiPreflightResult)
    ensures
        keys_unique(r.job_ids@),
        keys_unique(r.errors@),
        pairs_map(r.job_ids@) == spec_job_ids(outcomes@),
        pairs_map(r.errors@) == spec_errors(outcomes@),
{
    let mut result = RevAiPreflightResult { job_ids: Vec::new(), errors: Vec::new() };
    let mut i: usize = 0;
    while i < outcomes.len()
        invariant
            i <= outcomes@.len(),
            keys_unique(result.job_ids@),
            keys_unique(result.errors@),
            pairs_map(result.job_ids@) == spec_job_ids(outcomes@.take(i as int)),
            pairs_map(result.errors@) == spec_errors(outcomes@.take(i as int)),
        decreases outcomes@.len() - i,
    {
        assert(outcomes@.take(i + 1).drop_last() =~= outcomes@.take(i as int));
        assert(outcomes@.take(i + 1).last() == outcomes@[i as int]);
        match &outcomes[i] {
            PreflightOutcome::Submitted { audio_path, job_id } => {
                insert_pair(&mut result.job_ids, audio_path.clone(), job_id.clone());
            },
            PreflightOutcome::Rejected { audio_path, error } => {
                insert_pair(&mut result.errors, audio_path.clone(), error.clone());
            },
            PreflightOutcome::WorkerThreadFailed { audio_path, detail } => {
                let mut m = String::from_str("preflight worker thread failed: ");
                m.append(detail.as_str());
                insert_pair(&mut result.errors, audio_path.clone(), m);
            },
            PreflightOutcome::JoinFailed { detail } => {
                let mut m = String::from_str("preflight task join failed: ");
                m.append(detail.as_str());
                insert_pair(&mut result.errors, String::from_str("<internal>"), m);
            },
        }
        i = i + 1;
    }
    assert(outcomes@.take(outcomes@.len() as int) =~= outcomes@);
    result
}

/// One element of a Rev.AI monologue: its type (`text`, `punct`, ...) and
/// its value. Its timing and confidence stay with the caller, who finds the
/// element again by its position.
#[derive(Clone, Debug, PartialEq, Eq)]
pub struct RevElement {
    pub element_type: String,
    pub value: String,
}

/// One speaker's run of elements.
#[derive(Clone, Debug, PartialEq, Eq)]
pub struct RevMonologue {
    pub speaker: u64,
    pub elements: Vec<RevElement>,
}

/// A recognized word: where its element sits, its trimmed text and its
/// speaker label.
#[derive(Clone, Debug, PartialEq, Eq)]
pub struct RevTextToken {
    pub monologue: usize,
    pub element: usize,
    pub text: String,
    pub speaker: String,
}

/// Element `e` of monologue `m` becomes a word: a `text` element whose
/// trimmed value is not empty.
pub open spec fn is_word(el: RevElement) -> bool {
    el.element_type@ == "text"@ && trimmed(el.value@).len() > 0
}

/// The words of the first `k` elements of monologue `m`.
pub open spec fn monologue_words(ms: Seq<RevMonologue>, m: int, k: int) -> Seq<(int, int, Seq<char>, Seq<char>)>
    decreases k,
{
    if k <= 0 {
        Seq::empty()
    } else {
        let prev = monologue_words(ms, m, k - 1);
        let el = ms[m].elements@[k - 1];
        if is_word(el) {
            prev.push((m, k - 1, trimmed(el.value@), decimal(ms[m].speaker as nat)))
        } else {
            prev
        }
    }
}

/// The words of the first `n` monologues, in order.
pub open spec fn transcript_words(ms: Seq<RevMonologue>, n: int) -> Seq<(int, int, Seq<char>, Seq<char>)>
    decreases n,
{
    if n <= 0 {
        Seq::empty()
    } else {
        transcript_words(ms, n - 1) + monologue_words(ms, n - 1, ms[n - 1].elements@.len() as int)
    }
}

pub open spec fn token_view(t: RevTextToken) -> (int, int, Seq<char>, Seq<char>) {
    (t.monologue as int, t.element as int, t.text@, t.speaker@)
}

/// The words of a transcript in order: its `text` elements with their value
/// trimmed, skipping those left empty, each with its monologue's speaker
/// number as its label.
pub fn transcript_text_tokens(monologues: &Vec<RevMonologue>) -> (r: Vec<RevTextToken>)
    ensures
        r@.map_values(|t: RevTextToken| token_view(t)) == transcript_words(monologues@, monologues@.len() as int),
{
    let mut out: Vec<RevTextToken> = Vec::new();
    let mut m: usize = 0;
    while m < monologues.len()
        invariant
            m <= monologues@.len(),
            out@.map_values(|t: RevTextToken| token_view(t)) == transcript_words(monologues@, m as int),
        decreases monologues@.len() - m,
    {
        let mono = &monologues[m];
        let mut speaker = String::new();
        append_decimal(&mut speaker, mono.speaker);
        let ghost base = out@.map_values(|t: RevTextToken| token_view(t));
        let mut e: usize = 0;
        while e < mono.elements.len()
            invariant
                m < monologues@.len(),
                *mono == monologues@[m as int],
                e <= mono.elements@.len(),
                speaker@ == decimal(mono.speaker as nat),
                base == transcript_words(monologues@, m as int),
                out@.map_values(|t: RevTextToken| token_view(t)) == base + monologue_words(monologues@, m as int, e as int),
            decreases mono.elements@.len() - e,
        {
            let el = &mono.elements[e];
            proof {
                reveal_strlit("text");
            }
            if str_equal(el.element_type.as_str(), "text") {
                let (lo, hi) = trim_bounds(el.value.as_str());
                if lo < hi {
                    let text = el.value.as_str().substring_char(lo, hi);
                    let ghost before = out@;
                    out.push(RevTextToken {
                        monologue: m,
                        element: e,
                        text: String::from_str(text),
                        speaker: speaker.clone(),
                    });
                    assert(out@.map_values(|t: RevTextToken| token_view(t))
                        =~= before.map_values(|t: RevTextToken| token_view(t)).push(token_view(out@.last())));
                }
            }
            e = e + 1;
        }
        assert(transcript_words(monologues@, m + 1) == base + monologue_words(monologues@, m as int, mono.elements@.len() as int));
        m = m + 1;
    }
    out
}

} // verus!
