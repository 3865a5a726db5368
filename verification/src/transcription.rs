//! Decisions of the transcription pipeline around recognition: whether a
//! dedicated diarization pass runs, which language the transcript is
//! written in, and how many participants it names.

use vstd::prelude::*;
use vstd::string::*;
use crate::plan::{SpeakerBackend, SpeakerSegment, speaker_set, unique_diarization_speaker_count};
use crate::revai::LanguageSpec;
use crate::text::str_equal;

verus! {

/// The dedicated diarization backend to run, if any: none for an empty
/// recognition result, none when recognition already labelled speakers, and
/// none when no backend is configured.
pub fn diarization_backend_to_run(tokens_empty: bool, has_speaker_labels: bool, configured: Option<SpeakerBackend>) -> (r: Option<SpeakerBackend>)
    ensures
        r == (if tokens_empty || has_speaker_labels { None } else { configured }),
{
    if tokens_empty || has_speaker_labels {
        None
    } else {
        configured
    }
}

/// The transcript language: the requested one when resolved; under
/// automatic detection, the recognizer's detected code unless it is empty
/// or `auto`, then the text-based detection, then English.
pub open spec fn spec_transcript_language(requested: LanguageSpec, detected: Seq<char>, text_detection: Option<Seq<char>>) -> Seq<char> {
    match requested {
        LanguageSpec::Resolved(code) => code@,
        LanguageSpec::Auto => if detected == "auto"@ || detected.len() == 0 {
            match text_detection {
                Some(d) => d,
                None => "eng"@,
            }
        } else {
            detected
        },
    }
}

pub fn resolve_transcript_language(requested: &LanguageSpec, detected: &str, text_detection: Option<&str>) -> (r: String)
    ensures
        r@ == spec_transcript_language(*requested, detected@, match text_detection { Some(d) => Some(d@), None => None }),
{
    match requested {
        LanguageSpec::Resolved(code) => code.clone(),
        LanguageSpec::Auto => {
            if str_equal(detected, "auto") || detected.unicode_len() == 0 {
                match text_detection {
                    Some(d) => String::from_str(d),
                    None => String::from_str("eng"),
                }
            } else {
                String::from_str(detected)
            }
        },
    }
}

/// How many participants a transcript names: the requested speaker count,
/// or the number of distinct diarized speakers when that is larger.
pub fn participant_count(num_speakers: usize, segments: Option<&[SpeakerSegment]>) -> (r: usize)
    ensures
        r == ({
            let diarized: int = match segments { Some(s) => speaker_set(s@).len() as int, None => 0 };
            if (num_speakers as int) < diarized { diarized } else { num_speakers as int }
        }),
{
    let diarized = match segments {
        Some(s) => unique_diarization_speaker_count(s),
        None => 0,
    };
    if num_speakers < diarized { diarized } else { num_speakers }
}

/// The language the text stages after recognition use: the one resolved
/// from recognition when there is one, else the requested language, which
/// must then be resolved (recognition always resolves an automatic request
/// before these stages run).
pub fn lang_for_nlp<'a>(resolved: Option<&'a String>, requested: &'a LanguageSpec) -> (r: &'a String)
    requires
        resolved is Some || requested is Resolved,
    ensures
        r@ == match resolved {
            Some(l) => l@,
            None => match requested {
                LanguageSpec::Resolved(code) => code@,
                LanguageSpec::Auto => Seq::empty(),
            },
        },
{
    match resolved {
        Some(l) => l,
        None => match requested {
            LanguageSpec::Resolved(code) => code,
            LanguageSpec::Auto => vstd::pervasive::unreached(),
        },
    }
}

} // verus!
