use batchalign_core::error::ServerError;
use batchalign_core::fa::{
    build_fa_request_ids, collect_final_timings, fa_entry_path, group_fully_reusable, group_needs_realign,
    incremental_has_reuse, partition_fa_groups,
    place_inferred_timings, pre_validation_failure, FaEntryPath, CACHE_TASK, build_fa_infer_item, FaGroup, FaWord,
};
use batchalign_core::plan::{
    batched_dispatch_plan, benchmark_dispatch_plan, media_analysis_plan, task_cache_policy, transcribe_dispatch_plan,
    CachePolicy, MediaAnalysisDispatchPlan, MorphotagSettings, MultilingualPolicy, TokenizationMode,
    parse_cache_task_name, resolve_cache_overrides, resolve_speaker_backend, runtime_flag,
    unique_diarization_speaker_count, CacheOverrides, CacheTaskName, SpeakerBackend, SpeakerSegment,
};
use batchalign_core::revai::{
    build_submit_requests, collect_preflight_results, preflight_concurrency, speakers_count_hint,
    try_revai_language_hint, LanguageSpec, PreflightOutcome, RevAiLanguageHint, RevAiPreflightPlan,
    transcript_text_tokens, RevElement, RevMonologue, RevTextToken,
};
use batchalign_core::transcription::{diarization_backend_to_run, lang_for_nlp, participant_count, resolve_transcript_language};
use batchalign_core::routes::{
    classify_stream_event, correlation_id_from_header_value, default_limit, sanitize_correlation_id, stream_ends_after_snapshot,
    BroadcastEvent, ListParams, StreamEventKind,
};
use batchalign_core::job::JobStatus;

#[test]
fn cache_task_name_is_stable() {
    assert_eq!(CACHE_TASK.as_str(), "forced_alignment");
}

#[test]
fn collect_final_timings_rejects_missing_groups() {
    let error = collect_final_timings::<u64>(vec![Some(Vec::new()), None], "forced alignment")
        .expect_err("missing timing groups should fail");
    assert!(error.message().contains("completed without timings for group(s): [1]"));
}

#[test]
fn collect_final_timings_keeps_group_order() {
    let timings = collect_final_timings(vec![Some(vec![Some(1u64), None]), Some(vec![Some(3u64)])], "fa").unwrap();
    assert_eq!(timings, vec![vec![Some(1), None], vec![Some(3)]]);
    match collect_final_timings::<u64>(vec![None, Some(Vec::new()), None], "fa") {
        Err(ServerError::Validation(m)) => assert_eq!(m, "fa completed without timings for group(s): [0, 2]"),
        other => panic!("unexpected: {:?}", other),
    }
}

#[test]
fn builds_namespaced_v2_request_ids_from_group_index() {
    let ids = build_fa_request_ids(42, 7);
    assert_eq!(ids.request_id, "fa-v2-request-42-7");
    assert_eq!(ids.payload_ref_id, "fa-v2-payload-42-7");
    assert_eq!(ids.audio_ref_id, "fa-v2-audio-42-7");
}

#[test]
fn namespaces_v2_request_ids_across_concurrent_files() {
    let first = build_fa_request_ids(1, 0);
    let second = build_fa_request_ids(2, 0);

    assert_ne!(first.request_id, second.request_id);
    assert_ne!(first.payload_ref_id, second.payload_ref_id);
    assert_ne!(first.audio_ref_id, second.audio_ref_id);
}

#[test]
fn request_ids_do_not_collide_across_digit_boundaries() {
    assert_ne!(build_fa_request_ids(1, 12).request_id, build_fa_request_ids(11, 2).request_id);
}

#[test]
fn language_hint_maps_common_codes() {
    assert_eq!(RevAiLanguageHint::from_language("eng").as_str(), "en");
    assert_eq!(RevAiLanguageHint::from_language("spa").as_str(), "es");
    assert_eq!(RevAiLanguageHint::from_language("zho").as_str(), "cmn");
}

#[test]
fn language_hint_covers_the_supported_table() {
    assert_eq!(try_revai_language_hint("pol").unwrap().as_str(), "pl");
    assert_eq!(try_revai_language_hint("nno").unwrap().as_str(), "no");
    assert_eq!(try_revai_language_hint("msa").unwrap().as_str(), "id");
    assert_eq!(try_revai_language_hint("mlg").unwrap().as_str(), "mg");
    assert!(try_revai_language_hint("hak").is_none());
    assert_eq!(RevAiLanguageHint::from_language("hak").as_str(), "auto");
}

#[test]
fn speaker_hints_go_to_english_and_spanish_only() {
    assert_eq!(speakers_count_hint("en", 2), Some(2));
    assert_eq!(speakers_count_hint("es", 3), Some(3));
    assert_eq!(speakers_count_hint("fr", 2), None);
    assert_eq!(speakers_count_hint("auto", 2), None);
}

#[test]
fn preflight_requests_carry_language_and_metadata() {
    let plan = RevAiPreflightPlan {
        audio_paths: vec!["/tmp/a.wav".to_string(), "/tmp/b.mp3".to_string()],
        lang: LanguageSpec::Resolved("eng".to_string()),
        num_speakers: 2,
        max_concurrent: 0,
    };
    let requests = build_submit_requests(&plan);
    assert_eq!(requests.len(), 2);
    assert_eq!(requests[0].language.as_str(), "en");
    assert_eq!(requests[0].speakers_count, Some(2));
    assert_eq!(requests[0].metadata, "batchalign3_a");
    assert_eq!(requests[1].metadata, "batchalign3_b");
    assert_eq!(preflight_concurrency(&plan), 1);
    let auto = RevAiPreflightPlan { lang: LanguageSpec::Auto, max_concurrent: 16, ..plan };
    let requests = build_submit_requests(&auto);
    assert_eq!(requests[0].language.as_str(), "auto");
    assert_eq!(requests[0].speakers_count, None);
    assert_eq!(preflight_concurrency(&auto), 16);
}

#[test]
fn preflight_results_are_collected_by_path() {
    let result = collect_preflight_results(vec![
        PreflightOutcome::Submitted { audio_path: "/tmp/a.wav".to_string(), job_id: "job-a".to_string() },
        PreflightOutcome::Rejected { audio_path: "/tmp/b.wav".to_string(), error: "boom".to_string() },
        PreflightOutcome::JoinFailed { detail: "panicked".to_string() },
    ]);
    assert_eq!(result.job_id_for("/tmp/a.wav"), Some("job-a".to_string()));
    assert_eq!(result.job_id_for("/tmp/b.wav"), None);
    assert_eq!(result.error_for("/tmp/b.wav"), Some("boom".to_string()));
    assert_eq!(result.error_for("<internal>"), Some("preflight task join failed: panicked".to_string()));
    assert_eq!(result.job_ids.len(), 1);
    assert_eq!(result.errors.len(), 2);
}

#[test]
fn a_later_preflight_outcome_replaces_an_earlier_one() {
    let result = collect_preflight_results(vec![
        PreflightOutcome::Submitted { audio_path: "/a".to_string(), job_id: "one".to_string() },
        PreflightOutcome::Submitted { audio_path: "/a".to_string(), job_id: "two".to_string() },
        PreflightOutcome::WorkerThreadFailed { audio_path: "/c".to_string(), detail: "gone".to_string() },
    ]);
    assert_eq!(result.job_ids.len(), 1);
    assert_eq!(result.job_id_for("/a"), Some("two".to_string()));
    assert_eq!(result.error_for("/c"), Some("preflight worker thread failed: gone".to_string()));
}

#[test]
fn cache_task_names_parse_with_surrounding_whitespace() {
    assert_eq!(parse_cache_task_name(" morphosyntax\n"), Some(CacheTaskName::Morphosyntax));
    assert_eq!(parse_cache_task_name("utr_asr"), Some(CacheTaskName::UtrAsr));
    assert_eq!(parse_cache_task_name("utterance_segmentation"), Some(CacheTaskName::UtteranceSegmentation));
    assert_eq!(parse_cache_task_name("translation"), Some(CacheTaskName::Translation));
    assert_eq!(parse_cache_task_name("forced alignment"), None);
    for task in [CacheTaskName::Morphosyntax, CacheTaskName::UtrAsr, CacheTaskName::ForcedAlignment] {
        assert_eq!(parse_cache_task_name(task.as_str()), Some(task));
    }
}

#[test]
fn cache_overrides_prefer_listed_tasks() {
    let tasks = vec!["morphosyntax".to_string(), "bogus".to_string(), "translation".to_string()];
    assert_eq!(
        resolve_cache_overrides(&tasks, true),
        CacheOverrides::Tasks(vec![CacheTaskName::Morphosyntax, CacheTaskName::Translation])
    );
    assert_eq!(resolve_cache_overrides(&Vec::new(), true), CacheOverrides::All);
    assert_eq!(resolve_cache_overrides(&Vec::new(), false), CacheOverrides::NoTasks);
}

#[test]
fn runtime_flags_fall_back_to_defaults() {
    let state = vec![
        ("utseg".to_string(), "false".to_string()),
        ("morphosyntax".to_string(), "\"yes\"".to_string()),
    ];
    assert!(!runtime_flag(&state, "utseg", true));
    assert!(runtime_flag(&state, "morphosyntax", true));
    assert!(!runtime_flag(&state, "missing", false));
}

#[test]
fn speaker_backend_defaults_to_pyannote() {
    assert_eq!(resolve_speaker_backend(Some("nemo")), SpeakerBackend::Nemo);
    assert_eq!(resolve_speaker_backend(Some("pyannote")), SpeakerBackend::Pyannote);
    assert_eq!(resolve_speaker_backend(None), SpeakerBackend::Pyannote);
}

#[test]
fn diarization_speaker_count_is_distinct_labels() {
    let seg = |s: &str| SpeakerSegment { speaker: s.to_string(), start_ms: 0, end_ms: 1 };
    assert_eq!(unique_diarization_speaker_count(&[seg("A"), seg("B"), seg("A")]), 2);
    assert_eq!(unique_diarization_speaker_count(&[]), 0);
}

#[test]
fn correlation_id_uses_x_request_id_when_valid() {
    let cid = correlation_id_from_header_value(Some("req-123_abc"), "fallback");
    assert_eq!(cid, "req-123_abc");
}

#[test]
fn correlation_id_falls_back_when_missing() {
    let cid = correlation_id_from_header_value(None, "job123");
    assert_eq!(cid, "job123");
}

#[test]
fn correlation_id_sanitizes_invalid_chars() {
    let cid = correlation_id_from_header_value(Some("abc$%/def"), "job123");
    assert_eq!(cid, "abcdef");
}

#[test]
fn correlation_id_is_trimmed_and_capped() {
    assert_eq!(correlation_id_from_header_value(Some("  id:1.2  "), "f"), "id:1.2");
    assert_eq!(correlation_id_from_header_value(Some("$$$"), "f"), "f");
    let long: String = std::iter::repeat('a').take(300).collect();
    assert_eq!(sanitize_correlation_id(&long).unwrap().len(), 128);
    assert_eq!(sanitize_correlation_id(""), None);
}

#[test]
fn bug_report_listing_defaults_to_fifty() {
    assert_eq!(default_limit(), 50);
    assert_eq!(ListParams::from_query(None).limit, 50);
    assert_eq!(ListParams::from_query(Some(5)).limit, 5);
}

#[test]
fn diarization_skips_labelled_or_empty_recognition() {
    assert_eq!(diarization_backend_to_run(false, true, Some(SpeakerBackend::Nemo)), None);
    assert_eq!(diarization_backend_to_run(true, false, Some(SpeakerBackend::Nemo)), None);
    assert_eq!(diarization_backend_to_run(false, false, None), None);
    assert_eq!(diarization_backend_to_run(false, false, Some(SpeakerBackend::Pyannote)), Some(SpeakerBackend::Pyannote));
}

#[test]
fn transcript_language_resolves_automatic_detection() {
    assert_eq!(resolve_transcript_language(&LanguageSpec::Auto, "spa", None), "spa");
    assert_eq!(resolve_transcript_language(&LanguageSpec::Auto, "auto", Some("fra")), "fra");
    assert_eq!(resolve_transcript_language(&LanguageSpec::Auto, "", None), "eng");
    assert_eq!(resolve_transcript_language(&LanguageSpec::Resolved("deu".to_string()), "spa", None), "deu");
}

#[test]
fn participants_cover_every_diarized_speaker() {
    let seg = |s: &str| SpeakerSegment { speaker: s.to_string(), start_ms: 0, end_ms: 1 };
    let segments = vec![seg("A"), seg("B"), seg("C")];
    assert_eq!(participant_count(2, Some(&segments)), 3);
    assert_eq!(participant_count(4, Some(&segments)), 4);
    assert_eq!(participant_count(1, None), 1);
}

#[test]
fn fa_entry_path_checks_in_order() {
    assert_eq!(fa_entry_path(true, false, false, true), FaEntryPath::PassThrough);
    assert_eq!(fa_entry_path(false, true, true, false), FaEntryPath::PassThrough);
    assert_eq!(fa_entry_path(false, false, false, true), FaEntryPath::RejectPreValidation);
    assert_eq!(fa_entry_path(false, false, true, true), FaEntryPath::ReuseExistingTiming);
    assert_eq!(fa_entry_path(false, false, true, false), FaEntryPath::Align);
}

#[test]
fn pre_validation_failure_joins_messages() {
    let error = pre_validation_failure(&vec!["E301: missing speaker".to_string(), "E502: bad bullet".to_string()]);
    assert_eq!(
        error,
        ServerError::Validation("align pre-validation failed: E301: missing speaker; E502: bad bullet".to_string())
    );
}

#[test]
fn group_reuse_needs_every_utterance_reusable() {
    assert!(group_fully_reusable(&vec![1, 2], &vec![0, 1, 2]));
    assert!(!group_fully_reusable(&vec![1, 3], &vec![0, 1, 2]));
    assert!(!group_fully_reusable(&vec![], &vec![]));
    assert!(group_fully_reusable(&vec![], &vec![4]));
}

#[test]
fn fa_groups_partition_into_reused_cached_and_missed() {
    let preserved = vec![Some(vec![Some(10u64)]), None, None, None];
    let cached = vec![Some(vec![Some(99u64)]), Some(vec![Some(20u64)]), None, None];
    let partition = partition_fa_groups(preserved, cached);
    assert_eq!(partition.timings, vec![Some(vec![Some(10)]), Some(vec![Some(20)]), None, None]);
    assert_eq!(partition.miss_indices, vec![2, 3]);
    assert_eq!(partition.reused, 1);
    assert_eq!(partition.cache_hits, 1);

    let mut timings = partition.timings;
    place_inferred_timings(&mut timings, vec![(3, vec![Some(40u64)]), (2, vec![None])]);
    assert_eq!(timings, vec![Some(vec![Some(10)]), Some(vec![Some(20)]), Some(vec![None]), Some(vec![Some(40)])]);
    let final_timings = collect_final_timings(timings, "forced alignment").unwrap();
    assert_eq!(final_timings.len(), 4);
}

#[test]
fn incremental_alignment_reuses_only_stable_groups() {
    assert!(!incremental_has_reuse(0, 0, 0));
    assert!(incremental_has_reuse(0, 1, 0));
    assert!(incremental_has_reuse(0, 0, 2));
    assert!(group_needs_realign(&vec![0, 3], &vec![0, 1]));
    assert!(!group_needs_realign(&vec![0, 1], &vec![0, 1]));
    assert!(!group_needs_realign(&vec![], &vec![]));
    assert!(group_needs_realign(&vec![2], &vec![]));
}

#[test]
fn text_stages_use_the_resolved_language() {
    let detected = "spa".to_string();
    assert_eq!(lang_for_nlp(Some(&detected), &LanguageSpec::Auto), "spa");
    let requested = LanguageSpec::Resolved("eng".to_string());
    assert_eq!(lang_for_nlp(None, &requested), "eng");
    assert_eq!(lang_for_nlp(Some(&detected), &requested), "spa");
}

#[test]
fn batched_plan_reads_morphotag_options() {
    let plan = batched_dispatch_plan(
        Some(MorphotagSettings { retokenize: true, skipmultilang: true, override_cache: true, merge_abbrev: true }),
        false,
        false,
        &CacheOverrides::NoTasks,
    );
    assert_eq!(plan.tokenization_mode, TokenizationMode::StanzaRetokenize);
    assert_eq!(plan.multilingual_policy, MultilingualPolicy::SkipNonPrimary);
    assert_eq!(plan.cache_policy, CachePolicy::SkipCache);
    assert!(plan.should_merge_abbrev);

    let plan = batched_dispatch_plan(None, false, true, &CacheOverrides::Tasks(vec![CacheTaskName::Morphosyntax]));
    assert_eq!(plan.tokenization_mode, TokenizationMode::Preserve);
    assert_eq!(plan.multilingual_policy, MultilingualPolicy::ProcessAll);
    assert_eq!(plan.cache_policy, CachePolicy::SkipCache);
    assert!(plan.should_merge_abbrev);
}

#[test]
fn task_cache_policy_follows_overrides() {
    let overrides = CacheOverrides::Tasks(vec![CacheTaskName::Translation]);
    assert_eq!(task_cache_policy(false, &overrides, CacheTaskName::Translation), CachePolicy::SkipCache);
    assert_eq!(task_cache_policy(false, &overrides, CacheTaskName::ForcedAlignment), CachePolicy::UseCache);
    assert_eq!(task_cache_policy(true, &overrides, CacheTaskName::ForcedAlignment), CachePolicy::SkipCache);
    assert_eq!(task_cache_policy(false, &CacheOverrides::All, CacheTaskName::UtrAsr), CachePolicy::SkipCache);
    assert_eq!(task_cache_policy(false, &CacheOverrides::NoTasks, CacheTaskName::UtrAsr), CachePolicy::UseCache);
}

#[test]
fn transcribe_plan_reads_runtime_flags_and_speaker_backend() {
    let runtime = vec![("utseg".to_string(), "false".to_string()), ("morphosyntax".to_string(), "true".to_string())];
    let plan = transcribe_dispatch_plan("aliyun", true, true, true, false, Some("nemo"), &runtime, "eng", 3);
    assert_eq!(plan.asr_engine, "aliyun");
    assert!(plan.diarize);
    assert_eq!(plan.speaker_backend, Some(SpeakerBackend::Nemo));
    assert_eq!(plan.lang, "eng");
    assert_eq!(plan.num_speakers, 3);
    assert!(!plan.with_utseg);
    assert!(plan.with_morphosyntax);
    assert!(plan.override_cache);
    assert!(plan.should_merge_abbrev);

    let plan = transcribe_dispatch_plan("rev", true, false, false, false, None, &vec![], "eng", 3);
    assert_eq!(plan.speaker_backend, Some(SpeakerBackend::Pyannote));
    assert!(plan.with_utseg);
    assert!(!plan.with_morphosyntax);
    assert!(!plan.override_cache);
    assert!(!plan.should_merge_abbrev);

    let plan = transcribe_dispatch_plan("rev", false, false, false, false, Some("nemo"), &vec![], "eng", 1);
    assert_eq!(plan.speaker_backend, None);
}

#[test]
fn benchmark_plan_runs_recognition_alone() {
    let (plan, cache_policy) = benchmark_dispatch_plan("rev", true, true, true, "eng", 3);
    assert_eq!(cache_policy, CachePolicy::SkipCache);
    assert_eq!(plan.num_speakers, 3);
    assert!(!plan.with_utseg);
    assert!(!plan.with_morphosyntax);
    assert!(!plan.diarize);
    assert!(plan.should_merge_abbrev);
    assert!(plan.write_wor);
}

#[test]
fn media_analysis_plan_reads_feature_set() {
    assert_eq!(
        media_analysis_plan("opensmile", Some("ComParE_2016")),
        Some(MediaAnalysisDispatchPlan::Opensmile { feature_set: "ComParE_2016".to_string() })
    );
    assert_eq!(media_analysis_plan("opensmile", None), None);
    assert_eq!(media_analysis_plan("avqi", None), Some(MediaAnalysisDispatchPlan::Avqi));
    assert_eq!(media_analysis_plan("align", Some("x")), None);
}

#[test]
fn job_stream_passes_only_its_own_updates() {
    let mine = "job-1";
    assert_eq!(
        classify_stream_event(mine, &BroadcastEvent::FileUpdate { job_id: "job-1".to_string() }),
        Some(StreamEventKind::FileUpdate)
    );
    assert_eq!(classify_stream_event(mine, &BroadcastEvent::FileUpdate { job_id: "job-2".to_string() }), None);
    assert_eq!(
        classify_stream_event(mine, &BroadcastEvent::JobUpdate { job_id: "job-1".to_string(), status: Some(JobStatus::Running) }),
        Some(StreamEventKind::JobUpdate)
    );
    assert_eq!(
        classify_stream_event(mine, &BroadcastEvent::JobUpdate { job_id: "job-1".to_string(), status: Some(JobStatus::Completed) }),
        Some(StreamEventKind::Complete)
    );
    assert_eq!(
        classify_stream_event(mine, &BroadcastEvent::JobUpdate { job_id: "job-1".to_string(), status: None }),
        Some(StreamEventKind::JobUpdate)
    );
    assert_eq!(classify_stream_event(mine, &BroadcastEvent::Other), None);
    assert!(stream_ends_after_snapshot(JobStatus::Cancelled));
    assert!(!stream_ends_after_snapshot(JobStatus::Queued));
}

#[test]
fn rev_transcript_words_keep_only_text_elements() {
    let monologues = vec![
        RevMonologue {
            speaker: 3,
            elements: vec![
                RevElement { element_type: "text".to_string(), value: "hello".to_string() },
                RevElement { element_type: "punct".to_string(), value: ",".to_string() },
                RevElement { element_type: "text".to_string(), value: " world ".to_string() },
                RevElement { element_type: "text".to_string(), value: "   ".to_string() },
            ],
        },
        RevMonologue {
            speaker: 12,
            elements: vec![RevElement { element_type: "text".to_string(), value: "bye".to_string() }],
        },
    ];
    let words = transcript_text_tokens(&monologues);
    assert_eq!(
        words,
        vec![
            RevTextToken { monologue: 0, element: 0, text: "hello".to_string(), speaker: "3".to_string() },
            RevTextToken { monologue: 0, element: 2, text: "world".to_string(), speaker: "3".to_string() },
            RevTextToken { monologue: 1, element: 0, text: "bye".to_string(), speaker: "12".to_string() },
        ]
    );
}

#[derive(Clone, Copy, Debug, PartialEq)]
enum TimingMode {
    WithPauses,
}

fn make_word(index: usize, text: &str) -> FaWord {
    FaWord { utterance_index: 0, utterance_word_index: index, text: text.to_string() }
}

#[test]
fn builds_fa_infer_item_from_transport_neutral_batch() {
    let word_texts = vec![vec!["hello".to_string(), "world".to_string()]];
    let groups = vec![FaGroup {
        audio_start_ms: 100,
        audio_end_ms: 900,
        words: vec![make_word(0, "hello"), make_word(1, "world")],
        utterance_indices: vec![0],
    }];

    let item = build_fa_infer_item(&word_texts[0], &groups[0], "/tmp/input.wav", TimingMode::WithPauses);
    assert_eq!(item.words, vec!["hello".to_string(), "world".to_string()]);
    assert_eq!(item.word_ids, vec!["u0:w0".to_string(), "u0:w1".to_string()]);
    assert_eq!(item.word_utterance_indices, vec![0, 0]);
    assert_eq!(item.word_utterance_word_indices, vec![0, 1]);
    assert_eq!(item.audio_path, "/tmp/input.wav");
    assert_eq!(item.audio_start_ms, 100);
    assert_eq!(item.audio_end_ms, 900);
    assert_eq!(item.timing_mode, TimingMode::WithPauses);
}
