use batchalign_core::error::ServerError;
use batchalign_core::paths::{
    before_path_for, benchmark_csv_path, gold_chat_path_for_audio, gold_path_for, input_path_for_file, is_gold_file,
    media_candidates, media_mapping_candidates, path_mode_filename_from_source, resolve_benchmark_original_audio_path,
    staged_output_path, transcribe_media_name_for_chat, transcript_filename,
};

#[test]
fn gold_path_derivation() {
    assert_eq!(gold_path_for("test.cha"), "test.gold.cha");
    assert_eq!(gold_path_for("/data/corpus/01DM.cha"), "/data/corpus/01DM.gold.cha");
    assert_eq!(gold_path_for("dir/sub/file.cha"), "dir/sub/file.gold.cha");
}

#[test]
fn gold_file_detection() {
    assert!(is_gold_file("test.gold.cha"));
    assert!(is_gold_file("/data/01DM.gold.cha"));
    assert!(!is_gold_file("test.cha"));
    assert!(!is_gold_file("test.gold.txt"));
}

#[test]
fn derives_gold_chat_path_from_audio() {
    assert_eq!(gold_chat_path_for_audio("sample.wav"), "sample.cha");
    assert_eq!(gold_chat_path_for_audio("/data/interview.mp3"), "/data/interview.cha");
}

#[test]
fn resolve_benchmark_original_audio_path_prefers_explicit_source_path() {
    let source_paths = vec!["/tmp/input/clip.mp3".to_string()];
    let path = resolve_benchmark_original_audio_path(&source_paths, "/tmp/source", 0, "clip.mp3");
    assert_eq!(path, "/tmp/input/clip.mp3");
}

#[test]
fn resolve_benchmark_original_audio_path_falls_back_to_source_dir() {
    let source_paths: Vec<String> = Vec::new();
    let path = resolve_benchmark_original_audio_path(&source_paths, "/tmp/source", 0, "clip.mp3");
    assert_eq!(path, "/tmp/source/clip.mp3");
}

#[test]
fn gold_path_of_a_name_without_extension_appends_the_suffix() {
    assert_eq!(gold_path_for("notes"), "notes.gold.cha");
    assert_eq!(gold_path_for(".hidden"), ".hidden.gold.cha");
    assert_eq!(gold_path_for("a.b.cha"), "a.b.gold.cha");
}

#[test]
fn gold_detection_requires_the_full_suffix() {
    assert!(!is_gold_file("gold.cha"));
    assert!(is_gold_file(".gold.cha"));
    assert!(!is_gold_file(""));
}

#[test]
fn paths_mode_filename_is_the_last_component() {
    assert_eq!(path_mode_filename_from_source("/corpus/a/b.cha").unwrap(), "b.cha");
    assert_eq!(path_mode_filename_from_source("c.cha").unwrap(), "c.cha");
}

#[test]
fn paths_mode_source_without_filename_is_rejected() {
    match path_mode_filename_from_source("/") {
        Err(ServerError::Validation(m)) => {
            assert_eq!(m, "paths_mode source path has no filename component: /")
        },
        other => panic!("unexpected: {:?}", other),
    }
    assert!(path_mode_filename_from_source("/data/..").is_err());
}

#[test]
fn transcribe_media_name_uses_original_stem() {
    assert_eq!(
        transcribe_media_name_for_chat("/in/interview.mp4", "/tmp/conv/interview.wav"),
        Some("interview".to_string())
    );
    assert_eq!(transcribe_media_name_for_chat("/", "/tmp/conv/x.wav"), Some("x".to_string()));
    assert_eq!(transcribe_media_name_for_chat("/", "/"), None);
}

#[test]
fn benchmark_audio_index_past_the_list_uses_source_dir() {
    let source_paths = vec!["/a/one.wav".to_string()];
    assert_eq!(resolve_benchmark_original_audio_path(&source_paths, "/src", 3, "x.wav"), "/src/x.wav");
}

#[test]
fn inputs_are_read_from_source_paths_or_staging() {
    let sources = vec!["/client/a.cha".to_string()];
    assert_eq!(input_path_for_file(true, &sources, 0, "/jobs/j", "a.cha"), "/client/a.cha");
    assert_eq!(input_path_for_file(true, &sources, 1, "/jobs/j", "b.cha"), "/jobs/j/input/b.cha");
    assert_eq!(input_path_for_file(false, &sources, 0, "/jobs/j", "sub/a.cha"), "/jobs/j/input/sub/a.cha");
    assert_eq!(before_path_for(&sources, 0), Some("/client/a.cha".to_string()));
    assert_eq!(before_path_for(&sources, 3), None);
}

#[test]
fn transcripts_are_named_after_their_media() {
    assert_eq!(transcript_filename("sub/nested.wav"), "nested.cha");
    assert_eq!(transcript_filename("talk"), "talk.cha");
    assert_eq!(staged_output_path("/jobs/j", "talk.cha"), "/jobs/j/output/talk.cha");
}

#[test]
fn media_candidates_try_each_known_extension() {
    let c = media_candidates("/media", "talk");
    assert_eq!(c.len(), 9);
    assert_eq!(c[0], "/media/talk.wav");
    assert_eq!(c[8], "/media/talk.webm");
    let m = media_mapping_candidates("/root", "kids/talk.cha", "corpus");
    assert_eq!(m[0], "/root/corpus/kids/talk.wav");
    let m = media_mapping_candidates("/root", "talk.cha", "");
    assert_eq!(m[1], "/root/talk.mp3");
}

#[test]
fn benchmark_metrics_sit_beside_the_transcript() {
    assert_eq!(benchmark_csv_path("/out/sample.cha"), "/out/sample.compare.csv");
    assert_eq!(benchmark_csv_path("out/sample"), "out/sample.compare.csv");
}

#[test]
fn gold_companion_keeps_the_stem_as_its_file_name() {
    let gold = gold_path_for("corpus/sub/x.y.cha");
    assert_eq!(std::path::Path::new(&gold).file_name().and_then(|n| n.to_str()), Some("x.y.gold.cha"));
    assert_eq!(gold, "corpus/sub/x.y.gold.cha");
}
