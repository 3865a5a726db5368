use batchalign_core::capabilities::{
    command_supported, derive_command_capabilities, optimistic_capabilities, probe_capabilities,
    released_infer_tasks, supported_command_list, validate_infer_capability_gate, DetectedCapabilities,
    PreparedWorkers,
};
use batchalign_core::commands::{InferTask, ReleasedCommand};
use batchalign_core::error::ServerError;

fn versions(pairs: &[(&str, &str)]) -> Vec<(String, String)> {
    pairs.iter().map(|(k, v)| (k.to_string(), v.to_string())).collect()
}

fn message(e: &ServerError) -> String {
    e.message()
}

#[test]
fn infer_gate_returns_no_commands_without_infer_tasks() {
    let filtered = validate_infer_capability_gate(&[], &Vec::new(), false)
        .expect("empty infer task set should derive an empty command list");
    assert!(filtered.is_empty());
}

#[test]
fn infer_gate_derives_released_commands_from_infer_tasks() {
    let infer_tasks = vec![
        InferTask::Morphosyntax,
        InferTask::Utseg,
        InferTask::Translate,
        InferTask::Coref,
        InferTask::Fa,
        InferTask::Opensmile,
        InferTask::Avqi,
    ];
    let v = versions(&[
        ("morphosyntax", "stanza-1.9.2"),
        ("utseg", "stanza"),
        ("translate", "seamless-v1"),
        ("coref", "stanza-1.9.2"),
        ("fa", "whisper"),
        ("opensmile", "opensmile"),
        ("avqi", "praat"),
    ]);
    let filtered = validate_infer_capability_gate(&infer_tasks, &v, false)
        .expect("complete infer-task set should derive released commands");
    assert_eq!(
        filtered,
        vec![
            "morphotag".to_string(),
            "utseg".to_string(),
            "translate".to_string(),
            "coref".to_string(),
            "align".to_string(),
            "opensmile".to_string(),
            "avqi".to_string(),
            "compare".to_string(),
        ]
    );
}

#[test]
fn infer_gate_rejects_missing_engine_version() {
    let infer_tasks = vec![InferTask::Morphosyntax];
    let err = validate_infer_capability_gate(&infer_tasks, &Vec::new(), false)
        .expect_err("missing engine_versions entry should fail");
    let text = message(&err);
    assert!(text.contains("engine_versions['morphosyntax'] is missing"), "actual: {}", text);
}

#[test]
fn infer_gate_rejects_empty_engine_version() {
    let infer_tasks = vec![InferTask::Fa];
    let v = versions(&[("fa", " ")]);
    let err = validate_infer_capability_gate(&infer_tasks, &v, false).expect_err("empty engine version should fail");
    let text = message(&err);
    assert!(text.contains("empty engine_versions['fa']"), "actual: {}", text);
}

#[test]
fn infer_gate_accepts_complete_capabilities() {
    let infer_tasks = vec![InferTask::Morphosyntax, InferTask::Fa];
    let v = versions(&[("morphosyntax", "stanza-1.9.2"), ("fa", "whisper-fa-large-v3")]);
    let filtered = validate_infer_capability_gate(&infer_tasks, &v, false)
        .expect("complete infer capability data should pass");
    assert_eq!(filtered, vec!["morphotag".to_string(), "align".to_string(), "compare".to_string()]);
}

#[test]
fn infer_gate_synthesizes_server_owned_asr_commands() {
    let infer_tasks = vec![InferTask::Asr];
    let v = versions(&[("asr", "whisper")]);
    let filtered = validate_infer_capability_gate(&infer_tasks, &v, false)
        .expect("server-owned ASR commands should be synthesized when ASR is available");
    assert_eq!(
        filtered,
        vec!["transcribe".to_string(), "transcribe_s".to_string(), "benchmark".to_string()]
    );
}

#[test]
fn infer_gate_skips_test_echo_mode() {
    let filtered = validate_infer_capability_gate(&[], &Vec::new(), true)
        .expect("test-echo mode should bypass strict infer gate");
    assert!(filtered.iter().any(|command| command == "morphotag"));
    assert!(filtered.iter().any(|command| command == "transcribe"));
}

#[test]
fn advertised_command_is_supported() {
    assert!(command_supported(ReleasedCommand::Morphotag, &["morphotag".to_string()]));
}

#[test]
fn command_not_in_capabilities_is_rejected() {
    assert!(!command_supported(ReleasedCommand::Morphotag, &["align".to_string()]));
}

#[test]
fn supported_list_uses_advertised_capabilities_only() {
    let caps = vec!["cantotag".to_string(), "morphotag".to_string(), "test-echo".to_string()];
    let supported = supported_command_list(&caps);
    assert!(supported.iter().any(|c| c == "morphotag"));
    assert!(supported.iter().any(|c| c == "cantotag"));
    assert!(!supported.iter().any(|c| c == "test-echo"));
}

#[test]
fn supported_list_is_sorted_and_deduplicated() {
    let caps = vec!["utseg".to_string(), "align".to_string(), "utseg".to_string()];
    assert_eq!(supported_command_list(&caps), vec!["align".to_string(), "utseg".to_string()]);
}

#[test]
fn infer_gate_reports_the_first_failing_task() {
    let infer_tasks = vec![InferTask::Fa, InferTask::Utseg];
    let v = versions(&[("fa", "whisper")]);
    let err = validate_infer_capability_gate(&infer_tasks, &v, false).expect_err("utseg lacks a version");
    assert_eq!(
        message(&err),
        "worker capability gate failed: infer task 'utseg' is reported but engine_versions['utseg'] is missing"
    );
}

#[test]
fn derived_capabilities_follow_workflow_order() {
    let derived = derive_command_capabilities(&[InferTask::Asr, InferTask::Morphosyntax]);
    assert_eq!(
        derived,
        vec![
            "morphotag".to_string(),
            "compare".to_string(),
            "transcribe".to_string(),
            "transcribe_s".to_string(),
            "benchmark".to_string(),
        ]
    );
}

#[test]
fn optimistic_capabilities_list_every_command_sorted() {
    let caps = optimistic_capabilities();
    assert_eq!(caps.len(), 11);
    let mut sorted = caps.clone();
    sorted.sort();
    assert_eq!(caps, sorted);
    assert!(caps.iter().any(|c| c == "transcribe_s"));
}

#[test]
fn released_infer_tasks_cover_every_task_in_order() {
    assert_eq!(
        released_infer_tasks(),
        vec![
            InferTask::Morphosyntax,
            InferTask::Utseg,
            InferTask::Translate,
            InferTask::Coref,
            InferTask::Fa,
            InferTask::Asr,
            InferTask::Opensmile,
            InferTask::Avqi,
        ]
    );
}

#[test]
fn probing_without_detection_is_optimistic() {
    let probed = probe_capabilities(false, None).expect("optimistic probe");
    assert_eq!(probed.capabilities.len(), 11);
    assert!(probed.infer_tasks.is_empty());
    assert!(probed.engine_versions.is_empty());
}

#[test]
fn probing_uses_detected_worker_capabilities() {
    let detected = DetectedCapabilities {
        infer_tasks: vec![InferTask::Fa],
        engine_versions: versions(&[("fa", "whisper")]),
    };
    let probed = probe_capabilities(false, Some(&detected)).expect("detected probe");
    assert_eq!(probed.capabilities, vec!["align".to_string()]);
    assert_eq!(probed.infer_tasks, vec![InferTask::Fa]);
    let bad = DetectedCapabilities { infer_tasks: vec![InferTask::Fa], engine_versions: Vec::new() };
    assert!(probe_capabilities(false, Some(&bad)).is_err());
    let echo = probe_capabilities(true, Some(&bad)).expect("test echo probe");
    assert_eq!(echo.infer_tasks.len(), 8);
}

#[test]
fn current_infer_tasks_prefer_live_detection() {
    let workers = PreparedWorkers {
        capabilities: vec!["morphotag".to_string()],
        infer_tasks: vec![InferTask::Morphosyntax],
        engine_versions: versions(&[("morphosyntax", "stanza")]),
        test_echo_mode: false,
    };
    assert_eq!(workers.current_infer_tasks(None).unwrap(), vec![InferTask::Morphosyntax]);
    let detected = DetectedCapabilities {
        infer_tasks: vec![InferTask::Asr],
        engine_versions: versions(&[("asr", "whisper")]),
    };
    assert_eq!(workers.current_infer_tasks(Some(&detected)).unwrap(), vec![InferTask::Asr]);
    assert_eq!(workers.capabilities(), &["morphotag".to_string()][..]);
    assert_eq!(workers.infer_tasks(), &[InferTask::Morphosyntax][..]);
}
