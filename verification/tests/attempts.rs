use batchalign_core::job::UnixTimestamp;
use batchalign_core::attempts::{
    benchmark_reference_read_error, input_read_error, media_conversion_error, retry_deadline, missing_audio_error, unrecovered_after_prepass, utr_prepass,
    AttemptOpening, FileAttempts, FailedAttemptStep, UtrPrepass,
};

#[test]
fn utr_prepass_follows_timing_and_engine() {
    assert_eq!(utr_prepass(0, true), UtrPrepass::Skip);
    assert_eq!(utr_prepass(3, true), UtrPrepass::Recover);
    assert_eq!(utr_prepass(3, false), UtrPrepass::Interpolate);
    assert!(!unrecovered_after_prepass(UtrPrepass::Skip, None));
    assert!(unrecovered_after_prepass(UtrPrepass::Recover, Some(2)));
    assert!(!unrecovered_after_prepass(UtrPrepass::Recover, Some(0)));
    assert!(unrecovered_after_prepass(UtrPrepass::Recover, None));
    assert!(unrecovered_after_prepass(UtrPrepass::Interpolate, None));
}

#[test]
fn retryable_worker_failures_retry_until_attempts_run_out() {
    let mut attempts = FileAttempts::new(3, true, true);
    assert_eq!(attempts.opening(), AttemptOpening::ShowAligning);

    assert_eq!(attempts.on_failure(true, true), FailedAttemptStep::Retry { fallback_utr: true });
    assert_eq!(attempts.attempt, 2);
    assert_eq!(attempts.opening(), AttemptOpening::RestartAttempt);
    attempts.on_fallback_recovery(0);
    assert!(attempts.had_unrecovered_untimed);

    assert_eq!(attempts.on_failure(true, true), FailedAttemptStep::Retry { fallback_utr: false });
    assert_eq!(attempts.attempt, 3);
    assert_eq!(attempts.on_failure(true, true), FailedAttemptStep::Fail);
    assert_eq!(attempts.attempt, 3);
}

#[test]
fn non_worker_or_terminal_failures_fail_at_once() {
    let mut attempts = FileAttempts::new(3, true, false);
    assert_eq!(attempts.on_failure(false, true), FailedAttemptStep::Fail);
    assert_eq!(attempts.on_failure(true, false), FailedAttemptStep::Fail);
    assert_eq!(attempts.attempt, 1);

    let mut attempts = FileAttempts::new(3, false, true);
    assert_eq!(attempts.on_failure(true, true), FailedAttemptStep::Retry { fallback_utr: false });

    let mut attempts = FileAttempts::new(2, true, true);
    attempts.on_fallback_recovery(4);
    assert!(!attempts.had_unrecovered_untimed);
    assert_eq!(attempts.on_failure(true, true), FailedAttemptStep::Retry { fallback_utr: false });
}

#[test]
fn file_failure_messages() {
    assert_eq!(
        missing_audio_error("a.cha", "", ""),
        "Cannot find audio file for a.cha. Searched for media with known extensions (.wav, .mp3, .mp4, etc.) alongside the .cha file."
    );
    assert_eq!(
        missing_audio_error("a.cha", "corpus", "eng/adult"),
        "Cannot find audio file for a.cha. Searched for media with known extensions (.wav, .mp3, .mp4, etc.) in media mapping 'corpus' subdir 'eng/adult'."
    );
    assert_eq!(input_read_error("No such file or directory (os error 2)"), "Failed to read input: No such file or directory (os error 2)");
    assert_eq!(media_conversion_error("a.mp4", "ffmpeg exited with 1"), "Media conversion failed for a.mp4: ffmpeg exited with 1");
}

#[test]
fn retries_wait_one_backoff_after_the_failure() {
    assert_eq!(retry_deadline(UnixTimestamp(1_000), 250), UnixTimestamp(1_250));
}

#[test]
fn benchmark_reference_message() {
    assert_eq!(
        benchmark_reference_read_error("/data/a.cha", "No such file or directory (os error 2)"),
        "Failed to read benchmark reference transcript /data/a.cha: No such file or directory (os error 2)"
    );
}
