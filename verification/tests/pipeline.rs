use hark::pipeline::{
    mentions_key_exec, next_status, DictationRecord, FailStage, PipelineController, PipelineEvent,
    PipelineStatus,
};

fn record() -> DictationRecord {
    DictationRecord {
        raw_text: "raw".to_string(),
        final_text: "final".to_string(),
        voice: "clean".to_string(),
        stt_provider: "deepgram".to_string(),
        stt_model: "nova-3".to_string(),
        cleanup_model: None,
        audio_ms: 900,
        stt_ms: 300,
        cleanup_ms: None,
        total_ms: 450,
    }
}

#[test]
fn happy_path_walks_recording_processing_idle() {
    assert!(matches!(next_status(PipelineEvent::Recording), PipelineStatus::Recording));
    assert!(matches!(next_status(PipelineEvent::Processing), PipelineStatus::Processing));
    assert!(matches!(next_status(PipelineEvent::Injected(record())), PipelineStatus::Idle));
}

#[test]
fn misfires_and_empty_transcripts_return_to_idle_not_error() {
    for stage in [FailStage::GatedTooShort, FailStage::EmptyTranscript] {
        let s = next_status(PipelineEvent::Failed { stage, detail: "informational".to_string() });
        assert!(matches!(s, PipelineStatus::Idle), "stage {stage:?}");
    }
}

#[test]
fn a_too_quiet_capture_hints_rather_than_erroring_or_vanishing() {
    let s = next_status(PipelineEvent::Failed {
        stage: FailStage::GatedTooQuiet,
        detail: "no speech detected".to_string(),
    });
    match s {
        PipelineStatus::Hint { detail } => {
            assert!(detail.contains("microphone"), "unhelpful hint: {detail}")
        }
        other => panic!("expected a hint, got {:?}", std::mem::discriminant(&other)),
    }
}

#[test]
fn auth_failures_are_key_related_errors() {
    let s = next_status(PipelineEvent::Failed {
        stage: FailStage::Transcribe,
        detail: "authentication rejected by deepgram: check your API key".to_string(),
    });
    match s {
        PipelineStatus::Errored { key_related, detail } => {
            assert!(key_related);
            assert!(detail.contains("deepgram"));
        }
        _ => panic!("expected Errored"),
    }
}

#[test]
fn network_failures_are_errors_without_the_settings_jump() {
    let s = next_status(PipelineEvent::Failed {
        stage: FailStage::Transcribe,
        detail: "request to deepgram timed out after 15000 ms".to_string(),
    });
    assert!(matches!(s, PipelineStatus::Errored { key_related: false, .. }));
}

#[test]
fn drain_counts_injections_and_stop_does_not_reset_the_count() {
    let mut controller = PipelineController::new();
    controller.observe(PipelineEvent::Injected(record()));
    controller.observe(PipelineEvent::Recording);
    controller.observe(PipelineEvent::Injected(record()));
    assert_eq!(controller.injected_count(), 2);
    controller.stop();
    assert_eq!(controller.injected_count(), 2);
}

#[test]
fn the_next_dictation_replaces_a_sticky_error() {
    assert!(matches!(next_status(PipelineEvent::Recording), PipelineStatus::Recording));
}

#[test]
fn an_error_stays_until_the_next_event_replaces_it() {
    let mut controller = PipelineController::new();
    controller.started();
    controller.observe(PipelineEvent::Failed {
        stage: FailStage::Audio,
        detail: "device lost".to_string(),
    });
    assert!(matches!(
        controller.status(),
        PipelineStatus::Errored { key_related: false, .. }
    ));
    controller.observe(PipelineEvent::ShortcutIntercepted { key: "F12".to_string() });
    assert!(matches!(controller.status(), PipelineStatus::Errored { .. }));
    controller.observe(PipelineEvent::Recording);
    assert!(matches!(controller.status(), PipelineStatus::Recording));
}

#[test]
fn abandoned_is_quiet_and_internal_is_an_error() {
    let s = next_status(PipelineEvent::Failed {
        stage: FailStage::Abandoned,
        detail: "released".to_string(),
    });
    assert!(matches!(s, PipelineStatus::Idle));
    let s = next_status(PipelineEvent::Failed {
        stage: FailStage::Internal,
        detail: "Keychain unavailable".to_string(),
    });
    assert!(matches!(s, PipelineStatus::Errored { key_related: true, .. }));
    assert!(matches!(next_status(PipelineEvent::LoadingLocalModel), PipelineStatus::LoadingModel));
}

#[test]
fn key_mentions_ignore_ascii_case_only() {
    assert!(mentions_key_exec("Check your API KEY"));
    assert!(mentions_key_exec("keychain locked"));
    assert!(mentions_key_exec("kEy"));
    assert!(!mentions_key_exec("ke y"));
    assert!(!mentions_key_exec("ke"));
    assert!(!mentions_key_exec(""));
}

#[test]
fn a_new_controller_is_stopped_and_a_start_listens() {
    let mut controller = PipelineController::new();
    match controller.status() {
        PipelineStatus::Stopped { detail, key_related } => {
            assert_eq!(detail, "Not started");
            assert!(!key_related);
        }
        _ => panic!("expected Stopped"),
    }
    assert!(!controller.is_running());
    controller.started();
    assert!(controller.is_running());
    assert!(matches!(controller.status(), PipelineStatus::Idle));
    controller.mark_stopped("config.toml: bad value".to_string());
    assert!(!controller.is_running());
    assert!(matches!(controller.status(), PipelineStatus::Stopped { key_related: false, .. }));
}

#[test]
fn a_missing_key_stops_only_modes_that_need_the_cloud() {
    let mut controller = PipelineController::new();
    let key = controller.resolve_key(Err("no key in the keychain".to_string()), true);
    assert!(key.is_none());
    match controller.status() {
        PipelineStatus::Stopped { detail, key_related } => {
            assert_eq!(detail, "no key in the keychain");
            assert!(*key_related);
        }
        _ => panic!("expected Stopped"),
    }
    let mut keyless = PipelineController::new();
    assert_eq!(keyless.resolve_key(Err("no key".to_string()), false), Some(String::new()));
    assert_eq!(keyless.resolve_key(Ok("sk-1".to_string()), true), Some("sk-1".to_string()));
    keyless.start_failed("no input device".to_string());
    assert!(matches!(keyless.status(), PipelineStatus::Stopped { key_related: false, .. }));
}
