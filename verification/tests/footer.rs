use hark::footer::{jump_section, provider_line, state_label, LocalMode, ProviderSummary};
use hark::pipeline::PipelineStatus;
use hark::settings::Section;

fn summary(mode: LocalMode, provider: &str, model: &str, cleanup: Option<&str>) -> ProviderSummary {
    ProviderSummary {
        local_mode: mode,
        local_model: "parakeet-tdt-0.6b-v3-int8".to_string(),
        provider: provider.to_string(),
        model: model.to_string(),
        fused_smart: false,
        cleanup_model: cleanup.map(str::to_string),
    }
}

#[test]
fn default_config_shows_provider_and_model_without_cleanup() {
    let s = summary(LocalMode::Off, "deepgram", "nova-3", None);
    assert_eq!(provider_line(&s), "deepgram · nova-3");
}

#[test]
fn openai_with_clean_voice_shows_the_cleanup_model() {
    let s = summary(LocalMode::Off, "openai", "gpt-transcribe", Some("gpt-5-nano"));
    assert_eq!(provider_line(&s), "openai · gpt-transcribe · cleanup gpt-5-nano");
}

#[test]
fn verbatim_voice_never_shows_a_cleanup_model() {
    let s = summary(LocalMode::Off, "openai", "gpt-transcribe", None);
    assert_eq!(provider_line(&s), "openai · gpt-transcribe");
}

#[test]
fn local_primary_names_the_engine_that_actually_runs() {
    let s = summary(LocalMode::Primary, "deepgram", "nova-3", None);
    assert_eq!(provider_line(&s), "on-device · parakeet-tdt-0.6b-v3-int8");
}

#[test]
fn local_fallback_still_names_the_cloud_provider_first() {
    let s = summary(LocalMode::Fallback, "deepgram", "nova-3", None);
    assert_eq!(provider_line(&s), "deepgram · nova-3 · on-device fallback");
}

#[test]
fn local_primary_still_shows_an_overridden_cleanup_model() {
    let s = summary(LocalMode::Primary, "deepgram", "nova-3", Some("gpt-5-nano"));
    assert_eq!(
        provider_line(&s),
        "on-device · parakeet-tdt-0.6b-v3-int8 · cleanup gpt-5-nano"
    );
}

#[test]
fn a_fused_smart_provider_advertises_no_separate_cleanup() {
    let mut s = summary(LocalMode::Off, "gemini", "gemini-live", Some("gpt-5-nano"));
    s.fused_smart = true;
    assert_eq!(provider_line(&s), "gemini · gemini-live · smart");
    s.local_mode = LocalMode::Primary;
    assert_eq!(
        provider_line(&s),
        "on-device · parakeet-tdt-0.6b-v3-int8 · cleanup gpt-5-nano"
    );
}

#[test]
fn the_state_line_names_each_state() {
    assert_eq!(state_label(&PipelineStatus::Idle, None, "Ctrl+Win"), "Ready · Hold Ctrl+Win to dictate");
    assert_eq!(
        state_label(&PipelineStatus::Idle, Some("F12"), "Ctrl+Win"),
        "Another app is intercepting F12"
    );
    assert_eq!(state_label(&PipelineStatus::Recording, Some("F12"), "x"), "Recording");
    assert_eq!(state_label(&PipelineStatus::Processing, None, "x"), "Processing");
    assert_eq!(
        state_label(&PipelineStatus::LoadingModel, None, "x"),
        "Loading the on-device model…"
    );
    let errored = PipelineStatus::Errored { detail: "device lost".to_string(), key_related: false };
    assert_eq!(state_label(&errored, None, "x"), "device lost");
    let no_key = PipelineStatus::Stopped { detail: "no key".to_string(), key_related: true };
    assert_eq!(state_label(&no_key, None, "x"), "No STT key yet.");
    let stopped = PipelineStatus::Stopped { detail: "bad config".to_string(), key_related: false };
    assert_eq!(state_label(&stopped, None, "x"), "Pipeline stopped: bad config");
}

#[test]
fn the_settings_jump_appears_only_where_settings_can_fix_it() {
    assert_eq!(jump_section(&PipelineStatus::Idle, true), Some(Section::Audio));
    assert_eq!(jump_section(&PipelineStatus::Idle, false), None);
    assert_eq!(jump_section(&PipelineStatus::Recording, true), None);
    let key_error = PipelineStatus::Errored { detail: "check your API key".to_string(), key_related: true };
    assert_eq!(jump_section(&key_error, false), Some(Section::Dictation));
    let net_error = PipelineStatus::Errored { detail: "timed out".to_string(), key_related: false };
    assert_eq!(jump_section(&net_error, false), None);
    let hint = PipelineStatus::Hint { detail: "Check your microphone.".to_string() };
    assert_eq!(jump_section(&hint, false), Some(Section::Dictation));
    let no_key = PipelineStatus::Stopped { detail: "no key".to_string(), key_related: true };
    assert_eq!(jump_section(&no_key, false), Some(Section::Dictation));
    let stopped = PipelineStatus::Stopped { detail: "bad config".to_string(), key_related: false };
    assert_eq!(jump_section(&stopped, false), None);
}
