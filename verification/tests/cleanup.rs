use hark::cleanup::{
    base_url_missing, cleanup_account, cleanup_key, inherited_line, override_toggled, probe_voice, report,
    shared_key_line, CleanupKey, CleanupKeySource, CleanupResolution, CleanupTest, Outcome,
};
use hark::pages::Tone;
use hark::settings::{CleanupPass, FormBufs, ProviderFields, ProviderKind, VoiceName};

#[test]
fn a_verbatim_default_is_probed_with_the_clean_voice() {
    assert_eq!(probe_voice(VoiceName::Verbatim), VoiceName::Clean);
    assert_eq!(probe_voice(VoiceName::Casual), VoiceName::Casual);
}

#[test]
fn the_inherited_line_is_honest_about_degradation() {
    assert_eq!(
        inherited_line(&CleanupResolution::Verbatim, "deepgram"),
        (Tone::Accent, "Verbatim voice: no cleanup call runs.".to_string())
    );
    assert_eq!(
        inherited_line(
            &CleanupResolution::VerbatimWithWarning { reason: "Deepgram has no chat model.".to_string() },
            "deepgram"
        ),
        (Tone::Warning, "Deepgram has no chat model. Text is injected as transcribed.".to_string())
    );
    assert_eq!(
        inherited_line(&CleanupResolution::Resolved { model: "gpt-5-nano".to_string() }, "openai"),
        (Tone::Accent, "Inherited from STT (openai) · gpt-5-nano".to_string())
    );
}

#[test]
fn an_override_reuses_the_stt_key_when_the_accounts_match() {
    assert_eq!(cleanup_account(&None, "openai"), "openai");
    assert_eq!(cleanup_account(&Some("work".to_string()), "openai"), "work");
    assert_eq!(
        shared_key_line("openai", "openai"),
        Some("Uses the \"openai\" key already stored for speech to text.".to_string())
    );
    assert_eq!(shared_key_line("work", "openai"), None);
    assert!(base_url_missing(ProviderKind::OpenaiCompatible, false));
    assert!(!base_url_missing(ProviderKind::OpenaiCompatible, true));
    assert!(!base_url_missing(ProviderKind::Groq, false));
}

#[test]
fn toggling_the_override_starts_its_buffers_over() {
    let provider = ProviderFields { kind: ProviderKind::Openai, model: Some("m".to_string()), base_url: None };
    let mut bufs = FormBufs::from_settings(&provider, None);
    bufs.cleanup_model = "x".to_string();
    bufs.cleanup_key_account = "y".to_string();
    override_toggled(&mut bufs);
    assert_eq!(bufs.cleanup_model, "");
    assert_eq!(bufs.cleanup_key_account, "");
    assert_eq!(bufs.model, "m");
}

#[test]
fn the_cleanup_test_runs_once_at_a_time() {
    let mut test = CleanupTest::new();
    assert!(!test.enabled(false), "nothing resolves: nothing to test");
    assert!(test.enabled(true));
    test.start();
    assert!(test.is_running());
    assert!(!test.enabled(true));
    test.finish(Outcome {
        voice: VoiceName::Clean,
        result: Ok(CleanupPass { model: "gpt-5-nano".to_string(), ms: 230 }),
    });
    assert!(!test.is_running());
    let outcome = test.outcome().expect("finished");
    let (tone, head, ms, note) = report(outcome, VoiceName::Verbatim);
    assert_eq!(tone, Tone::Success);
    assert_eq!(head, "Cleanup reached gpt-5-nano");
    assert_eq!(ms, Some("230 ms".to_string()));
    assert_eq!(
        note,
        Some("Tested with the clean voice; your default (verbatim) makes no cleanup call.".to_string())
    );
    let (_, _, _, note) = report(outcome, VoiceName::Clean);
    assert_eq!(note, None);
}

#[test]
fn a_failed_cleanup_test_says_why() {
    let outcome = Outcome { voice: VoiceName::Professional, result: Err("model not found".to_string()) };
    assert_eq!(report(&outcome, VoiceName::Professional), (Tone::Danger, "model not found".to_string(), None, None));
}

#[test]
fn a_reused_speech_key_must_exist() {
    match cleanup_key(&CleanupKeySource::ReuseSttKey, Some("sk-1")) {
        Ok(CleanupKey::Stt(k)) => assert_eq!(k, "sk-1"),
        _ => panic!("expected the speech key"),
    }
    match cleanup_key(&CleanupKeySource::ReuseSttKey, None) {
        Err(e) => assert_eq!(e, "no STT key available to reuse for cleanup"),
        _ => panic!("expected an error"),
    }
}

#[test]
fn an_own_account_is_looked_up() {
    match cleanup_key(&CleanupKeySource::Account("groq".to_string()), None) {
        Ok(CleanupKey::Lookup(a)) => assert_eq!(a, "groq"),
        _ => panic!("expected a lookup"),
    }
}
