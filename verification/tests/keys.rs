use hark::keys::{status_line, KeySection, KeyStatus};
use hark::pages::Tone;

#[test]
fn status_lines_name_the_account_and_never_leak_key_material() {
    let (tone, text) = status_line(&KeyStatus::Stored, "deepgram");
    assert_eq!(tone, Tone::Success);
    assert_eq!(text, "Key stored for deepgram");

    let (tone, text) = status_line(&KeyStatus::Missing, "groq");
    assert_eq!(tone, Tone::Warning);
    assert_eq!(text, "No key for groq yet");

    let (tone, text) = status_line(&KeyStatus::Backend("locked vault".to_string()), "openai");
    assert_eq!(tone, Tone::Danger);
    assert_eq!(text, "Keychain unavailable: locked vault");
}

#[test]
fn the_paste_buffer_never_outlives_a_store_attempt() {
    let mut section = KeySection::new("deepgram", KeyStatus::Missing);
    assert!(!section.stored());
    section.set_paste("   ".to_string());
    assert_eq!(section.pending_key(), None);
    section.set_paste("sk-secret".to_string());
    assert_eq!(section.pending_key(), Some("sk-secret"));
    assert!(section.stored_outcome(Ok(())));
    assert_eq!(section.pending_key(), None);
    assert_eq!(section.notice_line(), Some((Tone::Success, "Key stored")));

    section.set_paste("sk-other".to_string());
    assert!(!section.stored_outcome(Err("keychain locked".to_string())));
    assert_eq!(section.pending_key(), None);
    assert_eq!(section.notice_line(), Some((Tone::Danger, "keychain locked")));
}

#[test]
fn removal_asks_first_and_names_the_account() {
    let mut section = KeySection::new("openai", KeyStatus::Stored);
    assert!(section.stored());
    section.ask_remove();
    section.cancel_remove();
    assert!(section.pending_confirm().is_none());
    section.ask_remove();
    let confirm = section.pending_confirm().expect("a confirmation is pending");
    assert_eq!(confirm.title, "Remove key?");
    assert_eq!(confirm.action, "Remove key");
    assert!(confirm.focus_cancel);
    assert_eq!(
        confirm.body,
        "Hark forgets the \"openai\" key stored in the OS keychain. Dictation stops until a new key is stored."
    );
    assert!(section.removed_outcome(Ok(())));
    assert!(section.pending_confirm().is_none());
    assert_eq!(section.notice_line(), Some((Tone::Success, "Key removed")));
    section.set_status(KeyStatus::Missing);
    assert!(!section.stored());
}

#[test]
fn switching_accounts_resets_only_on_a_real_change() {
    let mut section = KeySection::new("deepgram", KeyStatus::Stored);
    section.set_paste("half-typed".to_string());
    assert!(!section.sync_account("deepgram"));
    assert_eq!(section.pending_key(), Some("half-typed"));
    assert!(section.sync_account("groq"));
    assert_eq!(section.account(), "groq");
    assert_eq!(section.pending_key(), None);
    assert_eq!(section.notice_line(), None);
}
