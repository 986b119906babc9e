use hark::capture::{
    chord_hint, edges_line, held_display, mode_link, offers_reset, record_button_label, HotkeyCapture,
};
use hark::settings::HotkeyAction;

#[test]
fn a_completed_chord_lands_in_the_field_and_ends_recording() {
    let mut capture = HotkeyCapture::new();
    let mut field = "LCtrl+LWin".to_string();
    assert_eq!(capture.poll_into(&mut field, None, true), HotkeyAction::NoChange);
    capture.began();
    assert!(capture.is_recording());
    assert_eq!(capture.poll_into(&mut field, None, true), HotkeyAction::NoChange);
    assert!(capture.is_recording());
    assert_eq!(
        capture.poll_into(&mut field, Some("RCtrl+RShift".to_string()), true),
        HotkeyAction::Ended
    );
    assert_eq!(field, "RCtrl+RShift");
    assert!(!capture.is_recording());
    assert_eq!(capture.notice(), None);
}

#[test]
fn a_chord_arriving_when_not_recording_is_ignored() {
    let mut capture = HotkeyCapture::new();
    let mut field = "F13".to_string();
    assert_eq!(
        capture.poll_into(&mut field, Some("F14".to_string()), false),
        HotkeyAction::NoChange
    );
    assert_eq!(field, "F13");
}

#[test]
fn a_dead_hook_ends_recording_with_the_reason_and_the_typed_field() {
    let mut capture = HotkeyCapture::new();
    let mut field = "F13".to_string();
    capture.began();
    assert_eq!(capture.poll_into(&mut field, None, false), HotkeyAction::Ended);
    assert!(!capture.is_recording());
    assert_eq!(
        capture.notice(),
        Some("Recording stopped: Windows dropped Hark's keyboard hook.")
    );
    assert!(capture.typing(true));
    assert_eq!(field, "F13");
}

#[test]
fn a_failed_start_offers_the_typed_field() {
    let mut capture = HotkeyCapture::new();
    assert!(!capture.typing(true));
    assert!(capture.typing(false), "where recording is unsupported the field always shows");
    capture.begin_failed("hook refused");
    assert!(!capture.is_recording());
    assert_eq!(capture.notice(), Some("Can't record a shortcut here: hook refused"));
    assert!(capture.typing(true));
    capture.toggle_typing();
    assert!(!capture.typing(true));
    assert_eq!(capture.notice(), None);
}

#[test]
fn cancel_ends_only_a_recording() {
    let mut capture = HotkeyCapture::new();
    assert_eq!(capture.cancel(), HotkeyAction::NoChange);
    capture.began();
    assert_eq!(capture.cancel(), HotkeyAction::Ended);
    assert!(!capture.is_recording());
}

#[test]
fn held_keys_read_left_to_right() {
    assert_eq!(held_display(&vec![]), "");
    assert_eq!(held_display(&vec!["Left Ctrl".to_string()]), "Left Ctrl");
    assert_eq!(
        held_display(&vec!["Left Ctrl".to_string(), "Left Win".to_string(), "F13".to_string()]),
        "Left Ctrl + Left Win + F13"
    );
}

#[test]
fn the_shortcut_row_reads_as_the_mode_it_is_in() {
    assert_eq!(record_button_label(true), "Record");
    assert_eq!(record_button_label(false), "Change");
    assert_eq!(mode_link(true), "Record it instead");
    assert_eq!(mode_link(false), "Type it instead");
    assert!(offers_reset("RCtrl+RShift", "LCtrl+LWin"));
    assert!(!offers_reset("LCtrl+LWin", "LCtrl+LWin"));
}

#[test]
fn a_lone_modifier_is_warned_about() {
    let (warn, text) = chord_hint(Some("Left Ctrl"));
    assert!(warn);
    assert_eq!(
        text,
        "Left Ctrl on its own starts a dictation every time you press it, in every app. Add another key unless you really mean that."
    );
    let (warn, text) = chord_hint(None);
    assert!(!warn);
    assert_eq!(text, "Hold these keys together to dictate; release to inject.");
}

#[test]
fn key_event_counts_show_only_while_nothing_is_held() {
    assert_eq!(edges_line(true, 0), None);
    assert_eq!(edges_line(false, 12), None);
    assert_eq!(edges_line(true, 12), Some("12 key events seen".to_string()));
}
