use hark::feedback::{
    overlay_state, overlay_visible, packed_after, repaint_ms, shown_at, Feedback, State, DISABLED,
};
use hark::pipeline::{next_status, FailStage, PipelineEvent, PipelineStatus};
use hark::resample::checked_resampled_len;
use hark::ring::{frames_in, oldest_index, ring, slot_of};
use hark::settings::VoiceName;
use hark::tray::{TrayShown, TrayState};

#[test]
fn interleaved_pushes_count_whole_frames() {
    let mut r = ring(8);
    r.push(&[1, 2, 3]);
    // Five stereo samples: two whole frames, the fifth sample dropped.
    let stereo = [10u32, 20, 30, 40, 50];
    r.push_interleaved(stereo.len(), 2, |k| (stereo[2 * k] + stereo[2 * k + 1]) / 2);
    assert_eq!(r.total_written(), 5);
    assert_eq!(r.read_range(0, 5).unwrap(), vec![1, 2, 3, 15, 35]);
    r.push_interleaved(3, 1, |k| [7u32, 8, 9][k]);
    assert_eq!(r.total_written(), 8);
    assert_eq!(r.read_range(5, 8).unwrap(), vec![7, 8, 9]);
}

#[test]
fn the_counter_does_not_depend_on_the_capacity() {
    for cap in [1usize, 2, 4, 100] {
        let mut r = ring(cap);
        r.push(&[1, 2]);
        r.push_interleaved(7, 3, |_| 0);
        r.push(&[]);
        assert_eq!(r.total_written(), 4);
    }
}

#[test]
fn slots_and_frames() {
    assert_eq!(slot_of(0, 4), 0);
    assert_eq!(slot_of(9, 4), 1);
    assert_eq!(frames_in(5, 2), 2);
    assert_eq!(frames_in(6, 3), 2);
    assert_eq!(frames_in(2, 3), 0);
}

#[test]
fn the_checked_length_refuses_what_does_not_fit() {
    assert_eq!(checked_resampled_len(48_000, 48_000), Some(16_000));
    assert_eq!(checked_resampled_len(240, 48_000), Some(80));
    assert_eq!(checked_resampled_len(100, 0), None);
    assert_eq!(checked_resampled_len(usize::MAX, 48_000), None);
}

#[test]
fn a_disabled_feedback_stays_hidden_through_any_publishes() {
    let mut f = Feedback::new();
    f.disable();
    f.publish(&PipelineEvent::Recording);
    f.publish_at(State::Inserted, 10);
    f.publish(&PipelineEvent::Failed { stage: FailStage::Audio, detail: "x".to_string() });
    f.publish(&PipelineEvent::Processing);
    for now in [0u64, 10, 500, 10_000] {
        assert_eq!(f.state_at(true, now), State::Hidden);
        assert_eq!(f.state_at(false, now), State::Hidden);
    }
}

#[test]
fn the_tray_is_told_only_what_changed() {
    let mut t = TrayShown::new(&PipelineStatus::Idle, "LCtrl+LWin", VoiceName::Clean);
    let none = t.apply(&PipelineStatus::Idle, "LCtrl+LWin", VoiceName::Clean);
    assert!(none.icon.is_none() && none.tooltip.is_none() && none.voice.is_none());

    let c = t.apply(&PipelineStatus::Recording, "LCtrl+LWin", VoiceName::Clean);
    assert_eq!(c.icon, Some(TrayState::Recording));
    assert_eq!(c.tooltip.as_deref(), Some("Hark: recording"));
    assert_eq!(c.voice, None);

    let c = t.apply(&PipelineStatus::Recording, "LCtrl+LWin", VoiceName::Casual);
    assert!(c.icon.is_none() && c.tooltip.is_none());
    assert_eq!(c.voice, Some(VoiceName::Casual));

    let c = t.apply(&PipelineStatus::Idle, "RAlt", VoiceName::Casual);
    assert_eq!(c.icon, Some(TrayState::Idle));
    assert_eq!(c.tooltip.as_deref(), Some("Hark: listening for RAlt"));

    let again = t.apply(&PipelineStatus::Idle, "RAlt", VoiceName::Casual);
    assert!(again.icon.is_none() && again.tooltip.is_none() && again.voice.is_none());
    assert_eq!(t.set_voice(VoiceName::Casual), VoiceName::Casual);
}

#[test]
fn an_interception_report_alone_leaves_the_pipeline_listening() {
    assert!(matches!(
        next_status(PipelineEvent::ShortcutIntercepted { key: "F12".to_string() }),
        PipelineStatus::Idle
    ));
}

#[test]
fn the_shared_cell_functions_pack_and_read_back() {
    assert_eq!(overlay_state(&PipelineEvent::Processing), Some(State::Processing));
    assert_eq!(overlay_state(&PipelineEvent::ShortcutIntercepted { key: "F1".to_string() }), None);
    assert_eq!(packed_after(DISABLED, State::Inserted, 5), None);
    let v = packed_after(0, State::Inserted, 100).unwrap();
    assert_eq!(v, (100 << 8) | 4);
    assert_eq!(shown_at(v, false, 100), State::Inserted);
    assert_eq!(shown_at(v, false, 1_099), State::Inserted);
    assert_eq!(shown_at(v, false, 1_100), State::Hidden);
    assert_eq!(shown_at(v, true, 1_100), State::Listening);
    assert_eq!(shown_at(DISABLED, true, 0), State::Hidden);
}

#[test]
fn the_overlay_repaints_fast_only_while_a_moving_state_animates() {
    assert!(!overlay_visible(State::Hidden));
    assert!(overlay_visible(State::Inserted));
    assert_eq!(repaint_ms(State::Listening, true), 33);
    assert_eq!(repaint_ms(State::Processing, true), 33);
    assert_eq!(repaint_ms(State::LoadingModel, true), 33);
    assert_eq!(repaint_ms(State::Listening, false), 100);
    assert_eq!(repaint_ms(State::Inserted, true), 100);
    assert_eq!(repaint_ms(State::Quiet, true), 100);
}

#[test]
fn the_oldest_index_trails_the_counter_by_one_capacity() {
    assert_eq!(oldest_index(0, 8), 0);
    assert_eq!(oldest_index(5, 8), 0);
    assert_eq!(oldest_index(20, 8), 12);
}
