//! The tray's state and tooltip, mapped from the pipeline status. The
//! tooltip always carries the words: colour never conveys a state alone.

use vstd::prelude::*;
use vstd::string::*;
use crate::pipeline::PipelineStatus;
use crate::settings::{voice_label, voices, VoiceName};
use crate::text::{chars_of, push_char, push_str, same_chars, string_of};

verus! {

/// Icon bitmap edge in pixels.
pub const SIZE: u32 = 32;

/// Windows caps tray tooltips at 127 characters and cuts mid-word, so the
/// tooltip is truncated here, with an ellipsis.
pub const TOOLTIP_MAX: usize = 127;

/// What the icon can express: the pipeline status with the failure causes
/// collapsed into needs-key / failed / stopped.
#[derive(Clone, Copy, PartialEq, Eq, Debug, Structural)]
pub enum TrayState {
    /// Listening for the chord.
    Idle,
    /// Capturing audio.
    Recording,
    /// Request in flight, or the model loading before it.
    Processing,
    /// Key missing or rejected (Settings fixes it).
    NeedsKey,
    /// The last dictation failed; the pipeline is still listening.
    Error,
    /// Pipeline not running for a non-key reason.
    Stopped,
}

/// The tray state of each status.
pub open spec fn state_of(status: PipelineStatus) -> TrayState {
    match status {
        PipelineStatus::Idle => TrayState::Idle,
        PipelineStatus::Recording => TrayState::Recording,
        PipelineStatus::Processing => TrayState::Processing,
        PipelineStatus::LoadingModel => TrayState::Processing,
        PipelineStatus::Hint { .. } => TrayState::Idle,
        PipelineStatus::Errored { key_related, .. } => if key_related {
            TrayState::NeedsKey
        } else {
            TrayState::Error
        },
        PipelineStatus::Stopped { key_related, .. } => if key_related {
            TrayState::NeedsKey
        } else {
            TrayState::Stopped
        },
    }
}

/// The tray state for a pipeline status.
pub fn state(status: &PipelineStatus) -> (s: TrayState)
    ensures
        s == state_of(*status),
{
    match status {
        PipelineStatus::Idle => TrayState::Idle,
        PipelineStatus::Recording => TrayState::Recording,
        PipelineStatus::Processing => TrayState::Processing,
        PipelineStatus::LoadingModel => TrayState::Processing,
        PipelineStatus::Hint { .. } => TrayState::Idle,
        PipelineStatus::Errored { key_related, .. } => if *key_related {
            TrayState::NeedsKey
        } else {
            TrayState::Error
        },
        PipelineStatus::Stopped { key_related, .. } => if *key_related {
            TrayState::NeedsKey
        } else {
            TrayState::Stopped
        },
    }
}

/// One honest line per status, before truncation.
pub open spec fn line_of(status: PipelineStatus, chord: Seq<char>) -> Seq<char> {
    match status {
        PipelineStatus::Idle => "Hark: listening for "@ + chord,
        PipelineStatus::Recording => "Hark: recording"@,
        PipelineStatus::Processing => "Hark: processing"@,
        PipelineStatus::LoadingModel => "Hark: loading the on-device model"@,
        PipelineStatus::Hint { detail } => "Hark: "@ + detail@,
        PipelineStatus::Errored { detail, .. } => "Hark: last dictation failed. "@ + detail@,
        PipelineStatus::Stopped { detail, key_related } => if key_related {
            "Hark: no STT key. Open Settings from the tray menu."@
        } else {
            "Hark: stopped. "@ + detail@
        },
    }
}

/// `line` cut to the tooltip cap: at most `TOOLTIP_MAX` characters, the
/// last of them an ellipsis when anything was cut.
pub open spec fn truncated(line: Seq<char>) -> Seq<char> {
    if line.len() <= TOOLTIP_MAX {
        line
    } else {
        line.subrange(0, TOOLTIP_MAX - 1).push('\u{2026}')
    }
}

/// The tooltip for a status; `chord` is the configured push-to-talk chord.
pub fn tooltip(status: &PipelineStatus, chord: &str) -> (r: String)
    ensures
        r@ == truncated(line_of(*status, chord@)),
{
    let mut line = String::new();
    match status {
        PipelineStatus::Idle => {
            push_str(&mut line, "Hark: listening for ");
            push_str(&mut line, chord);
        },
        PipelineStatus::Recording => push_str(&mut line, "Hark: recording"),
        PipelineStatus::Processing => push_str(&mut line, "Hark: processing"),
        PipelineStatus::LoadingModel => push_str(&mut line, "Hark: loading the on-device model"),
        PipelineStatus::Hint { detail } => {
            push_str(&mut line, "Hark: ");
            push_str(&mut line, detail.as_str());
        },
        PipelineStatus::Errored { detail, .. } => {
            push_str(&mut line, "Hark: last dictation failed. ");
            push_str(&mut line, detail.as_str());
        },
        PipelineStatus::Stopped { detail, key_related } => {
            if *key_related {
                push_str(&mut line, "Hark: no STT key. Open Settings from the tray menu.");
            } else {
                push_str(&mut line, "Hark: stopped. ");
                push_str(&mut line, detail.as_str());
            }
        },
    }
    truncate(line)
}

/// The icon change `apply` sends: the new state when it differs.
pub open spec fn icon_change(shown: TrayState, status: PipelineStatus) -> Option<TrayState> {
    if shown != state_of(status) {
        Some(state_of(status))
    } else {
        None
    }
}

/// The tooltip change `apply` sends: the new text when it differs.
pub open spec fn tooltip_change(shown: Seq<char>, status: PipelineStatus, chord: Seq<char>) -> Option<
    Seq<char>,
> {
    if shown != truncated(line_of(status, chord)) {
        Some(truncated(line_of(status, chord)))
    } else {
        None
    }
}

/// The voice change `apply` sends: the new voice when it differs.
pub open spec fn voice_change(checked: VoiceName, voice: VoiceName) -> Option<VoiceName> {
    if checked != voice {
        Some(voice)
    } else {
        None
    }
}

/// What the OS tray must be told this frame, in this order: the icon, the
/// tooltip, the checked voice. `None` leaves that part alone.
pub struct TrayChanges {
    pub icon: Option<TrayState>,
    pub tooltip: Option<String>,
    pub voice: Option<VoiceName>,
}

/// What the OS tray was last told: its icon, tooltip and checked voice.
pub struct TrayShown {
    shown: TrayState,
    tooltip: String,
    checked: VoiceName,
}

impl TrayShown {
    pub closed spec fn shown_view(&self) -> TrayState {
        self.shown
    }

    pub closed spec fn tooltip_view(&self) -> Seq<char> {
        self.tooltip@
    }

    pub closed spec fn checked_view(&self) -> VoiceName {
        self.checked
    }

    /// What a freshly built tray shows.
    pub fn new(status: &PipelineStatus, chord: &str, voice: VoiceName) -> (t: Self)
        ensures
            t.shown_view() == state_of(*status),
            t.tooltip_view() == truncated(line_of(*status, chord@)),
            t.checked_view() == voice,
    {
        TrayShown { shown: state(status), tooltip: tooltip(status, chord), checked: voice }
    }

    /// Reconcile with the pipeline status, the chord and the voice. This
    /// runs every frame, so only what differs from what the tray was last
    /// told is sent; nothing at all when nothing changed.
    pub fn apply(&mut self, status: &PipelineStatus, chord: &str, voice: VoiceName) -> (c: TrayChanges)
        ensures
            c.icon == icon_change(old(self).shown_view(), *status),
            match c.tooltip {
                Some(t) => tooltip_change(old(self).tooltip_view(), *status, chord@) == Some(t@),
                None => tooltip_change(old(self).tooltip_view(), *status, chord@) is None,
            },
            c.voice == voice_change(old(self).checked_view(), voice),
            final(self).shown_view() == state_of(*status),
            final(self).tooltip_view() == truncated(line_of(*status, chord@)),
            final(self).checked_view() == voice,
    {
        let next = state(status);
        let icon = if next != self.shown {
            self.shown = next;
            Some(next)
        } else {
            None
        };
        let text = tooltip(status, chord);
        let tip = if !same_chars(text.as_str(), self.tooltip.as_str()) {
            let mut sent = String::new();
            push_str(&mut sent, text.as_str());
            self.tooltip = text;
            Some(sent)
        } else {
            None
        };
        let voice_sent = if voice != self.checked {
            self.checked = voice;
            Some(voice)
        } else {
            None
        };
        TrayChanges { icon, tooltip: tip, voice: voice_sent }
    }

    /// Check `voice` in the menu, unconditionally: a native check item
    /// toggles itself on click, so even a click on the selected voice needs
    /// its checkmark restored.
    pub fn set_voice(&mut self, voice: VoiceName) -> (v: VoiceName)
        ensures
            v == voice,
            final(self).checked_view() == voice,
            final(self).shown_view() == old(self).shown_view(),
            final(self).tooltip_view() == old(self).tooltip_view(),
    {
        self.checked = voice;
        voice
    }
}

/// Reconciling is a no-op unless something changed: once the tray shows
/// the state, tooltip and voice for these inputs, applying the same inputs
/// again sends nothing.
pub proof fn unchanged_inputs_send_nothing(status: PipelineStatus, chord: Seq<char>, voice: VoiceName)
    ensures
        icon_change(state_of(status), status) is None,
        tooltip_change(truncated(line_of(status, chord)), status, chord) is None,
        voice_change(voice, voice) is None,
{
}

/// Cut `line` to the tooltip cap.
pub fn truncate(line: String) -> (r: String)
    ensures
        r@ == truncated(line@),
{
    let v = chars_of(line.as_str());
    if v.len() <= TOOLTIP_MAX {
        return line;
    }
    let mut cut = string_of(&v, 0, TOOLTIP_MAX - 1);
    push_char(&mut cut, '\u{2026}');
    cut
}

/// The exclamation mark of the failure icons: a 4 px wide bar and a square
/// dot, centred.
pub fn in_bang(x: usize, y: usize) -> (b: bool)
    ensures
        b == (14 <= x <= 17 && ((9 <= y <= 16) || (19 <= y <= 22))),
{
    (14 <= x && x <= 17) && ((9 <= y && y <= 16) || (19 <= y && y <= 22))
}

/// A tooltip never exceeds the cap, whatever the status and the chord.
pub proof fn tooltip_fits(line: Seq<char>)
    ensures
        truncated(line).len() <= TOOLTIP_MAX,
{
}

/// Menu id of "Open Settings".
pub const OPEN_SETTINGS_ID: &'static str = "open-settings";

/// Menu id of "Quit Hark".
pub const QUIT_ID: &'static str = "quit";

/// Menu id of "Show Hark". Only the Linux menu carries the item (its tray
/// reports no clicks on the icon), but the id decodes everywhere.
pub const SHOW_WINDOW_ID: &'static str = "show-window";

/// What a tray interaction asks of the app.
#[derive(Debug, Clone, Copy, PartialEq, Eq, Structural)]
pub enum TrayAction {
    SelectVoice(VoiceName),
    OpenSettings,
    /// Double-click on the icon: bring the window back, current page.
    ShowWindow,
    Quit,
}

/// The menu id of a voice's radio item: `voice:` and the config name.
pub open spec fn voice_menu_id_of(v: VoiceName) -> Seq<char> {
    "voice:"@ + voice_label(v)
}

/// The action a menu id asks for; unknown ids ask for nothing.
pub open spec fn action_of(id: Seq<char>) -> Option<TrayAction> {
    if id == "open-settings"@ {
        Some(TrayAction::OpenSettings)
    } else if id == "show-window"@ {
        Some(TrayAction::ShowWindow)
    } else if id == "quit"@ {
        Some(TrayAction::Quit)
    } else if id == voice_menu_id_of(VoiceName::Verbatim) {
        Some(TrayAction::SelectVoice(VoiceName::Verbatim))
    } else if id == voice_menu_id_of(VoiceName::Clean) {
        Some(TrayAction::SelectVoice(VoiceName::Clean))
    } else if id == voice_menu_id_of(VoiceName::Professional) {
        Some(TrayAction::SelectVoice(VoiceName::Professional))
    } else if id == voice_menu_id_of(VoiceName::Casual) {
        Some(TrayAction::SelectVoice(VoiceName::Casual))
    } else if id == voice_menu_id_of(VoiceName::Custom) {
        Some(TrayAction::SelectVoice(VoiceName::Custom))
    } else {
        None
    }
}

/// The menu id of a voice's radio item.
pub fn voice_menu_id(v: VoiceName) -> (id: String)
    ensures
        id@ == voice_menu_id_of(v),
{
    let mut id = String::new();
    push_str(&mut id, "voice:");
    push_str(&mut id, v.label());
    id
}

/// Menu id to action. Unknown ids are ignored, not errors: the menu
/// library can report events nothing subscribed to.
pub fn action_for_id(id: &str) -> (a: Option<TrayAction>)
    ensures
        a == action_of(id@),
{
    if same_chars(id, OPEN_SETTINGS_ID) {
        return Some(TrayAction::OpenSettings);
    }
    if same_chars(id, SHOW_WINDOW_ID) {
        return Some(TrayAction::ShowWindow);
    }
    if same_chars(id, QUIT_ID) {
        return Some(TrayAction::Quit);
    }
    let all = voices();
    let mut i: usize = 0;
    while i < 5
        invariant
            all@ == seq![
                VoiceName::Verbatim,
                VoiceName::Clean,
                VoiceName::Professional,
                VoiceName::Casual,
                VoiceName::Custom,
            ],
            id@ != "open-settings"@,
            id@ != "show-window"@,
            id@ != "quit"@,
            forall|j: int| 0 <= j < i ==> id@ != voice_menu_id_of(#[trigger] all@[j]),
        decreases 5 - i,
    {
        let v = all[i];
        let candidate = voice_menu_id(v);
        if same_chars(id, candidate.as_str()) {
            proof {
                assert forall|j: int| 0 <= j < i implies id@ != voice_menu_id_of(#[trigger] all@[j]) by {}
            }
            return Some(TrayAction::SelectVoice(v));
        }
        i = i + 1;
    }
    proof {
        assert(id@ != voice_menu_id_of(all@[0]));
        assert(id@ != voice_menu_id_of(all@[1]));
        assert(id@ != voice_menu_id_of(all@[2]));
        assert(id@ != voice_menu_id_of(all@[3]));
        assert(id@ != voice_menu_id_of(all@[4]));
    }
    None
}

/// Every voice's menu id decodes back to selecting that voice: the ids
/// the menu is built from and the ones the decoder knows cannot drift.
pub proof fn voice_menu_ids_round_trip(v: VoiceName)
    ensures
        action_of(voice_menu_id_of(v)) == Some(TrayAction::SelectVoice(v)),
{
    reveal_strlit("voice:");
    reveal_strlit("verbatim");
    reveal_strlit("clean");
    reveal_strlit("professional");
    reveal_strlit("casual");
    reveal_strlit("custom");
    reveal_strlit("open-settings");
    reveal_strlit("show-window");
    reveal_strlit("quit");
    let id = voice_menu_id_of(v);
    assert(id.len() >= 6);
    assert(id[0] == 'v');
    assert(id != "open-settings"@) by {
        assert("open-settings"@[0] == 'o');
    }
    assert(id != "show-window"@) by {
        assert("show-window"@[0] == 's');
    }
    assert(id != "quit"@) by {
        assert("quit"@[0] == 'q');
    }
    let ids = seq![
        voice_menu_id_of(VoiceName::Verbatim),
        voice_menu_id_of(VoiceName::Clean),
        voice_menu_id_of(VoiceName::Professional),
        voice_menu_id_of(VoiceName::Casual),
        voice_menu_id_of(VoiceName::Custom),
    ];
    assert(ids[0][6] == 'v' && ids[1][6] == 'c' && ids[2][6] == 'p' && ids[3][6] == 'c' && ids[4][6] == 'c');
    assert(ids[1][7] == 'l' && ids[3][7] == 'a' && ids[4][7] == 'u');
}

/// An opaque colour.
#[derive(Debug, Clone, Copy, PartialEq, Eq, Structural)]
pub struct Rgb {
    pub r: u8,
    pub g: u8,
    pub b: u8,
}

/// How a state's icon is drawn: one bold shape per state, legible at
/// taskbar size.
#[derive(Debug, Clone, Copy, PartialEq, Eq, Structural)]
pub struct IconStyle {
    pub color: Rgb,
    /// A ring rather than a disc.
    pub hollow: bool,
    /// A white exclamation mark on top.
    pub bang: bool,
}

/// The tray's accent.
pub open spec fn accent() -> Rgb {
    Rgb { r: 0x91, g: 0x84, b: 0xD9 }
}

/// The danger red.
pub open spec fn danger() -> Rgb {
    Rgb { r: 0xF1, g: 0x9C, b: 0xAB }
}

/// The warning amber.
pub open spec fn warning() -> Rgb {
    Rgb { r: 0xE5, g: 0xBC, b: 0x75 }
}

/// The stopped grey.
pub open spec fn stopped_grey() -> Rgb {
    Rgb { r: 0x8A, g: 0x8F, b: 0x98 }
}

/// The style of each state: an accent ring while listening, discs while
/// busy, and a marked disc for each way things can go wrong.
pub open spec fn style_of(state: TrayState) -> IconStyle {
    match state {
        TrayState::Idle => IconStyle { color: accent(), hollow: true, bang: false },
        TrayState::Recording => IconStyle { color: danger(), hollow: false, bang: false },
        TrayState::Processing => IconStyle { color: accent(), hollow: false, bang: false },
        TrayState::NeedsKey => IconStyle { color: warning(), hollow: false, bang: true },
        TrayState::Error => IconStyle { color: danger(), hollow: false, bang: true },
        TrayState::Stopped => IconStyle { color: stopped_grey(), hollow: false, bang: true },
    }
}

/// The style of a state's icon.
pub fn icon_style(state: TrayState) -> (s: IconStyle)
    ensures
        s == style_of(state),
{
    let accent = Rgb { r: 0x91, g: 0x84, b: 0xD9 };
    let danger = Rgb { r: 0xF1, g: 0x9C, b: 0xAB };
    match state {
        TrayState::Idle => IconStyle { color: accent, hollow: true, bang: false },
        TrayState::Recording => IconStyle { color: danger, hollow: false, bang: false },
        TrayState::Processing => IconStyle { color: accent, hollow: false, bang: false },
        TrayState::NeedsKey => IconStyle {
            color: Rgb { r: 0xE5, g: 0xBC, b: 0x75 },
            hollow: false,
            bang: true,
        },
        TrayState::Error => IconStyle { color: danger, hollow: false, bang: true },
        TrayState::Stopped => IconStyle {
            color: Rgb { r: 0x8A, g: 0x8F, b: 0x98 },
            hollow: false,
            bang: true,
        },
    }
}

/// No two states share a style, so no two icons look alike; and exactly
/// the failure states carry the exclamation mark.
pub proof fn styles_tell_states_apart(a: TrayState, b: TrayState)
    ensures
        a != b ==> style_of(a) != style_of(b),
        style_of(a).bang <==> (a == TrayState::NeedsKey || a == TrayState::Error || a == TrayState::Stopped),
{
}

} // verus!
