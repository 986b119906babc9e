//! Settings-page state that is plain data and rules: first-run progress,
//! section navigation, optional-field parsing, and the test-connection
//! report.

use vstd::prelude::*;
use vstd::string::*;
use crate::text::{decimal, push_decimal_wide, push_str, trim, trim_str};

verus! {

/// First-run steps.
#[derive(Clone, Copy, Debug, PartialEq, Eq, Structural)]
pub enum Step {
    Choose,
    Configure,
    Permissions,
    Try,
}

impl Default for Step {
    fn default() -> (s: Self)
        ensures
            s == Step::Choose,
    {
        Step::Choose
    }
}

/// First-run state: shown until a real dictation or a dismissal.
pub struct GetStarted {
    pub active: bool,
    pub dismissed: bool,
    pub step: Step,
    pub local: bool,
}

impl GetStarted {
    /// Fresh first-run state at the first step.
    pub fn new(active: bool) -> (g: Self)
        ensures
            g.active == active,
            !g.dismissed,
            g.step == Step::Choose,
            !g.local,
    {
        GetStarted { active, dismissed: false, step: Step::Choose, local: false }
    }

    /// Shown while active, not dismissed, and before the first injection.
    pub fn visible(&self, injected: bool) -> (v: bool)
        ensures
            v == (self.active && !self.dismissed && !injected),
    {
        self.active && !self.dismissed && !injected
    }

    /// Which of the three progress labels ("Transcription", "Permissions",
    /// "Try it") is current: choosing and configuring are both the first.
    pub fn progress_index(&self) -> (i: usize)
        ensures
            i == (match self.step {
                Step::Choose | Step::Configure => 0usize,
                Step::Permissions => 1usize,
                Step::Try => 2usize,
            }),
    {
        match self.step {
            Step::Choose | Step::Configure => 0,
            Step::Permissions => 1,
            Step::Try => 2,
        }
    }

    /// The engine was chosen: on to configuring it. On-device runs with no
    /// cloud at all and dictates verbatim; the answer is the draft's new
    /// local mode and, for on-device, its new default voice.
    pub fn choose_engine(&mut self, local: bool) -> (r: (crate::footer::LocalMode, Option<VoiceName>))
        ensures
            final(self).local == local,
            final(self).step == Step::Configure,
            final(self).active == old(self).active,
            final(self).dismissed == old(self).dismissed,
            r == (if local {
                (crate::footer::LocalMode::Primary, Some(VoiceName::Verbatim))
            } else {
                (crate::footer::LocalMode::Off, None)
            }),
    {
        self.local = local;
        self.step = Step::Configure;
        if local {
            (crate::footer::LocalMode::Primary, Some(VoiceName::Verbatim))
        } else {
            (crate::footer::LocalMode::Off, None)
        }
    }

    /// "Save & continue" ran; only a save that took (the draft now equals
    /// the saved settings) moves on to permissions.
    pub fn saved(&mut self, draft_is_saved: bool)
        ensures
            final(self).step == (if draft_is_saved { Step::Permissions } else { old(self).step }),
            final(self).local == old(self).local,
            final(self).active == old(self).active,
            final(self).dismissed == old(self).dismissed,
    {
        if draft_is_saved {
            self.step = Step::Permissions;
        }
    }

    /// "Skip for now".
    pub fn dismiss(&mut self)
        ensures
            final(self).dismissed,
            final(self).step == old(self).step,
            final(self).active == old(self).active,
            final(self).local == old(self).local,
    {
        self.dismissed = true;
    }
}

/// Why "Save & continue" is not offered yet.
pub fn not_ready_hint(local: bool) -> (s: &'static str)
    ensures
        s@ == (if local {
            "Finish downloading the model to continue."@
        } else {
            "Store your key and run Test connection to continue."@
        }),
{
    if local {
        "Finish downloading the model to continue."
    } else {
        "Store your key and run Test connection to continue."
    }
}

/// Readiness follows the selected engine: the on-device model when local,
/// the provider test otherwise.
pub fn ready(local: bool, model_ready: bool, provider_passed: bool) -> (r: bool)
    ensures
        r == (if local { model_ready } else { provider_passed }),
{
    if local {
        model_ready
    } else {
        provider_passed
    }
}

/// Empty or whitespace input means "unset, use the default".
pub fn none_if_empty(text: &str) -> (r: Option<String>)
    ensures
        match r {
            None => trim(text@).len() == 0,
            Some(s) => trim(text@).len() > 0 && s@ == trim(text@),
        },
{
    let trimmed = trim_str(text);
    if trimmed.as_str().is_empty() {
        None
    } else {
        Some(trimmed)
    }
}

/// Settings sections, in navigation order.
#[derive(Clone, Copy, Debug, PartialEq, Eq, Hash, Structural)]
pub enum Section {
    General,
    Dictation,
    Audio,
    OnDevice,
    Behavior,
    Privacy,
    Updates,
}

impl Default for Section {
    fn default() -> (s: Self)
        ensures
            s == Section::General,
    {
        Section::General
    }
}

/// The navigation label of each section.
pub open spec fn section_label(s: Section) -> &'static str {
    match s {
        Section::General => "General",
        Section::Dictation => "Dictation",
        Section::Audio => "Audio & shortcut",
        Section::OnDevice => "On-device",
        Section::Behavior => "Behavior",
        Section::Privacy => "Privacy",
        Section::Updates => "Updates",
    }
}

impl Section {
    /// Every section, in navigation order.
    pub fn all() -> (v: [Section; 7])
        ensures
            v@ == seq![
                Section::General,
                Section::Dictation,
                Section::Audio,
                Section::OnDevice,
                Section::Behavior,
                Section::Privacy,
                Section::Updates,
            ],
    {
        [
            Section::General,
            Section::Dictation,
            Section::Audio,
            Section::OnDevice,
            Section::Behavior,
            Section::Privacy,
            Section::Updates,
        ]
    }

    /// The navigation label.
    pub fn label(self) -> (l: &'static str)
        ensures
            l == section_label(self),
    {
        match self {
            Section::General => "General",
            Section::Dictation => "Dictation",
            Section::Audio => "Audio & shortcut",
            Section::OnDevice => "On-device",
            Section::Behavior => "Behavior",
            Section::Privacy => "Privacy",
            Section::Updates => "Updates",
        }
    }
}

/// How loud the live input is, in the terms a user can act on.
#[derive(Debug, Clone, Copy, PartialEq, Eq, Structural)]
pub enum InputLevel {
    /// Nothing arriving at all: wrong device, or muted.
    Silent,
    /// Arriving, but too quiet to transcribe reliably.
    TooQuiet,
    Good,
    /// Loud enough to clip.
    Hot,
}

/// What a render of the hotkey section asks the page to do.
#[derive(Debug, Clone, Copy, PartialEq, Eq, Structural)]
pub enum HotkeyAction {
    /// Nothing changed this frame.
    NoChange,
    /// The user asked to record a shortcut.
    StartRequested,
    /// Recording just finished, was cancelled, or died.
    Ended,
}

/// A passing transcription test.
pub struct SttPass {
    pub text: String,
    pub ms: u128,
}

/// A passing cleanup test.
pub struct CleanupPass {
    pub model: String,
    pub ms: u128,
}

/// The outcome of a connection test.
pub struct TestReport {
    pub provider: String,
    pub model: String,
    pub stt: Result<SttPass, String>,
    /// `None` when no cleanup call would run for the draft settings.
    pub cleanup: Option<Result<CleanupPass, String>>,
}

/// The voices a dictation can be cleaned up in.
#[derive(Clone, Copy, Debug, PartialEq, Eq, Structural)]
pub enum VoiceName {
    Verbatim,
    Clean,
    Professional,
    Casual,
    Custom,
}

/// The name a voice has in the config file.
pub open spec fn voice_label(v: VoiceName) -> Seq<char> {
    match v {
        VoiceName::Verbatim => "verbatim"@,
        VoiceName::Clean => "clean"@,
        VoiceName::Professional => "professional"@,
        VoiceName::Casual => "casual"@,
        VoiceName::Custom => "custom"@,
    }
}

/// The name a voice is shown by.
pub open spec fn voice_title(v: VoiceName) -> Seq<char> {
    match v {
        VoiceName::Verbatim => "Verbatim"@,
        VoiceName::Clean => "Clean"@,
        VoiceName::Professional => "Professional"@,
        VoiceName::Casual => "Casual"@,
        VoiceName::Custom => "Custom"@,
    }
}

impl VoiceName {
    /// The config-file name.
    pub fn label(self) -> (l: &'static str)
        ensures
            l@ == voice_label(self),
    {
        match self {
            VoiceName::Verbatim => "verbatim",
            VoiceName::Clean => "clean",
            VoiceName::Professional => "professional",
            VoiceName::Casual => "casual",
            VoiceName::Custom => "custom",
        }
    }
}

/// Every selectable voice, in display order. The settings picker and the
/// tray menu both list these, so the two can never drift apart.
pub fn voices() -> (v: [VoiceName; 5])
    ensures
        v@ == seq![
            VoiceName::Verbatim,
            VoiceName::Clean,
            VoiceName::Professional,
            VoiceName::Casual,
            VoiceName::Custom,
        ],
{
    [VoiceName::Verbatim, VoiceName::Clean, VoiceName::Professional, VoiceName::Casual, VoiceName::Custom]
}

/// The display name of a voice.
pub fn voice_display(name: VoiceName) -> (d: &'static str)
    ensures
        d@ == voice_title(name),
{
    match name {
        VoiceName::Verbatim => "Verbatim",
        VoiceName::Clean => "Clean",
        VoiceName::Professional => "Professional",
        VoiceName::Casual => "Casual",
        VoiceName::Custom => "Custom",
    }
}

/// A voice's display name, ASCII-lowercased, is its config-file name.
pub proof fn display_names_lower_to_labels(v: VoiceName)
    ensures
        voice_title(v).map_values(|c: char| crate::spellbook::ascii_lower(c)) =~= voice_label(v),
{
    reveal_strlit("verbatim");
    reveal_strlit("clean");
    reveal_strlit("professional");
    reveal_strlit("casual");
    reveal_strlit("custom");
    reveal_strlit("Verbatim");
    reveal_strlit("Clean");
    reveal_strlit("Professional");
    reveal_strlit("Casual");
    reveal_strlit("Custom");
}

/// Where a connection test stands.
pub enum TestState {
    Idle,
    Running,
    /// Finished; the report stays until the next test.
    Done(TestReport),
}

/// The test-connection button's state. The test itself runs in the glue.
pub struct TestConnection {
    state: TestState,
}

impl TestConnection {
    /// Where the test stands.
    pub closed spec fn state_view(&self) -> TestState {
        self.state
    }

    /// No test run yet.
    pub fn new() -> (t: Self)
        ensures
            t.state_view() is Idle,
    {
        TestConnection { state: TestState::Idle }
    }

    /// Whether a test is in flight (the button is then disabled).
    pub fn is_running(&self) -> (b: bool)
        ensures
            b == (self.state_view() is Running),
    {
        match self.state {
            TestState::Running => true,
            _ => false,
        }
    }

    /// Whether the last finished test transcribed successfully.
    pub fn stt_passed(&self) -> (b: bool)
        ensures
            b == (self.state_view() matches TestState::Done(r) && r.stt is Ok),
    {
        match &self.state {
            TestState::Done(r) => match &r.stt {
                Ok(_) => true,
                Err(_) => false,
            },
            _ => false,
        }
    }

    /// A test started.
    pub fn start(&mut self)
        requires
            !(old(self).state_view() is Running),
        ensures
            final(self).state_view() is Running,
    {
        self.state = TestState::Running;
    }

    /// The running test reported.
    pub fn finish(&mut self, report: TestReport)
        requires
            old(self).state_view() is Running,
        ensures
            final(self).state_view() == TestState::Done(report),
    {
        self.state = TestState::Done(report);
    }

    /// The last finished report, if any.
    pub fn report(&self) -> (r: Option<&TestReport>)
        ensures
            match r {
                Some(x) => self.state_view() == TestState::Done(*x),
                None => !(self.state_view() is Done),
            },
    {
        match &self.state {
            TestState::Done(r) => Some(r),
            _ => None,
        }
    }
}

/// The headline of a transcription result: the transcript in curly quotes,
/// or the provider's own words for what went wrong.
pub open spec fn stt_line_of(r: TestReport) -> Seq<char> {
    match r.stt {
        Ok(p) => "\u{201c}"@ + p.text@ + "\u{201d}"@,
        Err(d) => d@,
    }
}

/// The detail under a passing transcription: time, provider, model.
pub open spec fn stt_detail_of(r: TestReport) -> Option<Seq<char>> {
    match r.stt {
        Ok(p) => Some(decimal(p.ms as nat) + " ms \u{b7} "@ + r.provider@ + " \u{b7} "@ + r.model@),
        Err(_) => None,
    }
}

/// The cleanup line, when a cleanup call ran: its model and time, or why
/// it failed.
pub open spec fn cleanup_line_of(r: TestReport) -> Option<(Seq<char>, Option<Seq<char>>)> {
    match r.cleanup {
        Some(Ok(p)) => Some(("Cleanup "@ + p.model@, Some(decimal(p.ms as nat) + " ms"@))),
        Some(Err(d)) => Some(("Cleanup: "@ + d@, None)),
        None => None,
    }
}

/// The headline of a transcription result.
pub fn stt_line(r: &TestReport) -> (s: String)
    ensures
        s@ == stt_line_of(*r),
{
    let mut s = String::new();
    match &r.stt {
        Ok(p) => {
            push_str(&mut s, "\u{201c}");
            push_str(&mut s, p.text.as_str());
            push_str(&mut s, "\u{201d}");
        },
        Err(d) => push_str(&mut s, d.as_str()),
    }
    s
}

/// The detail under a passing transcription.
pub fn stt_detail(r: &TestReport) -> (s: Option<String>)
    ensures
        match s {
            Some(x) => stt_detail_of(*r) == Some(x@),
            None => stt_detail_of(*r) is None,
        },
{
    match &r.stt {
        Ok(p) => {
            let mut s = String::new();
            push_decimal_wide(&mut s, p.ms);
            push_str(&mut s, " ms \u{b7} ");
            push_str(&mut s, r.provider.as_str());
            push_str(&mut s, " \u{b7} ");
            push_str(&mut s, r.model.as_str());
            Some(s)
        },
        Err(_) => None,
    }
}

/// The cleanup line and, for a pass, its time.
pub fn cleanup_line(r: &TestReport) -> (s: Option<(String, Option<String>)>)
    ensures
        match s {
            Some((a, b)) => cleanup_line_of(*r) == Some(
                (
                    a@,
                    match b {
                        Some(t) => Some(t@),
                        None => None,
                    },
                ),
            ),
            None => cleanup_line_of(*r) is None,
        },
{
    match &r.cleanup {
        Some(Ok(p)) => {
            let mut a = String::new();
            push_str(&mut a, "Cleanup ");
            push_str(&mut a, p.model.as_str());
            let mut b = String::new();
            push_decimal_wide(&mut b, p.ms);
            push_str(&mut b, " ms");
            Some((a, Some(b)))
        },
        Some(Err(d)) => {
            let mut a = String::new();
            push_str(&mut a, "Cleanup: ");
            push_str(&mut a, d.as_str());
            Some((a, None))
        },
        None => None,
    }
}

/// The sticky bar above the status footer.
pub struct SaveBar {
    pub tone: crate::pages::Tone,
    pub text: String,
    /// Unsaved edits: offer Save and Discard; otherwise only Dismiss.
    pub dirty: bool,
}

/// The sticky bar, present only when there is something to act on:
/// unsaved edits, or the outcome of the last save. A failed save outranks
/// "Unsaved changes": the draft is dirty either way, and why it stayed so
/// is the only new information.
pub fn save_bar(dirty: bool, notice: &Option<Result<String, String>>) -> (b: Option<SaveBar>)
    ensures
        match *notice {
            Some(Err(t)) => b matches Some(x) && x.tone == crate::pages::Tone::Danger && x.text@ == t@
                && x.dirty == dirty,
            Some(Ok(t)) => if dirty {
                b matches Some(x) && x.tone == crate::pages::Tone::Warning && x.text@ == "Unsaved changes"@
                    && x.dirty
            } else {
                b matches Some(x) && x.tone == crate::pages::Tone::Success && x.text@ == t@ && !x.dirty
            },
            None => if dirty {
                b matches Some(x) && x.tone == crate::pages::Tone::Warning && x.text@ == "Unsaved changes"@
                    && x.dirty
            } else {
                b is None
            },
        },
{
    let mut text = String::new();
    match notice {
        Some(Err(t)) => {
            push_str(&mut text, t.as_str());
            Some(SaveBar { tone: crate::pages::Tone::Danger, text, dirty })
        },
        Some(Ok(t)) => if dirty {
            push_str(&mut text, "Unsaved changes");
            Some(SaveBar { tone: crate::pages::Tone::Warning, text, dirty: true })
        } else {
            push_str(&mut text, t.as_str());
            Some(SaveBar { tone: crate::pages::Tone::Success, text, dirty: false })
        },
        None => if dirty {
            push_str(&mut text, "Unsaved changes");
            Some(SaveBar { tone: crate::pages::Tone::Warning, text, dirty: true })
        } else {
            None
        },
    }
}

/// The notice a save leaves: the write's error, or what the restarted
/// pipeline is doing.
pub fn save_notice(written: Result<(), String>, running: bool) -> (n: Result<String, String>)
    ensures
        match written {
            Ok(()) => n matches Ok(t) && t@ == (if running {
                "Saved. Dictation is ready."@
            } else {
                "Saved. Pipeline stopped; see the status bar for the cause."@
            }),
            Err(e) => n matches Err(t) && t@ == e@,
        },
{
    match written {
        Ok(()) => {
            let mut t = String::new();
            if running {
                push_str(&mut t, "Saved. Dictation is ready.");
            } else {
                push_str(&mut t, "Saved. Pipeline stopped; see the status bar for the cause.");
            }
            Ok(t)
        },
        Err(e) => Err(e),
    }
}

/// The speech-to-text providers.
#[derive(Debug, Clone, Copy, PartialEq, Eq, Structural)]
pub enum ProviderKind {
    Deepgram,
    Openai,
    Groq,
    /// Any endpoint speaking the OpenAI protocol; it needs a base URL.
    OpenaiCompatible,
}

/// The provider radio row, in order, with its labels.
pub fn provider_choices() -> (v: [(ProviderKind, &'static str); 4])
    ensures
        v@.len() == 4,
        v@[0].0 == ProviderKind::Deepgram && v@[0].1@ == "Deepgram"@,
        v@[1].0 == ProviderKind::Openai && v@[1].1@ == "OpenAI"@,
        v@[2].0 == ProviderKind::Groq && v@[2].1@ == "Groq"@,
        v@[3].0 == ProviderKind::OpenaiCompatible && v@[3].1@ == "OpenAI-compatible"@,
{
    [
        (ProviderKind::Deepgram, "Deepgram"),
        (ProviderKind::Openai, "OpenAI"),
        (ProviderKind::Groq, "Groq"),
        (ProviderKind::OpenaiCompatible, "OpenAI-compatible"),
    ]
}

/// The speech-to-text provider's optional config fields.
pub struct ProviderFields {
    pub kind: ProviderKind,
    pub model: Option<String>,
    pub base_url: Option<String>,
}

/// The cleanup provider's optional config fields.
pub struct CleanupFields {
    pub model: Option<String>,
    pub base_url: Option<String>,
    pub key_account: Option<String>,
}

/// The text of an optional field: empty when unset.
pub open spec fn text_of(field: Option<String>) -> Seq<char> {
    match field {
        Some(s) => s@,
        None => Seq::empty(),
    }
}

fn text_or_empty(field: &Option<String>) -> (s: String)
    ensures
        s@ == text_of(*field),
{
    let mut s = String::new();
    if let Some(t) = field {
        push_str(&mut s, t.as_str());
    }
    s
}

/// The text buffers behind the form's optional fields (empty = unset),
/// plus the one-shot flag that opens "Model & endpoint" for a custom
/// endpoint.
pub struct FormBufs {
    pub model: String,
    pub base_url: String,
    pub cleanup_model: String,
    pub cleanup_base_url: String,
    pub cleanup_key_account: String,
    /// "Model & endpoint" must open on the next render.
    pub force_endpoint_open: bool,
}

impl FormBufs {
    /// Seed every buffer from the saved fields.
    pub fn from_settings(provider: &ProviderFields, cleanup: Option<&CleanupFields>) -> (b: Self)
        ensures
            b.model@ == text_of(provider.model),
            b.base_url@ == text_of(provider.base_url),
            b.cleanup_model@ == (match cleanup {
                Some(c) => text_of(c.model),
                None => Seq::empty(),
            }),
            b.cleanup_base_url@ == (match cleanup {
                Some(c) => text_of(c.base_url),
                None => Seq::empty(),
            }),
            b.cleanup_key_account@ == (match cleanup {
                Some(c) => text_of(c.key_account),
                None => Seq::empty(),
            }),
            !b.force_endpoint_open,
    {
        let (cleanup_model, cleanup_base_url, cleanup_key_account) = match cleanup {
            Some(c) => (text_or_empty(&c.model), text_or_empty(&c.base_url), text_or_empty(&c.key_account)),
            None => (String::new(), String::new(), String::new()),
        };
        FormBufs {
            model: text_or_empty(&provider.model),
            base_url: text_or_empty(&provider.base_url),
            cleanup_model,
            cleanup_base_url,
            cleanup_key_account,
            force_endpoint_open: false,
        }
    }

    /// The provider kind changed: a model or URL typed for the old one
    /// almost certainly does not exist on the new one, so both fall back to
    /// the new kind's defaults; a custom endpoint opens its URL field.
    pub fn kind_changed(&mut self, provider: &mut ProviderFields)
        ensures
            final(self).model@.len() == 0,
            final(self).base_url@.len() == 0,
            final(provider).model is None,
            final(provider).base_url is None,
            final(provider).kind == old(provider).kind,
            final(self).force_endpoint_open == (old(self).force_endpoint_open || old(provider).kind
                == ProviderKind::OpenaiCompatible),
            final(self).cleanup_model == old(self).cleanup_model,
            final(self).cleanup_base_url == old(self).cleanup_base_url,
            final(self).cleanup_key_account == old(self).cleanup_key_account,
    {
        self.model = String::new();
        self.base_url = String::new();
        provider.model = None;
        provider.base_url = None;
        if provider.kind == ProviderKind::OpenaiCompatible {
            self.force_endpoint_open = true;
        }
    }

    /// Whether "Model & endpoint" must open now; asks only once.
    pub fn take_force_open(&mut self) -> (f: bool)
        ensures
            f == old(self).force_endpoint_open,
            !final(self).force_endpoint_open,
            final(self).model == old(self).model,
            final(self).base_url == old(self).base_url,
    {
        let f = self.force_endpoint_open;
        self.force_endpoint_open = false;
        f
    }
}

} // verus!
