//! The pipeline's lifecycle as the UI sees it: the status the footer and
//! tray render, the advisory events the worker reports, and the pure
//! event-to-status mapping between them. The worker threads and the event
//! channel live in the application glue; every decision they need is here.

use vstd::prelude::*;
use vstd::string::*;
use crate::spellbook::ascii_lower;
use crate::text::{chars_of, push_str};

verus! {

/// What the status surfaces show. There is no silent dead state: the
/// pipeline is either listening, mid-dictation, or stopped with a cause.
pub enum PipelineStatus {
    /// Running; waiting for the chord.
    Idle,
    /// Chord held; capturing audio.
    Recording,
    /// Chord released; request in flight.
    Processing,
    /// Reading the on-device model into memory.
    LoadingModel,
    /// Running, but the last dictation failed. Sticky until the next one.
    Errored { detail: String, key_related: bool },
    /// Running; the last dictation captured nothing loud enough to be
    /// speech. Not a failure, but worth saying.
    Hint { detail: String },
    /// Not running (no key, startup failure, or config error).
    Stopped { detail: String, key_related: bool },
}

/// Where a dictation stopped short.
#[derive(Debug, Clone, Copy, PartialEq, Eq, Structural)]
pub enum FailStage {
    GatedTooShort,
    GatedTooQuiet,
    EmptyTranscript,
    Abandoned,
    Audio,
    Transcribe,
    Inject,
    Internal,
}

/// One finished dictation, as the pipeline reports it.
#[derive(Clone)]
pub struct DictationRecord {
    pub raw_text: String,
    pub final_text: String,
    pub voice: String,
    pub stt_provider: String,
    pub stt_model: String,
    pub cleanup_model: Option<String>,
    pub audio_ms: u64,
    pub stt_ms: u64,
    pub cleanup_ms: Option<u64>,
    pub total_ms: u64,
}

/// An advisory event from the pipeline.
pub enum PipelineEvent {
    Recording,
    Processing,
    LoadingLocalModel,
    Injected(DictationRecord),
    Failed { stage: FailStage, detail: String },
    /// Another program is intercepting the push-to-talk key.
    ShortcutIntercepted { key: String },
}

/// The hint shown when nothing loud enough to be speech was captured: the
/// usual cause is the wrong input device, or one turned down.
pub open spec fn quiet_hint() -> Seq<char> {
    "Didn't catch that. Check your microphone."@
}

/// Whether `s`, ASCII-lowercased, contains "key": auth failures say "check
/// your API key", keychain failures name the keychain.
pub open spec fn mentions_key(s: Seq<char>) -> bool {
    exists|i: int|
        0 <= i && i + 3 <= s.len() && #[trigger] ascii_lower(s[i]) == 'k' && ascii_lower(s[i + 1])
            == 'e' && ascii_lower(s[i + 2]) == 'y'
}

/// Whether a failure at `stage` returns to idle without a word: a tap on
/// the chord, an empty transcript, an abandoned dictation.
pub open spec fn quiet_failure(stage: FailStage) -> bool {
    stage == FailStage::GatedTooShort || stage == FailStage::EmptyTranscript || stage
        == FailStage::Abandoned
}

/// Whether `s` is the status the event leads to. An interception report is
/// not about the dictation: taken alone it leaves the pipeline listening
/// (`PipelineController::observe` keeps whatever status is shown instead).
pub open spec fn follows(event: PipelineEvent, s: PipelineStatus) -> bool {
    match event {
        PipelineEvent::Recording => s is Recording,
        PipelineEvent::Processing => s is Processing,
        PipelineEvent::LoadingLocalModel => s is LoadingModel,
        PipelineEvent::Injected(_) => s is Idle,
        PipelineEvent::Failed { stage, detail } => if quiet_failure(stage) {
            s is Idle
        } else if stage == FailStage::GatedTooQuiet {
            s matches PipelineStatus::Hint { detail: d } && d@ == quiet_hint()
        } else {
            s matches PipelineStatus::Errored { detail: d, key_related: k } && d@ == detail@ && k
                == mentions_key(detail@)
        },
        PipelineEvent::ShortcutIntercepted { .. } => s is Idle,
    }
}

fn is_letter(c: char, lower: char, upper: char) -> (b: bool)
    requires
        ascii_lower(upper) == lower,
        65 <= upper as u32 <= 90,
        97 <= lower as u32 <= 122,
    ensures
        b == (ascii_lower(c) == lower),
{
    c == lower || c == upper
}

/// Whether `detail` mentions a key, ignoring ASCII case.
pub fn mentions_key_exec(detail: &str) -> (b: bool)
    ensures
        b == mentions_key(detail@),
{
    let v = chars_of(detail);
    if v.len() < 3 {
        return false;
    }
    let mut i: usize = 0;
    while i < v.len() - 2
        invariant
            v@ == detail@,
            v@.len() >= 3,
            i + 2 <= v@.len(),
            forall|j: int|
                0 <= j < i ==> !(#[trigger] ascii_lower(v@[j]) == 'k' && ascii_lower(v@[j + 1]) == 'e'
                    && ascii_lower(v@[j + 2]) == 'y'),
        decreases v@.len() - i,
    {
        if is_letter(v[i], 'k', 'K') && is_letter(v[i + 1], 'e', 'E') && is_letter(v[i + 2], 'y', 'Y') {
            return true;
        }
        i = i + 1;
    }
    proof {
        assert forall|j: int|
            0 <= j && j + 3 <= detail@.len() implies !(#[trigger] ascii_lower(detail@[j]) == 'k'
            && ascii_lower(detail@[j + 1]) == 'e' && ascii_lower(detail@[j + 2]) == 'y') by {
            assert(j < i);
        }
    }
    false
}

/// The stages at which something the user asked for went wrong: the
/// microphone, the transcription request, the insertion, or Hark itself.
pub open spec fn loud_stage(stage: FailStage) -> bool {
    stage == FailStage::Audio || stage == FailStage::Transcribe || stage == FailStage::Inject || stage
        == FailStage::Internal
}

/// The stages that end a dictation without anything to report: a tap on
/// the chord, an empty transcript, an abandoned dictation.
pub open spec fn silent_stage(stage: FailStage) -> bool {
    stage == FailStage::GatedTooShort || stage == FailStage::EmptyTranscript || stage
        == FailStage::Abandoned
}

/// A failure is never dropped silently unless nothing happened: only a
/// too-short hold, an empty transcript or an abandoned dictation return to
/// listening; a failure at the microphone, the transcription, the insertion
/// or inside Hark always shows as an error carrying its own detail, and a
/// too-quiet capture shows the microphone hint.
pub proof fn failures_show_unless_nothing_happened(stage: FailStage, detail: String, s: PipelineStatus)
    requires
        follows(PipelineEvent::Failed { stage, detail }, s),
    ensures
        silent_stage(stage) <==> s is Idle,
        loud_stage(stage) ==> (s matches PipelineStatus::Errored { detail: d, .. } && d@ == detail@),
        stage == FailStage::GatedTooQuiet ==> (s matches PipelineStatus::Hint { detail: h } && h@
            == "Didn't catch that. Check your microphone."@),
{
}

/// The status an event leads to (the testable seam between the worker's
/// reports and what the footer and tray show).
pub fn next_status(event: PipelineEvent) -> (s: PipelineStatus)
    ensures
        follows(event, s),
        event matches PipelineEvent::Failed { stage, detail } ==> (loud_stage(stage) ==> (
        s matches PipelineStatus::Errored { detail: d, .. } && d@ == detail@)),
        event matches PipelineEvent::Failed { stage, .. } ==> (silent_stage(stage) <==> s is Idle),
{
    match event {
        PipelineEvent::Recording => PipelineStatus::Recording,
        PipelineEvent::Processing => PipelineStatus::Processing,
        PipelineEvent::LoadingLocalModel => PipelineStatus::LoadingModel,
        PipelineEvent::Injected(_) => PipelineStatus::Idle,
        PipelineEvent::Failed { stage, detail } => match stage {
            FailStage::GatedTooShort | FailStage::EmptyTranscript | FailStage::Abandoned => {
                PipelineStatus::Idle
            },
            FailStage::GatedTooQuiet => {
                let mut hint = String::new();
                push_str(&mut hint, "Didn't catch that. Check your microphone.");
                proof {
                    reveal_strlit("Didn't catch that. Check your microphone.");
                }
                PipelineStatus::Hint { detail: hint }
            },
            FailStage::Audio
            | FailStage::Transcribe
            | FailStage::Inject
            | FailStage::Internal => {
                let key_related = mentions_key_exec(detail.as_str());
                PipelineStatus::Errored { key_related, detail }
            },
        },
        PipelineEvent::ShortcutIntercepted { .. } => PipelineStatus::Idle,
    }
}

/// The UI's side of a pipeline run: the status it shows, whether a run is
/// live, and how many dictations were injected this session.
pub struct PipelineController {
    status: PipelineStatus,
    injected: u64,
    running: bool,
}

impl PipelineController {
    /// The status shown.
    pub closed spec fn shown(&self) -> PipelineStatus {
        self.status
    }

    /// Successful dictations this session.
    pub closed spec fn injected(&self) -> nat {
        self.injected as nat
    }

    /// Whether a pipeline run is live.
    pub closed spec fn live(&self) -> bool {
        self.running
    }

    /// Nothing started yet: stopped, with that as the visible cause.
    pub fn new() -> (c: Self)
        ensures
            c.shown() matches PipelineStatus::Stopped { detail: d, key_related: false } && d@
                == "Not started"@,
            c.injected() == 0,
            !c.live(),
    {
        let mut detail = String::new();
        push_str(&mut detail, "Not started");
        PipelineController {
            status: PipelineStatus::Stopped { detail, key_related: false },
            injected: 0,
            running: false,
        }
    }

    /// The status shown.
    pub fn status(&self) -> (s: &PipelineStatus)
        ensures
            *s == self.shown(),
    {
        &self.status
    }

    /// Whether a pipeline run is live.
    pub fn is_running(&self) -> (b: bool)
        ensures
            b == self.live(),
    {
        self.running
    }

    /// Successful dictations this session; a restart does not reset it.
    pub fn injected_count(&self) -> (n: u64)
        ensures
            n == self.injected(),
    {
        self.injected
    }

    /// Decide the key a start runs with: the resolved key; an empty one
    /// when resolution failed but the configured mode never calls a cloud
    /// provider (running keyless is the point of that mode); otherwise
    /// nothing, and the pipeline shows as stopped for want of a key.
    pub fn resolve_key(&mut self, key: Result<String, String>, uses_cloud: bool) -> (r: Option<String>)
        ensures
            match key {
                Ok(k) => r == Some(k) && final(self).shown() == old(self).shown(),
                Err(e) => if uses_cloud {
                    &&& r is None
                    &&& final(self).shown() matches PipelineStatus::Stopped {
                        detail: d,
                        key_related: true,
                    } && d@ == e@
                } else {
                    &&& r matches Some(k) && k@.len() == 0
                    &&& final(self).shown() == old(self).shown()
                },
            },
            final(self).injected() == old(self).injected(),
            final(self).live() == old(self).live(),
    {
        match key {
            Ok(k) => Some(k),
            Err(e) => if uses_cloud {
                self.status = PipelineStatus::Stopped { detail: e, key_related: true };
                None
            } else {
                Some(String::new())
            },
        }
    }

    /// A run started: live, and listening.
    pub fn started(&mut self)
        ensures
            final(self).shown() is Idle,
            final(self).live(),
            final(self).injected() == old(self).injected(),
    {
        self.status = PipelineStatus::Idle;
        self.running = true;
    }

    /// A run failed to start: stopped, with the cause, not key-related.
    pub fn start_failed(&mut self, detail: String)
        ensures
            final(self).shown() matches PipelineStatus::Stopped { detail: d, key_related: false }
                && d@ == detail@,
            !final(self).live(),
            final(self).injected() == old(self).injected(),
    {
        self.status = PipelineStatus::Stopped { detail, key_related: false };
        self.running = false;
    }

    /// End the run. The status and the session count stay as they were.
    pub fn stop(&mut self)
        ensures
            !final(self).live(),
            final(self).shown() == old(self).shown(),
            final(self).injected() == old(self).injected(),
    {
        self.running = false;
    }

    /// Stop and surface a non-key cause, such as a config file that failed
    /// to parse.
    pub fn mark_stopped(&mut self, detail: String)
        ensures
            !final(self).live(),
            final(self).shown() matches PipelineStatus::Stopped { detail: d, key_related: false }
                && d@ == detail@,
            final(self).injected() == old(self).injected(),
    {
        self.stop();
        self.status = PipelineStatus::Stopped { detail, key_related: false };
    }

    /// Take one event off the stream: an injection counts, and the status
    /// becomes the one the event leads to. Any newer event replaces a sticky
    /// error or hint. An interception report changes neither.
    pub fn observe(&mut self, event: PipelineEvent)
        requires
            event is Injected ==> old(self).injected() < u64::MAX,
        ensures
            final(self).injected() == old(self).injected() + (if event is Injected {
                1int
            } else {
                0int
            }),
            event is ShortcutIntercepted ==> final(self).shown() == old(self).shown(),
            !(event is ShortcutIntercepted) ==> follows(event, final(self).shown()),
            final(self).live() == old(self).live(),
    {
        if let PipelineEvent::ShortcutIntercepted { .. } = event {
            return;
        }
        if let PipelineEvent::Injected(_) = event {
            self.injected = self.injected + 1;
        }
        self.status = next_status(event);
    }
}

} // verus!
