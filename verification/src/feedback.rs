//! Content-free overlay feedback. One packed value holds the time a state
//! was published (milliseconds since construction, upper bits) and the
//! state (low 8 bits), so a new state can never inherit an old expiry; the
//! all-ones value means "disabled" and sticks.

use vstd::prelude::*;
use crate::pipeline::{FailStage, PipelineEvent};

verus! {

#[verifier::external_type_specification]
#[verifier::external_body]
pub struct ExInstant(std::time::Instant);

pub assume_specification[ std::time::Instant::now ]() -> std::time::Instant;

pub assume_specification[ std::time::Instant::elapsed ](this: &std::time::Instant) -> core::time::Duration;

pub assume_specification[ core::time::Duration::as_millis ](this: &core::time::Duration) -> u128;

/// What the overlay pill shows.
#[derive(Clone, Copy, Debug, PartialEq, Eq, Structural)]
pub enum State {
    Hidden,
    Listening,
    Processing,
    LoadingModel,
    Inserted,
    AudioError,
    ProviderError,
    InsertError,
    Quiet,
}

/// The label of each state.
pub open spec fn label_of(s: State) -> &'static str {
    match s {
        State::Hidden => "",
        State::Listening => "Listening\u{2026}",
        State::Processing => "Processing\u{2026}",
        State::LoadingModel => "Loading model\u{2026}",
        State::Inserted => "Inserted",
        State::AudioError => "Check microphone",
        State::ProviderError => "Check provider",
        State::InsertError => "Couldn't insert",
        State::Quiet => "No speech heard",
    }
}

/// How long a terminal state stays up, in milliseconds.
pub open spec fn ttl_of(s: State) -> Option<u64> {
    match s {
        State::Inserted => Some(1_000),
        State::AudioError | State::ProviderError | State::InsertError | State::Quiet => Some(3_000),
        _ => None,
    }
}

/// The number a state is packed as.
pub open spec fn code_of(s: State) -> u64 {
    match s {
        State::Hidden => 0,
        State::Listening => 1,
        State::Processing => 2,
        State::LoadingModel => 3,
        State::Inserted => 4,
        State::AudioError => 5,
        State::ProviderError => 6,
        State::InsertError => 7,
        State::Quiet => 8,
    }
}

/// The state a packed number reads back as. An old `Listening` reads as
/// hidden: the worker's live flag decides when recording shows.
pub open spec fn decode(code: u64) -> State {
    if code == 2 {
        State::Processing
    } else if code == 3 {
        State::LoadingModel
    } else if code == 4 {
        State::Inserted
    } else if code == 5 {
        State::AudioError
    } else if code == 6 {
        State::ProviderError
    } else if code == 7 {
        State::InsertError
    } else if code == 8 {
        State::Quiet
    } else {
        State::Hidden
    }
}

impl State {
    /// The pill text.
    pub fn label(self) -> (l: &'static str)
        ensures
            l == label_of(self),
    {
        match self {
            State::Hidden => "",
            State::Listening => "Listening\u{2026}",
            State::Processing => "Processing\u{2026}",
            State::LoadingModel => "Loading model\u{2026}",
            State::Inserted => "Inserted",
            State::AudioError => "Check microphone",
            State::ProviderError => "Check provider",
            State::InsertError => "Couldn't insert",
            State::Quiet => "No speech heard",
        }
    }

    fn duration_ms(self) -> (d: Option<u64>)
        ensures
            d == ttl_of(self),
    {
        match self {
            State::Inserted => Some(1_000),
            State::AudioError | State::ProviderError | State::InsertError | State::Quiet => Some(3_000),
            _ => None,
        }
    }

    fn code(self) -> (c: u64)
        ensures
            c == code_of(self),
    {
        match self {
            State::Hidden => 0,
            State::Listening => 1,
            State::Processing => 2,
            State::LoadingModel => 3,
            State::Inserted => 4,
            State::AudioError => 5,
            State::ProviderError => 6,
            State::InsertError => 7,
            State::Quiet => 8,
        }
    }
}

/// The packed value meaning "disabled".
pub const DISABLED: u64 = 0xffff_ffff_ffff_ffff;

/// The packed value for `s` published at `now_ms` (the time keeps its low
/// 56 bits).
pub open spec fn pack(s: State, now_ms: u64) -> u64 {
    ((now_ms as nat % 0x100_0000_0000_0000) * 256 + code_of(s)) as u64
}

/// The packed value after publishing `s` at `now_ms` over `value`.
pub open spec fn after_publish(value: u64, s: State, now_ms: u64) -> u64 {
    if value == DISABLED { DISABLED } else { pack(s, now_ms) }
}

/// The state shown at `now_ms` for the packed `value`.
pub open spec fn shown(value: u64, recording: bool, now_ms: u64) -> State {
    if value == DISABLED {
        State::Hidden
    } else if recording {
        State::Listening
    } else {
        let s = decode(value % 256);
        let published = value / 256;
        match ttl_of(s) {
            Some(ttl) => if (if now_ms >= published { now_ms - published } else { 0 }) >= ttl {
                State::Hidden
            } else {
                s
            },
            None => s,
        }
    }
}

/// The overlay state each pipeline event publishes, if any.
pub open spec fn event_state(event: PipelineEvent) -> Option<State> {
    match event {
        PipelineEvent::ShortcutIntercepted { .. } => None,
        PipelineEvent::Recording => Some(State::Listening),
        PipelineEvent::Processing => Some(State::Processing),
        PipelineEvent::LoadingLocalModel => Some(State::LoadingModel),
        PipelineEvent::Injected(_) => Some(State::Inserted),
        PipelineEvent::Failed { stage, .. } => Some(
            match stage {
                FailStage::GatedTooShort | FailStage::EmptyTranscript | FailStage::Abandoned => State::Hidden,
                FailStage::GatedTooQuiet => State::Quiet,
                FailStage::Audio => State::AudioError,
                FailStage::Transcribe => State::ProviderError,
                FailStage::Inject => State::InsertError,
                FailStage::Internal => State::ProviderError,
            },
        ),
    }
}

/// Whether `event` reports a failure at `stage`.
pub open spec fn failed_at(event: PipelineEvent, stage: FailStage) -> bool {
    event matches PipelineEvent::Failed { stage: st, .. } && st == stage
}

/// The pill names where a dictation stopped: "Check microphone" exactly
/// for a failure at the microphone, "Check provider" exactly for a failed
/// transcription (or a failure inside Hark, which stopped in the same
/// place), "Couldn't insert" exactly for a failed insertion, and "No speech
/// heard" exactly for a capture too quiet to be speech. Live stages show
/// their own pill; an interception report shows none.
pub proof fn pills_name_where_it_stopped(event: PipelineEvent)
    ensures
        event_state(event) == Some(State::AudioError) <==> failed_at(event, FailStage::Audio),
        event_state(event) == Some(State::ProviderError) <==> (failed_at(event, FailStage::Transcribe)
            || failed_at(event, FailStage::Internal)),
        event_state(event) == Some(State::InsertError) <==> failed_at(event, FailStage::Inject),
        event_state(event) == Some(State::Quiet) <==> failed_at(event, FailStage::GatedTooQuiet),
        event_state(event) == Some(State::Inserted) <==> event is Injected,
        event_state(event) == Some(State::Listening) <==> event is Recording,
        event_state(event) is None <==> event is ShortcutIntercepted,
        label_of(State::AudioError)@ == "Check microphone"@,
        label_of(State::ProviderError)@ == "Check provider"@,
        label_of(State::InsertError)@ == "Couldn't insert"@,
        label_of(State::Quiet)@ == "No speech heard"@,
{
}

/// The overlay state a pipeline event publishes, if any. Events about
/// something other than the dictation publish nothing.
pub fn overlay_state(event: &PipelineEvent) -> (s: Option<State>)
    ensures
        s == event_state(*event),
        s == Some(State::AudioError) <==> failed_at(*event, FailStage::Audio),
        s == Some(State::ProviderError) <==> (failed_at(*event, FailStage::Transcribe) || failed_at(
            *event,
            FailStage::Internal,
        )),
        s == Some(State::InsertError) <==> failed_at(*event, FailStage::Inject),
        s == Some(State::Quiet) <==> failed_at(*event, FailStage::GatedTooQuiet),
{
    match event {
        PipelineEvent::ShortcutIntercepted { .. } => None,
        PipelineEvent::Recording => Some(State::Listening),
        PipelineEvent::Processing => Some(State::Processing),
        PipelineEvent::LoadingLocalModel => Some(State::LoadingModel),
        PipelineEvent::Injected(_) => Some(State::Inserted),
        PipelineEvent::Failed { stage, .. } => Some(
            match stage {
                FailStage::GatedTooShort | FailStage::EmptyTranscript | FailStage::Abandoned => State::Hidden,
                FailStage::GatedTooQuiet => State::Quiet,
                FailStage::Audio => State::AudioError,
                FailStage::Transcribe => State::ProviderError,
                FailStage::Inject => State::InsertError,
                FailStage::Internal => State::ProviderError,
            },
        ),
    }
}

/// The packed value that publishing `state` at `now_ms` over `value`
/// stores, or `None` when `value` is disabled and nothing may be stored:
/// the update a shared cell applies in one atomic step.
pub fn packed_after(value: u64, state: State, now_ms: u64) -> (r: Option<u64>)
    ensures
        r == (if value == DISABLED { None } else { Some(pack(state, now_ms)) }),
{
    if value == DISABLED {
        return None;
    }
    let code = state.code();
    let packed = (now_ms << 8) | code;
    proof {
        assert(code < 256);
        assert(packed == ((now_ms % 0x100_0000_0000_0000) * 256 + code) as u64) by (bit_vector)
            requires
                packed == (now_ms << 8) | code,
                code < 256,
        ;
    }
    Some(packed)
}

/// What the overlay shows at `now_ms` for the packed `value`: nothing once
/// disabled, listening while capture is live, otherwise the published
/// state until its lifetime runs out.
pub fn shown_at(value: u64, recording: bool, now_ms: u64) -> (s: State)
    ensures
    s == shown(value, recording, now_ms),
{
    if value == DISABLED {
        return State::Hidden;
    }
    if recording {
        return State::Listening;
    }
    let code = value % 256;
    let state = if code == 2 {
        State::Processing
    } else if code == 3 {
        State::LoadingModel
    } else if code == 4 {
        State::Inserted
    } else if code == 5 {
        State::AudioError
    } else if code == 6 {
        State::ProviderError
    } else if code == 7 {
        State::InsertError
    } else if code == 8 {
        State::Quiet
    } else {
        State::Hidden
    };
    match state.duration_ms() {
        Some(ttl) => if now_ms.saturating_sub(value / 256) >= ttl {
            State::Hidden
        } else {
            state
        },
        None => state,
    }
}

/// Whether the overlay window is shown for a state: hidden means the
/// window is hidden, anything else shows the pill.
pub fn overlay_visible(state: State) -> (b: bool)
    ensures
        b == (state != State::Hidden),
{
    state != State::Hidden
}

/// Whether a state moves on screen (its pill animates while it lasts).
pub open spec fn moving(state: State) -> bool {
    state == State::Listening || state == State::Processing || state == State::LoadingModel
}

/// How soon the overlay repaints, in milliseconds: every 33 ms while a
/// moving state animates, else every 100 ms (expiry still needs a frame).
pub fn repaint_ms(state: State, animated: bool) -> (ms: u64)
    ensures
        ms == (if animated && moving(state) { 33u64 } else { 100u64 }),
{
    let is_moving = match state {
        State::Listening | State::Processing | State::LoadingModel => true,
        _ => false,
    };
    if animated && is_moving {
        33
    } else {
        100
    }
}

/// Overlay feedback shared between the event pump and the overlay.
pub struct Feedback {
    started: std::time::Instant,
    value: u64,
}

impl Feedback {
    /// The packed value.
    pub closed spec fn value(&self) -> u64 {
        self.value
    }

    /// Fresh feedback: hidden, nothing published.
    pub fn new() -> (f: Self)
        ensures
            f.value() == 0,
    {
        Feedback { started: std::time::Instant::now(), value: 0 }
    }

    /// Milliseconds since construction.
    pub fn elapsed_ms(&self) -> u64 {
        self.started.elapsed().as_millis() as u64
    }

    /// Publish the state an event maps to, stamped with the current time.
    /// Events about something other than the dictation publish nothing.
    pub fn publish(&mut self, event: &PipelineEvent)
        ensures
            match event_state(*event) {
                None => final(self).value() == old(self).value(),
                Some(s) => old(self).value() == DISABLED ==> final(self).value() == DISABLED,
            },
            event_state(*event) is Some && old(self).value() != DISABLED ==> exists|t: u64|
                final(self).value() == pack(event_state(*event)->0, t),
            event_state(*event) is Some ==> exists|t: u64|
                final(self).value() == after_publish(old(self).value(), event_state(*event)->0, t),
    {
        let state = match overlay_state(event) {
            Some(s) => s,
            None => return,
        };
        let now = self.elapsed_ms();
        let ghost was = self.value;
        self.publish_at(state, now);
        proof {
            assert(state == event_state(*event)->0);
            if was != DISABLED {
                assert(self.value == pack(event_state(*event)->0, now));
            }
            assert(self.value == after_publish(was, event_state(*event)->0, now));
        }
    }

    /// Stop showing anything, for good.
    pub fn disable(&mut self)
        ensures
            final(self).value() == DISABLED,
    {
        self.value = DISABLED;
    }

    /// What the overlay shows now: what `state_at` gives at the current
    /// reading of the clock. The reading itself is the machine's, so the
    /// result is stated for some time.
    pub fn state(&self, recording: bool) -> (s: State)
        ensures
            exists|now_ms: u64| s == shown(self.value(), recording, now_ms),
    {
        let now = self.elapsed_ms();
        self.state_at(recording, now)
    }

    /// Publish `state` at `now_ms`, unless disabled.
    pub fn publish_at(&mut self, state: State, now_ms: u64)
        ensures
            final(self).value() == after_publish(old(self).value(), state, now_ms),
    {
        if let Some(packed) = packed_after(self.value, state, now_ms) {
            self.value = packed;
        }
    }

    /// What the overlay shows at `now_ms`: nothing once disabled, listening
    /// while capture is live, otherwise the published state until its
    /// lifetime runs out.
    pub fn state_at(&self, recording: bool, now_ms: u64) -> (s: State)
        ensures
            s == shown(self.value(), recording, now_ms),
    {
        shown_at(self.value, recording, now_ms)
    }
}

/// The packed value after a run of publishes over `value`: each step is a
/// state published at a time (`publish_at`, or `publish` of an event that
/// maps to a state), or nothing (`publish` of an event that maps to none).
pub open spec fn after_publishes(value: u64, steps: Seq<Option<(State, u64)>>) -> u64
    decreases steps.len(),
{
    if steps.len() == 0 {
        value
    } else {
        let v = after_publishes(value, steps.drop_last());
        match steps.last() {
            Some((s, t)) => after_publish(v, s, t),
            None => v,
        }
    }
}

/// Disabling is permanent: after `disable`, no run of publishes, of any
/// length, brings feedback back, and nothing shows at any time, recording
/// or not.
pub proof fn disable_is_permanent(steps: Seq<Option<(State, u64)>>, recording: bool, now: u64)
    ensures
        after_publishes(DISABLED, steps) == DISABLED,
        shown(after_publishes(DISABLED, steps), recording, now) == State::Hidden,
    decreases steps.len(),
{
    if steps.len() > 0 {
        disable_is_permanent(steps.drop_last(), recording, now);
    }
}

/// Once disabled, feedback shows nothing: no later publish brings it back,
/// and live capture does not either.
pub proof fn disabled_stays_hidden(s: State, t: u64, recording: bool, now: u64)
    ensures
        after_publish(DISABLED, s, t) == DISABLED,
        shown(after_publish(DISABLED, s, t), recording, now) == State::Hidden,
{
}

/// A published state reads back as itself until its lifetime has passed,
/// and a terminal state reads as hidden from then on. `Listening` and
/// `Hidden` read back as hidden: live capture is shown from the flag, not
/// from an old event.
pub proof fn published_state_reads_back(s: State, t: u64, now: u64)
    requires
        t < 0x100_0000_0000_0000,
        now >= t,
    ensures
        pack(s, t) != DISABLED,
        shown(pack(s, t), false, now) == (if s == State::Hidden || s == State::Listening {
            State::Hidden
        } else {
            match ttl_of(s) {
                Some(ttl) => if now - t >= ttl { State::Hidden } else { s },
                None => s,
            }
        }),
{
    let v = pack(s, t);
    assert(v == t * 256 + code_of(s));
    assert(v % 256 == code_of(s)) by {
        vstd::arithmetic::div_mod::lemma_fundamental_div_mod_converse(v as int, 256, t as int, code_of(s) as int);
    }
    assert(v / 256 == t) by {
        vstd::arithmetic::div_mod::lemma_fundamental_div_mod_converse(v as int, 256, t as int, code_of(s) as int);
    }
}

} // verus!
