//! The cleanup-provider section: what runs when nothing is overridden,
//! which keychain account an override uses, and the section's own test.
//! How a cleanup provider resolves from the settings is the config's rule;
//! the glue hands in its answer.

use vstd::prelude::*;
use crate::pages::Tone;
use crate::settings::{voice_label, CleanupPass, FormBufs, ProviderKind, VoiceName};
use crate::text::{decimal, push_decimal_wide, push_str, same_chars};

verus! {

/// Which voice the cleanup test runs under: a verbatim default makes no
/// cleanup call, so the test uses the clean voice, which exercises the same
/// endpoint, key and model.
pub fn probe_voice(default: VoiceName) -> (v: VoiceName)
    ensures
        v == (if default == VoiceName::Verbatim { VoiceName::Clean } else { default }),
{
    match default {
        VoiceName::Verbatim => VoiceName::Clean,
        other => other,
    }
}

/// How cleanup resolves for the saved settings.
pub enum CleanupResolution {
    /// The verbatim voice: no cleanup call.
    Verbatim,
    /// Cleanup was wanted but cannot run; the text goes in as transcribed.
    VerbatimWithWarning { reason: String },
    /// A provider and model will run.
    Resolved { model: String },
}

/// The line shown when no override is set: honest about degradation.
pub fn inherited_line(resolution: &CleanupResolution, stt_provider: &str) -> (r: (Tone, String))
    ensures
        match *resolution {
            CleanupResolution::Verbatim => r.0 == Tone::Accent && r.1@ == "Verbatim voice: no cleanup call runs."@,
            CleanupResolution::VerbatimWithWarning { reason } => r.0 == Tone::Warning && r.1@ == reason@
                + " Text is injected as transcribed."@,
            CleanupResolution::Resolved { model } => r.0 == Tone::Accent && r.1@ == "Inherited from STT ("@
                + stt_provider@ + ") \u{b7} "@ + model@,
        },
{
    let mut t = String::new();
    match resolution {
        CleanupResolution::Verbatim => {
            push_str(&mut t, "Verbatim voice: no cleanup call runs.");
            (Tone::Accent, t)
        },
        CleanupResolution::VerbatimWithWarning { reason } => {
            push_str(&mut t, reason.as_str());
            push_str(&mut t, " Text is injected as transcribed.");
            (Tone::Warning, t)
        },
        CleanupResolution::Resolved { model } => {
            push_str(&mut t, "Inherited from STT (");
            push_str(&mut t, stt_provider);
            push_str(&mut t, ") \u{b7} ");
            push_str(&mut t, model.as_str());
            (Tone::Accent, t)
        },
    }
}

/// The keychain account an override uses: the one typed, or the
/// provider's own name.
pub fn cleanup_account(key_account: &Option<String>, kind_label: &str) -> (a: String)
    ensures
        a@ == (match *key_account {
            Some(k) => k@,
            None => kind_label@,
        }),
{
    let mut a = String::new();
    match key_account {
        Some(k) => push_str(&mut a, k.as_str()),
        None => push_str(&mut a, kind_label),
    }
    a
}

/// When the override's account is the speech-to-text one, its key is
/// already stored: the section says so instead of offering a second key
/// field.
pub fn shared_key_line(account: &str, stt_account: &str) -> (r: Option<String>)
    ensures
        match r {
            Some(t) => account@ == stt_account@ && t@ == "Uses the \""@ + account@
                + "\" key already stored for speech to text."@,
            None => account@ != stt_account@,
        },
{
    if same_chars(account, stt_account) {
        let mut t = String::new();
        push_str(&mut t, "Uses the \"");
        push_str(&mut t, account);
        push_str(&mut t, "\" key already stored for speech to text.");
        Some(t)
    } else {
        None
    }
}

/// An OpenAI-compatible endpoint cannot run without its base URL.
pub fn base_url_missing(kind: ProviderKind, base_url_set: bool) -> (b: bool)
    ensures
        b == (kind == ProviderKind::OpenaiCompatible && !base_url_set),
{
    kind == ProviderKind::OpenaiCompatible && !base_url_set
}

/// Turning the override on or off starts its buffers over.
pub fn override_toggled(bufs: &mut FormBufs)
    ensures
        final(bufs).cleanup_model@.len() == 0,
        final(bufs).cleanup_base_url@.len() == 0,
        final(bufs).cleanup_key_account@.len() == 0,
        final(bufs).model == old(bufs).model,
        final(bufs).base_url == old(bufs).base_url,
        final(bufs).force_endpoint_open == old(bufs).force_endpoint_open,
{
    bufs.cleanup_model = String::new();
    bufs.cleanup_base_url = String::new();
    bufs.cleanup_key_account = String::new();
}

/// A finished cleanup test: the voice it ran under and what came back.
pub struct Outcome {
    pub voice: VoiceName,
    pub result: Result<CleanupPass, String>,
}

/// Where the cleanup test stands.
pub enum TestState {
    Idle,
    Running,
    Done(Outcome),
}

/// The cleanup section's own test button.
pub struct CleanupTest {
    state: TestState,
}

impl CleanupTest {
    pub closed spec fn state_view(&self) -> TestState {
        self.state
    }

    /// No test yet.
    pub fn new() -> (t: Self)
        ensures
            t.state_view() is Idle,
    {
        CleanupTest { state: TestState::Idle }
    }

    /// Whether a test is in flight.
    pub fn is_running(&self) -> (b: bool)
        ensures
            b == (self.state_view() is Running),
    {
        match self.state {
            TestState::Running => true,
            _ => false,
        }
    }

    /// The button runs a test only when a provider resolves and none is
    /// running; otherwise it says up front why it would do nothing.
    pub fn enabled(&self, resolvable: bool) -> (b: bool)
        ensures
            b == (resolvable && !(self.state_view() is Running)),
    {
        resolvable && !self.is_running()
    }

    /// A test started.
    pub fn start(&mut self)
        requires
            !(old(self).state_view() is Running),
        ensures
            final(self).state_view() is Running,
    {
        self.state = TestState::Running;
    }

    /// The running test reported.
    pub fn finish(&mut self, outcome: Outcome)
        requires
            old(self).state_view() is Running,
        ensures
            final(self).state_view() == TestState::Done(outcome),
    {
        self.state = TestState::Done(outcome);
    }

    /// The last finished outcome, if any.
    pub fn outcome(&self) -> (o: Option<&Outcome>)
        ensures
            match o {
                Some(x) => self.state_view() == TestState::Done(*x),
                None => !(self.state_view() is Done),
            },
    {
        match &self.state {
            TestState::Done(o) => Some(o),
            _ => None,
        }
    }
}

/// The report of a finished test: tone, headline, the time of a pass, and,
/// under a verbatim default, which voice the test ran with instead.
pub fn report(outcome: &Outcome, default_voice: VoiceName) -> (r: (Tone, String, Option<String>, Option<String>))
    ensures
        match outcome.result {
            Ok(p) => {
                &&& r.0 == Tone::Success
                &&& r.1@ == "Cleanup reached "@ + p.model@
                &&& r.2 matches Some(ms) && ms@ == decimal(p.ms as nat) + " ms"@
            },
            Err(d) => r.0 == Tone::Danger && r.1@ == d@ && r.2 is None,
        },
        match r.3 {
            Some(n) => default_voice == VoiceName::Verbatim && n@ == "Tested with the "@ + voice_label(
                outcome.voice,
            ) + " voice; your default (verbatim) makes no cleanup call."@,
            None => default_voice != VoiceName::Verbatim,
        },
{
    let note = if default_voice == VoiceName::Verbatim {
        let mut n = String::new();
        push_str(&mut n, "Tested with the ");
        push_str(&mut n, outcome.voice.label());
        push_str(&mut n, " voice; your default (verbatim) makes no cleanup call.");
        Some(n)
    } else {
        None
    };
    let mut head = String::new();
    match &outcome.result {
        Ok(p) => {
            push_str(&mut head, "Cleanup reached ");
            push_str(&mut head, p.model.as_str());
            let mut ms = String::new();
            push_decimal_wide(&mut ms, p.ms);
            push_str(&mut ms, " ms");
            (Tone::Success, head, Some(ms), note)
        },
        Err(d) => {
            push_str(&mut head, d.as_str());
            (Tone::Danger, head, None, note)
        },
    }
}

/// Where a resolved cleanup provider's key comes from.
pub enum CleanupKeySource {
    /// The speech-to-text key, reused.
    ReuseSttKey,
    /// Its own keychain account.
    Account(String),
}

/// The key a cleanup test calls with.
pub enum CleanupKey {
    /// The speech-to-text key already in hand.
    Stt(String),
    /// Look this keychain account up.
    Lookup(String),
}

/// Which key a cleanup test uses. Reusing the speech key needs one: a
/// failed speech key lookup fails the cleanup test too, with its own line.
pub fn cleanup_key(source: &CleanupKeySource, stt_key: Option<&str>) -> (r: Result<CleanupKey, String>)
    ensures
        match *source {
            CleanupKeySource::ReuseSttKey => match stt_key {
                Some(k) => r matches Ok(CleanupKey::Stt(s)) && s@ == k@,
                None => r matches Err(e) && e@ == "no STT key available to reuse for cleanup"@,
            },
            CleanupKeySource::Account(a) => r matches Ok(CleanupKey::Lookup(x)) && x@ == a@,
        },
{
    let mut out = String::new();
    match source {
        CleanupKeySource::ReuseSttKey => match stt_key {
            Some(k) => {
                push_str(&mut out, k);
                Ok(CleanupKey::Stt(out))
            },
            None => {
                push_str(&mut out, "no STT key available to reuse for cleanup");
                Err(out)
            },
        },
        CleanupKeySource::Account(a) => {
            push_str(&mut out, a.as_str());
            Ok(CleanupKey::Lookup(out))
        },
    }
}

} // verus!
