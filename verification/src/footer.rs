//! Status-footer text: the state line and where its "Open Settings" jump
//! leads, the interception explanation, and the provider line naming the
//! engine and models that actually run.

use vstd::prelude::*;
use crate::pipeline::PipelineStatus;
use crate::settings::Section;
use crate::text::push_str;

verus! {

/// The hover text for a shortcut key another program intercepts: it names
/// the key, the usual culprit, and both ways out.
pub open spec fn explanation_of(key: Seq<char>) -> Seq<char> {
    "You were holding "@ + key + ", but Windows reported it as not pressed. Another program is taking the key before Windows sees it: usually a key remapper such as PowerToys Keyboard Manager, or a macro tool. That program also acts on every push-to-talk press, and depending on the order you press the keys, dictation can cut out.\n\nRemove that program's mapping for "@
        + key + ", or choose a shortcut that does not use it. Hark ignores keys other programs type, so the key it remaps "@
        + key + " to will not work as a shortcut either."@
}

/// The hover text for an intercepted key.
pub fn intercepted_explanation(key: &str) -> (r: String)
    ensures
        r@ == explanation_of(key@),
{
    let mut out = String::new();
    push_str(&mut out, "You were holding ");
    push_str(&mut out, key);
    push_str(&mut out, ", but Windows reported it as not pressed. Another program is taking the key before Windows sees it: usually a key remapper such as PowerToys Keyboard Manager, or a macro tool. That program also acts on every push-to-talk press, and depending on the order you press the keys, dictation can cut out.\n\nRemove that program's mapping for ");
    push_str(&mut out, key);
    push_str(&mut out, ", or choose a shortcut that does not use it. Hark ignores keys other programs type, so the key it remaps ");
    push_str(&mut out, key);
    push_str(&mut out, " to will not work as a shortcut either.");
    out
}

/// The footer's state line. `intercepted` is the (display form of the)
/// push-to-talk key another program is intercepting, worth saying while
/// idle; `chord` is the display form of the configured chord.
pub open spec fn state_label_of(status: PipelineStatus, intercepted: Option<Seq<char>>, chord: Seq<char>) -> Seq<char> {
    match status {
        PipelineStatus::Idle => match intercepted {
            Some(key) => "Another app is intercepting "@ + key,
            None => "Ready \u{b7} Hold "@ + chord + " to dictate"@,
        },
        PipelineStatus::Recording => "Recording"@,
        PipelineStatus::Processing => "Processing"@,
        PipelineStatus::LoadingModel => "Loading the on-device model\u{2026}"@,
        PipelineStatus::Errored { detail, .. } => detail@,
        PipelineStatus::Hint { detail } => detail@,
        PipelineStatus::Stopped { detail, key_related } => if key_related {
            "No STT key yet."@
        } else {
            "Pipeline stopped: "@ + detail@
        },
    }
}

/// Where the footer's "Open Settings" jump leads, or `None` when there is
/// nothing to fix in Settings: the shortcut editor for an intercepted key,
/// the dictation section for a key problem or a quiet microphone.
pub open spec fn jump_of(status: PipelineStatus, intercepted: bool) -> Option<Section> {
    match status {
        PipelineStatus::Idle => if intercepted { Some(Section::Audio) } else { None },
        PipelineStatus::Errored { key_related, .. } => if key_related {
            Some(Section::Dictation)
        } else {
            None
        },
        PipelineStatus::Hint { .. } => Some(Section::Dictation),
        PipelineStatus::Stopped { key_related, .. } => if key_related {
            Some(Section::Dictation)
        } else {
            None
        },
        _ => None,
    }
}

/// The footer's state line.
pub fn state_label(status: &PipelineStatus, intercepted: Option<&str>, chord: &str) -> (r: String)
    ensures
        r@ == state_label_of(
            *status,
            match intercepted {
                Some(k) => Some(k@),
                None => None,
            },
            chord@,
        ),
{
    let mut out = String::new();
    match status {
        PipelineStatus::Idle => match intercepted {
            Some(key) => {
                push_str(&mut out, "Another app is intercepting ");
                push_str(&mut out, key);
            },
            None => {
                push_str(&mut out, "Ready \u{b7} Hold ");
                push_str(&mut out, chord);
                push_str(&mut out, " to dictate");
            },
        },
        PipelineStatus::Recording => push_str(&mut out, "Recording"),
        PipelineStatus::Processing => push_str(&mut out, "Processing"),
        PipelineStatus::LoadingModel => push_str(&mut out, "Loading the on-device model\u{2026}"),
        PipelineStatus::Errored { detail, .. } => push_str(&mut out, detail.as_str()),
        PipelineStatus::Hint { detail } => push_str(&mut out, detail.as_str()),
        PipelineStatus::Stopped { detail, key_related } => if *key_related {
            push_str(&mut out, "No STT key yet.");
        } else {
            push_str(&mut out, "Pipeline stopped: ");
            push_str(&mut out, detail.as_str());
        },
    }
    out
}

/// Where the footer's "Open Settings" jump leads, if it offers one.
pub fn jump_section(status: &PipelineStatus, intercepted: bool) -> (r: Option<Section>)
    ensures
        r == jump_of(*status, intercepted),
{
    match status {
        PipelineStatus::Idle => if intercepted { Some(Section::Audio) } else { None },
        PipelineStatus::Errored { key_related, .. } => if *key_related {
            Some(Section::Dictation)
        } else {
            None
        },
        PipelineStatus::Hint { .. } => Some(Section::Dictation),
        PipelineStatus::Stopped { key_related, .. } => if *key_related {
            Some(Section::Dictation)
        } else {
            None
        },
        _ => None,
    }
}

/// Where speech-to-text runs.
#[derive(Debug, Clone, Copy, PartialEq, Eq, Structural)]
pub enum LocalMode {
    /// Cloud only.
    Off,
    /// Cloud first, the on-device engine when it fails.
    Fallback,
    /// On-device only: the cloud provider is never called.
    Primary,
}

/// What the provider line reads of the settings.
pub struct ProviderSummary {
    pub local_mode: LocalMode,
    /// The on-device model's name.
    pub local_model: String,
    /// The cloud provider's config name.
    pub provider: String,
    /// The cloud transcription model, defaults resolved.
    pub model: String,
    /// A fused provider in smart mode does its own cleanup.
    pub fused_smart: bool,
    /// The cleanup model a dictation in the default voice would call, when
    /// one would be called at all.
    pub cleanup_model: Option<String>,
}

/// "provider · model", plus the cleanup model when one would actually run.
/// The engine named is the one that transcribes: on-device-primary never
/// calls the cloud provider, so naming it would misstate where the words
/// come from. A fused smart provider cleans up itself, so no separate
/// cleanup model is advertised.
pub open spec fn provider_line_of(s: ProviderSummary) -> Seq<char> {
    let head = match s.local_mode {
        LocalMode::Primary => "on-device \u{b7} "@ + s.local_model@,
        LocalMode::Fallback => s.provider@ + " \u{b7} "@ + s.model@ + " \u{b7} on-device fallback"@,
        LocalMode::Off => s.provider@ + " \u{b7} "@ + s.model@,
    };
    if s.fused_smart && s.local_mode != LocalMode::Primary {
        head + " \u{b7} smart"@
    } else {
        match s.cleanup_model {
            Some(m) => head + " \u{b7} cleanup "@ + m@,
            None => head,
        }
    }
}

/// The footer's provider line.
pub fn provider_line(s: &ProviderSummary) -> (r: String)
    ensures
        r@ == provider_line_of(*s),
{
    let mut line = String::new();
    match s.local_mode {
        LocalMode::Primary => {
            push_str(&mut line, "on-device \u{b7} ");
            push_str(&mut line, s.local_model.as_str());
        },
        LocalMode::Fallback => {
            push_str(&mut line, s.provider.as_str());
            push_str(&mut line, " \u{b7} ");
            push_str(&mut line, s.model.as_str());
            push_str(&mut line, " \u{b7} on-device fallback");
        },
        LocalMode::Off => {
            push_str(&mut line, s.provider.as_str());
            push_str(&mut line, " \u{b7} ");
            push_str(&mut line, s.model.as_str());
        },
    }
    if s.fused_smart && s.local_mode != LocalMode::Primary {
        push_str(&mut line, " \u{b7} smart");
        return line;
    }
    if let Some(m) = &s.cleanup_model {
        push_str(&mut line, " \u{b7} cleanup ");
        push_str(&mut line, m.as_str());
    }
    line
}

} // verus!
