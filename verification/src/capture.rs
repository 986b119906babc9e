//! "Record a shortcut" for the push-to-talk field: the cross-frame state
//! and its transitions. The key edges come from a keyboard hook the glue
//! owns (the live push-to-talk hook tapped in place, or one of its own when
//! the pipeline is stopped); it reports what happened here, and this module
//! decides what the section shows and whether recording has ended.

use vstd::prelude::*;
use crate::settings::HotkeyAction;
use crate::text::{decimal, push_decimal, push_str, same_chars};

verus! {

/// The push-to-talk section's cross-frame state.
pub struct HotkeyCapture {
    recording: bool,
    notice: Option<String>,
    typing: bool,
}

/// The labels of the held keys joined by " + ", in order.
pub open spec fn joined(labels: Seq<Seq<char>>) -> Seq<char>
    decreases labels.len(),
{
    if labels.len() == 0 {
        Seq::empty()
    } else if labels.len() == 1 {
        labels[0]
    } else {
        joined(labels.drop_last()) + " + "@ + labels.last()
    }
}

impl HotkeyCapture {
    /// Whether a recording is in progress.
    pub closed spec fn recording_view(&self) -> bool {
        self.recording
    }

    /// The notice shown until the next action.
    pub closed spec fn notice_view(&self) -> Option<Seq<char>> {
        match self.notice {
            Some(n) => Some(n@),
            None => None,
        }
    }

    /// Whether the user asked for the typed-chord field.
    pub closed spec fn typing_view(&self) -> bool {
        self.typing
    }

    /// Not recording, no notice, the typed field hidden.
    pub fn new() -> (c: Self)
        ensures
            !c.recording_view(),
            c.notice_view() is None,
            !c.typing_view(),
    {
        HotkeyCapture { recording: false, notice: None, typing: false }
    }

    /// Whether a recording is in progress.
    pub fn is_recording(&self) -> (b: bool)
        ensures
            b == self.recording_view(),
    {
        self.recording
    }

    /// The notice, if any.
    pub fn notice(&self) -> (n: Option<&str>)
        ensures
            match n {
                Some(s) => self.notice_view() == Some(s@),
                None => self.notice_view() is None,
            },
    {
        match &self.notice {
            Some(s) => Some(s.as_str()),
            None => None,
        }
    }

    /// Whether the typed-chord field shows: when asked for, and always where
    /// the platform cannot record, so a shortcut can always be set.
    pub fn typing(&self, capture_supported: bool) -> (b: bool)
        ensures
            b == (self.typing_view() || !capture_supported),
    {
        self.typing || !capture_supported
    }

    /// Show or hide the typed-chord field; the notice goes.
    pub fn toggle_typing(&mut self)
        ensures
            final(self).typing_view() == !old(self).typing_view(),
            final(self).notice_view() is None,
            final(self).recording_view() == old(self).recording_view(),
    {
        self.typing = !self.typing;
        self.notice = None;
    }

    /// Recording began (on the live hook, or on one of the section's own).
    pub fn began(&mut self)
        ensures
            final(self).recording_view(),
            final(self).notice_view() is None,
            final(self).typing_view() == old(self).typing_view(),
    {
        self.recording = true;
        self.notice = None;
    }

    /// No hook could be installed: say why, and offer the typed field.
    pub fn begin_failed(&mut self, detail: &str)
        ensures
            final(self).recording_view() == old(self).recording_view(),
            final(self).notice_view() == Some("Can't record a shortcut here: "@ + detail@),
            final(self).typing_view(),
    {
        let mut n = String::new();
        push_str(&mut n, "Can't record a shortcut here: ");
        push_str(&mut n, detail);
        self.notice = Some(n);
        self.typing = true;
    }

    /// Stop without setting a chord. Ends a recording; otherwise nothing.
    pub fn cancel(&mut self) -> (a: HotkeyAction)
        ensures
            a == (if old(self).recording_view() { HotkeyAction::Ended } else { HotkeyAction::NoChange }),
            !final(self).recording_view(),
            final(self).notice_view() == old(self).notice_view(),
            final(self).typing_view() == old(self).typing_view(),
    {
        if self.recording {
            self.recording = false;
            HotkeyAction::Ended
        } else {
            HotkeyAction::NoChange
        }
    }

    /// One poll of a recording: `chord` is the chord the user completed, if
    /// any; `alive` whether the hook still runs. A completed chord lands in
    /// `target` and ends the recording; a hook that died ends it too, with
    /// the reason on screen instead of a prompt that waits forever.
    pub fn poll_into(&mut self, target: &mut String, chord: Option<String>, alive: bool) -> (a: HotkeyAction)
        ensures
            !old(self).recording_view() ==> a == HotkeyAction::NoChange && *final(self) == *old(self)
                && final(target)@ == old(target)@,
            old(self).recording_view() ==> match chord {
                Some(c) => a == HotkeyAction::Ended && final(target)@ == c@ && !final(self).recording_view()
                    && final(self).notice_view() == old(self).notice_view() && final(self).typing_view()
                    == old(self).typing_view(),
                None => final(target)@ == old(target)@ && if alive {
                    a == HotkeyAction::NoChange && *final(self) == *old(self)
                } else {
                    &&& a == HotkeyAction::Ended
                    &&& !final(self).recording_view()
                    &&& final(self).notice_view() == Some(
                        "Recording stopped: Windows dropped Hark's keyboard hook."@,
                    )
                    &&& final(self).typing_view()
                },
            },
    {
        if !self.recording {
            return HotkeyAction::NoChange;
        }
        match chord {
            Some(c) => {
                *target = c;
                self.recording = false;
                HotkeyAction::Ended
            },
            None => {
                if alive {
                    return HotkeyAction::NoChange;
                }
                let mut n = String::new();
                push_str(&mut n, "Recording stopped: Windows dropped Hark's keyboard hook.");
                self.notice = Some(n);
                self.typing = true;
                self.recording = false;
                HotkeyAction::Ended
            },
        }
    }
}

/// The live "Left Ctrl + Left Win" of the keys held so far; empty when
/// nothing is held.
pub fn held_display(labels: &Vec<String>) -> (r: String)
    ensures
        r@ == joined(labels@.map_values(|l: String| l@)),
{
    let ghost views = labels@.map_values(|l: String| l@);
    let mut out = String::new();
    let mut i: usize = 0;
    while i < labels.len()
        invariant
            i <= labels@.len(),
            views == labels@.map_values(|l: String| l@),
            out@ == joined(views.subrange(0, i as int)),
        decreases labels@.len() - i,
    {
        if i > 0 {
            push_str(&mut out, " + ");
        }
        push_str(&mut out, labels[i].as_str());
        proof {
            let next = views.subrange(0, i + 1);
            assert(next.drop_last() =~= views.subrange(0, i as int));
            assert(next.last() == labels@[i as int]@);
            if i == 0 {
                assert(next.len() == 1);
                assert(out@ =~= next[0]);
            }
        }
        i = i + 1;
    }
    proof {
        assert(views.subrange(0, labels@.len() as int) =~= views);
    }
    out
}

/// The button beside the shortcut: "Record" under the typed field,
/// "Change" beside the recorded chord.
pub fn record_button_label(typing: bool) -> (s: &'static str)
    ensures
        s@ == (if typing { "Record"@ } else { "Change"@ }),
{
    if typing {
        "Record"
    } else {
        "Change"
    }
}

/// The link that switches between recording and typing the chord.
pub fn mode_link(typing: bool) -> (s: &'static str)
    ensures
        s@ == (if typing { "Record it instead"@ } else { "Type it instead"@ }),
{
    if typing {
        "Record it instead"
    } else {
        "Type it instead"
    }
}

/// "Reset" is offered only when the chord differs from the shipped one.
pub fn offers_reset(current: &str, default: &str) -> (b: bool)
    ensures
        b == (current@ != default@),
{
    !same_chars(current, default)
}

/// The line under a chord that parses: a lone modifier (`lone`, by its
/// label) fires in every app on every press, which is worth a warning;
/// anything else gets the how-to.
pub fn chord_hint(lone: Option<&str>) -> (r: (bool, String))
    ensures
        match lone {
            Some(k) => r.0 && r.1@ == k@
                + " on its own starts a dictation every time you press it, in every app. Add another key unless you really mean that."@,
            None => !r.0 && r.1@ == "Hold these keys together to dictate; release to inject."@,
        },
{
    let mut t = String::new();
    match lone {
        Some(k) => {
            push_str(&mut t, k);
            push_str(
                &mut t,
                " on its own starts a dictation every time you press it, in every app. Add another key unless you really mean that.",
            );
            (true, t)
        },
        None => {
            push_str(&mut t, "Hold these keys together to dictate; release to inject.");
            (false, t)
        },
    }
}

/// While recording with nothing held, how many key events the hook has
/// reported: zero means it is not being called at all, which is the one
/// fact that tells a dead hook from a lost chord.
pub fn edges_line(nothing_held: bool, seen: u64) -> (r: Option<String>)
    ensures
        match r {
            Some(t) => nothing_held && seen > 0 && t@ == decimal(seen as nat) + " key events seen"@,
            None => !(nothing_held && seen > 0),
        },
{
    if nothing_held && seen > 0 {
        let mut t = String::new();
        push_decimal(&mut t, seen);
        push_str(&mut t, " key events seen");
        Some(t)
    } else {
        None
    }
}

} // verus!
