//! The on-device model download as the UI sees it. The transfer runs in
//! the glue and reports progress and its end here; what the UI shows, and
//! when a delete is allowed, are decided here.

use vstd::prelude::*;
use crate::footer::LocalMode;
use crate::pages::Tone;
use crate::text::{contains_str, has_infix, push_str};

verus! {

/// Where the download is in its lifecycle.
pub enum Phase {
    /// Nothing running; the model may or may not be on disk.
    Idle,
    Downloading { done_bytes: u64, total_bytes: u64 },
    /// Finished this session (or found already complete).
    Done,
    /// Cancelled by the user; partial files are kept for a resume.
    Cancelled,
    Failed(String),
}

/// What the transfer reports.
pub enum Msg {
    Progress(u64, u64),
    Finished(Result<(), String>),
}

/// The phase after a report. A failure that says it was cancelled is the
/// user's own doing, not an error to show in red.
pub open spec fn after(p: Phase, msg: Msg) -> Phase {
    match msg {
        Msg::Progress(done, total) => Phase::Downloading { done_bytes: done, total_bytes: total },
        Msg::Finished(Ok(())) => Phase::Done,
        Msg::Finished(Err(e)) => if has_infix(e@, "cancelled"@) {
            Phase::Cancelled
        } else {
            Phase::Failed(e)
        },
    }
}

/// The download's UI state.
pub struct ModelDownload {
    phase: Phase,
}

impl ModelDownload {
    /// The current phase.
    pub closed spec fn phase_view(&self) -> Phase {
        self.phase
    }

    /// Nothing running.
    pub fn new() -> (d: Self)
        ensures
            d.phase_view() is Idle,
    {
        ModelDownload { phase: Phase::Idle }
    }

    /// The current phase.
    pub fn phase(&self) -> (p: &Phase)
        ensures
            *p == self.phase_view(),
    {
        &self.phase
    }

    /// Whether a transfer is running.
    pub fn is_busy(&self) -> (b: bool)
        ensures
            b == (self.phase_view() is Downloading),
    {
        match self.phase {
            Phase::Downloading { .. } => true,
            _ => false,
        }
    }

    /// The download could not start (no network client).
    pub fn start_unstartable(&mut self, detail: &str)
        requires
            !(old(self).phase_view() is Downloading),
        ensures
            final(self).phase_view() matches Phase::Failed(m) && m@ == "cannot start the download: "@
                + detail@,
    {
        let mut m = String::new();
        push_str(&mut m, "cannot start the download: ");
        push_str(&mut m, detail);
        self.phase = Phase::Failed(m);
    }

    /// The download could not start for a reason that already reads well
    /// (no model directory).
    pub fn start_failed(&mut self, detail: String)
        requires
            !(old(self).phase_view() is Downloading),
        ensures
            final(self).phase_view() == Phase::Failed(detail),
    {
        self.phase = Phase::Failed(detail);
    }

    /// A transfer of `total_bytes` started from nothing.
    pub fn started(&mut self, total_bytes: u64)
        requires
            !(old(self).phase_view() is Downloading),
        ensures
            final(self).phase_view() == (Phase::Downloading { done_bytes: 0, total_bytes }),
    {
        self.phase = Phase::Downloading { done_bytes: 0, total_bytes };
    }

    /// Take one report; the answer says whether the transfer ended (the
    /// model's disk status is then worth reading again).
    pub fn receive(&mut self, msg: Msg) -> (finished: bool)
        ensures
            finished == (msg is Finished),
            final(self).phase_view() == after(old(self).phase_view(), msg),
    {
        match msg {
            Msg::Progress(done, total) => {
                self.phase = Phase::Downloading { done_bytes: done, total_bytes: total };
                false
            },
            Msg::Finished(Ok(())) => {
                self.phase = Phase::Done;
                true
            },
            Msg::Finished(Err(e)) => {
                if contains_str(e.as_str(), "cancelled") {
                    self.phase = Phase::Cancelled;
                } else {
                    self.phase = Phase::Failed(e);
                }
                true
            },
        }
    }

    /// Whether the model may be deleted now: never while a transfer could
    /// still be writing into its directory.
    pub fn check_delete(&self) -> (r: Result<(), String>)
        ensures
            match r {
                Ok(()) => !(self.phase_view() is Downloading),
                Err(m) => self.phase_view() is Downloading && m@
                    == "Cancel the download before deleting the model."@,
            },
    {
        if self.is_busy() {
            let mut m = String::new();
            push_str(&mut m, "Cancel the download before deleting the model.");
            Err(m)
        } else {
            Ok(())
        }
    }

    /// The model was deleted: back to idle.
    pub fn deleted(&mut self)
        requires
            !(old(self).phase_view() is Downloading),
        ensures
            final(self).phase_view() is Idle,
    {
        self.phase = Phase::Idle;
    }
}

/// What is on disk.
#[derive(Debug, Clone, Copy, PartialEq, Eq, Structural)]
pub enum ModelStatus {
    Ready,
    /// Some bytes so far; a download resumes from here.
    Partial { have_bytes: u64 },
    NotDownloaded,
}

/// The card's status line.
pub enum StateLine {
    /// A progress bar with "done of total" beneath it.
    Progress { done_bytes: u64, total_bytes: u64 },
    Note(Tone, String),
}

/// The card's status line: progress while downloading, otherwise what
/// happened or what is on disk. `have_text` is the size already on disk,
/// formatted for people.
pub fn state_line(phase: &Phase, status: ModelStatus, have_text: &str) -> (l: StateLine)
    ensures
        match *phase {
            Phase::Downloading { done_bytes, total_bytes } => l == (StateLine::Progress {
                done_bytes,
                total_bytes,
            }),
            Phase::Failed(m) => l matches StateLine::Note(t, s) && t == Tone::Danger && s@ == m@,
            Phase::Cancelled => l matches StateLine::Note(t, s) && t == Tone::Warning && s@
                == "Download cancelled. Starting again resumes where it stopped."@,
            _ => match status {
                ModelStatus::Ready => l matches StateLine::Note(t, s) && t == Tone::Success && s@
                    == "Downloaded and ready."@,
                ModelStatus::Partial { .. } => l matches StateLine::Note(t, s) && t == Tone::Warning
                    && s@ == "Partly downloaded ("@ + have_text@
                    + " so far). Download resumes from here."@,
                ModelStatus::NotDownloaded => l matches StateLine::Note(t, s) && t == Tone::Accent && s@
                    == "Not downloaded yet."@,
            },
        },
{
    let mut s = String::new();
    match phase {
        Phase::Downloading { done_bytes, total_bytes } => {
            StateLine::Progress { done_bytes: *done_bytes, total_bytes: *total_bytes }
        },
        Phase::Failed(m) => {
            push_str(&mut s, m.as_str());
            StateLine::Note(Tone::Danger, s)
        },
        Phase::Cancelled => {
            push_str(&mut s, "Download cancelled. Starting again resumes where it stopped.");
            StateLine::Note(Tone::Warning, s)
        },
        _ => match status {
            ModelStatus::Ready => {
                push_str(&mut s, "Downloaded and ready.");
                StateLine::Note(Tone::Success, s)
            },
            ModelStatus::Partial { .. } => {
                push_str(&mut s, "Partly downloaded (");
                push_str(&mut s, have_text);
                push_str(&mut s, " so far). Download resumes from here.");
                StateLine::Note(Tone::Warning, s)
            },
            ModelStatus::NotDownloaded => {
                push_str(&mut s, "Not downloaded yet.");
                StateLine::Note(Tone::Accent, s)
            },
        },
    }
}

/// The start button's label for what is on disk.
pub fn download_label(status: ModelStatus) -> (l: &'static str)
    ensures
        l@ == (match status {
            ModelStatus::Ready => "Re-download"@,
            ModelStatus::Partial { .. } => "Resume download"@,
            ModelStatus::NotDownloaded => "Download"@,
        }),
{
    match status {
        ModelStatus::Ready => "Re-download",
        ModelStatus::Partial { .. } => "Resume download",
        ModelStatus::NotDownloaded => "Download",
    }
}

/// Whether Delete is offered: when idle and something is on disk.
pub fn offers_delete(busy: bool, status: ModelStatus) -> (b: bool)
    ensures
        b == (!busy && status != ModelStatus::NotDownloaded),
{
    !busy && status != ModelStatus::NotDownloaded
}

/// The one combination that silently does nothing useful: on-device as
/// the primary engine with the weights not all there.
pub fn primary_needs_model(mode: LocalMode, status: ModelStatus) -> (b: bool)
    ensures
        b == (mode == LocalMode::Primary && status != ModelStatus::Ready),
{
    mode == LocalMode::Primary && status != ModelStatus::Ready
}

} // verus!
