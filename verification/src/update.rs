//! The in-app update lifecycle. One instance drives both the startup
//! banner and the Settings section, so the two always agree on where an
//! update stands. Checks, downloads and the relaunch run in the glue, which
//! reports each outcome here; every transition is decided here.
//!
//! `R` describes a release; `P` is where a verified download was staged.

use vstd::prelude::*;
use crate::pages::Tone;
use crate::text::push_str;

verus! {

/// Where the update is in its lifecycle.
pub enum Phase<R, P> {
    /// Nothing attempted yet this session.
    Idle,
    /// A check is in flight.
    Checking,
    /// Checked, and the running build is current.
    UpToDate,
    /// A newer release exists.
    Available(R),
    /// Downloading and verifying the newer release.
    Installing(R),
    /// Verified and staged; a restart finishes the update.
    Ready { release: R, staged: P },
    /// The last check or install failed; the message is user-facing.
    Failed(String),
}

/// What a background job reports.
pub enum Msg<R, P> {
    /// The check finished: a newer release, none, or why it failed.
    Checked(Result<Option<R>, String>),
    /// The download and verification finished: where it was staged, or why
    /// it failed.
    Installed(Result<P, String>),
}

/// Whether a phase has background work running.
pub open spec fn busy_in<R, P>(p: Phase<R, P>) -> bool {
    p is Checking || p is Installing
}

/// The release a phase carries, if any.
pub open spec fn release_in<R, P>(p: Phase<R, P>) -> Option<R> {
    match p {
        Phase::Available(r) => Some(r),
        Phase::Installing(r) => Some(r),
        Phase::Ready { release, .. } => Some(release),
        _ => None,
    }
}

/// The phase after a job's report. A fresh report of a newer release also
/// brings a dismissed banner back (that is `receive`'s other effect).
pub open spec fn after<R, P>(p: Phase<R, P>, msg: Msg<R, P>) -> Phase<R, P> {
    match msg {
        Msg::Checked(Ok(Some(r))) => Phase::Available(r),
        Msg::Checked(Ok(None)) => Phase::UpToDate,
        Msg::Checked(Err(e)) => Phase::Failed(e),
        Msg::Installed(Ok(staged)) => match p {
            Phase::Installing(r) => Phase::Ready { release: r, staged },
            _ => p,
        },
        Msg::Installed(Err(e)) => Phase::Failed(e),
    }
}

/// The user-facing message for a failure `prefix: detail`.
pub open spec fn failed_with<R, P>(p: Phase<R, P>, text: Seq<char>) -> bool {
    p matches Phase::Failed(m) && m@ == text
}

/// Failures are always shown: whatever the phase before, a failed check
/// or a failed download and verification leaves the updater failed with
/// exactly the reported message. A staged download completes only an
/// install that is in progress, keeping its release; in any other phase it
/// changes nothing. A check's answer replaces whatever came before.
pub proof fn reports_settle_the_phase<R, P>(p: Phase<R, P>, e: String, staged: P, r: R)
    ensures
        after(p, Msg::<R, P>::Installed(Err(e))) == Phase::<R, P>::Failed(e),
        after(p, Msg::<R, P>::Checked(Err(e))) == Phase::<R, P>::Failed(e),
        p matches Phase::Installing(x) ==> after(p, Msg::<R, P>::Installed(Ok(staged)))
            == (Phase::<R, P>::Ready { release: x, staged }),
        !(p is Installing) ==> after(p, Msg::<R, P>::Installed(Ok(staged))) == p,
        after(p, Msg::<R, P>::Checked(Ok(Some(r)))) == Phase::<R, P>::Available(r),
        after(p, Msg::<R, P>::Checked(Ok(None))) == Phase::<R, P>::UpToDate,
{
}

/// The update state machine.
pub struct Updater<R, P> {
    phase: Phase<R, P>,
    banner_dismissed: bool,
}

impl<R, P> Updater<R, P> {
    /// The current phase.
    pub closed spec fn phase_view(&self) -> Phase<R, P> {
        self.phase
    }

    /// Whether the user dismissed the banner.
    pub closed spec fn dismissed(&self) -> bool {
        self.banner_dismissed
    }

    /// Nothing attempted yet.
    pub fn new() -> (u: Self)
        ensures
            u.phase_view() is Idle,
            !u.dismissed(),
    {
        Updater { phase: Phase::Idle, banner_dismissed: false }
    }

    /// The current phase.
    pub fn phase(&self) -> (p: &Phase<R, P>)
        ensures
            *p == self.phase_view(),
    {
        &self.phase
    }

    /// The release under consideration, if any stage carries one.
    pub fn release(&self) -> (r: Option<&R>)
        ensures
            match r {
                Some(x) => release_in(self.phase_view()) == Some(*x),
                None => release_in(self.phase_view()) is None,
            },
    {
        match &self.phase {
            Phase::Available(r) => Some(r),
            Phase::Installing(r) => Some(r),
            Phase::Ready { release, .. } => Some(release),
            _ => None,
        }
    }

    /// The staged download, once verified.
    pub fn staged(&self) -> (s: Option<&P>)
        ensures
            match s {
                Some(x) => self.phase_view() matches Phase::Ready { staged, .. } && staged == *x,
                None => !(self.phase_view() is Ready),
            },
    {
        match &self.phase {
            Phase::Ready { staged, .. } => Some(staged),
            _ => None,
        }
    }

    /// Whether a check or an install is running (spinners on, buttons
    /// off).
    pub fn is_busy(&self) -> (b: bool)
        ensures
            b == busy_in(self.phase_view()),
    {
        match self.phase {
            Phase::Checking | Phase::Installing(_) => true,
            _ => false,
        }
    }

    /// The banner shows while an update is pending and the user has not
    /// dismissed it; the other phases belong to the Settings section.
    pub fn banner_visible(&self) -> (b: bool)
        ensures
            b == (!self.dismissed() && (self.phase_view() is Available || self.phase_view() is Installing
                || self.phase_view() is Ready)),
    {
        !self.banner_dismissed && match self.phase {
            Phase::Available(_) | Phase::Installing(_) | Phase::Ready { .. } => true,
            _ => false,
        }
    }

    /// Hide the banner; the Settings section still shows the same state.
    pub fn dismiss_banner(&mut self)
        ensures
            final(self).dismissed(),
            final(self).phase_view() == old(self).phase_view(),
    {
        self.banner_dismissed = true;
    }

    /// A check could not start (no network client).
    pub fn check_unstartable(&mut self, detail: &str)
        requires
            !busy_in(old(self).phase_view()),
        ensures
            failed_with(final(self).phase_view(), "cannot start update check: "@ + detail@),
            final(self).dismissed() == old(self).dismissed(),
    {
        let mut m = String::new();
        push_str(&mut m, "cannot start update check: ");
        push_str(&mut m, detail);
        self.phase = Phase::Failed(m);
    }

    /// A check is now running.
    pub fn check_started(&mut self)
        requires
            !busy_in(old(self).phase_view()),
        ensures
            final(self).phase_view() is Checking,
            final(self).dismissed() == old(self).dismissed(),
    {
        self.phase = Phase::Checking;
    }

    /// An install could not start (no network client).
    pub fn install_unstartable(&mut self, detail: &str)
        requires
            !busy_in(old(self).phase_view()),
        ensures
            failed_with(final(self).phase_view(), "cannot start download: "@ + detail@),
            final(self).dismissed() == old(self).dismissed(),
    {
        let mut m = String::new();
        push_str(&mut m, "cannot start download: ");
        push_str(&mut m, detail);
        self.phase = Phase::Failed(m);
    }

    /// Downloading and verifying `release` is now running.
    pub fn install_started(&mut self, release: R)
        requires
            !busy_in(old(self).phase_view()),
        ensures
            final(self).phase_view() == Phase::<R, P>::Installing(release),
            final(self).dismissed() == old(self).dismissed(),
    {
        self.phase = Phase::Installing(release);
    }

    /// Swapping in the staged build failed.
    pub fn apply_failed(&mut self, detail: &str)
        ensures
            failed_with(final(self).phase_view(), "could not apply the update: "@ + detail@),
            final(self).dismissed() == old(self).dismissed(),
    {
        let mut m = String::new();
        push_str(&mut m, "could not apply the update: ");
        push_str(&mut m, detail);
        self.phase = Phase::Failed(m);
    }

    /// The build was swapped in but the relaunch failed: the next manual
    /// launch runs the new version, and the message says so.
    pub fn relaunch_failed(&mut self, detail: &str)
        ensures
            failed_with(
                final(self).phase_view(),
                "update installed, but relaunch failed ("@ + detail@ + "). Reopen Hark to finish."@,
            ),
            final(self).dismissed() == old(self).dismissed(),
    {
        let mut m = String::new();
        push_str(&mut m, "update installed, but relaunch failed (");
        push_str(&mut m, detail);
        push_str(&mut m, "). Reopen Hark to finish.");
        self.phase = Phase::Failed(m);
    }

    /// Take a background job's report. A staged download only completes an
    /// install that is still in progress; otherwise the phase stays.
    pub fn receive(&mut self, msg: Msg<R, P>)
        ensures
            final(self).phase_view() == after(old(self).phase_view(), msg),
            msg matches Msg::Installed(Err(e)) ==> final(self).phase_view() == Phase::<R, P>::Failed(e),
            msg matches Msg::Checked(Err(e)) ==> final(self).phase_view() == Phase::<R, P>::Failed(e),
            (msg matches Msg::Installed(Ok(_))) ==> (old(self).phase_view() is Installing
                ==> final(self).phase_view() is Ready),
            (msg matches Msg::Installed(Ok(_))) ==> (!(old(self).phase_view() is Installing)
                ==> final(self).phase_view() == old(self).phase_view()),
            final(self).dismissed() == (if msg matches Msg::Checked(Ok(Some(_))) {
                false
            } else {
                old(self).dismissed()
            }),
    {
        match msg {
            Msg::Checked(Ok(Some(release))) => {
                self.banner_dismissed = false;
                self.phase = Phase::Available(release);
            },
            Msg::Checked(Ok(None)) => {
                self.phase = Phase::UpToDate;
            },
            Msg::Checked(Err(e)) => {
                self.phase = Phase::Failed(e);
            },
            Msg::Installed(Ok(staged)) => {
                let mut current = Phase::Idle;
                std::mem::swap(&mut current, &mut self.phase);
                match current {
                    Phase::Installing(release) => {
                        self.phase = Phase::Ready { release, staged };
                    },
                    other => {
                        self.phase = other;
                    },
                }
            },
            Msg::Installed(Err(e)) => {
                self.phase = Phase::Failed(e);
            },
        }
    }
}

/// The primary action offered for the update, on the banner or in the
/// Settings section.
#[derive(Debug, Clone, Copy, PartialEq, Eq, Structural)]
pub enum UpdateAction {
    /// A download is running: nothing to press.
    Nothing,
    /// Staged and verified: restart into it.
    RestartNow,
    /// Install in place (a build for this platform exists).
    Install,
    /// Open the release page instead.
    ViewRelease,
}

impl<R, P> Updater<R, P> {
    /// The banner's message for the release's `version`.
    pub fn banner_message(&self, version: &str) -> (m: String)
        ensures
            m@ == (match self.phase_view() {
                Phase::Installing(_) => "Downloading Hark "@ + version@ + "\u{2026}"@,
                Phase::Ready { .. } => "Hark "@ + version@ + " is ready to install"@,
                _ => "Hark "@ + version@ + " is available."@,
            }),
    {
        let mut m = String::new();
        match &self.phase {
            Phase::Installing(_) => {
                push_str(&mut m, "Downloading Hark ");
                push_str(&mut m, version);
                push_str(&mut m, "\u{2026}");
            },
            Phase::Ready { .. } => {
                push_str(&mut m, "Hark ");
                push_str(&mut m, version);
                push_str(&mut m, " is ready to install");
            },
            _ => {
                push_str(&mut m, "Hark ");
                push_str(&mut m, version);
                push_str(&mut m, " is available.");
            },
        }
        m
    }

    /// The banner's primary action. `can_self_install` says whether this
    /// platform can install the pending release in place; without a pending
    /// release there is nothing to install or view.
    pub fn banner_action(&self, can_self_install: bool) -> (a: UpdateAction)
        ensures
            a == (match self.phase_view() {
                Phase::Installing(_) => UpdateAction::Nothing,
                Phase::Ready { .. } => UpdateAction::RestartNow,
                _ => if release_in(self.phase_view()) is None {
                    UpdateAction::Nothing
                } else if can_self_install {
                    UpdateAction::Install
                } else {
                    UpdateAction::ViewRelease
                },
            }),
    {
        match &self.phase {
            Phase::Installing(_) => UpdateAction::Nothing,
            Phase::Ready { .. } => UpdateAction::RestartNow,
            Phase::Available(_) => if can_self_install {
                UpdateAction::Install
            } else {
                UpdateAction::ViewRelease
            },
            _ => UpdateAction::Nothing,
        }
    }

    /// Whether the banner offers "Details" (a jump to the Updates section).
    pub fn banner_details(&self) -> (b: bool)
        ensures
            b == !(self.phase_view() is Installing || self.phase_view() is Ready),
    {
        match self.phase {
            Phase::Installing(_) | Phase::Ready { .. } => false,
            _ => true,
        }
    }
}

impl<R, P> Updater<R, P> {
    /// The Settings section's result line for the release's `version`:
    /// nothing while idle or checking (the button row says "Checking").
    pub fn settings_result(&self, version: &str) -> (r: Option<(Tone, String)>)
        ensures
            match self.phase_view() {
                Phase::Idle | Phase::Checking => r is None,
                Phase::UpToDate => r matches Some(p) && p.0 == Tone::Success && p.1@
                    == "You're on the latest version."@,
                Phase::Failed(m) => r matches Some(p) && p.0 == Tone::Danger && p.1@ == m@,
                Phase::Installing(_) => r matches Some(p) && p.0 == Tone::Busy && p.1@
                    == "Downloading and verifying Hark "@ + version@ + "\u{2026}"@,
                Phase::Available(_) => r matches Some(p) && p.0 == Tone::Accent && p.1@ == "Hark "@
                    + version@ + " is available."@,
                Phase::Ready { .. } => r matches Some(p) && p.0 == Tone::Success && p.1@ == "Hark "@
                    + version@ + " downloaded and verified."@,
            },
    {
        let mut t = String::new();
        match &self.phase {
            Phase::Idle | Phase::Checking => None,
            Phase::UpToDate => {
                push_str(&mut t, "You're on the latest version.");
                Some((Tone::Success, t))
            },
            Phase::Failed(m) => {
                push_str(&mut t, m.as_str());
                Some((Tone::Danger, t))
            },
            Phase::Installing(_) => {
                push_str(&mut t, "Downloading and verifying Hark ");
                push_str(&mut t, version);
                push_str(&mut t, "\u{2026}");
                Some((Tone::Busy, t))
            },
            Phase::Available(_) => {
                push_str(&mut t, "Hark ");
                push_str(&mut t, version);
                push_str(&mut t, " is available.");
                Some((Tone::Accent, t))
            },
            Phase::Ready { .. } => {
                push_str(&mut t, "Hark ");
                push_str(&mut t, version);
                push_str(&mut t, " downloaded and verified.");
                Some((Tone::Success, t))
            },
        }
    }

    /// The Settings section's action: install or view an available release,
    /// restart into a staged one.
    pub fn settings_action(&self, can_self_install: bool) -> (a: UpdateAction)
        ensures
            a == (match self.phase_view() {
                Phase::Available(_) => if can_self_install {
                    UpdateAction::Install
                } else {
                    UpdateAction::ViewRelease
                },
                Phase::Ready { .. } => UpdateAction::RestartNow,
                _ => UpdateAction::Nothing,
            }),
    {
        match &self.phase {
            Phase::Available(_) => if can_self_install {
                UpdateAction::Install
            } else {
                UpdateAction::ViewRelease
            },
            Phase::Ready { .. } => UpdateAction::RestartNow,
            _ => UpdateAction::Nothing,
        }
    }
}

/// "You're on Hark v0.9.1".
pub fn running_version_line(version: &str) -> (s: String)
    ensures
        s@ == "You're on Hark v"@ + version@,
{
    let mut s = String::new();
    push_str(&mut s, "You're on Hark v");
    push_str(&mut s, version);
    s
}

} // verus!
