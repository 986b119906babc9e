//! Main-window preferences and the shared explicit-exit path: what to ask
//! the window system for, decided from the preferences and the app's state.

use vstd::prelude::*;

verus! {

/// The main window's stacking level.
#[derive(Clone, Copy, PartialEq, Eq, Debug, Structural)]
pub enum WindowLevel {
    Normal,
    AlwaysOnTop,
}

/// Whether a close request is turned into a hide-to-tray.
pub open spec fn hides(quitting: bool, close_requested: bool, exit_on_close: bool, has_tray: bool) -> bool {
    close_requested && !quitting && !exit_on_close && has_tray
}

/// Cross-frame window behaviour.
pub struct Behavior {
    quitting: bool,
    applied_always_on_top: Option<bool>,
}

impl Behavior {
    /// Whether an explicit quit is under way.
    pub closed spec fn quitting(&self) -> bool {
        self.quitting
    }

    /// The always-on-top preference last applied, if any.
    pub closed spec fn applied(&self) -> Option<bool> {
        self.applied_always_on_top
    }

    /// Nothing applied yet, no quit under way.
    pub fn new() -> (b: Self)
        ensures
            !b.quitting(),
            b.applied() is None,
    {
        Behavior { quitting: false, applied_always_on_top: None }
    }

    /// The window level to send for the always-on-top preference, or `None`
    /// when it is already applied. Applies on the first frame and whenever
    /// the preference changes, without a restart.
    pub fn apply(&mut self, always_on_top: bool) -> (level: Option<WindowLevel>)
        ensures
            final(self).applied() == Some(always_on_top),
            final(self).quitting() == old(self).quitting(),
            level == (if old(self).applied() == Some(always_on_top) {
                None
            } else if always_on_top {
                Some(WindowLevel::AlwaysOnTop)
            } else {
                Some(WindowLevel::Normal)
            }),
    {
        if self.applied_always_on_top == Some(always_on_top) {
            return None;
        }
        self.applied_always_on_top = Some(always_on_top);
        if always_on_top {
            Some(WindowLevel::AlwaysOnTop)
        } else {
            Some(WindowLevel::Normal)
        }
    }

    /// Mark an explicit quit; the caller then closes the window.
    pub fn quit(&mut self)
        ensures
            final(self).quitting(),
            final(self).applied() == old(self).applied(),
    {
        self.quitting = true;
    }

    /// Whether a close request becomes a hide-to-tray: only when closing
    /// was requested, no explicit quit is under way, the preference keeps
    /// the app running, and there is a tray to come back from.
    pub fn handle_close(&self, close_requested: bool, exit_on_close: bool, has_tray: bool) -> (hide: bool)
        ensures
            hide == hides(self.quitting(), close_requested, exit_on_close, has_tray),
    {
        close_requested && !self.quitting && !exit_on_close && has_tray
    }
}

impl Default for Behavior {
    fn default() -> (b: Self)
        ensures
            !b.quitting(),
            b.applied() is None,
    {
        Behavior::new()
    }
}

/// Without a tray the window is never hidden on close (there would be no way
/// back to it), and once an explicit quit is under way no close request is
/// turned into a hide.
pub proof fn close_hides_only_to_a_tray(quitting: bool, close_requested: bool, exit_on_close: bool, has_tray: bool)
    ensures
        !has_tray ==> !hides(quitting, close_requested, exit_on_close, has_tray),
        quitting ==> !hides(quitting, close_requested, exit_on_close, has_tray),
{
}

} // verus!
