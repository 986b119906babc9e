//! Page routing labels and the destructive-confirmation state.

use vstd::prelude::*;

verus! {

/// The app's pages.
#[derive(Clone, Copy, PartialEq, Eq, Debug, Structural)]
pub enum Page {
    History,
    Spellbook,
    Invocations,
    Stats,
    Settings,
}

/// Each page's navigation label.
pub open spec fn page_label(p: Page) -> &'static str {
    match p {
        Page::History => "History",
        Page::Spellbook => "Spellbook",
        Page::Invocations => "Invocations",
        Page::Stats => "Stats",
        Page::Settings => "Settings",
    }
}

/// Each page's one-line description.
pub open spec fn page_description(p: Page) -> &'static str {
    match p {
        Page::History => "Your words, ready when you need them. History stays on this device.",
        Page::Spellbook => "A little context. A lot more accuracy.",
        Page::Invocations => "Say a phrase. Type exactly what you wrote.",
        Page::Stats => "A little less typing. A little more time.",
        Page::Settings => "Set it up once. Stay in your flow.",
    }
}

impl Page {
    /// The navigation label.
    pub fn label(self) -> (l: &'static str)
        ensures
            l == page_label(self),
    {
        match self {
            Page::History => "History",
            Page::Spellbook => "Spellbook",
            Page::Invocations => "Invocations",
            Page::Stats => "Stats",
            Page::Settings => "Settings",
        }
    }

    /// The one-line description under the page title.
    pub fn description(self) -> (d: &'static str)
        ensures
            d == page_description(self),
    {
        match self {
            Page::History => "Your words, ready when you need them. History stays on this device.",
            Page::Spellbook => "A little context. A lot more accuracy.",
            Page::Invocations => "Say a phrase. Type exactly what you wrote.",
            Page::Stats => "A little less typing. A little more time.",
            Page::Settings => "Set it up once. Stay in your flow.",
        }
    }
}

/// A pending destructive confirmation. Callers hold at most one and render
/// it every frame until it resolves.
pub struct Confirm {
    pub title: String,
    pub body: String,
    /// The destructive verb ("Remove key", "Delete 214 entries").
    pub action: String,
    /// Focus lands on Cancel the first frame (the safe default under Enter).
    pub focus_cancel: bool,
}

impl Confirm {
    /// A confirmation with focus on Cancel.
    pub fn new(title: String, body: String, action: String) -> (c: Self)
        ensures
            c.title == title,
            c.body == body,
            c.action == action,
            c.focus_cancel,
    {
        Confirm { title, body, action, focus_cancel: true }
    }
}

/// How a status line reads at a glance. An icon and the words carry it
/// too: colour never conveys a state alone.
#[derive(Debug, Clone, Copy, PartialEq, Eq, Structural)]
pub enum Tone {
    Success,
    Warning,
    Danger,
    /// Something worth acting on.
    Accent,
    /// Work in progress (a spinner).
    Busy,
}

} // verus!
