//! The spellbook editor in its plain-terms form: a list of corrected
//! spellings with add, inline edit, delete, and one-click undo of the last
//! add. Arriving from a History selection primes the add field with what
//! was heard, to be replaced by the correct spelling.

use vstd::prelude::*;
use crate::terms::{includes, views, TermEditor};
use crate::text::{push_str, trim, trim_str};

pub use crate::terms::{add_term, commit_edit, undo_add};

verus! {

/// Cross-frame state of the plain-terms spellbook editor.
pub struct SpellbookPage {
    editor: TermEditor,
    /// Persistence failure surfaced by the caller; sticky until it clears.
    notice: Option<String>,
    /// The transcript span the add field was primed from.
    primed_from: Option<String>,
    add_needs_focus: bool,
    /// Last term added this session, offered for one-click undo.
    last_added: Option<String>,
}

impl SpellbookPage {
    /// The add field and the row edit.
    pub closed spec fn editor_view(&self) -> TermEditor {
        self.editor
    }

    /// The persistence notice on show.
    pub closed spec fn notice_view(&self) -> Option<String> {
        self.notice
    }

    /// The History span the add field was primed from.
    pub closed spec fn primed_view(&self) -> Option<Seq<char>> {
        match self.primed_from {
            Some(h) => Some(h@),
            None => None,
        }
    }

    /// Whether the add field still has to take focus.
    pub closed spec fn add_focus_view(&self) -> bool {
        self.add_needs_focus
    }

    /// The last term added, while its undo is on offer.
    pub closed spec fn last_added_view(&self) -> Option<Seq<char>> {
        match self.last_added {
            Some(t) => Some(t@),
            None => None,
        }
    }

    /// An empty editor.
    pub fn new() -> (p: Self)
        ensures
            p.editor_view().add_view().len() == 0,
            p.editor_view().edit_view() is None,
            p.notice_view() is None,
            p.primed_view() is None,
            !p.add_focus_view(),
            p.last_added_view() is None,
    {
        SpellbookPage {
            editor: TermEditor::new(),
            notice: None,
            primed_from: None,
            add_needs_focus: false,
            last_added: None,
        }
    }

    /// Show (or clear) a persistence notice.
    pub fn set_notice(&mut self, notice: Option<String>)
        ensures
            final(self).notice_view() == notice,
            final(self).editor_view() == old(self).editor_view(),
            final(self).primed_view() == old(self).primed_view(),
            final(self).add_focus_view() == old(self).add_focus_view(),
            final(self).last_added_view() == old(self).last_added_view(),
    {
        self.notice = notice;
    }

    /// The persistence notice, if any.
    pub fn notice(&self) -> (n: Option<&String>)
        ensures
            match n {
                Some(s) => self.notice_view() == Some(*s),
                None => self.notice_view() is None,
            },
    {
        match &self.notice {
            Some(s) => Some(s),
            None => None,
        }
    }

    /// Arrive from a History selection: the heard span becomes the starting
    /// contents of the add field, focused, with any edit or undo dropped.
    pub fn prime_add(&mut self, heard: String)
        ensures
            final(self).editor_view().add_view() == heard@,
            final(self).editor_view().edit_view() is None,
            final(self).primed_view() == Some(heard@),
            final(self).add_focus_view(),
            final(self).last_added_view() is None,
            final(self).notice_view() == old(self).notice_view(),
    {
        let mut text = String::new();
        push_str(&mut text, heard.as_str());
        self.editor.set_add(text);
        self.editor.cancel_edit();
        self.primed_from = Some(heard);
        self.add_needs_focus = true;
        self.last_added = None;
    }

    /// Whether the add field should take focus (and select its prefill)
    /// now; asks only once.
    pub fn take_add_focus(&mut self) -> (f: bool)
        ensures
            f == old(self).add_focus_view(),
            !final(self).add_focus_view(),
            final(self).editor_view() == old(self).editor_view(),
            final(self).primed_view() == old(self).primed_view(),
            final(self).last_added_view() == old(self).last_added_view(),
            final(self).notice_view() == old(self).notice_view(),
    {
        let f = self.add_needs_focus;
        self.add_needs_focus = false;
        f
    }

    /// "Hark heard “…”. Type the correct spelling and add it." while the
    /// add field holds a History span.
    pub fn heard_line(&self) -> (s: Option<String>)
        ensures
            match self.primed_view() {
                Some(h) => s matches Some(t) && t@ == "Hark heard \u{201c}"@ + h
                    + "\u{201d}. Type the correct spelling and add it."@,
                None => s is None,
            },
    {
        match &self.primed_from {
            Some(h) => {
                let mut t = String::new();
                push_str(&mut t, "Hark heard \u{201c}");
                push_str(&mut t, h.as_str());
                push_str(&mut t, "\u{201d}. Type the correct spelling and add it.");
                Some(t)
            },
            None => None,
        }
    }

    /// "Added “…”" while the undo is on offer.
    pub fn undo_line(&self) -> (s: Option<String>)
        ensures
            match self.last_added_view() {
                Some(a) => s matches Some(t) && t@ == "Added \u{201c}"@ + a + "\u{201d}"@,
                None => s is None,
            },
    {
        match &self.last_added {
            Some(a) => {
                let mut t = String::new();
                push_str(&mut t, "Added \u{201c}");
                push_str(&mut t, a.as_str());
                push_str(&mut t, "\u{201d}");
                Some(t)
            },
            None => None,
        }
    }

    /// Add what the field holds. An add is offered for undo; the field and
    /// the History prefill clear either way.
    pub fn submit_add(&mut self, terms: &mut Vec<String>) -> (added: bool)
        ensures
            added == (trim(old(self).editor_view().add_view()).len() > 0 && !includes(
                views(old(terms)@),
                trim(old(self).editor_view().add_view()),
            )),
            added ==> views(final(terms)@) == views(old(terms)@).push(
                trim(old(self).editor_view().add_view()),
            ) && final(self).last_added_view() == Some(trim(old(self).editor_view().add_view())),
            !added ==> final(terms)@ == old(terms)@ && final(self).last_added_view()
                == old(self).last_added_view(),
            crate::terms::distinct(views(old(terms)@)) ==> crate::terms::distinct(views(final(terms)@)),
            final(self).editor_view().add_view().len() == 0,
            final(self).editor_view().edit_view() == old(self).editor_view().edit_view(),
            final(self).primed_view() is None,
            final(self).notice_view() == old(self).notice_view(),
            final(self).add_focus_view() == old(self).add_focus_view(),
    {
        let term = trim_str(self.editor.add_text());
        let added = self.editor.submit_add(terms);
        if added {
            self.last_added = Some(term);
        }
        self.primed_from = None;
        added
    }

    /// Undo the last add: remove that term if it is still listed (it may
    /// have been deleted by hand since). The offer goes either way.
    pub fn undo(&mut self, terms: &mut Vec<String>) -> (removed: bool)
        ensures
            match old(self).last_added_view() {
                Some(a) => {
                    &&& removed == includes(views(old(terms)@), a)
                    &&& !removed ==> final(terms)@ == old(terms)@
                    &&& removed ==> exists|i: int|
                        0 <= i < old(terms)@.len() && old(terms)@[i]@ == a && (forall|j: int|
                            0 <= j < i ==> old(terms)@[j]@ != a) && final(terms)@ == old(
                            terms,
                        )@.remove(i)
                },
                None => !removed && final(terms)@ == old(terms)@,
            },
            crate::terms::distinct(views(old(terms)@)) ==> crate::terms::distinct(views(final(terms)@)),
            final(self).last_added_view() is None,
            final(self).editor_view() == old(self).editor_view(),
            final(self).notice_view() == old(self).notice_view(),
            final(self).primed_view() == old(self).primed_view(),
            final(self).add_focus_view() == old(self).add_focus_view(),
    {
        let mut taken: Option<String> = None;
        std::mem::swap(&mut taken, &mut self.last_added);
        match taken {
            Some(a) => crate::terms::undo_add(terms, a.as_str()),
            None => false,
        }
    }

    /// The add field and the row edit, for reading.
    pub fn editor(&self) -> (e: &TermEditor)
        ensures
            *e == self.editor_view(),
    {
        &self.editor
    }

    /// The add field and the row edit, for the frame's changes.
    pub fn editor_mut(&mut self) -> (e: &mut TermEditor)
        ensures
            *e == old(self).editor_view(),
            final(self).editor_view() == *final(e),
            final(self).notice_view() == old(self).notice_view(),
            final(self).primed_view() == old(self).primed_view(),
            final(self).add_focus_view() == old(self).add_focus_view(),
            final(self).last_added_view() == old(self).last_added_view(),
    {
        &mut self.editor
    }
}

} // verus!
