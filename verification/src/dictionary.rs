//! The dictionary editor's state. Rendering is the UI's; what enters the
//! list, and how the add field and the row edit behave, are the term
//! editor's rules (`crate::terms`).

use vstd::prelude::*;
use crate::terms::TermEditor;

pub use crate::terms::{add_term, commit_edit};

verus! {

/// Cross-frame state of the dictionary editor.
pub struct DictionaryPage {
    editor: TermEditor,
    /// Persistence failure surfaced by the caller; sticky until it clears.
    notice: Option<String>,
}

impl DictionaryPage {
    /// The add field and the row edit.
    pub closed spec fn editor_view(&self) -> TermEditor {
        self.editor
    }

    /// The persistence notice on show.
    pub closed spec fn notice_view(&self) -> Option<String> {
        self.notice
    }

    /// An empty editor: no text, no edit in progress, no notice.
    pub fn new() -> (p: Self)
        ensures
            p.editor_view().add_view().len() == 0,
            p.editor_view().edit_view() is None,
            !p.editor_view().focus_view(),
            p.notice_view() is None,
    {
        DictionaryPage { editor: TermEditor::new(), notice: None }
    }

    /// Show (or clear) a persistence notice.
    pub fn set_notice(&mut self, notice: Option<String>)
        ensures
            final(self).notice_view() == notice,
            final(self).editor_view() == old(self).editor_view(),
    {
        self.notice = notice;
    }

    /// The persistence notice, if any.
    pub fn notice(&self) -> (n: Option<&String>)
        ensures
            match n {
                Some(s) => self.notice_view() == Some(*s),
                None => self.notice_view() is None,
            },
    {
        match &self.notice {
            Some(s) => Some(s),
            None => None,
        }
    }

    /// The add field and the row edit, for reading.
    pub fn editor(&self) -> (e: &TermEditor)
        ensures
            *e == self.editor_view(),
    {
        &self.editor
    }

    /// The add field and the row edit, for the frame's changes.
    pub fn editor_mut(&mut self) -> (e: &mut TermEditor)
        ensures
            *e == old(self).editor_view(),
            final(self).editor_view() == *final(e),
            final(self).notice_view() == old(self).notice_view(),
    {
        &mut self.editor
    }
}

} // verus!
