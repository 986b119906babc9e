//! The spellbook editor with aliases: a pinned add row (with an optional
//! misheard spelling), inline term edit, per-entry alias lists, per-row
//! delete, and one-click undo of the last add. Rendering is the UI's; the
//! entry edits are `crate::spellbook`'s, and their bookkeeping is here.

use vstd::prelude::*;
use crate::spellbook::{
    add_alias, add_entry, add_entry_of, commit_edit, entries_view, has_term, is_common_word,
    remove_alias, term_index, undo_add, SpellbookEntry,
};
use crate::text::{push_decimal, decimal, push_str, trim, trim_str};

verus! {

/// Cross-frame state of the spellbook editor.
pub struct SpellbookPage {
    add: String,
    /// Misheard spelling stored alongside the term being added.
    add_alias: String,
    add_advanced: bool,
    /// In-progress term edit: (index, buffer). At most one at a time.
    edit: Option<(usize, String)>,
    edit_needs_focus: bool,
    /// Entry whose aliases are open for editing.
    expanded: Option<usize>,
    new_alias: String,
    /// Persistence failure surfaced by the caller; sticky until it clears.
    notice: Option<String>,
    /// The transcript span the add row was primed from.
    primed_from: Option<String>,
    add_needs_focus: bool,
    /// Last term added this session, offered for one-click undo.
    last_added: Option<String>,
}

/// The label of an entry's alias link: its count, or "Advanced" when the
/// entry has none yet.
pub open spec fn alias_label_of(count: nat) -> Seq<char> {
    if count == 0 {
        "Advanced"@
    } else if count == 1 {
        "1 alias"@
    } else {
        decimal(count) + " aliases"@
    }
}

/// The label of an entry's alias link.
pub fn alias_label(count: usize) -> (s: String)
    ensures
        s@ == alias_label_of(count as nat),
{
    let mut s = String::new();
    if count == 0 {
        push_str(&mut s, "Advanced");
    } else if count == 1 {
        push_str(&mut s, "1 alias");
    } else {
        push_decimal(&mut s, count as u64);
        push_str(&mut s, " aliases");
    }
    s
}

/// The warning shown under an alias made of everyday words: it would fire
/// on ordinary speech. It informs; it never blocks.
pub fn alias_warning(alias: &str) -> (w: Option<&'static str>)
    ensures
        match w {
            Some(t) => crate::spellbook::common_alias(alias@) && t@
                == "That is an everyday word, so this would fire whenever you say it. Use a longer phrase if you can."@,
            None => !crate::spellbook::common_alias(alias@),
        },
{
    if is_common_word(alias) {
        Some(
            "That is an everyday word, so this would fire whenever you say it. Use a longer phrase if you can.",
        )
    } else {
        None
    }
}

impl SpellbookPage {
    pub closed spec fn add_view(&self) -> Seq<char> {
        self.add@
    }

    pub closed spec fn add_alias_view(&self) -> Seq<char> {
        self.add_alias@
    }

    pub closed spec fn advanced_view(&self) -> bool {
        self.add_advanced
    }

    pub closed spec fn edit_view(&self) -> Option<(usize, Seq<char>)> {
        match self.edit {
            Some((i, b)) => Some((i, b@)),
            None => None,
        }
    }

    pub closed spec fn edit_focus_view(&self) -> bool {
        self.edit_needs_focus
    }

    pub closed spec fn expanded_view(&self) -> Option<usize> {
        self.expanded
    }

    pub closed spec fn new_alias_view(&self) -> Seq<char> {
        self.new_alias@
    }

    pub closed spec fn notice_view(&self) -> Option<Seq<char>> {
        match self.notice {
            Some(n) => Some(n@),
            None => None,
        }
    }

    pub closed spec fn primed_view(&self) -> Option<Seq<char>> {
        match self.primed_from {
            Some(h) => Some(h@),
            None => None,
        }
    }

    pub closed spec fn add_focus_view(&self) -> bool {
        self.add_needs_focus
    }

    pub closed spec fn last_added_view(&self) -> Option<Seq<char>> {
        match self.last_added {
            Some(t) => Some(t@),
            None => None,
        }
    }

    /// An empty editor.
    pub fn new() -> (p: Self)
        ensures
            p.add_view().len() == 0,
            p.add_alias_view().len() == 0,
            !p.advanced_view(),
            p.edit_view() is None,
            !p.edit_focus_view(),
            p.expanded_view() is None,
            p.new_alias_view().len() == 0,
            p.notice_view() is None,
            p.primed_view() is None,
            !p.add_focus_view(),
            p.last_added_view() is None,
    {
        SpellbookPage {
            add: String::new(),
            add_alias: String::new(),
            add_advanced: false,
            edit: None,
            edit_needs_focus: false,
            expanded: None,
            new_alias: String::new(),
            notice: None,
            primed_from: None,
            add_needs_focus: false,
            last_added: None,
        }
    }

    /// Show (or clear) a persistence notice.
    pub fn set_notice(&mut self, notice: Option<String>)
        ensures
            final(self).notice_view() == (match notice {
                Some(n) => Some(n@),
                None => None,
            }),
            final(self).add_view() == old(self).add_view(),
            final(self).edit_view() == old(self).edit_view(),
            final(self).last_added_view() == old(self).last_added_view(),
            final(self).add_alias_view() == old(self).add_alias_view(),
            final(self).advanced_view() == old(self).advanced_view(),
            final(self).edit_focus_view() == old(self).edit_focus_view(),
            final(self).expanded_view() == old(self).expanded_view(),
            final(self).new_alias_view() == old(self).new_alias_view(),
            final(self).primed_view() == old(self).primed_view(),
            final(self).add_focus_view() == old(self).add_focus_view(),
    {
        self.notice = notice;
    }

    /// The persistence notice, if any.
    pub fn notice(&self) -> (n: Option<&str>)
        ensures
            match n {
                Some(s) => self.notice_view() == Some(s@),
                None => self.notice_view() is None,
            },
    {
        match &self.notice {
            Some(s) => Some(s.as_str()),
            None => None,
        }
    }

    /// Arrive from a History selection: the misheard span becomes the
    /// alias, and the term field waits, focused, for the correct spelling.
    pub fn prime_add(&mut self, heard: String)
        ensures
            final(self).add_view().len() == 0,
            final(self).add_alias_view() == heard@,
            final(self).advanced_view(),
            final(self).primed_view() == Some(heard@),
            final(self).add_focus_view(),
            final(self).last_added_view() is None,
            final(self).edit_view() is None,
            final(self).notice_view() == old(self).notice_view(),
            final(self).expanded_view() == old(self).expanded_view(),
            final(self).new_alias_view() == old(self).new_alias_view(),
            final(self).edit_focus_view() == old(self).edit_focus_view(),
    {
        self.add = String::new();
        let mut alias = String::new();
        push_str(&mut alias, heard.as_str());
        self.add_alias = alias;
        self.add_advanced = true;
        self.primed_from = Some(heard);
        self.add_needs_focus = true;
        self.last_added = None;
        self.edit = None;
    }

    /// "Hark heard “…”. …" while the add row holds a History span.
    pub fn heard_line(&self) -> (s: Option<String>)
        ensures
            match self.primed_view() {
                Some(h) => s matches Some(t) && t@ == "Hark heard \u{201c}"@ + h
                    + "\u{201d}. Type the correct spelling; the misheard version is kept below so it is corrected next time."@,
                None => s is None,
            },
    {
        match &self.primed_from {
            Some(h) => {
                let mut t = String::new();
                push_str(&mut t, "Hark heard \u{201c}");
                push_str(&mut t, h.as_str());
                push_str(
                    &mut t,
                    "\u{201d}. Type the correct spelling; the misheard version is kept below so it is corrected next time.",
                );
                Some(t)
            },
            None => None,
        }
    }

    /// Whether the term field should take focus now; asks only once.
    pub fn take_add_focus(&mut self) -> (f: bool)
        ensures
            f == old(self).add_focus_view(),
            !final(self).add_focus_view(),
            final(self).add_view() == old(self).add_view(),
            final(self).add_alias_view() == old(self).add_alias_view(),
            final(self).advanced_view() == old(self).advanced_view(),
            final(self).edit_view() == old(self).edit_view(),
            final(self).edit_focus_view() == old(self).edit_focus_view(),
            final(self).expanded_view() == old(self).expanded_view(),
            final(self).new_alias_view() == old(self).new_alias_view(),
            final(self).notice_view() == old(self).notice_view(),
            final(self).primed_view() == old(self).primed_view(),
            final(self).last_added_view() == old(self).last_added_view(),
    {
        let f = self.add_needs_focus;
        self.add_needs_focus = false;
        f
    }

    /// The user typed in the term field.
    pub fn set_add(&mut self, text: String)
        ensures
            final(self).add_view() == text@,
            final(self).add_alias_view() == old(self).add_alias_view(),
            final(self).advanced_view() == old(self).advanced_view(),
            final(self).primed_view() == old(self).primed_view(),
            final(self).last_added_view() == old(self).last_added_view(),
            final(self).edit_view() == old(self).edit_view(),
            final(self).edit_focus_view() == old(self).edit_focus_view(),
            final(self).expanded_view() == old(self).expanded_view(),
            final(self).new_alias_view() == old(self).new_alias_view(),
            final(self).notice_view() == old(self).notice_view(),
            final(self).add_focus_view() == old(self).add_focus_view(),
    {
        self.add = text;
    }

    /// The user typed in the misheard-spelling field.
    pub fn set_add_alias(&mut self, text: String)
        ensures
            final(self).add_alias_view() == text@,
            final(self).add_view() == old(self).add_view(),
            final(self).advanced_view() == old(self).advanced_view(),
            final(self).primed_view() == old(self).primed_view(),
            final(self).last_added_view() == old(self).last_added_view(),
            final(self).edit_view() == old(self).edit_view(),
            final(self).edit_focus_view() == old(self).edit_focus_view(),
            final(self).expanded_view() == old(self).expanded_view(),
            final(self).new_alias_view() == old(self).new_alias_view(),
            final(self).notice_view() == old(self).notice_view(),
            final(self).add_focus_view() == old(self).add_focus_view(),
    {
        self.add_alias = text;
    }

    /// The Advanced checkbox.
    pub fn set_advanced(&mut self, on: bool)
        ensures
            final(self).advanced_view() == on,
            final(self).add_view() == old(self).add_view(),
            final(self).add_alias_view() == old(self).add_alias_view(),
            final(self).edit_view() == old(self).edit_view(),
            final(self).edit_focus_view() == old(self).edit_focus_view(),
            final(self).expanded_view() == old(self).expanded_view(),
            final(self).new_alias_view() == old(self).new_alias_view(),
            final(self).notice_view() == old(self).notice_view(),
            final(self).primed_view() == old(self).primed_view(),
            final(self).add_focus_view() == old(self).add_focus_view(),
            final(self).last_added_view() == old(self).last_added_view(),
    {
        self.add_advanced = on;
    }

    /// Whether the Add button is enabled.
    pub fn can_add(&self) -> (b: bool)
        ensures
            b == (trim(self.add_view()).len() > 0),
    {
        let t = trim_str(self.add.as_str());
        !t.as_str().is_empty()
    }

    /// Add the term with its misheard spelling. An existing term gets the
    /// spelling merged in. A change is offered for undo; both fields and
    /// the History prefill clear either way.
    pub fn submit_add(&mut self, entries: &mut Vec<SpellbookEntry>) -> (changed: bool)
        ensures
            match add_entry_of(
                entries_view(old(entries)@),
                old(self).add_view(),
                old(self).add_alias_view(),
            ) {
                Some(v) => changed && entries_view(final(entries)@) == v && final(self).last_added_view()
                    == Some(trim(old(self).add_view())),
                None => !changed && final(entries)@ == old(entries)@ && final(self).last_added_view()
                    == old(self).last_added_view(),
            },
            final(self).add_view().len() == 0,
            final(self).add_alias_view().len() == 0,
            final(self).primed_view() is None,
            final(self).advanced_view() == old(self).advanced_view(),
            final(self).edit_view() == old(self).edit_view(),
            final(self).expanded_view() == old(self).expanded_view(),
            final(self).edit_focus_view() == old(self).edit_focus_view(),
            final(self).new_alias_view() == old(self).new_alias_view(),
            final(self).notice_view() == old(self).notice_view(),
            final(self).add_focus_view() == old(self).add_focus_view(),
    {
        let term = trim_str(self.add.as_str());
        let changed = add_entry(entries, self.add.as_str(), self.add_alias.as_str());
        if changed {
            self.last_added = Some(term);
        }
        self.add = String::new();
        self.add_alias = String::new();
        self.primed_from = None;
        changed
    }

    /// "Added “…”" while the undo is on offer.
    pub fn undo_line(&self) -> (s: Option<String>)
        ensures
            match self.last_added_view() {
                Some(a) => s matches Some(t) && t@ == "Added \u{201c}"@ + a + "\u{201d}"@,
                None => s is None,
            },
    {
        match &self.last_added {
            Some(a) => {
                let mut t = String::new();
                push_str(&mut t, "Added \u{201c}");
                push_str(&mut t, a.as_str());
                push_str(&mut t, "\u{201d}");
                Some(t)
            },
            None => None,
        }
    }

    /// Undo the last add: remove that entry if it is still there. The offer
    /// goes either way.
    pub fn undo(&mut self, entries: &mut Vec<SpellbookEntry>) -> (removed: bool)
        ensures
            match old(self).last_added_view() {
                Some(a) => match term_index(entries_view(old(entries)@), a) {
                    Some(i) => removed && final(entries)@ == old(entries)@.remove(i),
                    None => !removed && final(entries)@ == old(entries)@,
                },
                None => !removed && final(entries)@ == old(entries)@,
            },
            final(self).last_added_view() is None,
            final(self).add_view() == old(self).add_view(),
            final(self).edit_view() == old(self).edit_view(),
            final(self).add_alias_view() == old(self).add_alias_view(),
            final(self).advanced_view() == old(self).advanced_view(),
            final(self).edit_focus_view() == old(self).edit_focus_view(),
            final(self).expanded_view() == old(self).expanded_view(),
            final(self).new_alias_view() == old(self).new_alias_view(),
            final(self).notice_view() == old(self).notice_view(),
            final(self).primed_view() == old(self).primed_view(),
            final(self).add_focus_view() == old(self).add_focus_view(),
    {
        let mut taken: Option<String> = None;
        std::mem::swap(&mut taken, &mut self.last_added);
        match taken {
            Some(a) => undo_add(entries, a.as_str()),
            None => false,
        }
    }

    /// Start editing entry `index`'s term; the field takes focus once.
    pub fn start_edit(&mut self, entries: &Vec<SpellbookEntry>, index: usize)
        requires
            index < entries@.len(),
        ensures
            final(self).edit_view() == Some((index, entries@[index as int].term@)),
            final(self).edit_focus_view(),
            final(self).expanded_view() == old(self).expanded_view(),
            final(self).last_added_view() == old(self).last_added_view(),
            final(self).add_view() == old(self).add_view(),
            final(self).add_alias_view() == old(self).add_alias_view(),
            final(self).advanced_view() == old(self).advanced_view(),
            final(self).new_alias_view() == old(self).new_alias_view(),
            final(self).notice_view() == old(self).notice_view(),
            final(self).primed_view() == old(self).primed_view(),
            final(self).add_focus_view() == old(self).add_focus_view(),
    {
        let mut buffer = String::new();
        push_str(&mut buffer, entries[index].term.as_str());
        self.edit = Some((index, buffer));
        self.edit_needs_focus = true;
    }

    /// The user typed in the edit field.
    pub fn set_edit_buffer(&mut self, text: String)
        ensures
            final(self).edit_view() == (match old(self).edit_view() {
                Some((i, _)) => Some((i, text@)),
                None => None,
            }),
            final(self).edit_focus_view() == old(self).edit_focus_view(),
            final(self).add_view() == old(self).add_view(),
            final(self).add_alias_view() == old(self).add_alias_view(),
            final(self).advanced_view() == old(self).advanced_view(),
            final(self).expanded_view() == old(self).expanded_view(),
            final(self).new_alias_view() == old(self).new_alias_view(),
            final(self).notice_view() == old(self).notice_view(),
            final(self).primed_view() == old(self).primed_view(),
            final(self).add_focus_view() == old(self).add_focus_view(),
            final(self).last_added_view() == old(self).last_added_view(),
    {
        if let Some((i, _)) = &self.edit {
            let i = *i;
            self.edit = Some((i, text));
        }
    }

    /// Whether the edit field should take focus now; asks only once.
    pub fn take_edit_focus(&mut self) -> (f: bool)
        ensures
            f == old(self).edit_focus_view(),
            !final(self).edit_focus_view(),
            final(self).edit_view() == old(self).edit_view(),
            final(self).add_view() == old(self).add_view(),
            final(self).add_alias_view() == old(self).add_alias_view(),
            final(self).advanced_view() == old(self).advanced_view(),
            final(self).expanded_view() == old(self).expanded_view(),
            final(self).new_alias_view() == old(self).new_alias_view(),
            final(self).notice_view() == old(self).notice_view(),
            final(self).primed_view() == old(self).primed_view(),
            final(self).add_focus_view() == old(self).add_focus_view(),
            final(self).last_added_view() == old(self).last_added_view(),
    {
        let f = self.edit_needs_focus;
        self.edit_needs_focus = false;
        f
    }

    /// Esc: drop the edit, keep the entry as it was.
    pub fn cancel_edit(&mut self)
        ensures
            final(self).edit_view() is None,
            final(self).expanded_view() == old(self).expanded_view(),
            final(self).add_view() == old(self).add_view(),
            final(self).add_alias_view() == old(self).add_alias_view(),
            final(self).advanced_view() == old(self).advanced_view(),
            final(self).edit_focus_view() == old(self).edit_focus_view(),
            final(self).new_alias_view() == old(self).new_alias_view(),
            final(self).notice_view() == old(self).notice_view(),
            final(self).primed_view() == old(self).primed_view(),
            final(self).add_focus_view() == old(self).add_focus_view(),
            final(self).last_added_view() == old(self).last_added_view(),
    {
        self.edit = None;
    }

    /// The edit field lost focus: commit the buffer (a new, non-empty term
    /// keeps the entry's aliases) or revert, and end the edit.
    pub fn finish_edit(&mut self, entries: &mut Vec<SpellbookEntry>) -> (changed: bool)
        ensures
            final(self).edit_view() is None,
            match old(self).edit_view() {
                None => !changed && final(entries)@ == old(entries)@,
                Some((i, b)) => {
                    &&& changed == (i < old(entries)@.len() && trim(b).len() > 0 && !has_term(
                        entries_view(old(entries)@),
                        trim(b),
                    ))
                    &&& changed ==> entries_view(final(entries)@) == entries_view(old(entries)@).update(
                        i as int,
                        (trim(b), entries_view(old(entries)@)[i as int].1),
                    )
                    &&& !changed ==> final(entries)@ == old(entries)@
                },
            },
            final(self).expanded_view() == old(self).expanded_view(),
            final(self).add_view() == old(self).add_view(),
            final(self).add_alias_view() == old(self).add_alias_view(),
            final(self).advanced_view() == old(self).advanced_view(),
            final(self).edit_focus_view() == old(self).edit_focus_view(),
            final(self).new_alias_view() == old(self).new_alias_view(),
            final(self).notice_view() == old(self).notice_view(),
            final(self).primed_view() == old(self).primed_view(),
            final(self).add_focus_view() == old(self).add_focus_view(),
            final(self).last_added_view() == old(self).last_added_view(),
    {
        let mut current: Option<(usize, String)> = None;
        std::mem::swap(&mut current, &mut self.edit);
        match current {
            Some((i, buffer)) => commit_edit(entries, i, buffer.as_str()),
            None => false,
        }
    }

    /// Open or close entry `index`'s alias list; the new-alias field
    /// clears. At most one list is open.
    pub fn toggle_aliases(&mut self, index: usize)
        ensures
            final(self).expanded_view() == (if old(self).expanded_view() == Some(index) {
                None
            } else {
                Some(index)
            }),
            final(self).new_alias_view().len() == 0,
            final(self).edit_view() == old(self).edit_view(),
            final(self).add_view() == old(self).add_view(),
            final(self).add_alias_view() == old(self).add_alias_view(),
            final(self).advanced_view() == old(self).advanced_view(),
            final(self).edit_focus_view() == old(self).edit_focus_view(),
            final(self).notice_view() == old(self).notice_view(),
            final(self).primed_view() == old(self).primed_view(),
            final(self).add_focus_view() == old(self).add_focus_view(),
            final(self).last_added_view() == old(self).last_added_view(),
    {
        self.expanded = if self.expanded == Some(index) {
            None
        } else {
            Some(index)
        };
        self.new_alias = String::new();
    }

    /// The user typed in the new-alias field.
    pub fn set_new_alias(&mut self, text: String)
        ensures
            final(self).new_alias_view() == text@,
            final(self).expanded_view() == old(self).expanded_view(),
            final(self).edit_view() == old(self).edit_view(),
            final(self).add_view() == old(self).add_view(),
            final(self).add_alias_view() == old(self).add_alias_view(),
            final(self).advanced_view() == old(self).advanced_view(),
            final(self).edit_focus_view() == old(self).edit_focus_view(),
            final(self).notice_view() == old(self).notice_view(),
            final(self).primed_view() == old(self).primed_view(),
            final(self).add_focus_view() == old(self).add_focus_view(),
            final(self).last_added_view() == old(self).last_added_view(),
    {
        self.new_alias = text;
    }

    /// Add the typed alias to entry `index`; the field clears either way.
    pub fn submit_alias(&mut self, entries: &mut Vec<SpellbookEntry>, index: usize) -> (changed: bool)
        ensures
            changed == (index < old(entries)@.len() && trim(old(self).new_alias_view()).len() > 0
                && !crate::spellbook::eq_ignore_case(
                trim(old(self).new_alias_view()),
                entries_view(old(entries)@)[index as int].0,
            ) && !crate::spellbook::includes_ignore_case(
                entries_view(old(entries)@)[index as int].1,
                trim(old(self).new_alias_view()),
            )),
            changed ==> entries_view(final(entries)@) == entries_view(old(entries)@).update(
                index as int,
                (
                    entries_view(old(entries)@)[index as int].0,
                    entries_view(old(entries)@)[index as int].1.push(trim(old(self).new_alias_view())),
                ),
            ),
            !changed ==> final(entries)@ == old(entries)@,
            final(self).new_alias_view().len() == 0,
            final(self).expanded_view() == old(self).expanded_view(),
            final(self).add_view() == old(self).add_view(),
            final(self).add_alias_view() == old(self).add_alias_view(),
            final(self).advanced_view() == old(self).advanced_view(),
            final(self).edit_view() == old(self).edit_view(),
            final(self).edit_focus_view() == old(self).edit_focus_view(),
            final(self).notice_view() == old(self).notice_view(),
            final(self).primed_view() == old(self).primed_view(),
            final(self).add_focus_view() == old(self).add_focus_view(),
            final(self).last_added_view() == old(self).last_added_view(),
    {
        let changed = add_alias(entries, index, self.new_alias.as_str());
        self.new_alias = String::new();
        changed
    }

    /// Remove alias `alias_index` of entry `index` (out of range: nothing).
    pub fn remove_alias_at(&mut self, entries: &mut Vec<SpellbookEntry>, index: usize, alias_index: usize) -> (changed: bool)
        ensures
            changed == (index < old(entries)@.len() && alias_index < entries_view(
                old(entries)@,
            )[index as int].1.len()),
            changed ==> entries_view(final(entries)@) == entries_view(old(entries)@).update(
                index as int,
                (
                    entries_view(old(entries)@)[index as int].0,
                    entries_view(old(entries)@)[index as int].1.remove(alias_index as int),
                ),
            ),
            !changed ==> final(entries)@ == old(entries)@,
            final(self).expanded_view() == old(self).expanded_view(),
            final(self).edit_view() == old(self).edit_view(),
            final(self).add_view() == old(self).add_view(),
            final(self).add_alias_view() == old(self).add_alias_view(),
            final(self).advanced_view() == old(self).advanced_view(),
            final(self).edit_focus_view() == old(self).edit_focus_view(),
            final(self).new_alias_view() == old(self).new_alias_view(),
            final(self).notice_view() == old(self).notice_view(),
            final(self).primed_view() == old(self).primed_view(),
            final(self).add_focus_view() == old(self).add_focus_view(),
            final(self).last_added_view() == old(self).last_added_view(),
    {
        remove_alias(entries, index, alias_index)
    }

    /// Delete entry `index`; an edit or an open alias list ends with it.
    pub fn delete(&mut self, entries: &mut Vec<SpellbookEntry>, index: usize)
        requires
            index < old(entries)@.len(),
        ensures
            final(entries)@ == old(entries)@.remove(index as int),
            final(self).edit_view() is None,
            final(self).expanded_view() is None,
            final(self).last_added_view() == old(self).last_added_view(),
            final(self).add_view() == old(self).add_view(),
            final(self).add_alias_view() == old(self).add_alias_view(),
            final(self).advanced_view() == old(self).advanced_view(),
            final(self).edit_focus_view() == old(self).edit_focus_view(),
            final(self).new_alias_view() == old(self).new_alias_view(),
            final(self).notice_view() == old(self).notice_view(),
            final(self).primed_view() == old(self).primed_view(),
            final(self).add_focus_view() == old(self).add_focus_view(),
    {
        entries.remove(index);
        self.edit = None;
        self.expanded = None;
    }
}

} // verus!
