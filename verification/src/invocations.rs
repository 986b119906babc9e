//! Invocations: a spoken trigger phrase paired with canned text typed
//! exactly as written. This module holds the page and editor state and
//! their rules. How a phrase splits into words, and the key two phrases
//! compare by, are the dictionary's tokenizer's; the glue hands in what it
//! computes (the word count of a phrase, and one key per listed entry).

use vstd::prelude::*;
use crate::text::{preview_chars, preview_of, push_str, same_chars, trim, trim_str};

verus! {

/// Preview length of an invocation's expansion: one line in the list.
pub const PREVIEW_CHARS: usize = 80;

/// Fewest words a trigger may have: one-word triggers fire against
/// ordinary speech.
pub const MIN_TRIGGER_WORDS: usize = 2;

/// Whitespace-flattened, character-safe one-line preview.
pub fn preview(text: &str) -> (r: String)
    ensures
        r@ == preview_of(text@, PREVIEW_CHARS as nat),
{
    preview_chars(text, PREVIEW_CHARS)
}

/// Where a trigger fires.
#[derive(Debug, Clone, Copy, PartialEq, Eq, Structural)]
pub enum Scope {
    /// The phrase is the whole dictation.
    Utterance,
    /// The phrase appears anywhere in the sentence.
    Anywhere,
}

/// One trigger and the text it types.
pub struct Invocation {
    pub phrase: String,
    pub expansion: String,
    pub scope: Scope,
}

/// What the editor did this frame.
pub enum Outcome {
    /// Still editing.
    Open,
    Cancelled,
    /// Saved: the entry, and the row it replaces (`None` = a new entry).
    Saved(Invocation, Option<usize>),
    /// Delete pressed on an existing row.
    Deleted(usize),
}

/// Why a row will never fire, or `None` when it is armed. `words` is its
/// trigger's word count; `shadowed` whether an earlier row has the same
/// trigger (the first one wins).
pub open spec fn skip_reason_of(words: nat, expansion_empty: bool, shadowed: bool) -> Option<Seq<char>> {
    if words < MIN_TRIGGER_WORDS {
        Some("Won't fire: a trigger needs at least two words."@)
    } else if expansion_empty {
        Some("Won't fire: this invocation has no text to type."@)
    } else if shadowed {
        Some("Won't fire: an earlier invocation already uses this trigger."@)
    } else {
        None
    }
}

/// Why a row will never fire, or `None` when it is armed.
pub fn skip_reason(words: usize, expansion_empty: bool, shadowed: bool) -> (r: Option<&'static str>)
    ensures
        match r {
            Some(s) => skip_reason_of(words as nat, expansion_empty, shadowed) == Some(s@),
            None => skip_reason_of(words as nat, expansion_empty, shadowed) is None,
        },
{
    if words < MIN_TRIGGER_WORDS {
        Some("Won't fire: a trigger needs at least two words.")
    } else if expansion_empty {
        Some("Won't fire: this invocation has no text to type.")
    } else if shadowed {
        Some("Won't fire: an earlier invocation already uses this trigger.")
    } else {
        None
    }
}

/// Whether row `index`'s key occurs among the rows before it.
pub fn shadowed(keys: &Vec<String>, index: usize) -> (b: bool)
    requires
        index < keys@.len(),
    ensures
        b == exists|j: int| 0 <= j < index && keys@[j]@ == keys@[index as int]@,
{
    let mut j: usize = 0;
    while j < index
        invariant
            j <= index < keys@.len(),
            forall|k: int| 0 <= k < j ==> keys@[k]@ != keys@[index as int]@,
        decreases index - j,
    {
        if same_chars(keys[j].as_str(), keys[index].as_str()) {
            return true;
        }
        j = j + 1;
    }
    false
}

/// An open editor: a new entry, or row `index`.
pub struct Draft {
    index: Option<usize>,
    phrase: String,
    expansion: String,
    scope: Scope,
    /// "Type what you'd say" test input.
    probe: String,
    /// The test matcher must be rebuilt (only when this is set, never per
    /// frame).
    preview_dirty: bool,
}

impl Draft {
    pub closed spec fn index_view(&self) -> Option<usize> {
        self.index
    }

    pub closed spec fn phrase_view(&self) -> Seq<char> {
        self.phrase@
    }

    pub closed spec fn expansion_view(&self) -> Seq<char> {
        self.expansion@
    }

    pub closed spec fn scope_view(&self) -> Scope {
        self.scope
    }

    pub closed spec fn probe_view(&self) -> Seq<char> {
        self.probe@
    }

    pub closed spec fn dirty_view(&self) -> bool {
        self.preview_dirty
    }

    /// A new entry. It defaults to whole-dictation scope: the one that
    /// cannot fire mid-sentence by accident.
    pub fn new_entry() -> (d: Self)
        ensures
            d.index_view() is None,
            d.phrase_view().len() == 0,
            d.expansion_view().len() == 0,
            d.scope_view() == Scope::Utterance,
            d.probe_view().len() == 0,
            d.dirty_view(),
    {
        Draft {
            index: None,
            phrase: String::new(),
            expansion: String::new(),
            scope: Scope::Utterance,
            probe: String::new(),
            preview_dirty: true,
        }
    }

    /// Edit row `index`, starting from its own values.
    pub fn existing(index: usize, entry: &Invocation) -> (d: Self)
        ensures
            d.index_view() == Some(index),
            d.phrase_view() == entry.phrase@,
            d.expansion_view() == entry.expansion@,
            d.scope_view() == entry.scope,
            d.probe_view().len() == 0,
            d.dirty_view(),
    {
        let mut phrase = String::new();
        push_str(&mut phrase, entry.phrase.as_str());
        let mut expansion = String::new();
        push_str(&mut expansion, entry.expansion.as_str());
        Draft { index: Some(index), phrase, expansion, scope: entry.scope, probe: String::new(), preview_dirty: true }
    }

    /// The row being edited, if any.
    pub fn index(&self) -> (i: Option<usize>)
        ensures
            i == self.index_view(),
    {
        self.index
    }

    /// The trigger as typed.
    pub fn phrase(&self) -> (s: &str)
        ensures
            s@ == self.phrase_view(),
    {
        self.phrase.as_str()
    }

    /// The text to type.
    pub fn expansion(&self) -> (s: &str)
        ensures
            s@ == self.expansion_view(),
    {
        self.expansion.as_str()
    }

    /// The scope.
    pub fn scope(&self) -> (s: Scope)
        ensures
            s == self.scope_view(),
    {
        self.scope
    }

    /// The editor's heading.
    pub fn title(&self) -> (s: &'static str)
        ensures
            s@ == (if self.index_view() is Some { "Edit invocation"@ } else { "New invocation"@ }),
    {
        if self.index.is_some() {
            "Edit invocation"
        } else {
            "New invocation"
        }
    }

    /// The user typed a trigger; the test matcher is stale.
    pub fn set_phrase(&mut self, text: String)
        ensures
            final(self).phrase_view() == text@,
            final(self).dirty_view(),
            final(self).index_view() == old(self).index_view(),
            final(self).expansion_view() == old(self).expansion_view(),
            final(self).scope_view() == old(self).scope_view(),
            final(self).probe_view() == old(self).probe_view(),
    {
        self.phrase = text;
        self.preview_dirty = true;
    }

    /// The user typed the text to type; the test matcher is stale.
    pub fn set_expansion(&mut self, text: String)
        ensures
            final(self).expansion_view() == text@,
            final(self).dirty_view(),
            final(self).index_view() == old(self).index_view(),
            final(self).phrase_view() == old(self).phrase_view(),
            final(self).scope_view() == old(self).scope_view(),
            final(self).probe_view() == old(self).probe_view(),
    {
        self.expansion = text;
        self.preview_dirty = true;
    }

    /// The user picked a scope; only a change makes the matcher stale.
    pub fn set_scope(&mut self, scope: Scope)
        ensures
            final(self).scope_view() == scope,
            final(self).dirty_view() == (old(self).dirty_view() || scope != old(self).scope_view()),
            final(self).index_view() == old(self).index_view(),
            final(self).phrase_view() == old(self).phrase_view(),
            final(self).expansion_view() == old(self).expansion_view(),
            final(self).probe_view() == old(self).probe_view(),
    {
        if scope != self.scope {
            self.scope = scope;
            self.preview_dirty = true;
        }
    }

    /// The user typed a test sentence; the matcher is stale.
    pub fn set_probe(&mut self, text: String)
        ensures
            final(self).probe_view() == text@,
            final(self).dirty_view(),
            final(self).index_view() == old(self).index_view(),
            final(self).phrase_view() == old(self).phrase_view(),
            final(self).expansion_view() == old(self).expansion_view(),
            final(self).scope_view() == old(self).scope_view(),
    {
        self.probe = text;
        self.preview_dirty = true;
    }

    /// Whether the test matcher must be rebuilt now; asks only once per
    /// change.
    pub fn take_preview_dirty(&mut self) -> (d: bool)
        ensures
            d == old(self).dirty_view(),
            !final(self).dirty_view(),
            final(self).index_view() == old(self).index_view(),
            final(self).phrase_view() == old(self).phrase_view(),
            final(self).expansion_view() == old(self).expansion_view(),
            final(self).scope_view() == old(self).scope_view(),
            final(self).probe_view() == old(self).probe_view(),
    {
        let d = self.preview_dirty;
        self.preview_dirty = false;
        d
    }

    /// Whether another row already has this trigger: `keys` holds every
    /// listed row's key, `key` this trigger's. The row being edited does
    /// not clash with itself.
    pub fn clashes(&self, keys: &Vec<String>, key: &str) -> (b: bool)
        ensures
            b == exists|i: int| 0 <= i < keys@.len() && self.index_view() != Some(i as usize) && keys@[i]@
                == key@,
    {
        let mut i: usize = 0;
        while i < keys.len()
            invariant
                i <= keys@.len(),
                forall|k: int| 0 <= k < i ==> !(self.index_view() != Some(k as usize) && keys@[k]@ == key@),
            decreases keys@.len() - i,
        {
            if self.index != Some(i) && same_chars(keys[i].as_str(), key) {
                return true;
            }
            i = i + 1;
        }
        false
    }

    /// Why Save is disabled, or `None` when the trigger is usable. `words`
    /// is the trigger's word count; `clash` whether another row uses it.
    pub fn problem(&self, words: usize, clash: bool) -> (p: Option<&'static str>)
        ensures
            match p {
                Some(s) => s@ == (if trim(self.phrase_view()).len() == 0 {
                    "Enter a trigger phrase."@
                } else if words < MIN_TRIGGER_WORDS {
                    "A trigger needs at least two words \u{2014} one-word triggers fire against ordinary speech."@
                } else {
                    "Another invocation already uses this trigger."@
                }),
                None => trim(self.phrase_view()).len() > 0 && words >= MIN_TRIGGER_WORDS && !clash,
            },
            p is Some <==> (trim(self.phrase_view()).len() == 0 || words < MIN_TRIGGER_WORDS || clash),
    {
        let t = trim_str(self.phrase.as_str());
        if t.as_str().is_empty() {
            Some("Enter a trigger phrase.")
        } else if words < MIN_TRIGGER_WORDS {
            Some("A trigger needs at least two words \u{2014} one-word triggers fire against ordinary speech.")
        } else if clash {
            Some("Another invocation already uses this trigger.")
        } else {
            None
        }
    }

    /// Save is offered when the trigger has no problem and there is text
    /// to type.
    pub fn saveable(&self, problem_free: bool) -> (b: bool)
        ensures
            b == (problem_free && self.expansion_view().len() > 0),
    {
        problem_free && !self.expansion.as_str().is_empty()
    }

    /// Save: the trimmed trigger, the text exactly as written, the scope,
    /// and the row it replaces.
    pub fn save(&self) -> (o: Outcome)
        ensures
            o matches Outcome::Saved(e, i) && e.phrase@ == trim(self.phrase_view()) && e.expansion@
                == self.expansion_view() && e.scope == self.scope_view() && i == self.index_view(),
    {
        let phrase = trim_str(self.phrase.as_str());
        let mut expansion = String::new();
        push_str(&mut expansion, self.expansion.as_str());
        Outcome::Saved(Invocation { phrase, expansion, scope: self.scope }, self.index)
    }

    /// Delete, offered only for an existing row.
    pub fn delete(&self) -> (o: Option<Outcome>)
        ensures
            match self.index_view() {
                Some(i) => o matches Some(Outcome::Deleted(j)) && j == i,
                None => o is None,
            },
    {
        match self.index {
            Some(i) => Some(Outcome::Deleted(i)),
            None => None,
        }
    }
}

/// The note under the scope choice: "anywhere" skips the cleanup voice.
pub fn scope_note(scope: Scope) -> (s: Option<&'static str>)
    ensures
        match scope {
            Scope::Anywhere => s matches Some(t) && t@
                == "Anywhere also means this dictation skips your cleanup voice, so filler words around the inserted text stay as spoken."@,
            Scope::Utterance => s is None,
        },
{
    match scope {
        Scope::Anywhere => Some(
            "Anywhere also means this dictation skips your cleanup voice, so filler words around the inserted text stay as spoken.",
        ),
        Scope::Utterance => None,
    }
}

/// The list page: at most one open editor, and a persistence notice.
pub struct InvocationsPage {
    draft: Option<Draft>,
    /// Persistence failure surfaced by the caller; sticky until it clears.
    notice: Option<String>,
}

impl InvocationsPage {
    pub closed spec fn editing_view(&self) -> bool {
        self.draft is Some
    }

    pub closed spec fn draft_view(&self) -> Option<Draft> {
        self.draft
    }

    pub closed spec fn notice_view(&self) -> Option<Seq<char>> {
        match self.notice {
            Some(n) => Some(n@),
            None => None,
        }
    }

    /// The list, no editor open.
    pub fn new() -> (p: Self)
        ensures
            !p.editing_view(),
            p.notice_view() is None,
    {
        InvocationsPage { draft: None, notice: None }
    }

    /// Show (or clear) a persistence notice.
    pub fn set_notice(&mut self, notice: Option<String>)
        ensures
            final(self).notice_view() == (match notice {
                Some(n) => Some(n@),
                None => None,
            }),
            final(self).draft_view() == old(self).draft_view(),
            final(self).editing_view() == old(self).editing_view(),
    {
        self.notice = notice;
    }

    /// The persistence notice, if any.
    pub fn notice(&self) -> (n: Option<&str>)
        ensures
            match n {
                Some(s) => self.notice_view() == Some(s@),
                None => self.notice_view() is None,
            },
    {
        match &self.notice {
            Some(s) => Some(s.as_str()),
            None => None,
        }
    }

    /// Whether an editor owns the page.
    pub fn is_editing(&self) -> (b: bool)
        ensures
            b == self.editing_view(),
    {
        self.draft.is_some()
    }

    /// The open editor, if any.
    pub fn draft(&self) -> (d: Option<&Draft>)
        ensures
            match d {
                Some(x) => self.draft_view() == Some(*x),
                None => self.draft_view() is None,
            },
    {
        match &self.draft {
            Some(d) => Some(d),
            None => None,
        }
    }

    /// "New invocation".
    pub fn open_new(&mut self)
        ensures
            final(self).draft_view() matches Some(d) && {
                &&& d.index_view() is None
                &&& d.phrase_view().len() == 0
                &&& d.expansion_view().len() == 0
                &&& d.scope_view() == Scope::Utterance
                &&& d.probe_view().len() == 0
                &&& d.dirty_view()
            },
            final(self).notice_view() == old(self).notice_view(),
    {
        self.draft = Some(Draft::new_entry());
    }

    /// Edit row `index`.
    pub fn open_existing(&mut self, entries: &Vec<Invocation>, index: usize)
        requires
            index < entries@.len(),
        ensures
            final(self).draft_view() matches Some(d) && {
                &&& d.index_view() == Some(index)
                &&& d.phrase_view() == entries@[index as int].phrase@
                &&& d.expansion_view() == entries@[index as int].expansion@
                &&& d.scope_view() == entries@[index as int].scope
                &&& d.probe_view().len() == 0
                &&& d.dirty_view()
            },
            final(self).notice_view() == old(self).notice_view(),
    {
        self.draft = Some(Draft::existing(index, &entries[index]));
    }

    /// Apply what the editor did. A save replaces its row, or appends when
    /// the row is new or gone; a delete removes its row when it is still
    /// there. Either closes the editor and reports a change; a cancel only
    /// closes it.
    pub fn apply(&mut self, outcome: Outcome, entries: &mut Vec<Invocation>) -> (changed: bool)
        ensures
            match outcome {
                Outcome::Open => !changed && final(entries)@ == old(entries)@ && final(self).draft_view()
                    == old(self).draft_view(),
                Outcome::Cancelled => !changed && final(entries)@ == old(entries)@
                    && !final(self).editing_view(),
                Outcome::Saved(e, i) => changed && !final(self).editing_view() && match i {
                    Some(k) => if k < old(entries)@.len() {
                        final(entries)@ == old(entries)@.update(k as int, e)
                    } else {
                        final(entries)@ == old(entries)@.push(e)
                    },
                    None => final(entries)@ == old(entries)@.push(e),
                },
                Outcome::Deleted(k) => changed && !final(self).editing_view() && final(entries)@ == (if k
                    < old(entries)@.len() {
                    old(entries)@.remove(k as int)
                } else {
                    old(entries)@
                }),
            },
            final(self).notice_view() == old(self).notice_view(),
    {
        match outcome {
            Outcome::Open => false,
            Outcome::Cancelled => {
                self.draft = None;
                false
            },
            Outcome::Saved(entry, index) => {
                match index {
                    Some(i) => if i < entries.len() {
                        entries.set(i, entry);
                    } else {
                        entries.push(entry);
                    },
                    None => entries.push(entry),
                }
                self.draft = None;
                true
            },
            Outcome::Deleted(index) => {
                if index < entries.len() {
                    entries.remove(index);
                }
                self.draft = None;
                true
            },
        }
    }

    /// Delete row `index` from the list; any open editor closes.
    pub fn delete(&mut self, entries: &mut Vec<Invocation>, index: usize)
        requires
            index < old(entries)@.len(),
        ensures
            final(entries)@ == old(entries)@.remove(index as int),
            !final(self).editing_view(),
            final(self).notice_view() == old(self).notice_view(),
    {
        entries.remove(index);
        self.draft = None;
    }
}

} // verus!
