//! The History panel's state: the search, the cached newest-first window
//! of entries and the key it was fetched under, the expanded and copied
//! rows, and the clear-all confirmation. Queries, the clipboard and the
//! storage commands belong to the glue; which of them to make, and what the
//! panel shows, are decided here.

use vstd::prelude::*;
use crate::history::{plural, plural_of, Action, Entry};
use crate::pages::Confirm;
use crate::text::{push_str, same_chars, trim, trim_str};

verus! {

/// Rows per "Show more" window.
pub const PAGE_SIZE: u32 = 100;

/// What the panel body shows.
#[derive(Debug, Clone, Copy, PartialEq, Eq, Structural)]
pub enum Body {
    /// The last query failed.
    ReadError,
    /// Nothing stored yet.
    NoDictations,
    /// Rows exist, but none matches the search.
    NoMatches,
    List,
}

/// What a row action asks of the glue.
pub enum RowEffect {
    Nothing,
    /// Put this text on the clipboard.
    CopyText(String),
    /// Delete the stored entry with this id.
    Delete(i64),
}

/// Whether some entry has id `id`.
pub open spec fn has_id(v: Seq<Entry>, id: i64) -> bool {
    exists|i: int| 0 <= i < v.len() && v[i].id == id
}

/// The panel state.
pub struct HistoryPage {
    search: String,
    entries: Vec<Entry>,
    matching: u64,
    total: u64,
    pages: u32,
    cache_key: Option<(u64, String, u32)>,
    fetch_error: Option<String>,
    expanded: Option<i64>,
    copied: Option<i64>,
    confirm: Option<Confirm>,
}

impl HistoryPage {
    pub closed spec fn search_view(&self) -> Seq<char> {
        self.search@
    }

    pub closed spec fn entries_view(&self) -> Seq<Entry> {
        self.entries@
    }

    pub closed spec fn matching_view(&self) -> u64 {
        self.matching
    }

    pub closed spec fn total_view(&self) -> u64 {
        self.total
    }

    pub closed spec fn pages_view(&self) -> u32 {
        self.pages
    }

    /// The (generation, search, windows) the cached rows reflect.
    pub closed spec fn key_view(&self) -> Option<(u64, Seq<char>, u32)> {
        match self.cache_key {
            Some((g, s, p)) => Some((g, s@, p)),
            None => None,
        }
    }

    pub closed spec fn error_view(&self) -> Option<Seq<char>> {
        match self.fetch_error {
            Some(e) => Some(e@),
            None => None,
        }
    }

    pub closed spec fn expanded_view(&self) -> Option<i64> {
        self.expanded
    }

    pub closed spec fn copied_view(&self) -> Option<i64> {
        self.copied
    }

    pub closed spec fn confirm_view(&self) -> Option<Confirm> {
        self.confirm
    }

    /// An empty panel: one window, nothing cached, nothing expanded.
    pub fn new() -> (p: Self)
        ensures
            p.search_view().len() == 0,
            p.entries_view().len() == 0,
            p.matching_view() == 0,
            p.total_view() == 0,
            p.pages_view() == 1,
            p.key_view() is None,
            p.error_view() is None,
            p.expanded_view() is None,
            p.copied_view() is None,
            p.confirm_view() is None,
    {
        HistoryPage {
            search: String::new(),
            entries: Vec::new(),
            matching: 0,
            total: 0,
            pages: 1,
            cache_key: None,
            fetch_error: None,
            expanded: None,
            copied: None,
            confirm: None,
        }
    }

    /// The search text.
    pub fn search(&self) -> (s: &str)
        ensures
            s@ == self.search_view(),
    {
        self.search.as_str()
    }

    /// The cached rows, newest first.
    pub fn entries(&self) -> (v: &Vec<Entry>)
        ensures
            v@ == self.entries_view(),
    {
        &self.entries
    }

    /// The expanded row, if any.
    pub fn expanded(&self) -> (e: Option<i64>)
        ensures
            e == self.expanded_view(),
    {
        self.expanded
    }

    /// The row whose "Copied" affirmation shows, if any.
    pub fn copied(&self) -> (c: Option<i64>)
        ensures
            c == self.copied_view(),
    {
        self.copied
    }

    /// The user edited the search: back to one window.
    pub fn set_search(&mut self, text: String)
        ensures
            final(self).search_view() == text@,
            final(self).pages_view() == (if text@ == old(self).search_view() {
                old(self).pages_view()
            } else {
                1
            }),
            final(self).entries_view() == old(self).entries_view(),
            final(self).key_view() == old(self).key_view(),
            final(self).expanded_view() == old(self).expanded_view(),
            final(self).matching_view() == old(self).matching_view(),
            final(self).total_view() == old(self).total_view(),
            final(self).error_view() == old(self).error_view(),
            final(self).copied_view() == old(self).copied_view(),
            final(self).confirm_view() == old(self).confirm_view(),
    {
        if !same_chars(self.search.as_str(), text.as_str()) {
            self.pages = 1;
        }
        self.search = text;
    }

    /// The search a query filters by: none when it is only whitespace.
    pub fn search_filter(&self) -> (f: Option<&str>)
        ensures
            match f {
                Some(s) => s@ == self.search_view() && trim(self.search_view()).len() > 0,
                None => trim(self.search_view()).len() == 0,
            },
    {
        let t = trim_str(self.search.as_str());
        if t.as_str().is_empty() {
            None
        } else {
            Some(self.search.as_str())
        }
    }

    /// How many rows to fetch: every window loaded so far.
    pub fn row_limit(&self) -> (n: u32)
        requires
            self.pages_view() * PAGE_SIZE <= u32::MAX,
        ensures
            n == self.pages_view() * PAGE_SIZE,
    {
        self.pages * PAGE_SIZE
    }

    /// Whether the cache is stale for storage write `generation`: a write
    /// landed, the search changed, or another window was asked for. Idle
    /// frames never touch the database.
    pub fn needs_query(&self, generation: u64) -> (b: bool)
        ensures
            b == (self.key_view() != Some((generation, self.search_view(), self.pages_view()))),
    {
        match &self.cache_key {
            Some((g, s, p)) => !(*g == generation && *p == self.pages && same_chars(
                s.as_str(),
                self.search.as_str(),
            )),
            None => true,
        }
    }

    /// Take a query's outcome: the rows, how many match, how many exist.
    /// A failure is kept until a query succeeds; either way the key is
    /// recorded, so a broken reader is not re-queried every frame. A row
    /// that is gone cannot stay expanded.
    pub fn fetched(&mut self, generation: u64, result: Result<(Vec<Entry>, u64, u64), String>)
        ensures
            final(self).key_view() == Some((generation, old(self).search_view(), old(self).pages_view())),
            final(self).search_view() == old(self).search_view(),
            final(self).pages_view() == old(self).pages_view(),
            match result {
                Ok((rows, matching, total)) => {
                    &&& final(self).entries_view() == rows@
                    &&& final(self).matching_view() == matching
                    &&& final(self).total_view() == total
                    &&& final(self).error_view() is None
                    &&& final(self).expanded_view() == (match old(self).expanded_view() {
                        Some(id) => if has_id(rows@, id) {
                            Some(id)
                        } else {
                            None
                        },
                        None => None,
                    })
                },
                Err(e) => {
                    &&& final(self).error_view() == Some(e@)
                    &&& final(self).entries_view() == old(self).entries_view()
                    &&& final(self).matching_view() == old(self).matching_view()
                    &&& final(self).total_view() == old(self).total_view()
                    &&& final(self).expanded_view() == old(self).expanded_view()
                },
            },
            final(self).copied_view() == old(self).copied_view(),
            final(self).confirm_view() == old(self).confirm_view(),
    {
        match result {
            Ok((rows, matching, total)) => {
                self.entries = rows;
                self.matching = matching;
                self.total = total;
                self.fetch_error = None;
                if let Some(id) = self.expanded {
                    if find_id(&self.entries, id).is_none() {
                        self.expanded = None;
                    }
                }
            },
            Err(e) => {
                self.fetch_error = Some(e);
            },
        }
        let mut s = String::new();
        push_str(&mut s, self.search.as_str());
        self.cache_key = Some((generation, s, self.pages));
    }

    /// What the body shows.
    pub fn body(&self) -> (b: Body)
        ensures
            b == (if self.error_view() is Some {
                Body::ReadError
            } else if self.total_view() == 0 {
                Body::NoDictations
            } else if self.matching_view() == 0 {
                Body::NoMatches
            } else {
                Body::List
            }),
    {
        if self.fetch_error.is_some() {
            Body::ReadError
        } else if self.total == 0 {
            Body::NoDictations
        } else if self.matching == 0 {
            Body::NoMatches
        } else {
            Body::List
        }
    }

    /// The count beside the search: all dictations, or the matches.
    pub fn count_label(&self) -> (s: String)
        ensures
            s@ == (if trim(self.search_view()).len() == 0 {
                plural_of(self.total_view(), "dictation"@)
            } else {
                plural_of(self.matching_view(), "match"@)
            }),
    {
        let t = trim_str(self.search.as_str());
        if t.as_str().is_empty() {
            plural(self.total, "dictation")
        } else {
            plural(self.matching, "match")
        }
    }

    /// The title of the no-matches state, with the trimmed search.
    pub fn no_matches_title(&self) -> (s: String)
        ensures
            s@ == "No matches for \""@ + trim(self.search_view()) + "\"."@,
    {
        let mut s = String::new();
        push_str(&mut s, "No matches for \"");
        let t = trim_str(self.search.as_str());
        push_str(&mut s, t.as_str());
        push_str(&mut s, "\".");
        s
    }

    /// Whether more matching rows exist than are loaded.
    pub fn has_more(&self) -> (b: bool)
        ensures
            b == (self.entries_view().len() < self.matching_view()),
    {
        (self.entries.len() as u64) < self.matching
    }

    /// Load one more window.
    pub fn show_more(&mut self)
        requires
            old(self).pages_view() < u32::MAX,
        ensures
            final(self).pages_view() == old(self).pages_view() + 1,
            final(self).search_view() == old(self).search_view(),
            final(self).key_view() == old(self).key_view(),
            final(self).entries_view() == old(self).entries_view(),
            final(self).matching_view() == old(self).matching_view(),
            final(self).total_view() == old(self).total_view(),
            final(self).error_view() == old(self).error_view(),
            final(self).expanded_view() == old(self).expanded_view(),
            final(self).copied_view() == old(self).copied_view(),
            final(self).confirm_view() == old(self).confirm_view(),
    {
        self.pages = self.pages + 1;
    }

    /// Ask before clearing; offered only while something is stored.
    pub fn ask_clear(&mut self)
        requires
            old(self).total_view() > 0,
        ensures
            final(self).confirm_view() matches Some(c) && c.title@ == "Clear history?"@ && c.body@
                == "Deletes "@ + plural_of(old(self).total_view(), "entry"@)
                + " from this device. Lifetime stats are untouched."@ && c.action@ == "Delete "@
                + plural_of(old(self).total_view(), "entry"@) && c.focus_cancel,
            final(self).expanded_view() == old(self).expanded_view(),
            final(self).entries_view() == old(self).entries_view(),
            final(self).search_view() == old(self).search_view(),
            final(self).matching_view() == old(self).matching_view(),
            final(self).total_view() == old(self).total_view(),
            final(self).pages_view() == old(self).pages_view(),
            final(self).key_view() == old(self).key_view(),
            final(self).error_view() == old(self).error_view(),
            final(self).copied_view() == old(self).copied_view(),
    {
        let mut title = String::new();
        push_str(&mut title, "Clear history?");
        let n = plural(self.total, "entry");
        let mut body = String::new();
        push_str(&mut body, "Deletes ");
        push_str(&mut body, n.as_str());
        push_str(&mut body, " from this device. Lifetime stats are untouched.");
        let mut action = String::new();
        push_str(&mut action, "Delete ");
        push_str(&mut action, n.as_str());
        self.confirm = Some(Confirm::new(title, body, action));
    }

    /// The pending clear-all confirmation, for rendering.
    pub fn pending_confirm(&self) -> (c: Option<&Confirm>)
        ensures
            match c {
                Some(x) => self.confirm_view() == Some(*x),
                None => self.confirm_view() is None,
            },
    {
        match &self.confirm {
            Some(x) => Some(x),
            None => None,
        }
    }

    /// The confirmation resolved: on yes the glue clears the entries and no
    /// row stays expanded.
    pub fn resolve_clear(&mut self, confirmed: bool)
        ensures
            final(self).confirm_view() is None,
            final(self).expanded_view() == (if confirmed { None } else { old(self).expanded_view() }),
            final(self).entries_view() == old(self).entries_view(),
            final(self).search_view() == old(self).search_view(),
            final(self).matching_view() == old(self).matching_view(),
            final(self).total_view() == old(self).total_view(),
            final(self).pages_view() == old(self).pages_view(),
            final(self).key_view() == old(self).key_view(),
            final(self).error_view() == old(self).error_view(),
            final(self).copied_view() == old(self).copied_view(),
    {
        if confirmed {
            self.expanded = None;
        }
        self.confirm = None;
    }

    /// Esc collapses the expanded row, unless the confirmation owns Esc.
    pub fn escape(&mut self)
        ensures
            final(self).expanded_view() == (if old(self).confirm_view() is Some {
                old(self).expanded_view()
            } else {
                None
            }),
            final(self).confirm_view() == old(self).confirm_view(),
            final(self).search_view() == old(self).search_view(),
            final(self).entries_view() == old(self).entries_view(),
            final(self).matching_view() == old(self).matching_view(),
            final(self).total_view() == old(self).total_view(),
            final(self).pages_view() == old(self).pages_view(),
            final(self).key_view() == old(self).key_view(),
            final(self).error_view() == old(self).error_view(),
            final(self).copied_view() == old(self).copied_view(),
    {
        if self.confirm.is_none() {
            self.expanded = None;
        }
    }

    /// Apply what the user did to a row this frame: toggle its details, copy
    /// its final text (when the row is still cached), or delete it (no row
    /// stays expanded once deleted).
    pub fn apply(&mut self, action: Option<Action>) -> (effect: RowEffect)
        ensures
            match action {
                None => effect is Nothing && *final(self) == *old(self),
                Some(Action::Toggle(id)) => {
                    &&& effect is Nothing
                    &&& final(self).expanded_view() == (if old(self).expanded_view() == Some(id) {
                        None
                    } else {
                        Some(id)
                    })
                    &&& final(self).copied_view() == old(self).copied_view()
                },
                Some(Action::Copy(id)) => if has_id(old(self).entries_view(), id) {
                    &&& effect matches RowEffect::CopyText(t) && exists|i: int|
                        0 <= i < old(self).entries_view().len() && old(self).entries_view()[i].id == id
                            && t@ == old(self).entries_view()[i].final_text@
                    &&& final(self).copied_view() == Some(id)
                    &&& final(self).expanded_view() == old(self).expanded_view()
                } else {
                    effect is Nothing && *final(self) == *old(self)
                },
                Some(Action::Delete(id)) => {
                    &&& effect == RowEffect::Delete(id)
                    &&& final(self).expanded_view() == (if old(self).expanded_view() == Some(id) {
                        None
                    } else {
                        old(self).expanded_view()
                    })
                    &&& final(self).copied_view() == old(self).copied_view()
                },
            },
            final(self).entries_view() == old(self).entries_view(),
            final(self).search_view() == old(self).search_view(),
            final(self).confirm_view() == old(self).confirm_view(),
            final(self).matching_view() == old(self).matching_view(),
            final(self).total_view() == old(self).total_view(),
            final(self).pages_view() == old(self).pages_view(),
            final(self).key_view() == old(self).key_view(),
            final(self).error_view() == old(self).error_view(),
    {
        match action {
            Some(Action::Toggle(id)) => {
                self.expanded = if self.expanded == Some(id) {
                    None
                } else {
                    Some(id)
                };
                RowEffect::Nothing
            },
            Some(Action::Copy(id)) => match find_id(&self.entries, id) {
                Some(i) => {
                    let mut t = String::new();
                    push_str(&mut t, self.entries[i].final_text.as_str());
                    self.copied = Some(id);
                    RowEffect::CopyText(t)
                },
                None => RowEffect::Nothing,
            },
            Some(Action::Delete(id)) => {
                if self.expanded == Some(id) {
                    self.expanded = None;
                }
                RowEffect::Delete(id)
            },
            None => RowEffect::Nothing,
        }
    }
}

/// The first row with id `id`.
fn find_id(entries: &Vec<Entry>, id: i64) -> (r: Option<usize>)
    ensures
        match r {
            Some(i) => i < entries@.len() && entries@[i as int].id == id,
            None => !has_id(entries@, id),
        },
{
    let mut i: usize = 0;
    while i < entries.len()
        invariant
            i <= entries@.len(),
            forall|j: int| 0 <= j < i ==> entries@[j].id != id,
        decreases entries@.len() - i,
    {
        if entries[i].id == id {
            return Some(i);
        }
        i = i + 1;
    }
    None
}

/// The caption of the empty panel.
pub fn no_dictations_caption(chord: &str) -> (s: String)
    ensures
        s@ == "Hold "@ + chord@ + " and speak into any text field."@,
{
    let mut s = String::new();
    push_str(&mut s, "Hold ");
    push_str(&mut s, chord);
    push_str(&mut s, " and speak into any text field.");
    s
}

/// Which rows open a new day group: the first row, and every row whose
/// day label differs from the row before it.
pub fn day_starts(labels: &Vec<String>) -> (starts: Vec<bool>)
    ensures
        starts@.len() == labels@.len(),
        forall|i: int|
            0 <= i < labels@.len() ==> #[trigger] starts@[i] == (i == 0 || labels@[i]@ != labels@[i
                - 1]@),
{
    let mut starts: Vec<bool> = Vec::new();
    let mut i: usize = 0;
    while i < labels.len()
        invariant
            i <= labels@.len(),
            starts@.len() == i,
            forall|k: int|
                0 <= k < i ==> #[trigger] starts@[k] == (k == 0 || labels@[k]@ != labels@[k - 1]@),
        decreases labels@.len() - i,
    {
        let start = if i == 0 {
            true
        } else {
            !same_chars(labels[i].as_str(), labels[i - 1].as_str())
        };
        starts.push(start);
        i = i + 1;
    }
    starts
}

} // verus!
