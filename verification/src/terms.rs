//! Edits to a list of plain terms (the dictionary, and the spellbook in its
//! plain-terms form). Every edit either returns true, having changed the
//! list as its contract says, or leaves the list exactly as it was.

use vstd::prelude::*;
use vstd::string::*;
use crate::text::{trim, trim_str};

verus! {

/// The characters of each string.
pub open spec fn views(v: Seq<String>) -> Seq<Seq<char>> {
    v.map_values(|t: String| t@)
}

/// Whether `x` occurs in `v`.
pub open spec fn includes(v: Seq<Seq<char>>, x: Seq<char>) -> bool {
    exists|i: int| 0 <= i < v.len() && v[i] == x
}

/// No term occurs twice.
pub open spec fn distinct(v: Seq<Seq<char>>) -> bool {
    forall|i: int, j: int| 0 <= i < j < v.len() ==> v[i] != v[j]
}

/// The index of the first `t` with `pick(t)`, if any.
fn first_equal(terms: &Vec<String>, target: &String) -> (r: Option<usize>)
    ensures
        match r {
            Some(i) => i < terms@.len() && terms@[i as int]@ == target@ && forall|j: int|
                0 <= j < i ==> terms@[j]@ != target@,
            None => forall|j: int| 0 <= j < terms@.len() ==> terms@[j]@ != target@,
        },
{
    let mut i: usize = 0;
    while i < terms.len()
        invariant
            i <= terms@.len(),
            forall|j: int| 0 <= j < i ==> terms@[j]@ != target@,
        decreases terms@.len() - i,
    {
        if terms[i] == *target {
            return Some(i);
        }
        i = i + 1;
    }
    None
}

/// Add a trimmed, non-empty, non-duplicate term. Returns true if added.
pub fn add_term(terms: &mut Vec<String>, raw: &str) -> (added: bool)
    ensures
        added == (trim(raw@).len() > 0 && !includes(views(old(terms)@), trim(raw@))),
        added ==> views(final(terms)@) == views(old(terms)@).push(trim(raw@)),
        !added ==> final(terms)@ == old(terms)@,
        distinct(views(old(terms)@)) ==> distinct(views(final(terms)@)),
{
    let term = trim_str(raw);
    if term.as_str().is_empty() {
        proof {
            assert(term@.len() == 0);
        }
        return false;
    }
    proof {
        assert(term@.len() > 0);
    }
    match first_equal(terms, &term) {
        Some(i) => {
            proof {
                assert(views(terms@)[i as int] == trim(raw@));
            }
            false
        },
        None => {
            let ghost before = terms@;
            terms.push(term);
            proof {
                assert(views(terms@) == views(before).push(trim(raw@)));
            }
            true
        },
    }
}

/// Commit an inline edit: a trimmed, non-empty term that is not already in
/// the list replaces row `index`; anything else changes nothing.
pub fn commit_edit(terms: &mut Vec<String>, index: usize, raw: &str) -> (changed: bool)
    ensures
        changed == (index < old(terms)@.len() && trim(raw@).len() > 0 && !includes(
            views(old(terms)@),
            trim(raw@),
        )),
        changed ==> views(final(terms)@) == views(old(terms)@).update(index as int, trim(raw@)),
        !changed ==> final(terms)@ == old(terms)@,
        distinct(views(old(terms)@)) ==> distinct(views(final(terms)@)),
{
    let term = trim_str(raw);
    if index >= terms.len() || term.as_str().is_empty() {
        return false;
    }
    match first_equal(terms, &term) {
        Some(i) => {
            proof {
                assert(views(terms@)[i as int] == trim(raw@));
            }
            false
        },
        None => {
            let ghost before = terms@;
            terms.set(index, term);
            proof {
                assert(views(terms@) == views(before).update(index as int, trim(raw@)));
            }
            true
        },
    }
}

/// Remove the first term equal to `added`. Returns true if one was removed;
/// a term already gone is not an error and removes nothing.
pub fn undo_add(terms: &mut Vec<String>, added: &str) -> (removed: bool)
    ensures
        removed == includes(views(old(terms)@), added@),
        removed ==> exists|i: int|
            0 <= i < old(terms)@.len() && old(terms)@[i]@ == added@ && (forall|j: int|
                0 <= j < i ==> old(terms)@[j]@ != added@) && final(terms)@ == old(terms)@.remove(i),
        !removed ==> final(terms)@ == old(terms)@,
        distinct(views(old(terms)@)) ==> distinct(views(final(terms)@)),
{
    let target = String::from_str(added);
    match first_equal(terms, &target) {
        Some(i) => {
            let ghost before = terms@;
            terms.remove(i);
            proof {
                assert(views(before)[i as int] == added@);
                assert(views(terms@) == views(before).remove(i as int));
                if distinct(views(before)) {
                    assert forall|a: int, b: int| 0 <= a < b < views(terms@).len() implies views(terms@)[a] != views(terms@)[b] by {
                        let a0 = if a < i { a } else { a + 1 };
                        let b0 = if b < i { b } else { b + 1 };
                        assert(views(terms@)[a] == views(before)[a0]);
                        assert(views(terms@)[b] == views(before)[b0]);
                    }
                }
            }
            true
        },
        None => {
            proof {
                assert forall|j: int| 0 <= j < terms@.len() implies views(terms@)[j] != added@ by {
                    assert(terms@[j]@ != added@);
                }
            }
            false
        },
    }
}

/// Remove row `index`, keeping the rest in order.
pub fn delete_term(terms: &mut Vec<String>, index: usize)
    requires
        index < old(terms)@.len(),
    ensures
        final(terms)@ == old(terms)@.remove(index as int),
        distinct(views(old(terms)@)) ==> distinct(views(final(terms)@)),
{
    let ghost before = terms@;
    terms.remove(index);
    proof {
        assert(views(terms@) == views(before).remove(index as int));
        if distinct(views(before)) {
            assert forall|a: int, b: int| 0 <= a < b < views(terms@).len() implies views(terms@)[a] != views(terms@)[b] by {
                let a0 = if a < index { a } else { a + 1 };
                let b0 = if b < index { b } else { b + 1 };
                assert(views(terms@)[a] == views(before)[a0]);
                assert(views(terms@)[b] == views(before)[b0]);
            }
        }
    }
}

/// The add field and the in-place row edit of a term-list editor.
pub struct TermEditor {
    add: String,
    /// The row being edited and its buffer. At most one at a time.
    edit: Option<(usize, String)>,
    edit_needs_focus: bool,
}

impl TermEditor {
    /// The add field's text.
    pub closed spec fn add_view(&self) -> Seq<char> {
        self.add@
    }

    /// The row being edited and its buffer, if any.
    pub closed spec fn edit_view(&self) -> Option<(usize, Seq<char>)> {
        match self.edit {
            Some((i, b)) => Some((i, b@)),
            None => None,
        }
    }

    /// Whether the edit field still has to take focus.
    pub closed spec fn focus_view(&self) -> bool {
        self.edit_needs_focus
    }

    /// Nothing typed, nothing being edited.
    pub fn new() -> (e: Self)
        ensures
            e.add_view().len() == 0,
            e.edit_view() is None,
            !e.focus_view(),
    {
        TermEditor { add: String::new(), edit: None, edit_needs_focus: false }
    }

    /// The add field's text.
    pub fn add_text(&self) -> (s: &str)
        ensures
            s@ == self.add_view(),
    {
        self.add.as_str()
    }

    /// The user typed in the add field.
    pub fn set_add(&mut self, text: String)
        ensures
            final(self).add_view() == text@,
            final(self).edit_view() == old(self).edit_view(),
            final(self).focus_view() == old(self).focus_view(),
    {
        self.add = text;
    }

    /// Add what the field holds (trimmed, non-empty, not already listed);
    /// the field clears either way.
    pub fn submit_add(&mut self, terms: &mut Vec<String>) -> (added: bool)
        ensures
            added == (trim(old(self).add_view()).len() > 0 && !includes(
                views(old(terms)@),
                trim(old(self).add_view()),
            )),
            added ==> views(final(terms)@) == views(old(terms)@).push(trim(old(self).add_view())),
            !added ==> final(terms)@ == old(terms)@,
            distinct(views(old(terms)@)) ==> distinct(views(final(terms)@)),
            final(self).add_view().len() == 0,
            final(self).edit_view() == old(self).edit_view(),
            final(self).focus_view() == old(self).focus_view(),
    {
        let added = add_term(terms, self.add.as_str());
        self.add = String::new();
        added
    }

    /// Start editing row `index` from its current text; the field takes
    /// focus once.
    pub fn start_edit(&mut self, terms: &Vec<String>, index: usize)
        requires
            index < terms@.len(),
        ensures
            final(self).edit_view() == Some((index, terms@[index as int]@)),
            final(self).focus_view(),
            final(self).add_view() == old(self).add_view(),
    {
        let mut buffer = String::new();
        crate::text::push_str(&mut buffer, terms[index].as_str());
        self.edit = Some((index, buffer));
        self.edit_needs_focus = true;
    }

    /// The user typed in the edit field.
    pub fn set_edit_buffer(&mut self, text: String)
        ensures
            final(self).edit_view() == (match old(self).edit_view() {
                Some((i, _)) => Some((i, text@)),
                None => None,
            }),
            final(self).add_view() == old(self).add_view(),
            final(self).focus_view() == old(self).focus_view(),
    {
        if let Some((i, _)) = &self.edit {
            let i = *i;
            self.edit = Some((i, text));
        }
    }

    /// Whether the edit field should take focus now; asks only once.
    pub fn take_edit_focus(&mut self) -> (f: bool)
        ensures
            f == old(self).focus_view(),
            !final(self).focus_view(),
            final(self).add_view() == old(self).add_view(),
            final(self).edit_view() == old(self).edit_view(),
    {
        let f = self.edit_needs_focus;
        self.edit_needs_focus = false;
        f
    }

    /// Esc: drop the edit, keep the row as it was.
    pub fn cancel_edit(&mut self)
        ensures
            final(self).edit_view() is None,
            final(self).add_view() == old(self).add_view(),
            final(self).focus_view() == old(self).focus_view(),
    {
        self.edit = None;
    }

    /// The edit field lost focus: commit the buffer to its row (or revert
    /// on empty or duplicate input) and end the edit.
    pub fn finish_edit(&mut self, terms: &mut Vec<String>) -> (changed: bool)
        ensures
            final(self).edit_view() is None,
            final(self).add_view() == old(self).add_view(),
            match old(self).edit_view() {
                None => !changed && final(terms)@ == old(terms)@,
                Some((i, b)) => {
                    &&& changed == (i < old(terms)@.len() && trim(b).len() > 0 && !includes(
                        views(old(terms)@),
                        trim(b),
                    ))
                    &&& changed ==> views(final(terms)@) == views(old(terms)@).update(i as int, trim(b))
                    &&& !changed ==> final(terms)@ == old(terms)@
                },
            },
            distinct(views(old(terms)@)) ==> distinct(views(final(terms)@)),
            final(self).focus_view() == old(self).focus_view(),
    {
        let mut current: Option<(usize, String)> = None;
        std::mem::swap(&mut current, &mut self.edit);
        match current {
            Some((i, buffer)) => commit_edit(terms, i, buffer.as_str()),
            None => false,
        }
    }

    /// Delete row `index`; any edit in progress ends.
    pub fn delete(&mut self, terms: &mut Vec<String>, index: usize)
        requires
            index < old(terms)@.len(),
        ensures
            final(terms)@ == old(terms)@.remove(index as int),
            distinct(views(old(terms)@)) ==> distinct(views(final(terms)@)),
            final(self).edit_view() is None,
            final(self).add_view() == old(self).add_view(),
            final(self).focus_view() == old(self).focus_view(),
    {
        delete_term(terms, index);
        self.edit = None;
    }
}

} // verus!
