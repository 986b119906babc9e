//! The spellbook: corrected terms, each with the misheard spellings
//! (aliases) it should replace. These are the pure list edits behind the
//! editor and the common-word guard; every edit either returns true, having
//! changed the list as its contract says, or leaves the list exactly as it
//! was.

use vstd::prelude::*;
use vstd::string::*;
use crate::terms::{includes, views};
use crate::text::{chars_of, same_chars, trim, trim_str, words, word_spans, push_chars};

verus! {

/// One spellbook row: the spelling to inject and the spellings to replace.
pub struct SpellbookEntry {
    pub term: String,
    pub aliases: Vec<String>,
}

/// The characters of an entry's term and aliases.
pub open spec fn entry_view(e: SpellbookEntry) -> (Seq<char>, Seq<Seq<char>>) {
    (e.term@, views(e.aliases@))
}

/// The characters of every entry.
pub open spec fn entries_view(v: Seq<SpellbookEntry>) -> Seq<(Seq<char>, Seq<Seq<char>>)> {
    v.map_values(|e: SpellbookEntry| entry_view(e))
}

/// ASCII case folding of one character.
pub open spec fn ascii_lower(c: char) -> char {
    if 65 <= c as u32 <= 90 { ((c as u32) + 32) as char } else { c }
}

/// Equal ignoring ASCII case (`str::eq_ignore_ascii_case`).
pub open spec fn eq_ignore_case(a: Seq<char>, b: Seq<char>) -> bool {
    a.len() == b.len() && forall|i: int| 0 <= i < a.len() ==> ascii_lower(a[i]) == ascii_lower(b[i])
}

/// Whether some alias in `v` equals `x` ignoring ASCII case.
pub open spec fn includes_ignore_case(v: Seq<Seq<char>>, x: Seq<char>) -> bool {
    exists|i: int| 0 <= i < v.len() && eq_ignore_case(v[i], x)
}

/// The index of the first entry whose term is `t`, if any.
pub open spec fn term_index(v: Seq<(Seq<char>, Seq<Seq<char>>)>, t: Seq<char>) -> Option<int> {
    if exists|i: int| 0 <= i < v.len() && v[i].0 == t {
        Some(choose|i: int| 0 <= i < v.len() && v[i].0 == t && forall|j: int| 0 <= j < i ==> v[j].0 != t)
    } else {
        None
    }
}

fn fold(c: char) -> (r: char)
    ensures
        r == ascii_lower(c),
{
    let u = c as u32;
    if 65 <= u && u <= 90 {
        ((u + 32) as u8) as char
    } else {
        c
    }
}

/// Equal ignoring ASCII case.
pub fn eq_ignore_ascii_case(a: &str, b: &str) -> (r: bool)
    ensures
        r == eq_ignore_case(a@, b@),
{
    let va = chars_of(a);
    let vb = chars_of(b);
    if va.len() != vb.len() {
        return false;
    }
    let mut i: usize = 0;
    while i < va.len()
        invariant
            i <= va@.len(),
            va@ == a@,
            vb@ == b@,
            va@.len() == vb@.len(),
            forall|j: int| 0 <= j < i ==> ascii_lower(va@[j]) == ascii_lower(vb@[j]),
        decreases va@.len() - i,
    {
        if fold(va[i]) != fold(vb[i]) {
            return false;
        }
        i = i + 1;
    }
    true
}

fn any_ignore_case(aliases: &Vec<String>, x: &String) -> (r: bool)
    ensures
        r == includes_ignore_case(views(aliases@), x@),
{
    let mut i: usize = 0;
    while i < aliases.len()
        invariant
            i <= aliases@.len(),
            forall|j: int| 0 <= j < i ==> !eq_ignore_case(aliases@[j]@, x@),
        decreases aliases@.len() - i,
    {
        if eq_ignore_ascii_case(aliases[i].as_str(), x.as_str()) {
            proof {
                assert(views(aliases@)[i as int] == aliases@[i as int]@);
            }
            return true;
        }
        i = i + 1;
    }
    proof {
        assert forall|j: int| 0 <= j < views(aliases@).len() implies !eq_ignore_case(
            views(aliases@)[j],
            x@,
        ) by {
            assert(views(aliases@)[j] == aliases@[j]@);
        }
    }
    false
}

fn find_term(entries: &Vec<SpellbookEntry>, term: &String) -> (r: Option<usize>)
    ensures
        match r {
            Some(i) => term_index(entries_view(entries@), term@) == Some(i as int) && i < entries@.len()
                && entries_view(entries@)[i as int].0 == term@,
            None => term_index(entries_view(entries@), term@) is None,
        },
{
    let ghost v = entries_view(entries@);
    let mut i: usize = 0;
    while i < entries.len()
        invariant
            i <= entries@.len(),
            v == entries_view(entries@),
            forall|j: int| 0 <= j < i ==> v[j].0 != term@,
        decreases entries@.len() - i,
    {
        if entries[i].term == *term {
            proof {
                assert(v[i as int].0 == term@);
                let c = choose|k: int| 0 <= k < v.len() && v[k].0 == term@ && forall|j: int| 0 <= j < k ==> v[j].0 != term@;
                assert(0 <= c < v.len() && v[c].0 == term@ && forall|j: int| 0 <= j < c ==> v[j].0 != term@);
                if c < i {
                } else if c > i {
                    assert(v[i as int].0 != term@);
                }
            }
            return Some(i);
        }
        i = i + 1;
    }
    None
}

/// The alias `add_entry` keeps for `term`: the trimmed alias unless it is
/// blank or equal to the term ignoring ASCII case.
pub open spec fn kept_alias(term: Seq<char>, raw_alias: Seq<char>) -> Option<Seq<char>> {
    let a = trim(raw_alias);
    if a.len() > 0 && !eq_ignore_case(a, term) { Some(a) } else { None }
}

/// The entries after `add_entry`, or `None` when nothing changes.
pub open spec fn add_entry_of(
    v: Seq<(Seq<char>, Seq<Seq<char>>)>,
    raw_term: Seq<char>,
    raw_alias: Seq<char>,
) -> Option<Seq<(Seq<char>, Seq<Seq<char>>)>> {
    let term = trim(raw_term);
    let alias = kept_alias(term, raw_alias);
    if term.len() == 0 {
        None
    } else {
        match term_index(v, term) {
            Some(i) => match alias {
                Some(a) => if !includes_ignore_case(v[i].1, a) {
                    Some(v.update(i, (v[i].0, v[i].1.push(a))))
                } else {
                    None
                },
                None => None,
            },
            None => Some(
                v.push(
                    (
                        term,
                        match alias {
                            Some(a) => seq![a],
                            None => Seq::empty(),
                        },
                    ),
                ),
            ),
        }
    }
}

/// Add a trimmed, non-empty entry with an optional alias. A term that
/// already exists gets the alias merged in instead of a duplicate row.
#[verifier::rlimit(40)]
pub fn add_entry(entries: &mut Vec<SpellbookEntry>, raw_term: &str, raw_alias: &str) -> (changed: bool)
    ensures
        match add_entry_of(entries_view(old(entries)@), raw_term@, raw_alias@) {
            Some(v) => changed && entries_view(final(entries)@) == v,
            None => !changed && final(entries)@ == old(entries)@,
        },
{
    let term = trim_str(raw_term);
    if term.as_str().is_empty() {
        return false;
    }
    let alias_text = trim_str(raw_alias);
    let keep = !alias_text.as_str().is_empty() && !eq_ignore_ascii_case(alias_text.as_str(), term.as_str());
    let ghost v = entries_view(entries@);
    match find_term(entries, &term) {
        Some(i) => {
            if !keep {
                return false;
            }
            if any_ignore_case(&entries[i].aliases, &alias_text) {
                return false;
            }
            let mut e = entries.remove(i);
            let ghost old_aliases = e.aliases@;
            e.aliases.push(alias_text);
            proof {
                assert(views(e.aliases@) == views(old_aliases).push(trim(raw_alias@)));
            }
            entries.insert(i, e);
            proof {
                assert(entries_view(entries@) == v.update(i as int, (v[i as int].0, v[i as int].1.push(trim(raw_alias@)))));
            }
            true
        },
        None => {
            let mut aliases: Vec<String> = Vec::new();
            if keep {
                aliases.push(alias_text);
            }
            let ghost av = views(aliases@);
            entries.push(SpellbookEntry { term, aliases });
            proof {
                if keep {
                    assert(av == seq![trim(raw_alias@)]);
                } else {
                    assert(av == Seq::<Seq<char>>::empty());
                }
                assert(entries_view(entries@) == v.push((trim(raw_term@), av)));
            }
            true
        },
    }
}

/// Whether some entry's term is `t`.
pub open spec fn has_term(v: Seq<(Seq<char>, Seq<Seq<char>>)>, t: Seq<char>) -> bool {
    exists|i: int| 0 <= i < v.len() && v[i].0 == t
}

/// Commit an inline term edit: a trimmed, non-empty term that no entry has
/// yet replaces row `index`'s term, keeping its aliases; anything else
/// changes nothing.
pub fn commit_edit(entries: &mut Vec<SpellbookEntry>, index: usize, raw: &str) -> (changed: bool)
    ensures
        changed == (index < old(entries)@.len() && trim(raw@).len() > 0 && !has_term(
            entries_view(old(entries)@),
            trim(raw@),
        )),
        changed ==> entries_view(final(entries)@) == entries_view(old(entries)@).update(
            index as int,
            (trim(raw@), entries_view(old(entries)@)[index as int].1),
        ),
        !changed ==> final(entries)@ == old(entries)@,
{
    let term = trim_str(raw);
    if index >= entries.len() || term.as_str().is_empty() {
        return false;
    }
    let ghost v = entries_view(entries@);
    match find_term(entries, &term) {
        Some(i) => {
            proof {
                assert(v[i as int].0 == trim(raw@));
            }
            false
        },
        None => {
            proof {
                if has_term(v, trim(raw@)) {
                    assert(exists|i: int| 0 <= i < v.len() && v[i].0 == trim(raw@));
                }
            }
            let mut e = entries.remove(index);
            e.term = term;
            entries.insert(index, e);
            proof {
                assert(entries_view(entries@) == v.update(index as int, (trim(raw@), v[index as int].1)));
            }
            true
        },
    }
}

/// Add an alias to entry `index`: trimmed, non-blank, not the entry's own
/// term and not already an alias of it (both ignoring ASCII case).
pub fn add_alias(entries: &mut Vec<SpellbookEntry>, index: usize, raw: &str) -> (changed: bool)
    ensures
        changed == (index < old(entries)@.len() && trim(raw@).len() > 0 && !eq_ignore_case(
            trim(raw@),
            entries_view(old(entries)@)[index as int].0,
        ) && !includes_ignore_case(entries_view(old(entries)@)[index as int].1, trim(raw@))),
        changed ==> entries_view(final(entries)@) == entries_view(old(entries)@).update(
            index as int,
            (
                entries_view(old(entries)@)[index as int].0,
                entries_view(old(entries)@)[index as int].1.push(trim(raw@)),
            ),
        ),
        !changed ==> final(entries)@ == old(entries)@,
{
    let alias = trim_str(raw);
    if index >= entries.len() || alias.as_str().is_empty() {
        return false;
    }
    let ghost v = entries_view(entries@);
    if eq_ignore_ascii_case(alias.as_str(), entries[index].term.as_str()) || any_ignore_case(
        &entries[index].aliases,
        &alias,
    ) {
        return false;
    }
    let mut e = entries.remove(index);
    let ghost old_aliases = e.aliases@;
    e.aliases.push(alias);
    proof {
        assert(views(e.aliases@) == views(old_aliases).push(trim(raw@)));
    }
    entries.insert(index, e);
    proof {
        assert(entries_view(entries@) == v.update(index as int, (v[index as int].0, v[index as int].1.push(trim(raw@)))));
    }
    true
}

/// Remove alias `alias_index` of entry `index`. Out of range is a no-op.
pub fn remove_alias(entries: &mut Vec<SpellbookEntry>, index: usize, alias_index: usize) -> (changed: bool)
    ensures
        changed == (index < old(entries)@.len() && alias_index < entries_view(old(entries)@)[index as int].1.len()),
        changed ==> entries_view(final(entries)@) == entries_view(old(entries)@).update(
            index as int,
            (
                entries_view(old(entries)@)[index as int].0,
                entries_view(old(entries)@)[index as int].1.remove(alias_index as int),
            ),
        ),
        !changed ==> final(entries)@ == old(entries)@,
{
    if index >= entries.len() || alias_index >= entries[index].aliases.len() {
        return false;
    }
    let ghost v = entries_view(entries@);
    let mut e = entries.remove(index);
    let ghost old_aliases = e.aliases@;
    e.aliases.remove(alias_index);
    proof {
        assert(views(e.aliases@) == views(old_aliases).remove(alias_index as int));
    }
    entries.insert(index, e);
    proof {
        assert(entries_view(entries@) == v.update(
            index as int,
            (v[index as int].0, v[index as int].1.remove(alias_index as int)),
        ));
    }
    true
}

/// Remove the first entry whose term is `added`; false, changing nothing,
/// when there is none.
pub fn undo_add(entries: &mut Vec<SpellbookEntry>, added: &str) -> (removed: bool)
    ensures
        match term_index(entries_view(old(entries)@), added@) {
            Some(i) => removed && final(entries)@ == old(entries)@.remove(i),
            None => !removed && final(entries)@ == old(entries)@,
        },
{
    let target = String::from_str(added);
    match find_term(entries, &target) {
        Some(i) => {
            entries.remove(i);
            true
        },
        None => false,
    }
}

/// No two entries share a term.
pub open spec fn distinct_terms(v: Seq<(Seq<char>, Seq<Seq<char>>)>) -> bool {
    forall|i: int, j: int| 0 <= i < j < v.len() ==> v[i].0 != v[j].0
}

/// No alias of an entry equals its term or another of its aliases, ignoring
/// ASCII case.
pub open spec fn clean_aliases(e: (Seq<char>, Seq<Seq<char>>)) -> bool {
    &&& forall|k: int| 0 <= k < e.1.len() ==> !eq_ignore_case(#[trigger] e.1[k], e.0)
    &&& forall|k: int, m: int| 0 <= k < m < e.1.len() ==> !eq_ignore_case(e.1[k], e.1[m])
}

/// Adding an entry never creates a second row for a term.
pub proof fn add_entry_keeps_terms_distinct(
    v: Seq<(Seq<char>, Seq<Seq<char>>)>,
    raw_term: Seq<char>,
    raw_alias: Seq<char>,
)
    requires
        distinct_terms(v),
    ensures
        add_entry_of(v, raw_term, raw_alias) matches Some(w) ==> distinct_terms(w),
{
    let term = trim(raw_term);
    if term.len() > 0 {
        match term_index(v, term) {
            Some(i) => {},
            None => {
                assert(!exists|i: int| 0 <= i < v.len() && v[i].0 == term);
            },
        }
    }
}

/// An inline term edit that `commit_edit` accepts never creates a second row
/// for a term.
pub proof fn commit_edit_keeps_terms_distinct(
    v: Seq<(Seq<char>, Seq<Seq<char>>)>,
    index: int,
    t: Seq<char>,
)
    requires
        distinct_terms(v),
        0 <= index < v.len(),
        !has_term(v, t),
    ensures
        distinct_terms(v.update(index, (t, v[index].1))),
{
    let w = v.update(index, (t, v[index].1));
    assert forall|i: int, j: int| 0 <= i < j < w.len() implies w[i].0 != w[j].0 by {
        if i == index {
            assert(v[j].0 != t);
        } else if j == index {
            assert(v[i].0 != t);
        }
    }
}

/// An alias that `add_alias` accepts keeps the entry's aliases clean.
pub proof fn add_alias_keeps_aliases_clean(e: (Seq<char>, Seq<Seq<char>>), a: Seq<char>)
    requires
        clean_aliases(e),
        !eq_ignore_case(a, e.0),
        !includes_ignore_case(e.1, a),
    ensures
        clean_aliases((e.0, e.1.push(a))),
{
    let n = e.1.push(a);
    assert forall|k: int, m: int| 0 <= k < m < n.len() implies !eq_ignore_case(n[k], n[m]) by {
        if m == e.1.len() {
            assert(n[k] == e.1[k]);
            if eq_ignore_case(n[k], n[m]) {
                assert(eq_ignore_case(e.1[k], a));
            }
        }
    }
}

/// Whether `c` is alphabetic or numeric in Unicode (`char::is_alphanumeric`).
pub uninterp spec fn alphanumeric(c: char) -> bool;

/// The Unicode lowercase mapping of `s` (`str::to_lowercase`).
pub uninterp spec fn lowercase(s: Seq<char>) -> Seq<char>;

/// Calls `char::is_alphanumeric`.
#[verifier::external_body]
fn is_alphanumeric(c: char) -> (b: bool)
    ensures
        b == alphanumeric(c),
{
    c.is_alphanumeric()
}

/// Calls `str::to_lowercase`.
#[verifier::external_body]
fn to_lowercase(s: &str) -> (r: String)
    ensures
        r@ == lowercase(s@),
{
    s.to_lowercase()
}

/// `s` without leading characters that are not alphanumeric.
pub open spec fn strip_start(s: Seq<char>) -> Seq<char>
    decreases s.len(),
{
    if s.len() > 0 && !alphanumeric(s[0]) {
        strip_start(s.drop_first())
    } else {
        s
    }
}

/// `s` without trailing characters that are not alphanumeric.
pub open spec fn strip_end(s: Seq<char>) -> Seq<char>
    decreases s.len(),
{
    if s.len() > 0 && !alphanumeric(s.last()) {
        strip_end(s.drop_last())
    } else {
        s
    }
}

/// `s` with non-alphanumeric characters trimmed from both ends.
pub open spec fn strip(s: Seq<char>) -> Seq<char> {
    strip_end(strip_start(s))
}

/// The words common enough that an alias made only of them would fire on
/// ordinary speech.
pub open spec fn is_common(w: Seq<char>) -> bool {
    ||| w == "a"@
    ||| w == "about"@
    ||| w == "all"@
    ||| w == "an"@
    ||| w == "and"@
    ||| w == "are"@
    ||| w == "as"@
    ||| w == "at"@
    ||| w == "be"@
    ||| w == "but"@
    ||| w == "by"@
    ||| w == "can"@
    ||| w == "do"@
    ||| w == "for"@
    ||| w == "from"@
    ||| w == "get"@
    ||| w == "go"@
    ||| w == "had"@
    ||| w == "has"@
    ||| w == "have"@
    ||| w == "he"@
    ||| w == "her"@
    ||| w == "here"@
    ||| w == "him"@
    ||| w == "his"@
    ||| w == "i"@
    ||| w == "if"@
    ||| w == "in"@
    ||| w == "is"@
    ||| w == "it"@
    ||| w == "its"@
    ||| w == "just"@
    ||| w == "know"@
    ||| w == "like"@
    ||| w == "make"@
    ||| w == "me"@
    ||| w == "my"@
    ||| w == "no"@
    ||| w == "not"@
    ||| w == "now"@
    ||| w == "of"@
    ||| w == "on"@
    ||| w == "one"@
    ||| w == "or"@
    ||| w == "our"@
    ||| w == "out"@
    ||| w == "over"@
    ||| w == "say"@
    ||| w == "see"@
    ||| w == "she"@
    ||| w == "so"@
    ||| w == "some"@
    ||| w == "take"@
    ||| w == "than"@
    ||| w == "that"@
    ||| w == "the"@
    ||| w == "their"@
    ||| w == "them"@
    ||| w == "then"@
    ||| w == "there"@
    ||| w == "these"@
    ||| w == "they"@
    ||| w == "think"@
    ||| w == "this"@
    ||| w == "time"@
    ||| w == "to"@
    ||| w == "up"@
    ||| w == "us"@
    ||| w == "use"@
    ||| w == "want"@
    ||| w == "was"@
    ||| w == "way"@
    ||| w == "we"@
    ||| w == "well"@
    ||| w == "were"@
    ||| w == "what"@
    ||| w == "when"@
    ||| w == "which"@
    ||| w == "who"@
    ||| w == "will"@
    ||| w == "with"@
    ||| w == "would"@
    ||| w == "you"@
    ||| w == "your"@
}

fn common(w: &str) -> (r: bool)
    ensures
        r == is_common(w@),
{
    same_chars(w, "a") ||
        same_chars(w, "about") ||
        same_chars(w, "all") ||
        same_chars(w, "an") ||
        same_chars(w, "and") ||
        same_chars(w, "are") ||
        same_chars(w, "as") ||
        same_chars(w, "at") ||
        same_chars(w, "be") ||
        same_chars(w, "but") ||
        same_chars(w, "by") ||
        same_chars(w, "can") ||
        same_chars(w, "do") ||
        same_chars(w, "for") ||
        same_chars(w, "from") ||
        same_chars(w, "get") ||
        same_chars(w, "go") ||
        same_chars(w, "had") ||
        same_chars(w, "has") ||
        same_chars(w, "have") ||
        same_chars(w, "he") ||
        same_chars(w, "her") ||
        same_chars(w, "here") ||
        same_chars(w, "him") ||
        same_chars(w, "his") ||
        same_chars(w, "i") ||
        same_chars(w, "if") ||
        same_chars(w, "in") ||
        same_chars(w, "is") ||
        same_chars(w, "it") ||
        same_chars(w, "its") ||
        same_chars(w, "just") ||
        same_chars(w, "know") ||
        same_chars(w, "like") ||
        same_chars(w, "make") ||
        same_chars(w, "me") ||
        same_chars(w, "my") ||
        same_chars(w, "no") ||
        same_chars(w, "not") ||
        same_chars(w, "now") ||
        same_chars(w, "of") ||
        same_chars(w, "on") ||
        same_chars(w, "one") ||
        same_chars(w, "or") ||
        same_chars(w, "our") ||
        same_chars(w, "out") ||
        same_chars(w, "over") ||
        same_chars(w, "say") ||
        same_chars(w, "see") ||
        same_chars(w, "she") ||
        same_chars(w, "so") ||
        same_chars(w, "some") ||
        same_chars(w, "take") ||
        same_chars(w, "than") ||
        same_chars(w, "that") ||
        same_chars(w, "the") ||
        same_chars(w, "their") ||
        same_chars(w, "them") ||
        same_chars(w, "then") ||
        same_chars(w, "there") ||
        same_chars(w, "these") ||
        same_chars(w, "they") ||
        same_chars(w, "think") ||
        same_chars(w, "this") ||
        same_chars(w, "time") ||
        same_chars(w, "to") ||
        same_chars(w, "up") ||
        same_chars(w, "us") ||
        same_chars(w, "use") ||
        same_chars(w, "want") ||
        same_chars(w, "was") ||
        same_chars(w, "way") ||
        same_chars(w, "we") ||
        same_chars(w, "well") ||
        same_chars(w, "were") ||
        same_chars(w, "what") ||
        same_chars(w, "when") ||
        same_chars(w, "which") ||
        same_chars(w, "who") ||
        same_chars(w, "will") ||
        same_chars(w, "with") ||
        same_chars(w, "would") ||
        same_chars(w, "you") ||
        same_chars(w, "your")
}

/// Where `strip(v[lo..hi])` starts and ends.
fn strip_bounds(v: &Vec<char>, lo: usize, hi: usize) -> (r: (usize, usize))
    requires
        lo <= hi <= v@.len(),
    ensures
        lo <= r.0 <= r.1 <= hi,
        strip(v@.subrange(lo as int, hi as int)) == v@.subrange(r.0 as int, r.1 as int),
{
    let mut a = lo;
    while a < hi && !is_alphanumeric(v[a])
        invariant
            lo <= a <= hi,
            hi <= v@.len(),
            strip_start(v@.subrange(lo as int, hi as int)) == strip_start(v@.subrange(a as int, hi as int)),
        decreases hi - a,
    {
        proof {
            assert(v@.subrange(a as int, hi as int).drop_first() == v@.subrange(a + 1, hi as int));
        }
        a = a + 1;
    }
    proof {
        let t = v@.subrange(a as int, hi as int);
        assert(strip_start(t) == t);
    }
    let mut b = hi;
    while b > a && !is_alphanumeric(v[b - 1])
        invariant
            lo <= a <= b <= hi,
            hi <= v@.len(),
            strip(v@.subrange(lo as int, hi as int)) == strip_end(v@.subrange(a as int, b as int)),
        decreases b,
    {
        proof {
            assert(v@.subrange(a as int, b as int).drop_last() == v@.subrange(a as int, b - 1));
        }
        b = b - 1;
    }
    proof {
        let t = v@.subrange(a as int, b as int);
        assert(strip_end(t) == t);
    }
    (a, b)
}

/// Whether every word of `alias`, stripped of surrounding punctuation and
/// lowercased, is a common word (and there is at least one word).
pub open spec fn common_alias(alias: Seq<char>) -> bool {
    let ws = words(alias);
    ws.len() > 0 && forall|i: int|
        0 <= i < ws.len() ==> {
            let w = lowercase(strip(#[trigger] ws[i]));
            w.len() > 0 && is_common(w)
        }
}

/// True when every word of `alias` is a common English word. Whole-phrase:
/// an alias with any uncommon word in it is the normal, safe kind.
pub fn is_common_word(alias: &str) -> (r: bool)
    ensures
        r == common_alias(alias@),
{
    let v = chars_of(alias);
    let spans = word_spans(&v);
    if spans.len() == 0 {
        return false;
    }
    let mut k: usize = 0;
    while k < spans.len()
        invariant
            k <= spans@.len(),
            v@ == alias@,
            spans@.len() == words(v@).len(),
            forall|m: int|
                0 <= m < spans@.len() ==> {
                    &&& (#[trigger] spans@[m]).0 < spans@[m].1 <= v@.len()
                    &&& v@.subrange(spans@[m].0 as int, spans@[m].1 as int) == words(v@)[m]
                },
            forall|m: int|
                0 <= m < k ==> {
                    let w = lowercase(strip(#[trigger] words(v@)[m]));
                    w.len() > 0 && is_common(w)
                },
        decreases spans@.len() - k,
    {
        let (lo, hi) = spans[k];
        let (a, b) = strip_bounds(&v, lo, hi);
        let mut stripped = String::new();
        push_chars(&mut stripped, &v, a, b);
        let lower = to_lowercase(stripped.as_str());
        if lower.as_str().is_empty() || !common(lower.as_str()) {
            proof {
                assert(lower@ == lowercase(strip(words(v@)[k as int])));
            }
            return false;
        }
        k = k + 1;
    }
    true
}

} // verus!
