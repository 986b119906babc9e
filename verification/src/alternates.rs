//! Alternate phrases of an invocation: other spellings transcription may
//! produce for its trigger, each at least two words, none shared with the
//! trigger, another alternate or another invocation. Phrases are compared
//! by the spellbook tokenizer's normalised key and counted in its words;
//! the glue hands in those keys and counts.

use vstd::prelude::*;
use crate::invocations::MIN_TRIGGER_WORDS;
use crate::text::{same_chars, trim, trim_str};

verus! {

/// A phrase as the spellbook tokenizer reads it: its normalised key and
/// its word count.
pub struct PhraseKey {
    pub key: String,
    pub words: usize,
}

/// The keys of the listed invocations: for each, its trigger's key and
/// every alternate's.
pub open spec fn keys_view(entry_keys: Seq<Vec<String>>) -> Seq<Seq<Seq<char>>> {
    entry_keys.map_values(|ks: Vec<String>| ks@.map_values(|k: String| k@))
}

/// Whether an invocation other than the one being edited already uses `key`
/// as its trigger or an alternate.
pub open spec fn used_elsewhere(entry_keys: Seq<Seq<Seq<char>>>, editing: Option<usize>, key: Seq<char>) -> bool {
    exists|i: int, j: int|
        0 <= i < entry_keys.len() && editing != Some(i as usize) && 0 <= j < entry_keys[i].len()
            && #[trigger] entry_keys[i][j] == key
}

/// Whether `key` is one of `keys`.
pub open spec fn among(keys: Seq<String>, key: Seq<char>) -> bool {
    exists|i: int| 0 <= i < keys.len() && (#[trigger] keys[i])@ == key
}

/// Why a candidate alternate cannot be added, or `None` when it can.
pub open spec fn candidate_problem_of(
    phrase_key: Seq<char>,
    alias_keys: Seq<String>,
    candidate: Seq<char>,
    facts: PhraseKey,
    entry_keys: Seq<Seq<Seq<char>>>,
    editing: Option<usize>,
) -> Option<Seq<char>> {
    if trim(candidate).len() == 0 {
        Some("Enter an alternate phrase."@)
    } else if facts.words < MIN_TRIGGER_WORDS {
        Some("An alternate phrase needs at least two words."@)
    } else if facts.key@ == phrase_key || among(alias_keys, facts.key@) {
        Some("That phrase is already part of this invocation."@)
    } else if used_elsewhere(entry_keys, editing, facts.key@) {
        Some("Another invocation already uses that phrase as a trigger or alternate."@)
    } else {
        None
    }
}

/// Why the committed alternate at `i` is not acceptable, given the trigger's
/// key and the alternates before it.
pub open spec fn alias_problem_at(
    phrase_key: Seq<char>,
    aliases: Seq<String>,
    facts: Seq<PhraseKey>,
    entry_keys: Seq<Seq<Seq<char>>>,
    editing: Option<usize>,
    i: int,
) -> Option<Seq<char>> {
    if trim(aliases[i]@).len() == 0 {
        Some("Remove the blank alternate phrase."@)
    } else if facts[i].words < MIN_TRIGGER_WORDS {
        Some("Each alternate phrase needs at least two words."@)
    } else if facts[i].key@ == phrase_key || exists|j: int| 0 <= j < i && (#[trigger] facts[j]).key@ == facts[i].key@ {
        Some("An alternate phrase duplicates this trigger or another alternate."@)
    } else if used_elsewhere(entry_keys, editing, facts[i].key@) {
        Some("Another invocation already uses one of these alternate phrases."@)
    } else {
        None
    }
}

/// The first problem among the first `n` committed alternates.
pub open spec fn first_alias_problem(
    phrase_key: Seq<char>,
    aliases: Seq<String>,
    facts: Seq<PhraseKey>,
    entry_keys: Seq<Seq<Seq<char>>>,
    editing: Option<usize>,
    n: nat,
) -> Option<Seq<char>>
    decreases n,
{
    if n == 0 {
        None
    } else {
        match first_alias_problem(phrase_key, aliases, facts, entry_keys, editing, (n - 1) as nat) {
            Some(m) => Some(m),
            None => alias_problem_at(phrase_key, aliases, facts, entry_keys, editing, n - 1),
        }
    }
}

/// Once a prefix of the alternates has a problem, every longer prefix
/// reports that same problem.
proof fn lemma_first_problem_sticks(
    phrase_key: Seq<char>,
    aliases: Seq<String>,
    facts: Seq<PhraseKey>,
    entry_keys: Seq<Seq<Seq<char>>>,
    editing: Option<usize>,
    k: nat,
    n: nat,
)
    requires
        k <= n,
        first_alias_problem(phrase_key, aliases, facts, entry_keys, editing, k) is Some,
    ensures
        first_alias_problem(phrase_key, aliases, facts, entry_keys, editing, n)
            == first_alias_problem(phrase_key, aliases, facts, entry_keys, editing, k),
    decreases n - k,
{
    if k < n {
        lemma_first_problem_sticks(phrase_key, aliases, facts, entry_keys, editing, k, (n - 1) as nat);
    }
}

/// Why the invocation's phrases cannot be saved, or `None` when they can:
/// the trigger against the other invocations, then each committed
/// alternate in order, then a pending one when something is typed.
pub open spec fn entry_problem_of(
    phrase_key: Seq<char>,
    aliases: Seq<String>,
    facts: Seq<PhraseKey>,
    new_alias: Seq<char>,
    new_facts: PhraseKey,
    entry_keys: Seq<Seq<Seq<char>>>,
    editing: Option<usize>,
) -> Option<Seq<char>> {
    if used_elsewhere(entry_keys, editing, phrase_key) {
        Some("Another invocation already uses this phrase as a trigger or alternate."@)
    } else {
        match first_alias_problem(phrase_key, aliases, facts, entry_keys, editing, aliases.len()) {
            Some(m) => Some(m),
            None => if trim(new_alias).len() > 0 {
                candidate_problem_of(
                    phrase_key,
                    facts.map_values(|f: PhraseKey| f.key),
                    new_alias,
                    new_facts,
                    entry_keys,
                    editing,
                )
            } else {
                None
            },
        }
    }
}

/// No prefix of the alternates reports a problem unless one of its
/// alternates does.
proof fn lemma_no_first_problem(
    phrase_key: Seq<char>,
    aliases: Seq<String>,
    facts: Seq<PhraseKey>,
    entry_keys: Seq<Seq<Seq<char>>>,
    editing: Option<usize>,
    n: nat,
)
    requires
        first_alias_problem(phrase_key, aliases, facts, entry_keys, editing, n) is None,
    ensures
        forall|i: int| 0 <= i < n ==> (#[trigger] alias_problem_at(phrase_key, aliases, facts, entry_keys, editing, i)) is None,
    decreases n,
{
    if n > 0 {
        lemma_no_first_problem(phrase_key, aliases, facts, entry_keys, editing, (n - 1) as nat);
    }
}

/// What a save allows: the phrases of an invocation pass only when the
/// trigger is no other invocation's, and every committed alternate has
/// text, has at least two words, differs from the trigger and from every
/// other alternate, and is no other invocation's; a pending alternate, when
/// typed, passes the same tests.
pub proof fn accepted_phrases_are_distinct(
    phrase_key: Seq<char>,
    aliases: Seq<String>,
    facts: Seq<PhraseKey>,
    new_alias: Seq<char>,
    new_facts: PhraseKey,
    entry_keys: Seq<Seq<Seq<char>>>,
    editing: Option<usize>,
)
    requires
        facts.len() == aliases.len(),
        entry_problem_of(phrase_key, aliases, facts, new_alias, new_facts, entry_keys, editing) is None,
    ensures
        !used_elsewhere(entry_keys, editing, phrase_key),
        forall|i: int|
            0 <= i < facts.len() ==> {
                &&& trim(aliases[i]@).len() > 0
                &&& (#[trigger] facts[i]).words >= 2
                &&& facts[i].key@ != phrase_key
                &&& !used_elsewhere(entry_keys, editing, facts[i].key@)
            },
        forall|i: int, j: int| 0 <= i < j < facts.len() ==> (#[trigger] facts[i]).key@ != (#[trigger] facts[j]).key@,
        trim(new_alias).len() > 0 ==> {
            &&& new_facts.words >= 2
            &&& new_facts.key@ != phrase_key
            &&& forall|i: int| 0 <= i < facts.len() ==> (#[trigger] facts[i]).key@ != new_facts.key@
            &&& !used_elsewhere(entry_keys, editing, new_facts.key@)
        },
{
    lemma_no_first_problem(phrase_key, aliases, facts, entry_keys, editing, aliases.len());
    assert forall|i: int| 0 <= i < facts.len() implies trim(aliases[i]@).len() > 0 && (
    #[trigger] facts[i]).words >= 2 && facts[i].key@ != phrase_key && !used_elsewhere(
        entry_keys,
        editing,
        facts[i].key@,
    ) by {
        assert(alias_problem_at(phrase_key, aliases, facts, entry_keys, editing, i) is None);
        assert(MIN_TRIGGER_WORDS == 2);
        assert(trim(aliases[i]@).len() != 0);
    }
    assert forall|i: int| 0 <= i < facts.len() implies trim(aliases[i]@).len() > 0 by {
        assert(facts[i].words >= 2);
    }
    assert forall|i: int, j: int| 0 <= i < j < facts.len() implies (#[trigger] facts[i]).key@ != (#[trigger] facts[j]).key@ by {
        assert(alias_problem_at(phrase_key, aliases, facts, entry_keys, editing, j) is None);
    }
    if trim(new_alias).len() > 0 {
        let keys = facts.map_values(|f: PhraseKey| f.key);
        assert forall|i: int| 0 <= i < facts.len() implies (#[trigger] facts[i]).key@ != new_facts.key@ by {
            if facts[i].key@ == new_facts.key@ {
                assert(keys[i]@ == new_facts.key@);
                assert(among(keys, new_facts.key@));
            }
        }
    }
}

/// What adding an alternate allows: a candidate passes only when it has
/// text and at least two words, and its key is neither the trigger's, nor
/// any committed alternate's, nor any other invocation's.
pub proof fn accepted_candidate_is_new(
    phrase_key: Seq<char>,
    alias_keys: Seq<String>,
    candidate: Seq<char>,
    facts: PhraseKey,
    entry_keys: Seq<Seq<Seq<char>>>,
    editing: Option<usize>,
)
    requires
        candidate_problem_of(phrase_key, alias_keys, candidate, facts, entry_keys, editing) is None,
    ensures
        trim(candidate).len() > 0,
        facts.words >= 2,
        facts.key@ != phrase_key,
        forall|i: int| 0 <= i < alias_keys.len() ==> (#[trigger] alias_keys[i])@ != facts.key@,
        !used_elsewhere(entry_keys, editing, facts.key@),
{
    assert(MIN_TRIGGER_WORDS == 2);
}

/// Whether an invocation other than row `editing` uses `key`.
pub fn phrase_used_by_other_entry(entry_keys: &Vec<Vec<String>>, editing: Option<usize>, key: &str) -> (b: bool)
    ensures
        b == used_elsewhere(keys_view(entry_keys@), editing, key@),
{
    let ghost kv = keys_view(entry_keys@);
    let mut i: usize = 0;
    while i < entry_keys.len()
        invariant
            i <= entry_keys@.len(),
            kv == keys_view(entry_keys@),
            forall|a: int, j: int|
                0 <= a < i && editing != Some(a as usize) && 0 <= j < kv[a].len() ==> #[trigger] kv[a][j] != key@,
        decreases entry_keys@.len() - i,
    {
        if editing != Some(i) {
            let ks = &entry_keys[i];
            let mut j: usize = 0;
            while j < ks.len()
                invariant
                    j <= ks@.len(),
                    i < entry_keys@.len(),
                    *ks == entry_keys@[i as int],
                    kv == keys_view(entry_keys@),
                    editing != Some(i),
                    forall|c: int| 0 <= c < j ==> #[trigger] kv[i as int][c] != key@,
                decreases ks@.len() - j,
            {
                if same_chars(ks[j].as_str(), key) {
                    proof {
                        assert(kv[i as int][j as int] == key@);
                    }
                    return true;
                }
                j = j + 1;
            }
        }
        i = i + 1;
    }
    false
}

/// Whether `key` is one of the first `n` keys of `facts`.
fn seen_before(facts: &Vec<PhraseKey>, n: usize, key: &str) -> (b: bool)
    requires
        n <= facts@.len(),
    ensures
        b == exists|j: int| 0 <= j < n && (#[trigger] facts@[j]).key@ == key@,
{
    let mut j: usize = 0;
    while j < n
        invariant
            j <= n <= facts@.len(),
            forall|c: int| 0 <= c < j ==> (#[trigger] facts@[c]).key@ != key@,
        decreases n - j,
    {
        if same_chars(facts[j].key.as_str(), key) {
            return true;
        }
        j = j + 1;
    }
    false
}

/// Whether `key` is one of `keys`.
fn among_keys(keys: &Vec<String>, key: &str) -> (b: bool)
    ensures
        b == among(keys@, key@),
{
    let mut j: usize = 0;
    while j < keys.len()
        invariant
            j <= keys@.len(),
            forall|c: int| 0 <= c < j ==> (#[trigger] keys@[c])@ != key@,
        decreases keys@.len() - j,
    {
        if same_chars(keys[j].as_str(), key) {
            return true;
        }
        j = j + 1;
    }
    false
}

/// Why the alternate typed in the add field cannot be added, or `None`.
/// `phrase_key` is the trigger's key, `alias_keys` the committed
/// alternates' keys, `facts` the candidate's key and word count.
pub fn candidate_problem(
    phrase_key: &str,
    alias_keys: &Vec<String>,
    candidate: &str,
    facts: &PhraseKey,
    entry_keys: &Vec<Vec<String>>,
    editing: Option<usize>,
) -> (p: Option<&'static str>)
    ensures
        match p {
            Some(s) => candidate_problem_of(phrase_key@, alias_keys@, candidate@, *facts, keys_view(entry_keys@), editing)
                == Some(s@),
            None => candidate_problem_of(phrase_key@, alias_keys@, candidate@, *facts, keys_view(entry_keys@), editing)
                is None,
        },
{
    let t = trim_str(candidate);
    if t.as_str().is_empty() {
        return Some("Enter an alternate phrase.");
    }
    if facts.words < MIN_TRIGGER_WORDS {
        return Some("An alternate phrase needs at least two words.");
    }
    if same_chars(facts.key.as_str(), phrase_key) || among_keys(alias_keys, facts.key.as_str()) {
        return Some("That phrase is already part of this invocation.");
    }
    if phrase_used_by_other_entry(entry_keys, editing, facts.key.as_str()) {
        return Some("Another invocation already uses that phrase as a trigger or alternate.");
    }
    None
}

/// Why the invocation's trigger and alternates cannot be saved, or `None`.
/// `aliases` are the committed alternates and `facts` their keys and word
/// counts, in the same order; `new_alias` is the add field, `new_facts` its
/// key and count.
pub fn entry_problem(
    phrase_key: &str,
    aliases: &Vec<String>,
    facts: &Vec<PhraseKey>,
    new_alias: &str,
    new_facts: &PhraseKey,
    entry_keys: &Vec<Vec<String>>,
    editing: Option<usize>,
) -> (p: Option<&'static str>)
    requires
        facts@.len() == aliases@.len(),
    ensures
        (exists|i: int| 0 <= i < facts@.len() && (#[trigger] facts@[i]).key@ == phrase_key@) ==> p is Some,
        (exists|i: int, j: int| 0 <= i < j < facts@.len() && (#[trigger] facts@[i]).key@ == (#[trigger] facts@[j]).key@)
            ==> p is Some,
        match p {
            Some(s) => entry_problem_of(phrase_key@, aliases@, facts@, new_alias@, *new_facts, keys_view(entry_keys@), editing)
                == Some(s@),
            None => entry_problem_of(phrase_key@, aliases@, facts@, new_alias@, *new_facts, keys_view(entry_keys@), editing)
                is None,
        },
{
    let ghost kv = keys_view(entry_keys@);
    if phrase_used_by_other_entry(entry_keys, editing, phrase_key) {
        return Some("Another invocation already uses this phrase as a trigger or alternate.");
    }
    let mut i: usize = 0;
    while i < aliases.len()
        invariant
            i <= aliases@.len(),
            facts@.len() == aliases@.len(),
            kv == keys_view(entry_keys@),
            !used_elsewhere(kv, editing, phrase_key@),
            first_alias_problem(phrase_key@, aliases@, facts@, kv, editing, i as nat) is None,
        decreases aliases@.len() - i,
    {
        let t = trim_str(aliases[i].as_str());
        let f = &facts[i];
        let problem: Option<&'static str> = if t.as_str().is_empty() {
            Some("Remove the blank alternate phrase.")
        } else if f.words < MIN_TRIGGER_WORDS {
            Some("Each alternate phrase needs at least two words.")
        } else if same_chars(f.key.as_str(), phrase_key) || seen_before(facts, i, f.key.as_str()) {
            Some("An alternate phrase duplicates this trigger or another alternate.")
        } else if phrase_used_by_other_entry(entry_keys, editing, f.key.as_str()) {
            Some("Another invocation already uses one of these alternate phrases.")
        } else {
            None
        };
        proof {
            assert(first_alias_problem(phrase_key@, aliases@, facts@, kv, editing, (i + 1) as nat)
                == alias_problem_at(phrase_key@, aliases@, facts@, kv, editing, i as int));
        }
        match problem {
            Some(m) => {
                proof {
                    lemma_first_problem_sticks(phrase_key@, aliases@, facts@, kv, editing, (i + 1) as nat, aliases@.len());
                }
                return Some(m);
            },
            None => {},
        }
        i = i + 1;
    }
    if trim_str(new_alias).as_str().is_empty() {
        proof {
            accepted_phrases_are_distinct(phrase_key@, aliases@, facts@, new_alias@, *new_facts, kv, editing);
        }
        return None;
    }
    let mut keys: Vec<String> = Vec::new();
    let mut k: usize = 0;
    while k < facts.len()
        invariant
            k <= facts@.len(),
            keys@.len() == k,
            forall|c: int| 0 <= c < k ==> (#[trigger] keys@[c])@ == facts@[c].key@,
        decreases facts@.len() - k,
    {
        keys.push(copy_of(facts[k].key.as_str()));
        k = k + 1;
    }
    let r = candidate_problem(phrase_key, &keys, new_alias, new_facts, entry_keys, editing);
    proof {
        let mapped = facts@.map_values(|f: PhraseKey| f.key);
        assert forall|key: Seq<char>| among(keys@, key) == among(mapped, key) by {
            if among(keys@, key) {
                let c = choose|c: int| 0 <= c < keys@.len() && (#[trigger] keys@[c])@ == key;
                assert(mapped[c]@ == key);
            }
            if among(mapped, key) {
                let c = choose|c: int| 0 <= c < mapped.len() && (#[trigger] mapped[c])@ == key;
                assert(keys@[c]@ == key);
            }
        }
        if r is None {
            accepted_phrases_are_distinct(phrase_key@, aliases@, facts@, new_alias@, *new_facts, kv, editing);
        }
    }
    r
}

/// A copy of `s`.
fn copy_of(s: &str) -> (r: String)
    ensures
        r@ == s@,
{
    let mut r = String::new();
    crate::text::push_str(&mut r, s);
    r
}

} // verus!
