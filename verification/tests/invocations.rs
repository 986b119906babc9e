use hark::invocations::{
    scope_note, shadowed, skip_reason, Draft, Invocation, InvocationsPage, Outcome, Scope,
    MIN_TRIGGER_WORDS,
};

// The dictionary's tokenizer splits on anything that is not a letter or a
// digit and compares lowercase words; these are its answers for the
// phrases used below, written out by hand.
fn keys(v: &[&str]) -> Vec<String> {
    v.iter().map(|s| s.to_string()).collect()
}

fn entry(phrase: &str, expansion: &str) -> Invocation {
    Invocation { phrase: phrase.to_string(), expansion: expansion.to_string(), scope: Scope::Utterance }
}

fn draft(phrase: &str) -> Draft {
    let mut d = Draft::new_entry();
    d.set_phrase(phrase.to_string());
    d
}

#[test]
fn the_trigger_minimum_matches_the_copy() {
    assert_eq!(MIN_TRIGGER_WORDS, 2);
}

#[test]
fn a_blank_or_one_word_trigger_blocks_save() {
    assert!(draft("").problem(0, false).unwrap().contains("Enter a trigger"));
    assert!(draft("   ").problem(0, false).is_some());
    assert!(draft("granted").problem(1, false).unwrap().contains("two words"));
}

#[test]
fn a_two_word_trigger_is_accepted() {
    assert_eq!(draft("access granted").problem(2, false), None);
    // Hyphens split, so "access-granted" is two words.
    assert_eq!(draft("access-granted").problem(2, false), None);
}

#[test]
fn a_duplicate_trigger_blocks_save() {
    let existing = keys(&["access granted"]);
    let d = draft("Access-Granted!");
    let clash = d.clashes(&existing, "access granted");
    assert!(clash);
    assert!(d.problem(2, clash).unwrap().contains("already uses"));
}

#[test]
fn editing_a_row_does_not_clash_with_itself() {
    let rows = [entry("access granted", "text"), entry("ticket closed", "text")];
    let existing = keys(&["access granted", "ticket closed"]);
    let mut d = Draft::existing(0, &rows[0]);
    let clash = d.clashes(&existing, "access granted");
    assert_eq!(d.problem(2, clash), None);
    d.set_phrase("ticket closed".to_string());
    let clash = d.clashes(&existing, "ticket closed");
    assert!(d.problem(2, clash).is_some());
}

#[test]
fn new_entries_default_to_whole_dictation_scope() {
    assert_eq!(Draft::new_entry().scope(), Scope::Utterance);
}

#[test]
fn existing_entries_load_their_own_values() {
    let source = Invocation {
        phrase: "ticket closed".to_string(),
        expansion: "Closing this out.\nThanks!".to_string(),
        scope: Scope::Anywhere,
    };
    let d = Draft::existing(3, &source);
    assert_eq!(d.index(), Some(3));
    assert_eq!(d.phrase(), "ticket closed");
    assert_eq!(d.expansion(), "Closing this out.\nThanks!");
    assert_eq!(d.scope(), Scope::Anywhere);
}

#[test]
fn an_armed_entry_has_no_warning() {
    assert_eq!(skip_reason(2, false, shadowed(&keys(&["access granted"]), 0)), None);
}

#[test]
fn skip_reason_names_each_way_an_entry_can_be_dead() {
    assert!(skip_reason(1, false, false).unwrap().contains("two words"));
    assert!(skip_reason(2, true, false).unwrap().contains("no text"));
    // "access-granted" tokenizes to two words.
    assert_eq!(skip_reason(2, false, false), None);
}

#[test]
fn only_the_later_duplicate_is_flagged() {
    // "access granted" and "Access-Granted!" share a key.
    let k = keys(&["access granted", "access granted"]);
    assert_eq!(skip_reason(2, false, shadowed(&k, 0)), None);
    assert!(skip_reason(2, false, shadowed(&k, 1)).unwrap().contains("already uses"));
}

#[test]
fn save_trims_the_trigger_and_keeps_the_text_byte_for_byte() {
    let mut d = draft("  access granted  ");
    d.set_expansion("  Line one\nLine two  ".to_string());
    d.set_scope(Scope::Anywhere);
    assert!(d.saveable(true));
    assert!(!d.saveable(false));
    match d.save() {
        Outcome::Saved(e, index) => {
            assert_eq!(e.phrase, "access granted");
            assert_eq!(e.expansion, "  Line one\nLine two  ");
            assert_eq!(e.scope, Scope::Anywhere);
            assert_eq!(index, None);
        }
        _ => panic!("expected a save"),
    }
    assert!(d.delete().is_none(), "a new entry has nothing to delete");
    assert!(!draft("access granted").saveable(true), "no text to type, no save");
}

#[test]
fn the_test_matcher_is_rebuilt_only_after_a_change() {
    let mut d = Draft::new_entry();
    assert!(d.take_preview_dirty());
    assert!(!d.take_preview_dirty());
    d.set_scope(Scope::Utterance);
    assert!(!d.take_preview_dirty(), "picking the same scope changes nothing");
    d.set_scope(Scope::Anywhere);
    assert!(d.take_preview_dirty());
    d.set_probe("access granted".to_string());
    assert!(d.take_preview_dirty());
    assert_eq!(d.title(), "New invocation");
    assert!(scope_note(Scope::Anywhere).unwrap().contains("skips your cleanup voice"));
    assert_eq!(scope_note(Scope::Utterance), None);
}

#[test]
fn the_page_applies_saves_and_deletes() {
    let mut page = InvocationsPage::new();
    let mut rows = vec![entry("access granted", "a")];
    page.open_new();
    assert!(page.is_editing());
    assert!(!page.apply(Outcome::Open, &mut rows));
    assert!(page.is_editing());
    assert!(page.apply(Outcome::Saved(entry("ticket closed", "b"), None), &mut rows));
    assert!(!page.is_editing());
    assert_eq!(rows.len(), 2);

    page.open_existing(&rows, 0);
    assert_eq!(page.draft().map(|d| d.title()), Some("Edit invocation"));
    assert!(page.apply(Outcome::Saved(entry("access denied", "c"), Some(0)), &mut rows));
    assert_eq!(rows[0].phrase, "access denied");

    // A row deleted elsewhere mid-edit: append rather than lose the text.
    assert!(page.apply(Outcome::Saved(entry("late save", "d"), Some(9)), &mut rows));
    assert_eq!(rows.len(), 3);
    assert_eq!(rows[2].phrase, "late save");

    assert!(page.apply(Outcome::Deleted(9), &mut rows), "out of range removes nothing");
    assert_eq!(rows.len(), 3);
    assert!(page.apply(Outcome::Deleted(1), &mut rows));
    assert_eq!(rows.len(), 2);

    page.open_new();
    assert!(!page.apply(Outcome::Cancelled, &mut rows));
    assert!(!page.is_editing());

    page.open_existing(&rows, 1);
    page.delete(&mut rows, 0);
    assert!(!page.is_editing());
    assert_eq!(rows.len(), 1);
}

#[test]
fn opening_a_row_starts_from_all_of_its_values() {
    let mut page = InvocationsPage::new();
    let rows = vec![
        entry("access granted", "a"),
        Invocation { phrase: "sign off".to_string(), expansion: "Best,\nHark".to_string(), scope: Scope::Anywhere },
    ];
    page.open_existing(&rows, 1);
    let d = parts(page.draft().expect("open"));
    assert_eq!(d, (Some(1), "sign off".to_string(), "Best,\nHark".to_string(), Scope::Anywhere));

    page.open_new();
    let n = parts(page.draft().expect("open"));
    assert_eq!(n, (None, String::new(), String::new(), Scope::Utterance));
}

fn parts(d: &Draft) -> (Option<usize>, String, String, Scope) {
    (d.index(), d.phrase().to_string(), d.expansion().to_string(), d.scope())
}
