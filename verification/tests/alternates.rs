use hark::alternates::{candidate_problem, entry_problem, phrase_used_by_other_entry, PhraseKey};

// The spellbook tokenizer's readings, written out: its normalised key
// (lower case, punctuation dropped) and its word count.
fn read(key: &str, words: usize) -> PhraseKey {
    PhraseKey { key: key.to_string(), words }
}

fn strings(v: &[&str]) -> Vec<String> {
    v.iter().map(|s| s.to_string()).collect()
}

fn one_entry() -> Vec<Vec<String>> {
    // entry("commit and", ["come in and"])
    vec![strings(&["commit and", "come in and"])]
}

#[test]
fn an_alternate_must_be_two_words_and_unique_within_the_invocation() {
    let none: Vec<Vec<String>> = Vec::new();
    assert!(candidate_problem("commit and", &Vec::new(), "and", &read("and", 1), &none, None)
        .unwrap()
        .contains("at least two words"));
    assert!(candidate_problem("commit and", &Vec::new(), "Commit-And!", &read("commit and", 2), &none, None)
        .unwrap()
        .contains("already part"));
    let aliases = strings(&["come in and"]);
    assert!(candidate_problem("commit and", &aliases, "COME IN AND", &read("come in and", 3), &none, None)
        .unwrap()
        .contains("already part"));
    assert_eq!(
        candidate_problem("commit and", &aliases, "coming in", &read("coming in", 2), &none, None),
        None
    );
}

#[test]
fn triggers_and_alternates_cannot_collide_across_invocations() {
    let entries = one_entry();
    assert!(entry_problem("come in and", &Vec::new(), &Vec::new(), "", &read("", 0), &entries, None).is_some());
    assert!(candidate_problem("another trigger", &Vec::new(), "commit and", &read("commit and", 2), &entries, None)
        .is_some());
    assert!(candidate_problem("another trigger", &Vec::new(), "COME IN AND!", &read("come in and", 3), &entries, None)
        .is_some());
}

#[test]
fn editing_an_entry_may_keep_its_own_alternates() {
    let entries = one_entry();
    assert_eq!(
        entry_problem(
            "commit and",
            &strings(&["come in and"]),
            &vec![read("come in and", 3)],
            "",
            &read("", 0),
            &entries,
            Some(0),
        ),
        None
    );
    assert_eq!(
        candidate_problem(
            "commit and",
            &strings(&["come in and"]),
            "another version",
            &read("another version", 2),
            &entries,
            Some(0),
        ),
        None
    );
}

#[test]
fn each_committed_alternate_is_checked_in_order() {
    let none: Vec<Vec<String>> = Vec::new();
    let blank = entry_problem("commit and", &strings(&["  "]), &vec![read("", 0)], "", &read("", 0), &none, None);
    assert_eq!(blank, Some("Remove the blank alternate phrase."));
    let short = entry_problem("commit and", &strings(&["come"]), &vec![read("come", 1)], "", &read("", 0), &none, None);
    assert_eq!(short, Some("Each alternate phrase needs at least two words."));
    let dup = entry_problem(
        "commit and",
        &strings(&["come in", "Come in!"]),
        &vec![read("come in", 2), read("come in", 2)],
        "",
        &read("", 0),
        &none,
        None,
    );
    assert_eq!(dup, Some("An alternate phrase duplicates this trigger or another alternate."));
    let entries = vec![strings(&["other one", "come in"])];
    let taken = entry_problem("commit and", &strings(&["come in"]), &vec![read("come in", 2)], "", &read("", 0), &entries, None);
    assert_eq!(taken, Some("Another invocation already uses one of these alternate phrases."));
    let pending = entry_problem("commit and", &Vec::new(), &Vec::new(), "x", &read("x", 1), &none, None);
    assert_eq!(pending, Some("An alternate phrase needs at least two words."));
    assert_eq!(
        candidate_problem("commit and", &Vec::new(), "   ", &read("", 0), &none, None),
        Some("Enter an alternate phrase.")
    );
}

#[test]
fn the_edited_row_never_collides_with_itself() {
    let entries = vec![strings(&["commit and"]), strings(&["push it", "ship it"])];
    assert!(!phrase_used_by_other_entry(&entries, Some(0), "commit and"));
    assert!(phrase_used_by_other_entry(&entries, None, "commit and"));
    assert!(phrase_used_by_other_entry(&entries, Some(0), "ship it"));
    assert!(!phrase_used_by_other_entry(&entries, Some(1), "ship it"));
}
