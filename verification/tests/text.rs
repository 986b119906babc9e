use hark::dictionary;
use hark::footer::intercepted_explanation;
use hark::history;
use hark::invocations;
use hark::settings::none_if_empty;
use hark::spellbook::{add_alias, add_entry, commit_edit, is_common_word, remove_alias, undo_add, SpellbookEntry};
use hark::spellbook_terms;
use hark::text::contains_str;

fn entry(term: &str, aliases: &[&str]) -> SpellbookEntry {
    SpellbookEntry {
        term: term.to_string(),
        aliases: aliases.iter().map(|a| a.to_string()).collect(),
    }
}

#[test]
fn dictionary_add_trims_dedupes_and_rejects_empty() {
    let mut terms = vec!["Hark".to_string()];
    assert!(dictionary::add_term(&mut terms, "  Deepgram  "));
    assert_eq!(terms, ["Hark", "Deepgram"]);
    assert!(!dictionary::add_term(&mut terms, "Hark"));
    assert!(!dictionary::add_term(&mut terms, "   "));
    assert_eq!(terms.len(), 2);
}

#[test]
fn dictionary_edit_replaces_in_place_and_reverts_on_bad_input() {
    let mut terms = vec!["Hark".to_string(), "Deepgram".to_string()];
    assert!(dictionary::commit_edit(&mut terms, 0, " Harken "));
    assert_eq!(terms[0], "Harken");
    assert!(!dictionary::commit_edit(&mut terms, 0, "  "));
    assert_eq!(terms[0], "Harken");
    assert!(!dictionary::commit_edit(&mut terms, 0, "Deepgram"));
    assert_eq!(terms[0], "Harken");
    assert!(!dictionary::commit_edit(&mut terms, 1, "Deepgram"));
    assert!(!dictionary::commit_edit(&mut terms, 9, "x"));
}

#[test]
fn spellbook_add_trims_dedupes_and_rejects_empty() {
    let mut terms = vec!["Hark".to_string()];
    assert!(spellbook_terms::add_term(&mut terms, "  Deepgram  "));
    assert_eq!(terms, ["Hark", "Deepgram"]);
    assert!(!spellbook_terms::add_term(&mut terms, "Hark"));
    assert!(!spellbook_terms::add_term(&mut terms, "   "));
    assert_eq!(terms.len(), 2);
}

#[test]
fn undo_removes_the_added_term_and_tolerates_it_being_gone() {
    let mut terms = vec!["Hark".to_string(), "Eldrazi".to_string()];
    assert!(spellbook_terms::undo_add(&mut terms, "Eldrazi"));
    assert_eq!(terms, ["Hark"]);
    assert!(!spellbook_terms::undo_add(&mut terms, "Eldrazi"));
    assert_eq!(terms, ["Hark"]);
}

#[test]
fn spellbook_edit_replaces_in_place_and_reverts_on_bad_input() {
    let mut terms = vec!["Hark".to_string(), "Deepgram".to_string()];
    assert!(spellbook_terms::commit_edit(&mut terms, 0, " Harken "));
    assert_eq!(terms[0], "Harken");
    assert!(!spellbook_terms::commit_edit(&mut terms, 0, "  "));
    assert_eq!(terms[0], "Harken");
    assert!(!spellbook_terms::commit_edit(&mut terms, 0, "Deepgram"));
    assert_eq!(terms[0], "Harken");
    assert!(!spellbook_terms::commit_edit(&mut terms, 1, "Deepgram"));
    assert!(!spellbook_terms::commit_edit(&mut terms, 9, "x"));
}

#[test]
fn edit_add_trims_dedupes_and_rejects_empty() {
    let mut entries = vec![entry("Hark", &[])];
    assert!(add_entry(&mut entries, "  Deepgram  ", ""));
    assert_eq!(entries[1].term, "Deepgram");
    assert!(!add_entry(&mut entries, "Hark", ""));
    assert!(!add_entry(&mut entries, "   ", ""));
    assert_eq!(entries.len(), 2);
}

#[test]
fn adding_an_existing_term_merges_the_alias_instead_of_refusing() {
    let mut entries = vec![entry("Eldrazi", &["Al Drazi"])];
    assert!(add_entry(&mut entries, "Eldrazi", "El Drossy"));
    assert_eq!(entries.len(), 1, "no duplicate row");
    assert_eq!(entries[0].aliases, ["Al Drazi", "El Drossy"]);
    assert!(!add_entry(&mut entries, "Eldrazi", "al drazi"));
    assert_eq!(entries[0].aliases.len(), 2);
}

#[test]
fn an_alias_equal_to_its_own_term_is_dropped() {
    let mut entries = Vec::new();
    assert!(add_entry(&mut entries, "Eldrazi", "eldrazi"));
    assert!(
        entries[0].aliases.is_empty(),
        "a self-alias is a no-op match and only clutters the row"
    );
}

#[test]
fn edit_replaces_the_term_and_keeps_its_aliases() {
    let mut entries = vec![entry("Hark", &["park"]), entry("Deepgram", &[])];
    assert!(commit_edit(&mut entries, 0, " Harken "));
    assert_eq!(entries[0].term, "Harken");
    assert_eq!(entries[0].aliases, ["park"], "aliases survive a term edit");
    assert!(!commit_edit(&mut entries, 0, "  "));
    assert!(!commit_edit(&mut entries, 0, "Deepgram"));
    assert!(!commit_edit(&mut entries, 1, "Deepgram"));
    assert!(!commit_edit(&mut entries, 9, "x"));
    assert_eq!(entries[0].term, "Harken");
}

#[test]
fn aliases_are_added_and_removed_without_panicking_out_of_range() {
    let mut entries = vec![entry("Eldrazi", &[])];
    assert!(add_alias(&mut entries, 0, " Al Drazi "));
    assert_eq!(entries[0].aliases, ["Al Drazi"]);
    assert!(!add_alias(&mut entries, 0, "al drazi"), "case-insensitive dupe");
    assert!(!add_alias(&mut entries, 0, "Eldrazi"), "equals its own term");
    assert!(!add_alias(&mut entries, 0, "   "));
    assert!(!add_alias(&mut entries, 9, "x"));
    assert!(remove_alias(&mut entries, 0, 0));
    assert!(entries[0].aliases.is_empty());
    assert!(!remove_alias(&mut entries, 0, 0));
    assert!(!remove_alias(&mut entries, 9, 0));
}

#[test]
fn undo_removes_the_added_entry_and_tolerates_it_being_gone() {
    let mut entries = vec![entry("Hark", &[]), entry("Eldrazi", &["Al Drazi"])];
    assert!(undo_add(&mut entries, "Eldrazi"));
    assert_eq!(entries.len(), 1);
    assert!(!undo_add(&mut entries, "Eldrazi"));
    assert_eq!(entries.len(), 1);
}

#[test]
fn common_word_guard_flags_the_dangerous_aliases_only() {
    assert!(is_common_word("there"));
    assert!(is_common_word("The Way"));
    assert!(is_common_word("out of time"));
    assert!(!is_common_word("Al Drazi"));
    assert!(!is_common_word("the Eldrazi"));
    assert!(!is_common_word("Modero"));
    assert!(!is_common_word(""));
    assert!(!is_common_word("   "));
}

#[test]
fn common_word_guard_ignores_punctuation_and_rejects_bare_punctuation() {
    assert!(is_common_word("The, way!"));
    assert!(!is_common_word("..."));
    assert!(is_common_word("\u{00a0}you\u{2003}and\tme\n"));
}

#[test]
fn row_preview_flattens_whitespace_and_truncates_on_char_boundaries() {
    let n = history::PREVIEW_CHARS;
    assert_eq!(history::preview("one\ntwo\t three"), "one two three");
    let short = "word ".repeat(4);
    assert_eq!(history::preview(&short), "word word word word");
    let long = "abcde ".repeat(60);
    let cut = history::preview(&long);
    assert!(cut.ends_with('…'));
    assert!(cut.chars().count() <= n + 1);
    let emoji = "🎤".repeat(n + 20);
    let cut = history::preview(&emoji);
    assert!(cut.ends_with('…'));
    assert_eq!(cut.chars().count(), n + 1);
}

#[test]
fn mod_preview_flattens_whitespace_and_truncates_on_char_boundaries() {
    let n = invocations::PREVIEW_CHARS;
    assert_eq!(invocations::preview("one\ntwo\t three"), "one two three");
    let long = "abcde ".repeat(40);
    let cut = invocations::preview(&long);
    assert!(cut.ends_with('\u{2026}'));
    assert!(cut.chars().count() <= n + 1);
    let emoji = "\u{1F3A4}".repeat(n + 20);
    assert_eq!(invocations::preview(&emoji).chars().count(), n + 1);
}

#[test]
fn preview_drops_the_space_at_the_cut() {
    // "abcd " repeated: the 80th character is a space, so the cut keeps 79.
    let cut = invocations::preview(&"abcd ".repeat(40));
    assert_eq!(cut, format!("{}…", "abcd ".repeat(15) + "abcd"));
    let cut = invocations::preview(&"abcde ".repeat(40));
    assert_eq!(cut, format!("{}…", "abcde ".repeat(13) + "ab"));
    assert_eq!(invocations::preview("   "), "");
}

#[test]
fn empty_and_whitespace_inputs_mean_unset() {
    assert_eq!(none_if_empty(""), None);
    assert_eq!(none_if_empty("   "), None);
    assert_eq!(none_if_empty(" nova-3 "), Some("nova-3".to_string()));
}

#[test]
fn the_interception_explanation_names_the_key_and_both_ways_out() {
    let text = intercepted_explanation("F12");
    assert!(text.contains("F12"));
    assert!(text.contains("PowerToys"), "name the usual culprit");
    assert!(text.contains("Remove"), "fix one: remove the mapping");
    assert!(text.contains("choose a shortcut"), "fix two: change Hark's");
    assert!(text.contains("will not work as a shortcut"));
}

#[test]
fn the_interception_explanation_names_the_key_three_times() {
    assert_eq!(intercepted_explanation("F12").matches("F12").count(), 3);
}

#[test]
fn edits_never_create_duplicates() {
    let mut terms = vec!["a".to_string(), "b".to_string()];
    assert!(!dictionary::commit_edit(&mut terms, 1, " a "));
    assert!(!dictionary::add_term(&mut terms, "b"));
    assert_eq!(terms, ["a", "b"]);
}

#[test]
fn contains_finds_runs_anywhere() {
    assert!(contains_str("download cancelled", "cancelled"));
    assert!(contains_str("cancelled", "cancelled"));
    assert!(contains_str("abc", ""));
    assert!(contains_str("", ""));
    assert!(!contains_str("cancel", "cancelled"));
    assert!(!contains_str("Cancelled", "cancelled"));
    assert!(contains_str("aab", "ab"));
}
