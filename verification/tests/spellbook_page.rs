use hark::spellbook::SpellbookEntry;
use hark::spellbook_page::{alias_label, alias_warning, SpellbookPage};

fn entry(term: &str, aliases: &[&str]) -> SpellbookEntry {
    SpellbookEntry { term: term.to_string(), aliases: aliases.iter().map(|a| a.to_string()).collect() }
}

fn terms(entries: &[SpellbookEntry]) -> Vec<&str> {
    entries.iter().map(|e| e.term.as_str()).collect()
}

#[test]
fn a_history_handoff_keeps_the_misheard_spelling_as_the_alias() {
    let mut page = SpellbookPage::new();
    let mut entries = vec![entry("Hark", &[])];
    page.prime_add("Al Drazi".to_string());
    assert_eq!(
        page.heard_line(),
        Some(
            "Hark heard \u{201c}Al Drazi\u{201d}. Type the correct spelling; the misheard version is kept below so it is corrected next time."
                .to_string()
        )
    );
    assert!(page.take_add_focus());
    assert!(!page.can_add());
    page.set_add(" Eldrazi ".to_string());
    assert!(page.can_add());
    assert!(page.submit_add(&mut entries));
    assert_eq!(entries[1].term, "Eldrazi");
    assert_eq!(entries[1].aliases, vec!["Al Drazi".to_string()]);
    assert_eq!(page.heard_line(), None);
    assert_eq!(page.undo_line(), Some("Added \u{201c}Eldrazi\u{201d}".to_string()));
    assert!(page.undo(&mut entries));
    assert_eq!(terms(&entries), vec!["Hark"]);
    assert_eq!(page.undo_line(), None);
}

#[test]
fn adding_an_existing_term_merges_its_spelling() {
    let mut page = SpellbookPage::new();
    let mut entries = vec![entry("Eldrazi", &["El Drazi"])];
    page.set_advanced(true);
    page.set_add("Eldrazi".to_string());
    page.set_add_alias("Al Drazi".to_string());
    assert!(page.submit_add(&mut entries));
    assert_eq!(entries.len(), 1);
    assert_eq!(entries[0].aliases, vec!["El Drazi".to_string(), "Al Drazi".to_string()]);
    page.set_add("Eldrazi".to_string());
    assert!(!page.submit_add(&mut entries), "nothing new to merge");
}

#[test]
fn term_edits_keep_aliases_and_revert_on_bad_input() {
    let mut page = SpellbookPage::new();
    let mut entries = vec![entry("Hark", &["Hawk"]), entry("Deepgram", &[])];
    page.start_edit(&entries, 0);
    assert!(page.take_edit_focus());
    page.set_edit_buffer(" Harken ".to_string());
    assert!(page.finish_edit(&mut entries));
    assert_eq!(entries[0].term, "Harken");
    assert_eq!(entries[0].aliases, vec!["Hawk".to_string()]);
    page.start_edit(&entries, 0);
    page.set_edit_buffer("Deepgram".to_string());
    assert!(!page.finish_edit(&mut entries));
    assert_eq!(entries[0].term, "Harken");
    page.start_edit(&entries, 1);
    page.set_edit_buffer("x".to_string());
    page.cancel_edit();
    assert!(!page.finish_edit(&mut entries));
    assert_eq!(entries[1].term, "Deepgram");
}

#[test]
fn alias_lists_open_one_at_a_time() {
    let mut page = SpellbookPage::new();
    let mut entries = vec![entry("Eldrazi", &[]), entry("Hark", &[])];
    page.toggle_aliases(0);
    page.set_new_alias(" Al Drazi ".to_string());
    assert!(page.submit_alias(&mut entries, 0));
    assert_eq!(entries[0].aliases, vec!["Al Drazi".to_string()]);
    page.set_new_alias("eldrazi".to_string());
    assert!(!page.submit_alias(&mut entries, 0), "the entry's own term is not an alias");
    page.set_new_alias("x".to_string());
    assert!(!page.submit_alias(&mut entries, 9), "out of range never panics");
    assert!(page.remove_alias_at(&mut entries, 0, 0));
    assert!(entries[0].aliases.is_empty());
    assert!(!page.remove_alias_at(&mut entries, 0, 0));
    page.toggle_aliases(0);
    page.toggle_aliases(1);
    page.delete(&mut entries, 1);
    assert_eq!(terms(&entries), vec!["Eldrazi"]);
}

#[test]
fn alias_links_count_and_everyday_words_warn() {
    assert_eq!(alias_label(0), "Advanced");
    assert_eq!(alias_label(1), "1 alias");
    assert_eq!(alias_label(12), "12 aliases");
    assert!(alias_warning("the").is_some());
    assert!(alias_warning("Al Drazi").is_none());
    assert_eq!(
        alias_warning("and"),
        Some("That is an everyday word, so this would fire whenever you say it. Use a longer phrase if you can.")
    );
}

#[test]
fn notices_stay_until_cleared() {
    let mut page = SpellbookPage::new();
    assert_eq!(page.notice(), None);
    page.set_notice(Some("disk full".to_string()));
    assert_eq!(page.notice(), Some("disk full"));
    page.set_notice(None);
    assert_eq!(page.notice(), None);
}
