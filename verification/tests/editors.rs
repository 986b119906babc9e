use hark::dictionary::DictionaryPage;
use hark::spellbook_terms::SpellbookPage;

fn terms(v: &[&str]) -> Vec<String> {
    v.iter().map(|s| s.to_string()).collect()
}

#[test]
fn the_add_field_adds_trimmed_terms_and_clears() {
    let mut page = DictionaryPage::new();
    let mut list = terms(&["Hark"]);
    page.editor_mut().set_add("  Deepgram ".to_string());
    assert!(page.editor_mut().submit_add(&mut list));
    assert_eq!(list, terms(&["Hark", "Deepgram"]));
    assert_eq!(page.editor().add_text(), "");
    page.editor_mut().set_add("Hark".to_string());
    assert!(!page.editor_mut().submit_add(&mut list), "duplicates are refused");
    assert_eq!(page.editor().add_text(), "", "the field clears either way");
    assert_eq!(list.len(), 2);
}

#[test]
fn a_row_edit_commits_on_blur_and_reverts_on_escape() {
    let mut page = DictionaryPage::new();
    let mut list = terms(&["Hark", "Deepgram"]);
    let editor = page.editor_mut();
    editor.start_edit(&list, 0);
    assert!(editor.take_edit_focus());
    assert!(!editor.take_edit_focus(), "focus is asked for once");
    editor.set_edit_buffer(" Harken ".to_string());
    editor.cancel_edit();
    assert!(!editor.finish_edit(&mut list), "nothing to commit after Esc");
    assert_eq!(list, terms(&["Hark", "Deepgram"]));

    editor.start_edit(&list, 0);
    editor.set_edit_buffer(" Harken ".to_string());
    assert!(editor.finish_edit(&mut list));
    assert_eq!(list, terms(&["Harken", "Deepgram"]));

    editor.start_edit(&list, 0);
    editor.set_edit_buffer("Deepgram".to_string());
    assert!(!editor.finish_edit(&mut list), "a duplicate reverts");
    assert_eq!(list, terms(&["Harken", "Deepgram"]));
}

#[test]
fn delete_removes_the_row_and_ends_any_edit() {
    let mut page = DictionaryPage::new();
    let mut list = terms(&["a", "b", "c"]);
    page.editor_mut().start_edit(&list, 2);
    page.editor_mut().delete(&mut list, 1);
    assert_eq!(list, terms(&["a", "c"]));
    page.editor_mut().set_edit_buffer("z".to_string());
    assert!(!page.editor_mut().finish_edit(&mut list));
    assert_eq!(list, terms(&["a", "c"]));
    page.set_notice(Some("disk full".to_string()));
    assert_eq!(page.notice().map(String::as_str), Some("disk full"));
}

#[test]
fn priming_from_history_explains_the_prefill() {
    let mut page = SpellbookPage::new();
    page.set_notice(Some("disk full".to_string()));
    page.prime_add("Al Drazi".to_string());
    assert_eq!(page.editor().add_text(), "Al Drazi");
    assert_eq!(
        page.heard_line(),
        Some("Hark heard \u{201c}Al Drazi\u{201d}. Type the correct spelling and add it.".to_string())
    );
    assert!(page.take_add_focus());
    assert!(!page.take_add_focus());
    assert_eq!(page.notice().map(String::as_str), Some("disk full"));
}

#[test]
fn an_add_is_offered_for_one_click_undo() {
    let mut page = SpellbookPage::new();
    let mut list = terms(&["Hark"]);
    page.prime_add("Al Drazi".to_string());
    page.editor_mut().set_add(" Eldrazi ".to_string());
    assert!(page.submit_add(&mut list));
    assert_eq!(list, terms(&["Hark", "Eldrazi"]));
    assert_eq!(page.heard_line(), None, "the prefill is gone once added");
    assert_eq!(page.undo_line(), Some("Added \u{201c}Eldrazi\u{201d}".to_string()));
    assert!(page.undo(&mut list));
    assert_eq!(list, terms(&["Hark"]));
    assert_eq!(page.undo_line(), None);
    assert!(!page.undo(&mut list));
}

#[test]
fn undo_tolerates_a_term_deleted_by_hand() {
    let mut page = SpellbookPage::new();
    let mut list = terms(&["Hark"]);
    page.editor_mut().set_add("Eldrazi".to_string());
    page.submit_add(&mut list);
    page.editor_mut().delete(&mut list, 1);
    assert!(!page.undo(&mut list));
    assert_eq!(list, terms(&["Hark"]));
}

#[test]
fn a_refused_add_keeps_the_previous_undo() {
    let mut page = SpellbookPage::new();
    let mut list = terms(&["Hark"]);
    page.editor_mut().set_add("Eldrazi".to_string());
    page.submit_add(&mut list);
    page.editor_mut().set_add("Hark".to_string());
    assert!(!page.submit_add(&mut list));
    assert_eq!(page.undo_line(), Some("Added \u{201c}Eldrazi\u{201d}".to_string()));
}

#[test]
fn undo_removes_only_the_added_term_and_keeps_the_rest_in_order() {
    let mut page = SpellbookPage::new();
    let mut list = terms(&["Hark", "Deepgram"]);
    page.editor_mut().set_add("Eldrazi".to_string());
    assert!(page.submit_add(&mut list));
    list.push("Parakeet".to_string());
    assert!(page.undo(&mut list));
    assert_eq!(list, terms(&["Hark", "Deepgram", "Parakeet"]));
}
