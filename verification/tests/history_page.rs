use hark::history::{Action, Entry};
use hark::history_page::{day_starts, no_dictations_caption, Body, HistoryPage, RowEffect, PAGE_SIZE};

fn entry(id: i64, text: &str) -> Entry {
    Entry {
        id,
        ts_ms: 1_000 * id,
        raw_text: format!("raw {text}"),
        final_text: text.to_string(),
        voice: "clean".to_string(),
        stt_provider: "deepgram".to_string(),
        stt_model: "nova-3".to_string(),
        cleanup_model: None,
        stt_ms: 300,
        cleanup_ms: None,
        total_ms: 450,
    }
}

fn loaded(rows: Vec<Entry>, matching: u64, total: u64) -> HistoryPage {
    let mut page = HistoryPage::new();
    page.fetched(1, Ok((rows, matching, total)));
    page
}

#[test]
fn queries_run_only_when_the_cache_key_moves() {
    let mut page = HistoryPage::new();
    assert!(page.needs_query(0));
    page.fetched(0, Ok((vec![entry(1, "one")], 1, 1)));
    assert!(!page.needs_query(0), "an idle frame never touches the database");
    assert!(page.needs_query(1), "a write landed");
    page.set_search("one".to_string());
    assert!(page.needs_query(0), "the search changed");
    page.fetched(0, Ok((vec![entry(1, "one")], 1, 1)));
    assert!(!page.needs_query(0));
    page.show_more();
    assert!(page.needs_query(0), "another window was asked for");
    assert_eq!(page.row_limit(), 2 * PAGE_SIZE);
}

#[test]
fn editing_the_search_resets_to_one_window() {
    let mut page = HistoryPage::new();
    page.show_more();
    page.show_more();
    assert_eq!(page.row_limit(), 3 * PAGE_SIZE);
    page.set_search(String::new());
    assert_eq!(page.row_limit(), 3 * PAGE_SIZE, "no edit, no reset");
    page.set_search("hello".to_string());
    assert_eq!(page.row_limit(), PAGE_SIZE);
}

#[test]
fn a_whitespace_search_filters_nothing() {
    let mut page = HistoryPage::new();
    assert_eq!(page.search_filter(), None);
    page.set_search("   ".to_string());
    assert_eq!(page.search_filter(), None);
    page.set_search(" deploy ".to_string());
    assert_eq!(page.search_filter(), Some(" deploy "));
}

#[test]
fn the_body_explains_every_empty_case() {
    let mut page = HistoryPage::new();
    page.fetched(0, Err("database is locked".to_string()));
    assert_eq!(page.body(), Body::ReadError);
    assert!(!page.needs_query(0), "a broken reader is not re-queried every frame");
    page.fetched(1, Ok((vec![], 0, 0)));
    assert_eq!(page.body(), Body::NoDictations);
    page.set_search("  zebra ".to_string());
    page.fetched(1, Ok((vec![], 0, 4)));
    assert_eq!(page.body(), Body::NoMatches);
    assert_eq!(page.no_matches_title(), "No matches for \"zebra\".");
    page.fetched(1, Ok((vec![entry(1, "zebra")], 1, 4)));
    assert_eq!(page.body(), Body::List);
    assert_eq!(no_dictations_caption("Ctrl+Win"), "Hold Ctrl+Win and speak into any text field.");
}

#[test]
fn the_count_names_dictations_or_matches() {
    let mut page = loaded(vec![entry(1, "a")], 1, 1);
    assert_eq!(page.count_label(), "1 dictation");
    page.fetched(1, Ok((vec![entry(1, "a")], 1, 1_234)));
    assert_eq!(page.count_label(), "1,234 dictations");
    page.set_search("a".to_string());
    page.fetched(1, Ok((vec![entry(1, "a")], 3, 1_234)));
    assert_eq!(page.count_label(), "3 matches");
}

#[test]
fn rows_toggle_copy_and_delete() {
    let mut page = loaded(vec![entry(7, "seven"), entry(5, "five")], 2, 2);
    assert!(matches!(page.apply(Some(Action::Toggle(7))), RowEffect::Nothing));
    assert_eq!(page.expanded(), Some(7));
    page.apply(Some(Action::Toggle(5)));
    assert_eq!(page.expanded(), Some(5), "at most one row is expanded");
    page.apply(Some(Action::Toggle(5)));
    assert_eq!(page.expanded(), None);

    match page.apply(Some(Action::Copy(5))) {
        RowEffect::CopyText(t) => assert_eq!(t, "five"),
        _ => panic!("expected a copy"),
    }
    assert_eq!(page.copied(), Some(5));
    assert!(matches!(page.apply(Some(Action::Copy(99))), RowEffect::Nothing));
    assert_eq!(page.copied(), Some(5));

    page.apply(Some(Action::Toggle(7)));
    assert!(matches!(page.apply(Some(Action::Delete(7))), RowEffect::Delete(7)));
    assert_eq!(page.expanded(), None, "a deleted row cannot stay expanded");
    assert!(matches!(page.apply(None), RowEffect::Nothing));
}

#[test]
fn a_row_that_disappears_collapses() {
    let mut page = loaded(vec![entry(7, "seven"), entry(5, "five")], 2, 2);
    page.apply(Some(Action::Toggle(5)));
    page.fetched(2, Ok((vec![entry(5, "five")], 1, 1)));
    assert_eq!(page.expanded(), Some(5));
    page.fetched(3, Ok((vec![entry(7, "seven")], 1, 1)));
    assert_eq!(page.expanded(), None);
}

#[test]
fn show_more_appears_while_rows_remain() {
    let page = loaded(vec![entry(1, "a")], 3, 3);
    assert!(page.has_more());
    let page = loaded(vec![entry(1, "a")], 1, 3);
    assert!(!page.has_more());
}

#[test]
fn clearing_asks_first_and_counts_what_goes() {
    let mut page = loaded(vec![entry(1, "a")], 5, 5);
    page.apply(Some(Action::Toggle(1)));
    page.ask_clear();
    let confirm = page.pending_confirm().expect("confirmation pending");
    assert_eq!(confirm.title, "Clear history?");
    assert_eq!(confirm.body, "Deletes 5 entries from this device. Lifetime stats are untouched.");
    assert_eq!(confirm.action, "Delete 5 entries");
    page.escape();
    assert_eq!(page.expanded(), Some(1), "the confirmation owns Esc");
    page.resolve_clear(false);
    assert!(page.pending_confirm().is_none());
    assert_eq!(page.expanded(), Some(1));
    page.ask_clear();
    page.resolve_clear(true);
    assert_eq!(page.expanded(), None);
    page.apply(Some(Action::Toggle(1)));
    page.escape();
    assert_eq!(page.expanded(), None);
}

#[test]
fn day_headers_open_each_new_day() {
    let labels: Vec<String> = ["Today", "Today", "Yesterday", "July 3", "July 3"]
        .iter()
        .map(|s| s.to_string())
        .collect();
    assert_eq!(day_starts(&labels), vec![true, false, true, true, false]);
    assert!(day_starts(&vec![]).is_empty());
}
