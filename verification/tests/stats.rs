use hark::stats::{
    average_total_ms, card_values, since_line, time_saved_line, unlock_title, Body, Stats, StatsPage,
};

fn stats(dictations: i64, total_ms: i64) -> Stats {
    Stats {
        dictations,
        words: 100,
        audio_ms: 60_000,
        stt_ms: 4_000,
        cleanup_ms: 1_000,
        total_ms,
        since_ts_ms: 1_000,
    }
}

#[test]
fn average_derives_from_sums_and_admits_missing_data() {
    assert_eq!(average_total_ms(&stats(10, 8_000)), Some(800));
    assert_eq!(
        average_total_ms(&stats(10, 0)),
        None,
        "a pre-002 database must not claim a 0 ms average"
    );
    assert_eq!(average_total_ms(&stats(0, 0)), None, "never divides by zero");
}

#[test]
fn stats_stay_locked_until_ten_dictations() {
    let mut page = StatsPage::new();
    assert_eq!(page.body(), Body::ReadError);
    page.fetched(1, Ok(stats(9, 8_000)));
    assert_eq!(page.body(), Body::Locked);
    assert_eq!(unlock_title(9), "9 of 10 dictations to unlock stats");
    page.fetched(2, Ok(stats(10, 8_000)));
    assert_eq!(page.body(), Body::Cards);
    page.fetched(3, Err("disk I/O error".to_string()));
    assert_eq!(page.body(), Body::ReadError);
    assert_eq!(page.stats(), None);
}

#[test]
fn counters_are_reread_only_after_a_write() {
    let mut page = StatsPage::new();
    assert!(page.needs_query(0));
    page.fetched(0, Ok(stats(12, 1)));
    assert!(!page.needs_query(0));
    assert!(page.needs_query(1));
}

#[test]
fn cards_read_as_the_panel_shows_them() {
    let mut s = stats(1_234, 617_000);
    s.words = 56_789;
    s.audio_ms = 3_723_000;
    assert_eq!(
        card_values(&s),
        ("1,234".to_string(), "56,789".to_string(), "1 h 2 m".to_string(), "500 ms".to_string())
    );
    assert_eq!(card_values(&stats(12, 0)).3, "n/a");
}

#[test]
fn time_saved_is_typing_at_forty_words_a_minute_minus_speaking() {
    // 100 words typed at 1.5 s each = 150 s, minus 60 s spoken.
    assert_eq!(time_saved_line(&stats(10, 0)), "About 1 m 30 s saved vs typing at 40 WPM.");
    let mut s = stats(10, 0);
    s.audio_ms = 1_000_000;
    assert_eq!(time_saved_line(&s), "About 0 s saved vs typing at 40 WPM.");
}

#[test]
fn reset_asks_first_and_names_what_survives() {
    let mut page = StatsPage::new();
    page.ask_reset();
    let c = page.pending_confirm().expect("confirmation pending");
    assert_eq!(c.title, "Reset stats?");
    assert_eq!(
        c.body,
        "Sets every counter to zero and restarts the since-date. Your history entries are untouched."
    );
    assert_eq!(c.action, "Reset stats");
    page.resolve_reset();
    assert!(page.pending_confirm().is_none());
}

#[test]
fn the_since_line_carries_the_year_in_the_local_zone() {
    let tz = jiff::tz::TimeZone::fixed(jiff::tz::offset(-5));
    let ts = jiff::civil::date(2025, 7, 3)
        .at(12, 0, 0, 0)
        .to_zoned(tz.clone())
        .expect("valid")
        .timestamp()
        .as_millisecond();
    let mut s = stats(10, 0);
    s.since_ts_ms = ts;
    assert_eq!(since_line(&s, &tz), "Since July 3, 2025.");
}
