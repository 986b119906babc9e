use hark::format::{
    label_for_dates, LocalDate,
    count, date, day_label, duration, full_timestamp, relative_time, time_saved_ms, TIMESTAMP_MAX_MS,
    TIMESTAMP_MIN_MS,
};
use hark::history::{plural, timing_line, Entry};
use jiff::tz::TimeZone;

fn tz() -> TimeZone {
    TimeZone::fixed(jiff::tz::offset(-5))
}

fn ms_at(d: jiff::civil::DateTime) -> i64 {
    d.to_zoned(tz()).expect("valid").timestamp().as_millisecond()
}

#[test]
fn relative_time_buckets() {
    assert_eq!(relative_time(1_000, 1_500), "just now");
    assert_eq!(relative_time(1_000, 61_000), "1 min ago");
    assert_eq!(relative_time(0, 59 * 60_000), "59 min ago");
    assert_eq!(relative_time(0, 60 * 60_000), "1 h ago");
    assert_eq!(relative_time(0, 23 * 3_600_000), "23 h ago");
    assert_eq!(relative_time(0, 26 * 3_600_000), "1 d ago");
    assert_eq!(relative_time(5_000, 1_000), "just now", "skew tolerated");
}

#[test]
fn day_labels_split_on_local_calendar_days_not_24h_buckets() {
    let now = ms_at(jiff::civil::date(2026, 7, 16).at(1, 0, 0, 0));
    let last_night = ms_at(jiff::civil::date(2026, 7, 15).at(23, 0, 0, 0));
    assert_eq!(day_label(now, now, &tz()), "Today");
    assert_eq!(day_label(last_night, now, &tz()), "Yesterday");

    let same_year = ms_at(jiff::civil::date(2026, 7, 3).at(12, 0, 0, 0));
    assert_eq!(day_label(same_year, now, &tz()), "July 3");
    let older = ms_at(jiff::civil::date(2025, 12, 31).at(12, 0, 0, 0));
    assert_eq!(day_label(older, now, &tz()), "December 31, 2025");
}

#[test]
fn date_always_carries_the_year() {
    let ts = ms_at(jiff::civil::date(2026, 7, 2).at(9, 0, 0, 0));
    assert_eq!(date(ts, &tz()), "July 2, 2026");
}

#[test]
fn full_timestamp_uses_twelve_hour_clock() {
    let afternoon = ms_at(jiff::civil::date(2026, 7, 16).at(14, 34, 0, 0));
    assert_eq!(full_timestamp(afternoon, &tz()), "July 16, 2026, 2:34 PM");
    let midnight = ms_at(jiff::civil::date(2026, 1, 5).at(0, 7, 0, 0));
    assert_eq!(full_timestamp(midnight, &tz()), "January 5, 2026, 12:07 AM");
    let noon = ms_at(jiff::civil::date(2026, 1, 5).at(12, 0, 0, 0));
    assert_eq!(full_timestamp(noon, &tz()), "January 5, 2026, 12:00 PM");
}

#[test]
fn durations_drop_zero_remainders() {
    assert_eq!(duration(0), "0 s");
    assert_eq!(duration(999), "0 s");
    assert_eq!(duration(42_000), "42 s");
    assert_eq!(duration(5 * 60_000 + 12_000), "5 m 12 s");
    assert_eq!(duration(2 * 60_000), "2 m");
    assert_eq!(duration(3_600_000 + 4 * 60_000), "1 h 4 m");
    assert_eq!(duration(2 * 3_600_000), "2 h");
    assert_eq!(duration(-5), "0 s", "negative input clamps");
}

#[test]
fn counts_get_thousands_separators() {
    assert_eq!(count(0), "0");
    assert_eq!(count(999), "999");
    assert_eq!(count(1_000), "1,000");
    assert_eq!(count(1_234_567), "1,234,567");
}

#[test]
fn time_saved_is_typing_minus_speaking_clamped_at_zero() {
    assert_eq!(time_saved_ms(100, 60_000), 90_000);
    assert_eq!(time_saved_ms(10, 60_000), 0, "never negative");
    assert_eq!(time_saved_ms(0, 0), 0);
}

#[test]
fn plural_handles_the_irregular_nouns() {
    assert_eq!(plural(1, "dictation"), "1 dictation");
    assert_eq!(plural(2, "dictation"), "2 dictations");
    assert_eq!(plural(1, "match"), "1 match");
    assert_eq!(plural(3, "match"), "3 matches");
    assert_eq!(plural(1, "entry"), "1 entry");
    assert_eq!(plural(1_214, "entry"), "1,214 entries");
}


#[test]
fn counts_of_negative_and_extreme_values() {
    assert_eq!(count(-1_234), "-1,234");
    assert_eq!(count(i64::MIN), "-9,223,372,036,854,775,808");
    assert_eq!(count(1_000_000), "1,000,000");
    assert_eq!(count(1_001), "1,001");
}

#[test]
fn relative_time_saturates_and_reads_days() {
    assert_eq!(relative_time(i64::MIN, i64::MAX), "106751991167 d ago");
    assert_eq!(relative_time(0, 59_999), "just now");
    assert_eq!(relative_time(0, 86_400_000 * 3), "3 d ago");
}

#[test]
fn time_saved_saturates_instead_of_overflowing() {
    assert_eq!(time_saved_ms(i64::MAX, 0), i64::MAX);
    assert_eq!(time_saved_ms(i64::MIN, 0), 0);
    assert_eq!(time_saved_ms(1, i64::MIN), i64::MAX);
}

#[test]
fn durations_of_hours_and_seconds() {
    assert_eq!(duration(3_600_000 + 5_000), "1 h");
    assert_eq!(duration(61_000), "1 m 1 s");
}

#[test]
fn day_label_of_an_out_of_range_timestamp_is_earlier() {
    assert_eq!(day_label(i64::MAX, 0, &tz()), "Earlier");
    assert_eq!(date(i64::MAX, &tz()), "an unknown date");
    assert_eq!(full_timestamp(i64::MAX, &tz()), "Unknown time");
}

#[test]
fn yesterday_crosses_a_year_boundary() {
    let now = ms_at(jiff::civil::date(2026, 1, 1).at(9, 0, 0, 0));
    let new_years_eve = ms_at(jiff::civil::date(2025, 12, 31).at(9, 0, 0, 0));
    assert_eq!(day_label(new_years_eve, now, &tz()), "Yesterday");
}

fn entry(cleanup: bool) -> Entry {
    Entry {
        id: 1,
        ts_ms: 1_000,
        raw_text: "raw".to_string(),
        final_text: "final".to_string(),
        voice: "clean".to_string(),
        stt_provider: "deepgram".to_string(),
        stt_model: "nova-3".to_string(),
        cleanup_model: cleanup.then(|| "gpt-5-nano".to_string()),
        stt_ms: 400,
        cleanup_ms: cleanup.then_some(300),
        total_ms: 800,
    }
}

#[test]
fn timing_line_names_the_cleanup_model_only_when_it_ran() {
    assert_eq!(
        timing_line(&entry(true)),
        "stt 400 ms · cleanup 300 ms (gpt-5-nano) · total 800 ms"
    );
    assert_eq!(timing_line(&entry(false)), "stt 400 ms · total 800 ms");
}

#[test]
fn a_cleanup_time_without_its_model_is_not_shown() {
    let mut e = entry(true);
    e.cleanup_model = None;
    assert_eq!(timing_line(&e), "stt 400 ms · total 800 ms");
    let mut e = entry(true);
    e.cleanup_ms = None;
    assert_eq!(timing_line(&e), "stt 400 ms · total 800 ms");
}

#[test]
fn timing_numbers_are_plain_signed_decimals() {
    let mut e = entry(false);
    e.stt_ms = i64::MIN;
    e.total_ms = 0;
    assert_eq!(timing_line(&e), "stt -9223372036854775808 ms · total 0 ms");
    e.stt_ms = 1_234_567;
    e.total_ms = -5;
    assert_eq!(timing_line(&e), "stt 1234567 ms · total -5 ms");
}

#[test]
fn instants_outside_the_calendar_read_as_unknown() {
    let utc = TimeZone::UTC;
    assert_eq!(date(TIMESTAMP_MAX_MS, &utc), "December 30, 9999");
    assert_eq!(date(TIMESTAMP_MAX_MS + 1, &utc), "an unknown date");
    assert_eq!(full_timestamp(TIMESTAMP_MIN_MS - 1, &utc), "Unknown time");
    assert_eq!(day_label(i64::MAX, 0, &utc), "Earlier");
}

fn ymd(year: i16, month: i8, day: i8) -> Option<LocalDate> {
    Some(LocalDate { year, month, day })
}

#[test]
fn yesterday_follows_the_gregorian_calendar() {
    assert_eq!(label_for_dates(ymd(2024, 2, 29), ymd(2024, 3, 1)), "Yesterday");
    assert_eq!(label_for_dates(ymd(2024, 2, 28), ymd(2024, 3, 1)), "February 28");
    assert_eq!(label_for_dates(ymd(2023, 2, 28), ymd(2023, 3, 1)), "Yesterday");
    assert_eq!(label_for_dates(ymd(1900, 2, 28), ymd(1900, 3, 1)), "Yesterday");
    assert_eq!(label_for_dates(ymd(2000, 2, 29), ymd(2000, 3, 1)), "Yesterday");
    assert_eq!(label_for_dates(ymd(2026, 4, 30), ymd(2026, 5, 1)), "Yesterday");
    assert_eq!(label_for_dates(ymd(2025, 12, 31), ymd(2026, 1, 1)), "Yesterday");
    assert_eq!(label_for_dates(ymd(2025, 12, 30), ymd(2026, 1, 1)), "December 30, 2025");
    assert_eq!(label_for_dates(ymd(2026, 1, 1), None), "Earlier");
}

#[test]
fn dates_follow_the_time_zone() {
    // 2026-07-03T02:30Z is still July 2 five hours west of UTC.
    let ms = jiff::civil::date(2026, 7, 3)
        .at(2, 30, 0, 0)
        .to_zoned(TimeZone::UTC)
        .expect("valid")
        .timestamp()
        .as_millisecond();
    assert_eq!(date(ms, &TimeZone::UTC), "July 3, 2026");
    assert_eq!(date(ms, &tz()), "July 2, 2026");
    assert_eq!(full_timestamp(ms, &tz()), "July 2, 2026, 9:30 PM");
}
