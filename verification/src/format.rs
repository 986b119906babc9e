//! Presentation formatting for the history and stats panels: relative
//! times, durations, thousands-separated counts and the time-saved figure.

use vstd::prelude::*;
use vstd::string::*;
use crate::text::{decimal, digit_char, push_char, push_decimal, push_str};

verus! {

/// `x` clamped into the range of `i64`.
pub open spec fn clamp_i64(x: int) -> int {
    if x < i64::MIN {
        i64::MIN as int
    } else if x > i64::MAX {
        i64::MAX as int
    } else {
        x
    }
}

/// `a - b` saturating at the bounds of `i64`.
fn saturating_sub_i64(a: i64, b: i64) -> (r: i64)
    ensures
        r == clamp_i64(a - b),
{
    let wide = a as i128 - b as i128;
    if wide < i64::MIN as i128 {
        i64::MIN
    } else if wide > i64::MAX as i128 {
        i64::MAX
    } else {
        wide as i64
    }
}

/// Caption-sized recency, from "just now" to "3 d ago".
pub open spec fn relative_time_of(ts_ms: int, now_ms: int) -> Seq<char> {
    let delta = clamp_i64(now_ms - ts_ms);
    if delta < 60_000 {
        "just now"@
    } else if delta < 3_600_000 {
        decimal((delta / 60_000) as nat) + " min ago"@
    } else if delta < 86_400_000 {
        decimal((delta / 3_600_000) as nat) + " h ago"@
    } else {
        decimal((delta / 86_400_000) as nat) + " d ago"@
    }
}

/// Caption-sized recency: "just now" through "3 d ago". Small negative
/// skews (a timestamp in the future) read as "just now".
pub fn relative_time(ts_ms: i64, now_ms: i64) -> (r: String)
    ensures
        r@ == relative_time_of(ts_ms as int, now_ms as int),
{
    let delta = saturating_sub_i64(now_ms, ts_ms);
    if delta < 60_000 {
        return String::from_str("just now");
    }
    let mut out = String::new();
    if delta < 3_600_000 {
        push_decimal(&mut out, (delta / 60_000) as u64);
        push_str(&mut out, " min ago");
    } else if delta < 86_400_000 {
        push_decimal(&mut out, (delta / 3_600_000) as u64);
        push_str(&mut out, " h ago");
    } else {
        push_decimal(&mut out, (delta / 86_400_000) as u64);
        push_str(&mut out, " d ago");
    }
    out
}

/// Compact duration: "42 s", "5 m 12 s", "1 h 4 m"; zero remainders are
/// dropped and negative input reads as zero.
pub open spec fn duration_of(ms: int) -> Seq<char> {
    let secs = if ms < 0 { 0 } else { ms / 1000 };
    let hours = secs / 3600;
    let mins = (secs % 3600) / 60;
    let s = secs % 60;
    if hours > 0 {
        if mins > 0 {
            decimal(hours as nat) + " h "@ + decimal(mins as nat) + " m"@
        } else {
            decimal(hours as nat) + " h"@
        }
    } else if mins > 0 {
        if s > 0 {
            decimal(mins as nat) + " m "@ + decimal(s as nat) + " s"@
        } else {
            decimal(mins as nat) + " m"@
        }
    } else {
        decimal(s as nat) + " s"@
    }
}

/// Compact duration for stat cards and the time-saved line.
pub fn duration(ms: i64) -> (r: String)
    ensures
        r@ == duration_of(ms as int),
{
    let secs: i64 = if ms < 0 { 0 } else { ms / 1_000 };
    let hours = secs / 3_600;
    let mins = (secs % 3_600) / 60;
    let s = secs % 60;
    let mut out = String::new();
    if hours > 0 {
        push_decimal(&mut out, hours as u64);
        if mins > 0 {
            push_str(&mut out, " h ");
            push_decimal(&mut out, mins as u64);
            push_str(&mut out, " m");
        } else {
            push_str(&mut out, " h");
        }
    } else if mins > 0 {
        push_decimal(&mut out, mins as u64);
        if s > 0 {
            push_str(&mut out, " m ");
            push_decimal(&mut out, s as u64);
            push_str(&mut out, " s");
        } else {
            push_str(&mut out, " m");
        }
    } else {
        push_decimal(&mut out, s as u64);
        push_str(&mut out, " s");
    }
    out
}

/// The three decimal digits of `x < 1000`, zero-padded.
pub open spec fn three_digits(x: nat) -> Seq<char> {
    seq![digit_char(x / 100), digit_char((x / 10) % 10), digit_char(x % 10)]
}

/// `n` in decimal with a comma between each group of three digits.
pub open spec fn grouped(n: nat) -> Seq<char>
    decreases n,
{
    if n < 1000 {
        decimal(n)
    } else {
        grouped(n / 1000) + seq![','] + three_digits(n % 1000)
    }
}

/// The stat-card rendering of `n`: a minus sign for negatives, then the
/// magnitude with thousands separators.
pub open spec fn count_of(n: int) -> Seq<char> {
    if n < 0 {
        seq!['-'] + grouped((-n) as nat)
    } else {
        grouped(n as nat)
    }
}

fn push_grouped(out: &mut String, n: u64)
    ensures
        final(out)@ == old(out)@ + grouped(n as nat),
    decreases n,
{
    if n < 1000 {
        push_decimal(out, n);
        return;
    }
    push_grouped(out, n / 1000);
    push_char(out, ',');
    let r = n % 1000;
    push_char(out, ((48 + r / 100) as u8) as char);
    push_char(out, ((48 + (r / 10) % 10) as u8) as char);
    push_char(out, ((48 + r % 10) as u8) as char);
    proof {
        assert(((48 + r / 100) as u8) as char == digit_char((r / 100) as nat));
        assert(((48 + (r / 10) % 10) as u8) as char == digit_char(((r / 10) % 10) as nat));
        assert(((48 + r % 10) as u8) as char == digit_char((r % 10) as nat));
    }
}

/// Thousands-separated integer for stat cards.
pub fn count(n: i64) -> (r: String)
    ensures
        r@ == count_of(n as int),
{
    let mut out = String::new();
    let magnitude: u64 = if n < 0 {
        push_char(&mut out, '-');
        if n == i64::MIN { 9_223_372_036_854_775_808u64 } else { (-n) as u64 }
    } else {
        n as u64
    };
    push_grouped(&mut out, magnitude);
    out
}

/// `s` without its commas.
pub open spec fn strip_commas(s: Seq<char>) -> Seq<char>
    decreases s.len(),
{
    if s.len() == 0 {
        Seq::empty()
    } else {
        strip_commas(s.drop_last()) + if s.last() == ',' {
            Seq::<char>::empty()
        } else {
            seq![s.last()]
        }
    }
}

proof fn lemma_strip_commas_add(a: Seq<char>, b: Seq<char>)
    ensures
        strip_commas(a + b) == strip_commas(a) + strip_commas(b),
    decreases b.len(),
{
    if b.len() > 0 {
        lemma_strip_commas_add(a, b.drop_last());
        assert((a + b).drop_last() == a + b.drop_last());
        assert((a + b).last() == b.last());
    } else {
        assert(a + b == a);
    }
}

proof fn lemma_digit_not_comma(d: nat)
    requires
        d < 10,
    ensures
        digit_char(d) != ',',
{
    assert((digit_char(d) as u32) == 48 + d);
}

proof fn lemma_decimal_has_no_commas(n: nat)
    ensures
        strip_commas(decimal(n)) == decimal(n),
    decreases n,
{
    if n >= 10 {
        lemma_decimal_has_no_commas(n / 10);
        let d = decimal(n / 10);
        lemma_digit_not_comma(n % 10);
        assert(decimal(n) == d.push(digit_char(n % 10)));
        assert(decimal(n).drop_last() == d);
    } else {
        lemma_digit_not_comma(n);
        assert(decimal(n).drop_last() == Seq::<char>::empty());
        assert(strip_commas(Seq::<char>::empty()) == Seq::<char>::empty());
    }
}

proof fn lemma_decimal_split(n: nat)
    requires
        n >= 1000,
    ensures
        decimal(n) == decimal(n / 1000) + three_digits(n % 1000),
{
    let q = n / 1000;
    let r = n % 1000;
    let a = r / 100;
    let b = (r / 10) % 10;
    let c = r % 10;
    vstd::arithmetic::div_mod::lemma_fundamental_div_mod(n as int, 1000);
    vstd::arithmetic::div_mod::lemma_fundamental_div_mod(r as int, 100);
    vstd::arithmetic::div_mod::lemma_fundamental_div_mod(r as int, 10);
    vstd::arithmetic::div_mod::lemma_fundamental_div_mod((r / 10) as int, 10);
    assert(r == 100 * a + 10 * b + c) by (nonlinear_arith)
        requires
            r == 100 * (r / 100) + r % 100,
            r == 10 * (r / 10) + r % 10,
            r / 10 == 10 * ((r / 10) / 10) + (r / 10) % 10,
            0 <= r % 100 < 100,
            0 <= r % 10 < 10,
            0 <= r < 1000,
            a == r / 100,
            b == (r / 10) % 10,
            c == r % 10,
    ;
    assert(0 <= b < 10 && 0 <= c < 10 && 0 <= a < 10) by (nonlinear_arith)
        requires
            r == 100 * a + 10 * b + c,
            0 <= r < 1000,
            0 <= b < 10,
            0 <= c < 10,
            a == r / 100,
    ;
    vstd::arithmetic::div_mod::lemma_fundamental_div_mod_converse(n as int, 10, (100 * q + 10 * a + b) as int, c as int);
    vstd::arithmetic::div_mod::lemma_fundamental_div_mod_converse((n / 10) as int, 10, (10 * q + a) as int, b as int);
    vstd::arithmetic::div_mod::lemma_fundamental_div_mod_converse((n / 100) as int, 10, q as int, a as int);
    vstd::arithmetic::div_mod::lemma_div_denominator(n as int, 10, 10);
    assert(n / 10 / 10 == n / 100);
    assert(n / 100 / 10 == q) by {
        vstd::arithmetic::div_mod::lemma_div_denominator(n as int, 100, 10);
    }
    assert(decimal(n) == decimal(n / 10).push(digit_char(c)));
    assert(decimal(n / 10) == decimal(n / 100).push(digit_char(b)));
    assert(decimal(n / 100) == decimal(q).push(digit_char(a)));
}

/// Removing the separators from a count gives back the plain decimal
/// digits: separators only ever group, never change, the number.
pub proof fn separators_only_group_digits(n: nat)
    ensures
        strip_commas(grouped(n)) == decimal(n),
    decreases n,
{
    if n < 1000 {
        lemma_decimal_has_no_commas(n);
    } else {
        separators_only_group_digits(n / 1000);
        lemma_decimal_split(n);
        let t = three_digits(n % 1000);
        lemma_strip_commas_add(grouped(n / 1000) + seq![','], t);
        lemma_strip_commas_add(grouped(n / 1000), seq![',']);
        assert(seq![','].drop_last() == Seq::<char>::empty());
        assert(strip_commas(Seq::<char>::empty()) == Seq::<char>::empty());
        assert(strip_commas(seq![',']) == Seq::<char>::empty());
        let r = n % 1000;
        lemma_digit_not_comma(r / 100);
        lemma_digit_not_comma((r / 10) % 10);
        lemma_digit_not_comma(r % 10);
        let t1 = t.drop_last();
        let t0 = t1.drop_last();
        assert(t0.drop_last() == Seq::<char>::empty());
        assert(strip_commas(t0) == t0);
        assert(strip_commas(t1) == t1);
        assert(strip_commas(t) == t);
        assert(strip_commas(grouped(n / 1000)) + Seq::<char>::empty() == decimal(n / 1000));
    }
}

/// Time saved is never negative.
pub proof fn time_saved_is_never_negative(words: int, audio_ms: int)
    ensures
        0 <= time_saved_of(words, audio_ms) <= i64::MAX,
{
}

/// Time saved against typing at 40 words per minute (1.5 s a word), minus
/// the time spent speaking, saturating at the bounds of `i64` and never
/// below zero.
pub open spec fn time_saved_of(words: int, audio_ms: int) -> int {
    let saved = clamp_i64(clamp_i64(words * 1500) - audio_ms);
    if saved < 0 { 0 } else { saved }
}

/// "Time saved vs typing at 40 WPM", clamped at zero.
pub fn time_saved_ms(words: i64, audio_ms: i64) -> (r: i64)
    ensures
        r == time_saved_of(words as int, audio_ms as int),
{
    let wide = words as i128 * 1_500;
    let typing: i64 = if wide > i64::MAX as i128 {
        i64::MAX
    } else if wide < i64::MIN as i128 {
        i64::MIN
    } else {
        wide as i64
    };
    let saved = saturating_sub_i64(typing, audio_ms);
    if saved < 0 { 0 } else { saved }
}

/// A calendar date in the user's time zone.
#[derive(Clone, Copy, Debug, PartialEq, Eq, Structural)]
pub struct LocalDate {
    pub year: i16,
    pub month: i8,
    pub day: i8,
}

/// A wall-clock minute in the user's time zone.
#[derive(Clone, Copy, Debug, PartialEq, Eq, Structural)]
pub struct LocalTime {
    pub date: LocalDate,
    pub hour: i8,
    pub minute: i8,
}

#[verifier::external_type_specification]
#[verifier::external_body]
pub struct ExTimeZone(jiff::tz::TimeZone);

/// The earliest and the latest millisecond since the Unix epoch that jiff
/// accepts for a timestamp.
pub const TIMESTAMP_MIN_MS: i64 = -377_705_023_201_000;
pub const TIMESTAMP_MAX_MS: i64 = 253_402_207_200_000;

/// Whether jiff can represent the instant `ms` milliseconds after the epoch.
pub open spec fn in_timestamp_range(ms: i64) -> bool {
    TIMESTAMP_MIN_MS <= ms <= TIMESTAMP_MAX_MS
}

/// The wall-clock fields (year, month, day, hour, minute) that jiff gives
/// the instant `ms` milliseconds after the epoch in the time zone `tz`: a
/// function of the two alone, by the zone's own rules.
pub uninterp spec fn jiff_local_time(ms: i64, tz: jiff::tz::TimeZone) -> LocalTime;

/// `jiff::Timestamp::from_millisecond` followed by
/// `jiff::Timestamp::to_zoned` and the `Zoned` field getters. The first
/// fails exactly outside jiff's supported range; otherwise the fields are
/// the named `jiff_local_time`, within the ranges jiff documents for
/// `Zoned::year`, `month`, `day`, `hour` and `minute`.
#[verifier::external_body]
fn local_time_at(ms: i64, tz: &jiff::tz::TimeZone) -> (r: Option<LocalTime>)
    ensures
        r is Some <==> in_timestamp_range(ms),
        r matches Some(t) ==> {
            &&& t == jiff_local_time(ms, *tz)
            &&& -9999 <= t.date.year <= 9999
            &&& 1 <= t.date.month <= 12
            &&& 1 <= t.date.day <= 31
            &&& 0 <= t.hour <= 23
            &&& 0 <= t.minute <= 59
        },
{
    let ts = jiff::Timestamp::from_millisecond(ms).ok()?;
    let z = ts.to_zoned(tz.clone());
    Some(LocalTime {
        date: LocalDate { year: z.year(), month: z.month(), day: z.day() },
        hour: z.hour(),
        minute: z.minute(),
    })
}

/// The wall-clock time of `ms` in `tz`, when jiff can represent it.
pub open spec fn zoned_time(ms: i64, tz: jiff::tz::TimeZone) -> Option<LocalTime> {
    if in_timestamp_range(ms) {
        Some(jiff_local_time(ms, tz))
    } else {
        None
    }
}

/// The calendar date of `ms` in `tz`, when jiff can represent it.
pub open spec fn zoned_date(ms: i64, tz: jiff::tz::TimeZone) -> Option<LocalDate> {
    if in_timestamp_range(ms) {
        Some(jiff_local_time(ms, tz).date)
    } else {
        None
    }
}

/// Gregorian leap years (proleptic, year 0 included).
pub open spec fn is_leap_year(y: int) -> bool {
    y % 4 == 0 && (y % 100 != 0 || y % 400 == 0)
}

/// The number of days in month `m` of year `y`.
pub open spec fn days_in_month(y: int, m: int) -> int {
    if m == 2 {
        if is_leap_year(y) {
            29
        } else {
            28
        }
    } else if m == 4 || m == 6 || m == 9 || m == 11 {
        30
    } else {
        31
    }
}

/// A date jiff accepts: years -9999..=9999, months 1..=12, and a day that
/// exists in its month.
pub open spec fn valid_date(d: LocalDate) -> bool {
    &&& -9999 <= d.year <= 9999
    &&& 1 <= d.month <= 12
    &&& 1 <= d.day <= days_in_month(d.year as int, d.month as int)
}

/// The day before `d`; `None` for an invalid date and for the earliest one,
/// -9999-01-01.
pub open spec fn day_before(d: LocalDate) -> Option<LocalDate> {
    if !valid_date(d) {
        None
    } else if d.day > 1 {
        Some(LocalDate { year: d.year, month: d.month, day: (d.day - 1) as i8 })
    } else if d.month > 1 {
        Some(
            LocalDate {
                year: d.year,
                month: (d.month - 1) as i8,
                day: days_in_month(d.year as int, d.month - 1) as i8,
            },
        )
    } else if d.year > -9999 {
        Some(LocalDate { year: (d.year - 1) as i16, month: 12, day: 31 })
    } else {
        None
    }
}

/// `jiff::civil::Date::new` from `d`'s fields, then
/// `jiff::civil::Date::yesterday`: `None` when the date is invalid or is
/// jiff's minimum, else the previous calendar day.
#[verifier::external_body]
fn yesterday_of(d: LocalDate) -> (r: Option<LocalDate>)
    ensures
        r == day_before(d),
{
    match jiff::civil::Date::new(d.year, d.month, d.day) {
        Ok(date) => match date.yesterday() {
            Ok(y) => Some(LocalDate { year: y.year(), month: y.month(), day: y.day() }),
            Err(_) => None,
        },
        Err(_) => None,
    }
}

/// The wall-clock time of `ts_ms` in `tz`, or `None` when the timestamp is
/// out of range.
pub fn local_time(ts_ms: i64, tz: &jiff::tz::TimeZone) -> (r: Option<LocalTime>)
    ensures
        r == zoned_time(ts_ms, *tz),
        r matches Some(t) ==> 1 <= t.date.month <= 12 && 1 <= t.date.day <= 31 && 0 <= t.hour <= 23
            && 0 <= t.minute <= 59,
{
    local_time_at(ts_ms, tz)
}

/// The calendar date of `ts_ms` in `tz`.
pub fn local_date(ts_ms: i64, tz: &jiff::tz::TimeZone) -> (r: Option<LocalDate>)
    ensures
        r == zoned_date(ts_ms, *tz),
        r matches Some(d) ==> 1 <= d.month <= 12 && 1 <= d.day <= 31,
{
    match local_time(ts_ms, tz) {
        Some(t) => Some(t.date),
        None => None,
    }
}

/// The index into the month names the formatters use: the month minus one,
/// clamped into `0..=11` (a negative month clamps high, as its unsigned
/// reading does).
pub open spec fn month_index(m: i8) -> int {
    if m < 0 {
        11
    } else if m == 0 {
        0
    } else if m - 1 > 11 {
        11
    } else {
        m - 1
    }
}

/// The English month names.
pub open spec fn month_name_of(i: int) -> &'static str {
    if i == 0 {
        "January"
    } else if i == 1 {
        "February"
    } else if i == 2 {
        "March"
    } else if i == 3 {
        "April"
    } else if i == 4 {
        "May"
    } else if i == 5 {
        "June"
    } else if i == 6 {
        "July"
    } else if i == 7 {
        "August"
    } else if i == 8 {
        "September"
    } else if i == 9 {
        "October"
    } else if i == 10 {
        "November"
    } else {
        "December"
    }
}

fn month_name(m: i8) -> (name: &'static str)
    ensures
        name == month_name_of(month_index(m)),
{
    let i: i8 = if m < 0 {
        11
    } else if m == 0 {
        0
    } else if m - 1 > 11 {
        11
    } else {
        m - 1
    };
    if i == 0 {
        "January"
    } else if i == 1 {
        "February"
    } else if i == 2 {
        "March"
    } else if i == 3 {
        "April"
    } else if i == 4 {
        "May"
    } else if i == 5 {
        "June"
    } else if i == 6 {
        "July"
    } else if i == 7 {
        "August"
    } else if i == 8 {
        "September"
    } else if i == 9 {
        "October"
    } else if i == 10 {
        "November"
    } else {
        "December"
    }
}

/// `n` in decimal, with a minus sign when negative.
pub open spec fn signed(n: int) -> Seq<char> {
    if n < 0 { seq!['-'] + decimal((-n) as nat) } else { decimal(n as nat) }
}

/// Append `n` in decimal, with a minus sign when negative.
pub fn push_signed(out: &mut String, n: i64)
    ensures
        final(out)@ == old(out)@ + signed(n as int),
{
    if n < 0 {
        push_char(out, '-');
        let magnitude: u64 = (-(n + 1)) as u64 + 1;
        push_decimal(out, magnitude);
    } else {
        push_decimal(out, n as u64);
    }
}

/// "July 3" (same year) or "July 3, 2025".
pub open spec fn month_day_of(d: LocalDate, with_year: bool) -> Seq<char> {
    let base = month_name_of(month_index(d.month))@ + " "@ + signed(d.day as int);
    if with_year {
        base + ", "@ + signed(d.year as int)
    } else {
        base
    }
}

fn push_month_day(out: &mut String, d: LocalDate, with_year: bool)
    ensures
        final(out)@ == old(out)@ + month_day_of(d, with_year),
{
    push_str(out, month_name(d.month));
    push_str(out, " ");
    push_signed(out, d.day as i64);
    if with_year {
        push_str(out, ", ");
        push_signed(out, d.year as i64);
    }
}

/// The history day-group header for `date` when today is `today`.
pub open spec fn day_label_of(date: Option<LocalDate>, today: Option<LocalDate>) -> Seq<char> {
    match (date, today) {
        (Some(d), Some(t)) => if d == t {
            "Today"@
        } else if Some(d) == day_before(t) {
            "Yesterday"@
        } else {
            month_day_of(d, d.year != t.year)
        },
        _ => "Earlier"@,
    }
}

/// The day-group header for calendar dates: Today / Yesterday / "July 3" /
/// "July 3, 2025" (the year only when it is not the current one), and
/// "Earlier" when either date is unknown.
pub fn label_for_dates(date: Option<LocalDate>, today: Option<LocalDate>) -> (r: String)
    ensures
        r@ == day_label_of(date, today),
{
    match (date, today) {
        (Some(d), Some(t)) => {
            if d == t {
                return String::from_str("Today");
            }
            if yesterday_of(t) == Some(d) {
                return String::from_str("Yesterday");
            }
            let mut out = String::new();
            push_month_day(&mut out, d, d.year != t.year);
            out
        },
        _ => String::from_str("Earlier"),
    }
}

/// History day-group header for `ts_ms` when it is `now_ms`: calendar days
/// in `tz`, not 24-hour buckets.
pub fn day_label(ts_ms: i64, now_ms: i64, tz: &jiff::tz::TimeZone) -> (r: String)
    ensures
        r@ == day_label_of(zoned_date(ts_ms, *tz), zoned_date(now_ms, *tz)),
{
    let d = local_date(ts_ms, tz);
    let t = local_date(now_ms, tz);
    label_for_dates(d, t)
}

/// The stats since-caption date: always with the year.
pub open spec fn date_text_of(date: Option<LocalDate>) -> Seq<char> {
    match date {
        Some(d) => month_day_of(d, true),
        None => "an unknown date"@,
    }
}

/// "July 2, 2026" for a known date, "an unknown date" otherwise.
pub fn date_text(date: Option<LocalDate>) -> (r: String)
    ensures
        r@ == date_text_of(date),
{
    match date {
        Some(d) => {
            let mut out = String::new();
            push_month_day(&mut out, d, true);
            out
        },
        None => String::from_str("an unknown date"),
    }
}

/// Absolute date of `ts_ms` in `tz`, with the year.
pub fn date(ts_ms: i64, tz: &jiff::tz::TimeZone) -> (r: String)
    ensures
        r@ == date_text_of(zoned_date(ts_ms, *tz)),
{
    date_text(local_date(ts_ms, tz))
}

/// The expanded-row timestamp on a twelve-hour clock.
pub open spec fn timestamp_text_of(time: Option<LocalTime>) -> Seq<char> {
    match time {
        Some(t) => {
            let h = t.hour as int;
            let hour12 = if h == 0 { 12 } else if h <= 12 { h } else { h - 12 };
            let meridiem = if h < 12 { " AM"@ } else { " PM"@ };
            let minute = t.minute as int;
            month_day_of(t.date, true) + ", "@ + signed(hour12) + ":"@ + (if minute < 10 {
                seq!['0'] + signed(minute)
            } else {
                signed(minute)
            }) + meridiem
        },
        None => "Unknown time"@,
    }
}

/// The last three characters of a text.
pub open spec fn last3(s: Seq<char>) -> Seq<char> {
    s.subrange(s.len() - 3, s.len() as int)
}

/// Everything but the last three characters of a text.
pub open spec fn but_last3(s: Seq<char>) -> Seq<char> {
    s.subrange(0, s.len() - 3)
}

/// A known time is told on a twelve-hour clock: it ends in " AM" exactly
/// when its 24-hour hour is before noon, and in " PM" from noon on.
pub proof fn meridiem_follows_the_hour(t: LocalTime)
    requires
        0 <= t.hour <= 23,
        0 <= t.minute <= 59,
    ensures
        timestamp_text_of(Some(t)).len() >= 3,
        last3(timestamp_text_of(Some(t))) == (if t.hour < 12 { " AM"@ } else { " PM"@ }),
{
    reveal_strlit(" AM");
    reveal_strlit(" PM");
    let h = t.hour as int;
    let hour12 = if h == 0 { 12 } else if h <= 12 { h } else { h - 12 };
    let minute = t.minute as int;
    let body = month_day_of(t.date, true) + ", "@ + signed(hour12) + ":"@ + (if minute < 10 {
        seq!['0'] + signed(minute)
    } else {
        signed(minute)
    });
    let m = if h < 12 { " AM"@ } else { " PM"@ };
    assert(timestamp_text_of(Some(t)) == body + m);
    assert((body + m).subrange((body + m).len() - 3, (body + m).len() as int) =~= m);
}

/// Two times twelve hours apart on the same day and minute read the same
/// but for the meridiem: midnight and noon both read as 12, 1 AM and 1 PM
/// both as 1, and so on.
pub proof fn twelve_hours_apart_read_alike(t: LocalTime, u: LocalTime)
    requires
        0 <= t.hour < 12,
        u.hour == t.hour + 12,
        u.date == t.date,
        u.minute == t.minute,
        0 <= t.minute <= 59,
    ensures
        but_last3(timestamp_text_of(Some(t))) == but_last3(timestamp_text_of(Some(u))),
{
    reveal_strlit(" AM");
    reveal_strlit(" PM");
    let ht = t.hour as int;
    let hu = u.hour as int;
    let h12t = if ht == 0 { 12 } else if ht <= 12 { ht } else { ht - 12 };
    let h12u = if hu == 0 { 12 } else if hu <= 12 { hu } else { hu - 12 };
    assert(h12t == h12u);
    let minute = t.minute as int;
    let body = month_day_of(t.date, true) + ", "@ + signed(h12t) + ":"@ + (if minute < 10 {
        seq!['0'] + signed(minute)
    } else {
        signed(minute)
    });
    assert(timestamp_text_of(Some(t)) == body + " AM"@);
    assert(timestamp_text_of(Some(u)) == body + " PM"@);
    assert(but_last3(body + " AM"@) =~= body);
    assert(but_last3(body + " PM"@) =~= body);
}

/// "July 16, 2026, 2:34 PM" for a known time, "Unknown time" otherwise.
pub fn timestamp_text(time: Option<LocalTime>) -> (r: String)
    requires
        time matches Some(t) ==> 0 <= t.hour <= 23 && 0 <= t.minute <= 59,
    ensures
        r@ == timestamp_text_of(time),
        time matches Some(t) ==> r@.len() >= 3 && last3(r@) == (if t.hour < 12 { " AM"@ } else { " PM"@ }),
{
    proof {
        if let Some(t) = time {
            meridiem_follows_the_hour(t);
        }
    }
    match time {
        Some(t) => {
            let mut out = String::new();
            push_month_day(&mut out, t.date, true);
            push_str(&mut out, ", ");
            let hour12: i64 = if t.hour == 0 {
                12
            } else if t.hour <= 12 {
                t.hour as i64
            } else {
                t.hour as i64 - 12
            };
            push_signed(&mut out, hour12);
            push_str(&mut out, ":");
            if t.minute < 10 {
                push_char(&mut out, '0');
            }
            push_signed(&mut out, t.minute as i64);
            if t.hour < 12 {
                push_str(&mut out, " AM");
            } else {
                push_str(&mut out, " PM");
            }
            out
        },
        None => String::from_str("Unknown time"),
    }
}

/// Expanded-row timestamp of `ts_ms` in `tz`: "July 16, 2026, 2:34 PM".
pub fn full_timestamp(ts_ms: i64, tz: &jiff::tz::TimeZone) -> (r: String)
    ensures
        r@ == timestamp_text_of(zoned_time(ts_ms, *tz)),
        in_timestamp_range(ts_ms) ==> r@.len() >= 3 && last3(r@) == (if jiff_local_time(ts_ms, *tz).hour
            < 12 {
            " AM"@
        } else {
            " PM"@
        }),
{
    timestamp_text(local_time(ts_ms, tz))
}

} // verus!
