//! The Stats panel: locked until enough dictations exist for the numbers
//! to mean something, then the lifetime cards, the time-saved line, and a
//! reset behind its own confirmation. The counters live in the store; the
//! glue reads them and hands them in.

use vstd::prelude::*;
use crate::format::{
    count, count_of, date_text, date_text_of, duration, duration_of, local_date, zoned_date, signed, time_saved_ms,
    time_saved_of, LocalDate,
};
use crate::pages::Confirm;
use crate::text::{push_str};

verus! {

/// Dictations required before the numbers mean anything.
pub const UNLOCK_AT: i64 = 10;

/// The lifetime counters.
#[derive(Debug, Clone, Copy, PartialEq, Eq, Structural)]
pub struct Stats {
    pub dictations: i64,
    pub words: i64,
    pub audio_ms: i64,
    pub stt_ms: i64,
    pub cleanup_ms: i64,
    pub total_ms: i64,
    pub since_ts_ms: i64,
}

/// Average release-to-inject time; `None` until the stored sum carries
/// data (rows from before the sum existed contribute 0), and never a
/// division by zero.
pub fn average_total_ms(stats: &Stats) -> (r: Option<i64>)
    ensures
        r == (if stats.total_ms > 0 && stats.dictations > 0 {
            Some((stats.total_ms as int / stats.dictations as int) as i64)
        } else {
            None
        }),
{
    if stats.total_ms > 0 && stats.dictations > 0 {
        Some(stats.total_ms / stats.dictations)
    } else {
        None
    }
}

/// What the panel body shows.
#[derive(Debug, Clone, Copy, PartialEq, Eq, Structural)]
pub enum Body {
    /// The counters could not be read.
    ReadError,
    /// Not enough dictations yet: progress toward the unlock.
    Locked,
    Cards,
}

/// The four lifetime cards' values, in reading order: dictations, words,
/// speaking time, average release-to-inject ("n/a" without data).
pub open spec fn card_values_of(s: Stats) -> (Seq<char>, Seq<char>, Seq<char>, Seq<char>) {
    (
        count_of(s.dictations as int),
        count_of(s.words as int),
        duration_of(s.audio_ms as int),
        if s.total_ms > 0 && s.dictations > 0 {
            signed(s.total_ms as int / s.dictations as int) + " ms"@
        } else {
            "n/a"@
        },
    )
}

/// The four lifetime cards' values.
pub fn card_values(s: &Stats) -> (r: (String, String, String, String))
    ensures
        (r.0@, r.1@, r.2@, r.3@) == card_values_of(*s),
{
    let avg = match average_total_ms(s) {
        Some(ms) => {
            let mut t = String::new();
            crate::format::push_signed(&mut t, ms);
            push_str(&mut t, " ms");
            t
        },
        None => {
            let mut t = String::new();
            push_str(&mut t, "n/a");
            t
        },
    };
    (count(s.dictations), count(s.words), duration(s.audio_ms), avg)
}

/// "About 3 m 10 s saved vs typing at 40 WPM."
pub fn time_saved_line(s: &Stats) -> (r: String)
    ensures
        r@ == "About "@ + duration_of(time_saved_of(s.words as int, s.audio_ms as int))
            + " saved vs typing at 40 WPM."@,
{
    let mut t = String::new();
    push_str(&mut t, "About ");
    let d = duration(time_saved_ms(s.words, s.audio_ms));
    push_str(&mut t, d.as_str());
    push_str(&mut t, " saved vs typing at 40 WPM.");
    t
}

/// "Since July 2, 2026.": the date the counters started, in the user's
/// time zone.
pub fn since_line(s: &Stats, tz: &jiff::tz::TimeZone) -> (r: String)
    ensures
        r@ == "Since "@ + date_text_of(zoned_date(s.since_ts_ms, *tz)) + "."@,
{
    let d = local_date(s.since_ts_ms, tz);
    let mut t = String::new();
    push_str(&mut t, "Since ");
    let text = date_text(d);
    push_str(&mut t, text.as_str());
    push_str(&mut t, ".");
    t
}

/// "3 of 10 dictations to unlock stats".
pub fn unlock_title(dictations: i64) -> (r: String)
    ensures
        r@ == signed(dictations as int) + " of "@ + signed(UNLOCK_AT as int) + " dictations to unlock stats"@,
{
    let mut t = String::new();
    crate::format::push_signed(&mut t, dictations);
    push_str(&mut t, " of ");
    crate::format::push_signed(&mut t, UNLOCK_AT);
    push_str(&mut t, " dictations to unlock stats");
    t
}

/// The panel state: the counters as last read, and the write generation
/// they reflect.
pub struct StatsPage {
    stats: Option<Stats>,
    loaded: Option<u64>,
    fetch_error: Option<String>,
    confirm: Option<Confirm>,
}

impl StatsPage {
    pub closed spec fn stats_view(&self) -> Option<Stats> {
        self.stats
    }

    pub closed spec fn loaded_view(&self) -> Option<u64> {
        self.loaded
    }

    pub closed spec fn error_view(&self) -> Option<Seq<char>> {
        match self.fetch_error {
            Some(e) => Some(e@),
            None => None,
        }
    }

    pub closed spec fn confirm_view(&self) -> Option<Confirm> {
        self.confirm
    }

    /// Nothing read yet.
    pub fn new() -> (p: Self)
        ensures
            p.stats_view() is None,
            p.loaded_view() is None,
            p.error_view() is None,
            p.confirm_view() is None,
    {
        StatsPage { stats: None, loaded: None, fetch_error: None, confirm: None }
    }

    /// Whether the counters are stale for write `generation`.
    pub fn needs_query(&self, generation: u64) -> (b: bool)
        ensures
            b == (self.loaded_view() != Some(generation)),
    {
        match self.loaded {
            Some(g) => g != generation,
            None => true,
        }
    }

    /// Take a read's outcome for write `generation`.
    pub fn fetched(&mut self, generation: u64, result: Result<Stats, String>)
        ensures
            final(self).loaded_view() == Some(generation),
            match result {
                Ok(s) => final(self).stats_view() == Some(s) && final(self).error_view() is None,
                Err(e) => final(self).stats_view() is None && final(self).error_view() == Some(e@),
            },
            final(self).confirm_view() == old(self).confirm_view(),
    {
        match result {
            Ok(s) => {
                self.stats = Some(s);
                self.fetch_error = None;
            },
            Err(e) => {
                self.stats = None;
                self.fetch_error = Some(e);
            },
        }
        self.loaded = Some(generation);
    }

    /// The counters as last read.
    pub fn stats(&self) -> (s: Option<Stats>)
        ensures
            s == self.stats_view(),
    {
        self.stats
    }

    /// What the body shows: never a zeroed dashboard.
    pub fn body(&self) -> (b: Body)
        ensures
            b == (match self.stats_view() {
                None => Body::ReadError,
                Some(s) => if s.dictations < UNLOCK_AT {
                    Body::Locked
                } else {
                    Body::Cards
                },
            }),
    {
        match self.stats {
            None => Body::ReadError,
            Some(s) => if s.dictations < UNLOCK_AT {
                Body::Locked
            } else {
                Body::Cards
            },
        }
    }

    /// Ask before resetting: the confirmation names what survives.
    pub fn ask_reset(&mut self)
        ensures
            final(self).confirm_view() matches Some(c) && c.title@ == "Reset stats?"@ && c.body@
                == "Sets every counter to zero and restarts the since-date. Your history entries are untouched."@
                && c.action@ == "Reset stats"@ && c.focus_cancel,
            final(self).stats_view() == old(self).stats_view(),
            final(self).loaded_view() == old(self).loaded_view(),
            final(self).error_view() == old(self).error_view(),
    {
        let mut title = String::new();
        push_str(&mut title, "Reset stats?");
        let mut body = String::new();
        push_str(
            &mut body,
            "Sets every counter to zero and restarts the since-date. Your history entries are untouched.",
        );
        let mut action = String::new();
        push_str(&mut action, "Reset stats");
        self.confirm = Some(Confirm::new(title, body, action));
    }

    /// The pending reset confirmation, for rendering.
    pub fn pending_confirm(&self) -> (c: Option<&Confirm>)
        ensures
            match c {
                Some(x) => self.confirm_view() == Some(*x),
                None => self.confirm_view() is None,
            },
    {
        match &self.confirm {
            Some(x) => Some(x),
            None => None,
        }
    }

    /// The confirmation resolved (on yes the glue resets the counters).
    pub fn resolve_reset(&mut self)
        ensures
            final(self).confirm_view() is None,
            final(self).stats_view() == old(self).stats_view(),
            final(self).loaded_view() == old(self).loaded_view(),
            final(self).error_view() == old(self).error_view(),
    {
        self.confirm = None;
    }
}

} // verus!
