//! History panel text: row previews, pluralised counts, the row actions and
//! the latency line of an expanded row.

use vstd::prelude::*;
use crate::format::{count, count_of, push_signed, signed};
use crate::text::{preview_chars, preview_of, push_str, same_chars};

verus! {

/// What the user did to a row this frame; the page applies it after the
/// list loop.
#[derive(Debug, Clone, Copy, PartialEq, Eq, Structural)]
pub enum Action {
    Toggle(i64),
    Copy(i64),
    Delete(i64),
}

/// Preview length: roughly two wrapped lines at the list column width.
pub const PREVIEW_CHARS: usize = 160;

/// Whitespace-normalized, character-safe preview with an ellipsis.
pub fn preview(text: &str) -> (r: String)
    ensures
        r@ == preview_of(text@, PREVIEW_CHARS as nat),
{
    preview_chars(text, PREVIEW_CHARS)
}

/// "1 dictation" / "214 dictations" / "1 match" / "3 matches" / "5 entries".
pub open spec fn plural_of(n: u64, noun: Seq<char>) -> Seq<char> {
    let formatted = count_of((n as i64) as int);
    if n == 1 {
        formatted + " "@ + noun
    } else if noun == "match"@ {
        formatted + " matches"@
    } else if noun == "entry"@ {
        formatted + " entries"@
    } else {
        formatted + " "@ + noun + "s"@
    }
}

/// A count with its noun, pluralised (with the two irregular nouns the
/// panel uses).
pub fn plural(n: u64, noun: &str) -> (r: String)
    ensures
        r@ == plural_of(n, noun@),
{
    let mut out = count(n as i64);
    if n == 1 {
        push_str(&mut out, " ");
        push_str(&mut out, noun);
    } else if same_chars(noun, "match") {
        push_str(&mut out, " matches");
    } else if same_chars(noun, "entry") {
        push_str(&mut out, " entries");
    } else {
        push_str(&mut out, " ");
        push_str(&mut out, noun);
        push_str(&mut out, "s");
    }
    out
}

/// One stored dictation, as the history list reads it.
pub struct Entry {
    pub id: i64,
    pub ts_ms: i64,
    pub raw_text: String,
    pub final_text: String,
    pub voice: String,
    pub stt_provider: String,
    pub stt_model: String,
    pub cleanup_model: Option<String>,
    pub stt_ms: i64,
    pub cleanup_ms: Option<i64>,
    pub total_ms: i64,
}

/// The cleanup that shaped an entry's text, if one did: its time and its
/// model, both recorded.
pub open spec fn cleanup_of(e: Entry) -> Option<(int, Seq<char>)> {
    match (e.cleanup_ms, e.cleanup_model) {
        (Some(ms), Some(model)) => Some((ms as int, model@)),
        _ => None,
    }
}

/// "stt 400 ms · cleanup 300 ms (gpt-5-nano) · total 800 ms"; the cleanup
/// segment appears only when a cleanup response actually shaped the text.
pub open spec fn timing_of(stt: int, cleanup: Option<(int, Seq<char>)>, total: int) -> Seq<char> {
    match cleanup {
        Some((ms, model)) => "stt "@ + signed(stt) + " ms \u{b7} cleanup "@ + signed(ms) + " ms ("@
            + model + ") \u{b7} total "@ + signed(total) + " ms"@,
        None => "stt "@ + signed(stt) + " ms \u{b7} total "@ + signed(total) + " ms"@,
    }
}

/// The latency line of an expanded row.
pub fn timing_line(entry: &Entry) -> (r: String)
    ensures
        r@ == timing_of(entry.stt_ms as int, cleanup_of(*entry), entry.total_ms as int),
{
    let mut out = String::new();
    push_str(&mut out, "stt ");
    push_signed(&mut out, entry.stt_ms);
    match (entry.cleanup_ms, &entry.cleanup_model) {
        (Some(ms), Some(model)) => {
            push_str(&mut out, " ms \u{b7} cleanup ");
            push_signed(&mut out, ms);
            push_str(&mut out, " ms (");
            push_str(&mut out, model.as_str());
            push_str(&mut out, ") \u{b7} total ");
        },
        _ => {
            push_str(&mut out, " ms \u{b7} total ");
        },
    }
    push_signed(&mut out, entry.total_ms);
    push_str(&mut out, " ms");
    out
}

} // verus!
