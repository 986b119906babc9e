//! Startup decisions: what the command line asks for, whether a second
//! launch should surface the running instance, how long a relaunch waits
//! for the previous instance's lock, and when the log file rotates. The
//! lock, the clock and the files belong to the glue.

use vstd::prelude::*;
use crate::autostart::HIDDEN_FLAG;
use crate::text::same_chars;

verus! {

/// The log rotates once it passes this many bytes; one backup is kept, so
/// the logs cost at most twice this on disk.
pub const LOG_MAX_BYTES: u64 = 2_097_152;

/// How long a relaunched instance waits for the outgoing one's lock, in
/// milliseconds, and how often it tries.
pub const RELAUNCH_LOCK_WAIT_MS: u64 = 5_000;
pub const RELAUNCH_LOCK_POLL_MS: u64 = 100;

/// Whether some argument is exactly `flag`.
pub fn has_flag(args: &Vec<String>, flag: &str) -> (b: bool)
    ensures
        b == exists|i: int| 0 <= i < args@.len() && args@[i]@ == flag@,
{
    let mut i: usize = 0;
    while i < args.len()
        invariant
            i <= args@.len(),
            forall|k: int| 0 <= k < i ==> args@[k]@ != flag@,
        decreases args@.len() - i,
    {
        if same_chars(args[i].as_str(), flag) {
            return true;
        }
        i = i + 1;
    }
    false
}

/// Whether this launch came from the login entry (start hidden).
pub fn launched_hidden(args: &Vec<String>) -> (b: bool)
    ensures
        b == exists|i: int| 0 <= i < args@.len() && args@[i]@ == HIDDEN_FLAG@,
{
    has_flag(args, HIDDEN_FLAG)
}

/// A second launch found Hark already running. Someone who clicked the
/// shortcut wants to see it, so the running instance is asked to show
/// itself; the updater's silent handover and the login entry never wanted
/// a window.
pub fn activate_existing(relaunched: bool, launched_hidden: bool) -> (b: bool)
    ensures
        b == (!relaunched && !launched_hidden),
{
    !relaunched && !launched_hidden
}

/// After a lock attempt `waited_ms` into the wait: whether to try again.
/// A normal launch tries once; a relaunch keeps polling while the previous
/// instance finishes releasing the lock, up to the grace period.
pub fn retry_lock(acquired: bool, relaunched: bool, waited_ms: u64) -> (b: bool)
    ensures
        b == (!acquired && relaunched && waited_ms < RELAUNCH_LOCK_WAIT_MS),
{
    !acquired && relaunched && waited_ms < RELAUNCH_LOCK_WAIT_MS
}

/// Whether the log file has grown past the rotation size.
pub fn should_rotate(len: u64) -> (b: bool)
    ensures
        b == (len > LOG_MAX_BYTES),
{
    len > LOG_MAX_BYTES
}

} // verus!
