//! The decisions of window assembly: whether a press/release pair is worth
//! extracting at all, which samples to take, how long to wait for the tail,
//! and where to resume after the producer laps a read. Waiting, copying
//! and resampling happen in the capture glue.

use vstd::prelude::*;
use crate::resample::ResampleError;
use crate::ring::RangeError;
use crate::window::{bounds_of, gate_hold, samples_of, window_bounds, GateVerdict, WindowParams};

verus! {

/// Why a window could not be assembled.
pub enum AssembleError {
    /// The stream stopped producing before the tail arrived.
    StreamStalled { needed: u64, written: u64, waited_ms: u128 },
    /// The ring refused the read.
    Ring(RangeError),
    /// Resampling failed.
    Resample(ResampleError),
}

/// The range to extract, or `None` when the hold was a misfire (checked
/// first, so a misfire costs nothing, not even waiting for the tail).
pub fn plan_window(down_abs: u64, up_abs: u64, rate: u32, params: &WindowParams) -> (r: Option<(u64, u64)>)
    requires
        down_abs <= up_abs,
        up_abs + samples_of(params.tail_ms as nat, rate as nat) <= u64::MAX,
    ensures
        match r {
            None => up_abs - down_abs < samples_of(params.min_speech_ms as nat, rate as nat),
            Some(b) => up_abs - down_abs >= samples_of(params.min_speech_ms as nat, rate as nat) && (
            b.0 as nat, b.1 as nat) == bounds_of(down_abs as nat, up_abs as nat, rate as nat, *params),
        },
{
    if gate_hold(down_abs, up_abs, rate, params) == GateVerdict::TooShort {
        return None;
    }
    Some(window_bounds(down_abs, up_abs, rate, params))
}

/// How long to wait for the tail before calling the stream stalled: the
/// tail itself plus one second.
pub fn tail_wait_budget_ms(params: &WindowParams) -> (ms: u64)
    ensures
        ms == params.tail_ms + 1000,
{
    params.tail_ms as u64 + 1_000
}

/// The start actually read: the planned start, clamped to what the ring
/// still holds (a press right after launch reaches before sample zero).
pub fn read_start(start: u64, oldest: u64) -> (s: u64)
    ensures
        s == (if start >= oldest { start } else { oldest }),
{
    if start >= oldest {
        start
    } else {
        oldest
    }
}

/// Where to retry after a failed read: only when the producer lapped the
/// read, from the new oldest sample; any other refusal is final.
pub fn retry_start(start: u64, err: &RangeError) -> (s: Option<u64>)
    ensures
        s == (match *err {
            RangeError::Overwritten { oldest, .. } => Some(if start >= oldest { start } else { oldest }),
            _ => None,
        }),
{
    match err {
        RangeError::Overwritten { oldest, .. } => Some(read_start(start, *oldest)),
        _ => None,
    }
}

} // verus!
