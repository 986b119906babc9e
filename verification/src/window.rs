//! Pre-roll/tail window arithmetic and the hold gate. Pure sample-index
//! arithmetic over absolute sample counters: no clock, no audio.

use vstd::prelude::*;

verus! {

/// Window parameters in wall-clock units, converted to sample counts against
/// the live device rate. The loudness threshold of the silence gate is a
/// floating-point level and is kept beside these by the audio glue.
#[derive(Debug, Clone, Copy)]
pub struct WindowParams {
    pub preroll_ms: u32,
    pub tail_ms: u32,
    pub max_hold_s: u32,
    pub min_speech_ms: u32,
}

impl Default for WindowParams {
    fn default() -> (p: Self)
        ensures
            p.preroll_ms == 300,
            p.tail_ms == 150,
            p.max_hold_s == 120,
            p.min_speech_ms == 250,
    {
        WindowParams { preroll_ms: 300, tail_ms: 150, max_hold_s: 120, min_speech_ms: 250 }
    }
}

/// `ms` milliseconds expressed in samples at `rate` (rounded down).
pub open spec fn samples_of(ms: nat, rate: nat) -> nat {
    ms * rate / 1000
}

/// The sample range `[start, end)` a dictation covers.
pub open spec fn bounds_of(down: nat, up: nat, rate: nat, p: WindowParams) -> (nat, nat) {
    let max_hold = p.max_hold_s as nat * rate;
    let effective_down = if up - down > max_hold { (up - max_hold) as nat } else { down };
    let preroll = samples_of(p.preroll_ms as nat, rate);
    let start = if effective_down >= preroll { (effective_down - preroll) as nat } else { 0nat };
    (start, up + samples_of(p.tail_ms as nat, rate))
}

/// Samples the ring must hold so that a maximal window is always resident,
/// plus one second of slack for samples arriving during the copy.
pub open spec fn capacity_of(rate: nat, p: WindowParams) -> nat {
    p.max_hold_s as nat * rate + samples_of(p.preroll_ms as nat, rate) + samples_of(
        p.tail_ms as nat,
        rate,
    ) + rate
}

/// `x / d` rounded up.
pub open spec fn ceil_div(x: nat, d: nat) -> nat {
    ((x + d - 1) / (d as int)) as nat
}

/// The ring size in whole seconds.
pub open spec fn seconds_of(p: WindowParams) -> nat {
    p.max_hold_s as nat + ceil_div(p.preroll_ms as nat + p.tail_ms as nat, 1000) + 1
}

/// Convert milliseconds to a sample count at `rate`.
pub fn ms_to_samples(ms: u32, rate: u32) -> (n: u64)
    ensures
        n == samples_of(ms as nat, rate as nat),
{
    proof {
        vstd::arithmetic::mul::lemma_mul_upper_bound(ms as int, u32::MAX as int, rate as int, u32::MAX as int);
    }
    (ms as u64) * (rate as u64) / 1000
}

/// The absolute sample range `[start, end)` to extract for a dictation whose
/// chord went down at `down_abs` and up at `up_abs`: pre-roll before the
/// press (clamped at sample zero), tail after the release, and a hold longer
/// than `max_hold_s` keeps only its most recent audio.
pub fn window_bounds(down_abs: u64, up_abs: u64, rate: u32, params: &WindowParams) -> (r: (u64, u64))
    requires
        down_abs <= up_abs,
        up_abs + samples_of(params.tail_ms as nat, rate as nat) <= u64::MAX,
    ensures
        (r.0 as nat, r.1 as nat) == bounds_of(down_abs as nat, up_abs as nat, rate as nat, *params),
{
    let preroll = ms_to_samples(params.preroll_ms, rate);
    let tail = ms_to_samples(params.tail_ms, rate);
    proof {
        vstd::arithmetic::mul::lemma_mul_upper_bound(
            params.max_hold_s as int, u32::MAX as int, rate as int, u32::MAX as int);
    }
    let max_hold = params.max_hold_s as u64 * rate as u64;
    let hold = up_abs - down_abs;
    let effective_down = if hold > max_hold { up_abs - max_hold } else { down_abs };
    let start = effective_down.saturating_sub(preroll);
    (start, up_abs + tail)
}

/// The ring capacity, in samples at `rate`, that always holds a maximal
/// window: max hold + pre-roll + tail, plus one second of slack.
pub fn ring_capacity(rate: u32, params: &WindowParams) -> (n: usize)
    requires
        capacity_of(rate as nat, *params) <= usize::MAX,
    ensures
        n == capacity_of(rate as nat, *params),
{
    let pre = ms_to_samples(params.preroll_ms, rate);
    let tail = ms_to_samples(params.tail_ms, rate);
    let window = params.max_hold_s as u64 * rate as u64 + pre + tail;
    (window + rate as u64) as usize
}

/// `ring_capacity` in whole seconds, for sizing the ring before the device
/// rate is known.
pub fn ring_seconds(params: &WindowParams) -> (s: u32)
    requires
        params.preroll_ms + params.tail_ms <= u32::MAX,
        seconds_of(*params) <= u32::MAX,
    ensures
        s == seconds_of(*params),
        forall|rate: nat| #[trigger] (s as nat * rate) >= capacity_of(rate, *params),
{
    proof {
        assert forall|rate: nat| #[trigger] (seconds_of(*params) * rate) >= capacity_of(rate, *params) by {
            seconds_cover_capacity(rate, *params);
        }
    }
    let sum = params.preroll_ms + params.tail_ms;
    let whole = sum / 1000;
    let up = if sum % 1000 == 0 { whole } else { whole + 1 };
    proof {
        let x = sum as int;
        vstd::arithmetic::div_mod::lemma_fundamental_div_mod(x, 1000);
        vstd::arithmetic::div_mod::lemma_fundamental_div_mod(x + 999, 1000);
        assert(ceil_div(sum as nat, 1000) == up) by (nonlinear_arith)
            requires
                x == 1000 * (x / 1000) + x % 1000,
                x + 999 == 1000 * ((x + 999) / 1000) + (x + 999) % 1000,
                0 <= x % 1000 < 1000,
                0 <= (x + 999) % 1000 < 1000,
                whole == x / 1000,
                up == if x % 1000 == 0 { whole as int } else { whole + 1 },
                ceil_div(sum as nat, 1000) == (x + 999) / 1000,
        ;
    }
    params.max_hold_s + up + 1
}

/// Why a clip was dropped, or `Speech` to proceed.
#[derive(Debug, Clone, Copy, PartialEq, Eq, Structural)]
pub enum GateVerdict {
    Speech,
    /// The hold was shorter than `min_speech_ms`: a misfire.
    TooShort,
    /// No window of the assembled clip reached speaking level.
    TooQuiet,
}

/// Gate on hold duration, measured between press and release (not over the
/// padded window, whose pre-roll and tail would always pass).
pub fn gate_hold(down_abs: u64, up_abs: u64, rate: u32, params: &WindowParams) -> (v: GateVerdict)
    ensures
        v == (if (if up_abs >= down_abs { up_abs - down_abs } else { 0 }) < samples_of(params.min_speech_ms as nat, rate as nat) {
            GateVerdict::TooShort
        } else {
            GateVerdict::Speech
        }),
{
    let hold = up_abs.saturating_sub(down_abs);
    if hold < ms_to_samples(params.min_speech_ms, rate) {
        GateVerdict::TooShort
    } else {
        GateVerdict::Speech
    }
}

/// A window never spans more than the ring capacity minus its slack second:
/// whatever the press and release, the extracted range is still resident in
/// a ring sized by `ring_capacity`.
pub proof fn window_fits_ring(down: nat, up: nat, rate: nat, p: WindowParams)
    requires
        down <= up,
    ensures
        bounds_of(down, up, rate, p).1 - bounds_of(down, up, rate, p).0 + rate <= capacity_of(rate, p),
{
}

/// Sizing the ring in whole seconds never under-sizes it, at any rate.
pub proof fn seconds_cover_capacity(rate: nat, p: WindowParams)
    ensures
        seconds_of(p) * rate >= capacity_of(rate, p),
{
    let a = p.preroll_ms as int;
    let b = p.tail_ms as int;
    let r = rate as int;
    let c = ceil_div((a + b) as nat, 1000) as int;
    vstd::arithmetic::div_mod::lemma_fundamental_div_mod(a * r, 1000);
    vstd::arithmetic::div_mod::lemma_fundamental_div_mod(b * r, 1000);
    vstd::arithmetic::div_mod::lemma_fundamental_div_mod(a + b + 999, 1000);
    assert(samples_of(a as nat, rate) + samples_of(b as nat, rate) <= c * r) by (nonlinear_arith)
        requires
            a >= 0, b >= 0, r >= 0,
            a * r == 1000 * ((a * r) / 1000) + (a * r) % 1000,
            b * r == 1000 * ((b * r) / 1000) + (b * r) % 1000,
            0 <= (a * r) % 1000, 0 <= (b * r) % 1000,
            a + b + 999 == 1000 * c + (a + b + 999) % 1000,
            (a + b + 999) % 1000 < 1000,
            samples_of(a as nat, rate) == (a * r) / 1000,
            samples_of(b as nat, rate) == (b * r) / 1000,
    ;
    assert(seconds_of(p) * rate == p.max_hold_s as nat * rate + c * r + r) by (nonlinear_arith)
        requires seconds_of(p) == p.max_hold_s as nat + c + 1, r == rate;
}

} // verus!
