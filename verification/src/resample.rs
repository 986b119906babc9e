//! Device-rate to 16 kHz arithmetic: the capture contract's target rate
//! and the exact output length of a whole-clip resample.

use vstd::prelude::*;
use crate::window::ceil_div;

verus! {

/// Everything downstream of capture (WAV encode, STT upload) speaks 16 kHz
/// mono.
pub const TARGET_RATE: u32 = 16_000;

/// Why resampling failed.
pub enum ResampleError {
    /// The resampler could not be built for this input rate.
    Construct { src_rate: u32, detail: String },
    /// The resampler failed while processing.
    Process(String),
}

/// The exact output length a whole-clip resample produces for `input_len`
/// samples at `src_rate`: `ceil(input_len * 16000 / src_rate)`.
pub fn resampled_len(input_len: usize, src_rate: u32) -> (n: usize)
    requires
        src_rate > 0,
        input_len * 16000 <= u64::MAX,
        ceil_div(input_len as nat * 16000, src_rate as nat) <= usize::MAX,
    ensures
        n == ceil_div(input_len as nat * 16000, src_rate as nat),
{
    let x = input_len as u64 * TARGET_RATE as u64;
    let r = src_rate as u64;
    let q = x / r;
    let up = if x % r != 0 { q + 1 } else { q };
    proof {
        let xi = x as int;
        let ri = r as int;
        vstd::arithmetic::div_mod::lemma_fundamental_div_mod(xi, ri);
        vstd::arithmetic::div_mod::lemma_fundamental_div_mod(xi + ri - 1, ri);
        assert(up == (xi + ri - 1) / ri) by (nonlinear_arith)
            requires
                ri > 0,
                xi >= 0,
                xi == ri * (xi / ri) + xi % ri,
                0 <= xi % ri < ri,
                xi + ri - 1 == ri * ((xi + ri - 1) / ri) + (xi + ri - 1) % ri,
                0 <= (xi + ri - 1) % ri < ri,
                q == xi / ri,
                up == if xi % ri != 0 { q + 1 } else { q as int },
        ;
    }
    up as usize
}

/// `resampled_len` for any input: `None` when the rate is zero or the
/// length does not fit the machine's integers.
pub fn checked_resampled_len(input_len: usize, src_rate: u32) -> (r: Option<usize>)
    ensures
        match r {
            Some(n) => src_rate > 0 && input_len * 16000 <= u64::MAX && n == ceil_div(
                input_len as nat * 16000,
                src_rate as nat,
            ),
            None => src_rate == 0 || input_len * 16000 > u64::MAX || ceil_div(
                input_len as nat * 16000,
                src_rate as nat,
            ) > usize::MAX,
        },
{
    if src_rate == 0 {
        return None;
    }
    if input_len as u64 > u64::MAX / 16000 {
        return None;
    }
    let x = input_len as u64 * 16000;
    let r = src_rate as u64;
    let q = x / r;
    let up = if x % r != 0 { q + 1 } else { q };
    proof {
        let xi = x as int;
        let ri = r as int;
        vstd::arithmetic::div_mod::lemma_fundamental_div_mod(xi, ri);
        vstd::arithmetic::div_mod::lemma_fundamental_div_mod(xi + ri - 1, ri);
        assert(up == (xi + ri - 1) / ri) by (nonlinear_arith)
            requires
                ri > 0,
                xi >= 0,
                xi == ri * (xi / ri) + xi % ri,
                0 <= xi % ri < ri,
                xi + ri - 1 == ri * ((xi + ri - 1) / ri) + (xi + ri - 1) % ri,
                0 <= (xi + ri - 1) % ri < ri,
                q == xi / ri,
                up == if xi % ri != 0 { q + 1 } else { q as int },
        ;
    }
    if up > usize::MAX as u64 {
        return None;
    }
    Some(up as usize)
}

/// One second of input at any rate resamples to exactly one second at
/// 16 kHz.
pub proof fn one_second_stays_one_second(rate: nat)
    requires
        rate > 0,
    ensures
        ceil_div(rate * 16000, rate) == 16000,
{
    let x = rate * 16000 + rate - 1;
    assert(x == rate * 16000 + (rate - 1));
    vstd::arithmetic::div_mod::lemma_fundamental_div_mod_converse(x as int, rate as int, 16000, rate - 1);
}

} // verus!
