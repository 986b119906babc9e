use hark::assemble::{plan_window, read_start, retry_start, tail_wait_budget_ms};
use hark::resample::resampled_len;
use hark::ring::{check_range, ring, RangeError};
use hark::window::{gate_hold, ms_to_samples, ring_capacity, ring_seconds, window_bounds, GateVerdict, WindowParams};

const RATE: u32 = 48_000;

fn params() -> WindowParams {
    WindowParams::default()
}

fn indexed(n: u64) -> Vec<u32> {
    (0..n).map(|i| (i as f32).to_bits()).collect()
}

fn floats(v: &[u32]) -> Vec<f32> {
    v.iter().map(|b| f32::from_bits(*b)).collect()
}

#[test]
fn read_back_before_wrap() {
    let mut r = ring(64);
    r.push(&indexed(10));
    let got = r.read_range(2, 7).unwrap();
    assert_eq!(floats(&got), vec![2.0, 3.0, 4.0, 5.0, 6.0]);
    assert_eq!(r.total_written(), 10);
    assert_eq!(r.oldest_available(), 0);
}

#[test]
fn read_across_wrap_boundary() {
    let mut r = ring(16);
    r.push(&indexed(40));
    assert_eq!(r.total_written(), 40);
    assert_eq!(r.oldest_available(), 24);
    let got = r.read_range(30, 36).unwrap();
    assert_eq!(floats(&got), vec![30.0, 31.0, 32.0, 33.0, 34.0, 35.0]);
}

#[test]
fn full_capacity_read_is_available() {
    let mut r = ring(8);
    r.push(&indexed(8));
    assert_eq!(r.read_range(0, 8).unwrap(), indexed(8));
}

#[test]
fn not_yet_produced_is_detected() {
    let mut r = ring(16);
    r.push(&indexed(5));
    assert_eq!(
        r.read_range(0, 6).unwrap_err(),
        RangeError::NotYetProduced { requested_end: 6, written: 5 }
    );
}

#[test]
fn overwritten_is_detected() {
    let mut r = ring(8);
    r.push(&indexed(20));
    assert_eq!(
        r.read_range(11, 15).unwrap_err(),
        RangeError::Overwritten { requested_start: 11, oldest: 12 }
    );
}

#[test]
fn backwards_range_is_rejected() {
    let mut r = ring(8);
    r.push(&indexed(4));
    assert_eq!(r.read_range(3, 2).unwrap_err(), RangeError::Backwards);
}

#[test]
fn empty_range_is_empty() {
    let mut r = ring(8);
    r.push(&indexed(4));
    assert_eq!(r.read_range(2, 2).unwrap(), Vec::<u32>::new());
}

#[test]
fn pushes_in_pieces_read_back_in_order() {
    let mut r = ring(5);
    r.push(&[1, 2, 3]);
    r.push(&[4, 5, 6, 7]);
    assert_eq!(r.read_range(2, 7).unwrap(), vec![3, 4, 5, 6, 7]);
    assert_eq!(check_range(0, 1, 7, 5), Err(RangeError::Overwritten { requested_start: 0, oldest: 2 }));
    assert_eq!(check_range(2, 7, 7, 5), Ok(()));
}

#[test]
fn ms_conversion_is_exact_at_48k() {
    assert_eq!(ms_to_samples(300, RATE), 14_400);
    assert_eq!(ms_to_samples(150, RATE), 7_200);
    assert_eq!(ms_to_samples(0, RATE), 0);
}

#[test]
fn window_extends_preroll_and_tail() {
    let (start, end) = window_bounds(100_000, 200_000, RATE, &params());
    assert_eq!(start, 100_000 - 14_400);
    assert_eq!(end, 200_000 + 7_200);
}

#[test]
fn preroll_clamps_at_absolute_zero() {
    let down = ms_to_samples(100, RATE);
    let (start, end) = window_bounds(down, down + 48_000, RATE, &params());
    assert_eq!(start, 0);
    assert_eq!(end, down + 48_000 + 7_200);
}

#[test]
fn over_max_hold_keeps_most_recent_audio() {
    let p = params();
    let max_hold_samples = p.max_hold_s as u64 * RATE as u64;
    let down = 1_000_000;
    let up = down + max_hold_samples + 480_000;
    let (start, end) = window_bounds(down, up, RATE, &p);
    assert_eq!(end, up + 7_200);
    assert_eq!(start, (up - max_hold_samples) - 14_400);
    assert!(start > down, "capped window must drop the oldest audio");
}

#[test]
fn exactly_max_hold_is_not_truncated() {
    let p = params();
    let max_hold_samples = p.max_hold_s as u64 * RATE as u64;
    let down = 1_000_000;
    let up = down + max_hold_samples;
    let (start, _) = window_bounds(down, up, RATE, &p);
    assert_eq!(start, down - 14_400);
}

#[test]
fn ring_capacity_holds_a_maximal_window() {
    let p = params();
    let cap = ring_capacity(RATE, &p) as u64;
    let max_hold_samples = p.max_hold_s as u64 * RATE as u64;
    let window = max_hold_samples + 14_400 + 7_200;
    assert!(cap >= window + RATE as u64, "one second of copy slack");
}

#[test]
fn ring_seconds_covers_ring_capacity_at_any_rate() {
    let p = params();
    for rate in [16_000_u32, 44_100, 48_000, 96_000] {
        let by_seconds = ring_seconds(&p) as usize * rate as usize;
        assert!(by_seconds >= ring_capacity(rate, &p), "ring_seconds under-sizes the ring at {rate} Hz");
    }
}

#[test]
fn ring_seconds_of_the_defaults() {
    assert_eq!(ring_seconds(&params()), 122);
    let p = WindowParams { preroll_ms: 1000, tail_ms: 0, max_hold_s: 1, min_speech_ms: 0 };
    assert_eq!(ring_seconds(&p), 3);
}

#[test]
fn gate_hold_drops_misfires() {
    let p = params();
    assert_eq!(gate_hold(0, 11_999, RATE, &p), GateVerdict::TooShort);
    assert_eq!(gate_hold(0, 12_000, RATE, &p), GateVerdict::Speech);
    assert_eq!(gate_hold(500, 500, RATE, &p), GateVerdict::TooShort);
}

#[test]
fn resampled_len_matches_known_ratios() {
    assert_eq!(resampled_len(48_000, 48_000), 16_000);
    assert_eq!(resampled_len(44_100, 44_100), 16_000);
    assert_eq!(resampled_len(240, 48_000), 80);
    assert_eq!(resampled_len(0, 48_000), 0);
}

#[test]
fn resampled_len_rounds_up() {
    assert_eq!(resampled_len(1, 48_000), 1);
    assert_eq!(resampled_len(4, 48_000), 2);
}

#[test]
fn a_too_short_hold_plans_nothing() {
    assert_eq!(plan_window(0, ms_to_samples(100, RATE), RATE, &params()), None);
    assert_eq!(
        plan_window(RATE as u64, 2 * RATE as u64, RATE, &params()),
        Some((RATE as u64 - 14_400, 2 * RATE as u64 + 7_200))
    );
}

#[test]
fn assembly_waits_for_the_tail_and_clamps_to_the_ring() {
    assert_eq!(tail_wait_budget_ms(&params()), 1_150);
    assert_eq!(read_start(10, 20), 20);
    assert_eq!(read_start(30, 20), 30);
    assert_eq!(retry_start(5, &RangeError::Overwritten { requested_start: 5, oldest: 9 }), Some(9));
    assert_eq!(retry_start(5, &RangeError::Backwards), None);
}
