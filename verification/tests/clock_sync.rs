//! Clock-synchronizer scenarios: convergence on drifting linear input and
//! the degraded small-window path.

use rustcv::ClockSynchronizer;

#[test]
fn pll_converges_on_linear_drift() {
    // Hardware ticks 33 ms per frame; arrival advances 33.1 ms per frame:
    // the true slope is 33.1/33 = 1.00303...
    let mut pll = ClockSynchronizer::new(30);
    let mut last: u64 = 0;
    for i in 0..=30u64 {
        let hw = 33_000_000 * i;
        let arrival = 33_100_000 * i;
        let corrected = pll.correct(hw, arrival);
        assert!(
            corrected >= last,
            "corrected times must not regress on linear input"
        );
        last = corrected;
    }
    let (num, den) = pll.slope_parts();
    assert!(den > 0);
    // Exact recovery of the true slope as a fraction.
    assert_eq!(330 * num, 331 * den);
    // And within the 0.003 tolerance around 1.003.
    assert!((1000 * num - 1003 * den).abs() <= 3 * den);
}

#[test]
fn small_window_uses_offset_only_path() {
    let mut pll = ClockSynchronizer::new(30);
    // With fewer than five samples the answer anchors on the first arrival
    // and adds the hardware advance.
    assert_eq!(pll.correct(1_000, 500_000), 500_000);
    assert_eq!(pll.correct(34_001_000, 533_000_000), 500_000 + 34_000_000);
    assert_eq!(pll.correct(67_001_000, 566_000_000), 500_000 + 67_000_000);
}

#[test]
fn regression_prediction_is_exact_on_clean_data() {
    // With slope exactly 1 and offset 0, the prediction equals the arrival.
    let mut pll = ClockSynchronizer::new(10);
    let mut out: u64 = 0;
    for i in 0..8u64 {
        out = pll.correct(1_000_000 * i, 1_000_000 * i + 7);
    }
    // y = x + 7 fits exactly; the seventh sample predicts its own arrival.
    assert_eq!(out, 7_000_007);
}

#[test]
fn window_never_exceeds_requested_size() {
    // A window of 2 keeps degrading gracefully (never 5 samples).
    let mut pll = ClockSynchronizer::new(2);
    for i in 0..20u64 {
        let c = pll.correct(10_000 * i, 20_000 * i);
        // Offset-only: first-of-window arrival + hw advance; with window 2
        // the base slides along, so the answer stays near the arrivals.
        assert!(c >= 10_000 * i);
    }
}

#[test]
fn hardware_clock_reset_does_not_panic() {
    let mut pll = ClockSynchronizer::new(30);
    for i in 0..10u64 {
        pll.correct(33_000_000 * i, 33_000_000 * i);
    }
    // The device reconnects and its counter resets to zero.
    let c = pll.correct(0, 340_000_000);
    // Saturating: never panics, still a value.
    let _ = c;
}
