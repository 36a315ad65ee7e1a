//! Tracker-level behavior: capacity, eviction, and the prediction
//! arithmetic on concrete sample sequences.
//!
//! Units mirror the library's fixed-point convention: timestamps in
//! nanoseconds, deltas in millionths of a unit.

use input_predictor::tracker::VelocityTracker;

const SECOND: i64 = 1_000_000_000;
const MILLI: i64 = 1_000_000;
const UNIT: i64 = 1_000_000;

#[test]
fn buffer_length_never_exceeds_capacity() {
    let mut t = VelocityTracker::new(3);
    for k in 0..10i64 {
        t.add_sample(k * SECOND, UNIT, 0);
        assert!(t.len() <= 3);
    }
    assert_eq!(t.len(), 3);
}

#[test]
fn zero_capacity_buffer_stays_empty() {
    let mut t = VelocityTracker::new(0);
    t.add_sample(0, UNIT, UNIT);
    t.add_sample(SECOND, UNIT, UNIT);
    assert_eq!(t.len(), 0);
    assert_eq!(t.predict(1000), (0, 0));
}

#[test]
fn oldest_sample_is_evicted_first() {
    // Same sample stream; the smaller capacity must have dropped the first
    // sample, which changes the averaged velocity.
    let mut small = VelocityTracker::new(2);
    let mut large = VelocityTracker::new(3);
    for (t, dx) in [(0i64, UNIT), (SECOND, UNIT), (2 * SECOND, 3 * UNIT)] {
        small.add_sample(t, dx, 0);
        large.add_sample(t, dx, 0);
    }
    // capacity 2 keeps the last pair alone: velocity 2 units/s over 1 pair
    assert_eq!(small.predict(1000), (2 * UNIT as i128, 0));
    // capacity 3 still holds the first sample, whose pair contributes
    // nothing but dilutes the average: 2 units/s over 2 pairs
    assert_eq!(large.predict(1000), (UNIT as i128, 0));
}

#[test]
fn predict_on_empty_buffer_is_zero() {
    let t = VelocityTracker::new(10);
    assert_eq!(t.predict(1000), (0, 0));
}

#[test]
fn predict_on_single_sample_is_zero() {
    let mut t = VelocityTracker::new(10);
    t.add_sample(5 * MILLI, 42 * UNIT, 7 * UNIT);
    assert_eq!(t.predict(1000), (0, 0));
}

#[test]
fn predict_is_deterministic() {
    let mut a = VelocityTracker::new(10);
    let mut b = VelocityTracker::new(10);
    for (t, dx, dy) in [(0i64, UNIT, -UNIT), (8 * MILLI, 2 * UNIT, 0), (16 * MILLI, UNIT, UNIT)] {
        a.add_sample(t, dx, dy);
        b.add_sample(t, dx, dy);
    }
    assert_eq!(a.predict(16), b.predict(16));
    // and repeated calls on the same tracker agree with themselves
    assert_eq!(a.predict(16), a.predict(16));
}

#[test]
fn constant_velocity_two_samples() {
    // samples (t=0, 0, 0) and (t=1s, 10 units, 0), window 1000 ms:
    // one pair, velocity 10 units/s, averaged over one pair, extrapolated
    // over one second: exactly 10 units forward, none vertically.
    let mut t = VelocityTracker::new(10);
    t.add_sample(0, 0, 0);
    t.add_sample(SECOND, 10 * UNIT, 0);
    let (px, py) = t.predict(1000);
    assert_eq!(px, 10 * UNIT as i128);
    assert_eq!(py, 0);
    // the fixed-point answer converts to 10.0 within float tolerance
    let fx = px as f64 / 1e6;
    assert!((fx - 10.0).abs() < 1e-9);
}

#[test]
fn identical_timestamps_predict_zero() {
    let mut t = VelocityTracker::new(10);
    t.add_sample(SECOND, 5 * UNIT, 5 * UNIT);
    t.add_sample(SECOND, 9 * UNIT, -3 * UNIT);
    assert_eq!(t.predict(1000), (0, 0));
}

#[test]
fn non_increasing_timestamps_predict_zero() {
    let mut t = VelocityTracker::new(10);
    t.add_sample(3 * SECOND, UNIT, 0);
    t.add_sample(2 * SECOND, UNIT, 0);
    t.add_sample(SECOND, UNIT, 0);
    assert_eq!(t.predict(1000), (0, 0));
}

#[test]
fn pairs_before_cutoff_are_excluded() {
    // samples at 0, 8 ms, 16 ms with deltas 0, 4, 8 units.
    // window 16 ms: both pairs included, velocities 500 and 500 units/s,
    // averaged over 2 pairs -> 500 units/s, over 16 ms -> 8 units.
    let mut t = VelocityTracker::new(10);
    t.add_sample(0, 0, 0);
    t.add_sample(8 * MILLI, 4 * UNIT, 0);
    t.add_sample(16 * MILLI, 8 * UNIT, 0);
    assert_eq!(t.predict(16), (8 * UNIT as i128, 0));
    // window 8 ms: the pair starting at t=0 is before the cutoff and is
    // excluded, but still dilutes the average: 500 / 2 = 250 units/s,
    // over 8 ms -> 2 units.
    assert_eq!(t.predict(8), (2 * UNIT as i128, 0));
}

#[test]
fn quotients_truncate_toward_zero() {
    // 1 unit over 3 s gives 333333 millionths/s truncated, extrapolated
    // over 3 s: 999999, one millionth shy of the exact unit.  The symmetric
    // negative motion gives -999999: truncation toward zero, not the floor
    // (-333334 per second would end at -1000002).
    let mut fwd = VelocityTracker::new(10);
    fwd.add_sample(0, 0, 0);
    fwd.add_sample(3 * SECOND, UNIT, 0);
    assert_eq!(fwd.predict(3000), (999_999, 0));

    let mut back = VelocityTracker::new(10);
    back.add_sample(0, 0, 0);
    back.add_sample(3 * SECOND, -UNIT, 0);
    assert_eq!(back.predict(3000), (-999_999, 0));
}

#[test]
fn largest_supported_capacity_works() {
    let mut t = VelocityTracker::new(input_predictor::tracker::MAX_CAPACITY);
    t.add_sample(0, 0, 0);
    t.add_sample(1_000 * MILLI, 10 * UNIT, 0);
    assert_eq!(t.predict(1000), (10 * UNIT as i128, 0));
    assert_eq!(t.len(), 2);
}

#[test]
fn clear_empties_but_keeps_capacity() {
    let mut t = VelocityTracker::new(2);
    t.add_sample(0, UNIT, 0);
    t.add_sample(SECOND, UNIT, 0);
    t.clear();
    assert_eq!(t.len(), 0);
    assert_eq!(t.predict(1000), (0, 0));
    // capacity still 2: a third add evicts again
    t.add_sample(0, UNIT, 0);
    t.add_sample(SECOND, UNIT, 0);
    t.add_sample(2 * SECOND, UNIT, 0);
    assert_eq!(t.len(), 2);
}
