//! Predictor-level behavior: routing to the right tracker, reset, and the
//! end-to-end pointer scenario.

use input_predictor::predictor::{InputPredictor, PredictionParams};

const MILLI: i64 = 1_000_000;
const UNIT: i64 = 1_000_000;

fn params_16ms() -> PredictionParams {
    PredictionParams { window_ms: 16, smoothing_factor: 0, velocity_decay: 0 }
}

#[test]
fn end_to_end_pointer_scenario() {
    // window 16 ms; pointer samples (0 s, 0, 0), (0.008 s, 4, 0),
    // (0.016 s, 4, 0): velocities 500 and 0 units/s, averaged over two
    // pairs -> 250 units/s, over 16 ms -> exactly 4 units, none vertical.
    let mut p = InputPredictor::new(params_16ms());
    p.predict_pointer_motion(0, 0, 0);
    p.predict_pointer_motion(8 * MILLI, 4 * UNIT, 0);
    let (dx, dy) = p.predict_pointer_motion(16 * MILLI, 4 * UNIT, 0);
    assert!(dx > 0);
    assert_eq!(dx, 4 * UNIT as i128);
    assert_eq!(dy, 0);
}

#[test]
fn pointer_and_scroll_are_independent() {
    let mut p = InputPredictor::new(params_16ms());
    p.predict_pointer_motion(0, 4 * UNIT, 0);
    p.predict_pointer_motion(8 * MILLI, 4 * UNIT, 0);
    // the scroll tracker has seen nothing: its first prediction is zero
    assert_eq!(p.predict_scroll(16 * MILLI, 2 * UNIT, 2 * UNIT), (0, 0));
    // and feeding scroll did not disturb the pointer tracker's state:
    // a fresh predictor fed the same pointer stream agrees
    let mut q = InputPredictor::new(params_16ms());
    q.predict_pointer_motion(0, 4 * UNIT, 0);
    q.predict_pointer_motion(8 * MILLI, 4 * UNIT, 0);
    assert_eq!(
        p.predict_pointer_motion(16 * MILLI, 4 * UNIT, 0),
        q.predict_pointer_motion(16 * MILLI, 4 * UNIT, 0),
    );
}

#[test]
fn first_two_predictions_are_zero() {
    let mut p = InputPredictor::new(params_16ms());
    assert_eq!(p.predict_pointer_motion(0, 3 * UNIT, UNIT), (0, 0));
    let second = p.predict_pointer_motion(8 * MILLI, 5 * UNIT, 2 * UNIT);
    assert_ne!(second, (0, 0));
}

#[test]
fn reset_behaves_like_fresh() {
    let mut used = InputPredictor::new(params_16ms());
    for k in 0..5i64 {
        used.predict_pointer_motion(k * 8 * MILLI, 4 * UNIT, UNIT);
        used.predict_scroll(k * 8 * MILLI, 0, 2 * UNIT);
    }
    used.reset();

    let mut fresh = InputPredictor::new(params_16ms());
    // identical call sequences after the reset yield identical outputs,
    // starting with zero until two samples have arrived
    let stream = [(0i64, 4 * UNIT, 0i64), (8 * MILLI, 4 * UNIT, 0), (16 * MILLI, 4 * UNIT, 0)];
    for (t, dx, dy) in stream {
        assert_eq!(used.predict_pointer_motion(t, dx, dy), fresh.predict_pointer_motion(t, dx, dy));
        assert_eq!(used.predict_scroll(t, dy, dx), fresh.predict_scroll(t, dy, dx));
    }
}

#[test]
fn reset_prediction_zero_until_two_samples() {
    let mut p = InputPredictor::new(params_16ms());
    p.predict_pointer_motion(0, 0, 0);
    p.predict_pointer_motion(8 * MILLI, 4 * UNIT, 0);
    let before = p.predict_pointer_motion(16 * MILLI, 8 * UNIT, 0);
    assert_ne!(before, (0, 0));
    p.reset();
    assert_eq!(p.predict_pointer_motion(24 * MILLI, 4 * UNIT, 0), (0, 0));
}
