//! Routing of typed input samples to per-category trackers.
//!
//! A predictor owns one tracker for pointer motion and one for scroll,
//! together with an immutable parameter set.  The trackers are independent:
//! feeding one never changes the other.

use crate::tracker::{
    buffer_after_add, predict_spec, Sample, VelocityTracker, DEFAULT_MAX_SAMPLES, DELTA_LIMIT,
};
use vstd::prelude::*;

verus! {

/// Input event categories shared with the host pipeline.  Only
/// `PointerMotion` and `Scroll` are routed by this crate; the others are
/// reserved for the host.
#[derive(Clone, Copy, PartialEq, Eq, Structural, Debug)]
pub enum InputEventType {
    PointerMotion,
    PointerButton,
    Scroll,
    Key,
    Touch,
}

impl InputEventType {
    /// Numeric code of each category in the shared vocabulary.
    pub open spec fn code_spec(self) -> i32 {
        match self {
            InputEventType::PointerMotion => 0,
            InputEventType::PointerButton => 1,
            InputEventType::Scroll => 2,
            InputEventType::Key => 3,
            InputEventType::Touch => 4,
        }
    }

    /// Numeric code of this category.
    pub fn code(self) -> (c: i32)
        ensures
            c == self.code_spec(),
    {
        match self {
            InputEventType::PointerMotion => 0,
            InputEventType::PointerButton => 1,
            InputEventType::Scroll => 2,
            InputEventType::Key => 3,
            InputEventType::Touch => 4,
        }
    }
}

/// Prediction parameters.  `window_ms` serves as both the trailing-average
/// window and the extrapolation horizon.  `smoothing_factor` and
/// `velocity_decay` are accepted and kept but reserved: the prediction
/// arithmetic does not read them.  Both are fixed point, in millionths.
#[derive(Clone, Copy, PartialEq, Eq, Structural, Debug)]
pub struct PredictionParams {
    /// Trailing-average window and extrapolation horizon, in milliseconds.
    pub window_ms: u32,
    /// Reserved smoothing weight, in millionths.
    pub smoothing_factor: i64,
    /// Reserved velocity decay, in millionths.
    pub velocity_decay: i64,
}

/// Mathematical image of a predictor: both sample buffers and the
/// parameters.
#[verifier::ext_equal]
pub struct PredictorModel {
    pub pointer: Seq<Sample>,
    pub scroll: Seq<Sample>,
    pub params: PredictionParams,
}

/// The model of a predictor that has recorded nothing.
pub open spec fn fresh_model(params: PredictionParams) -> PredictorModel {
    PredictorModel { pointer: Seq::empty(), scroll: Seq::empty(), params }
}

/// One pointer-motion tracker, one scroll tracker, and the parameter set.
pub struct InputPredictor {
    pointer_tracker: VelocityTracker,
    scroll_tracker: VelocityTracker,
    params: PredictionParams,
}

impl View for InputPredictor {
    type V = PredictorModel;

    closed spec fn view(&self) -> PredictorModel {
        PredictorModel {
            pointer: self.pointer_tracker@,
            scroll: self.scroll_tracker@,
            params: self.params,
        }
    }
}

impl InputPredictor {
    /// Well-formed: both trackers are well-formed and have the default
    /// capacity.
    pub closed spec fn wf(&self) -> bool {
        &&& self.pointer_tracker.wf()
        &&& self.scroll_tracker.wf()
        &&& self.pointer_tracker.capacity() == DEFAULT_MAX_SAMPLES
        &&& self.scroll_tracker.capacity() == DEFAULT_MAX_SAMPLES
    }

    /// A predictor with empty trackers and the given parameters.  The
    /// parameters are fixed for the predictor's whole life.
    pub fn new(params: PredictionParams) -> (p: Self)
        ensures
            p.wf(),
            p@ == fresh_model(params),
    {
        InputPredictor {
            pointer_tracker: VelocityTracker::new(DEFAULT_MAX_SAMPLES),
            scroll_tracker: VelocityTracker::new(DEFAULT_MAX_SAMPLES),
            params,
        }
    }

    /// Records a pointer-motion sample and predicts the pointer offset over
    /// the configured window.  The scroll tracker and the parameters are
    /// untouched.
    pub fn predict_pointer_motion(&mut self, t_ns: i64, dx: i64, dy: i64) -> (r: (i128, i128))
        requires
            old(self).wf(),
            -DELTA_LIMIT <= dx <= DELTA_LIMIT,
            -DELTA_LIMIT <= dy <= DELTA_LIMIT,
        ensures
            final(self).wf(),
            final(self)@.pointer == buffer_after_add(
                old(self)@.pointer,
                (Sample { t_ns, dx, dy }),
                DEFAULT_MAX_SAMPLES,
            ),
            final(self)@.scroll == old(self)@.scroll,
            final(self)@.params == old(self)@.params,
            r.0 == predict_spec(final(self)@.pointer, old(self)@.params.window_ms).0,
            r.1 == predict_spec(final(self)@.pointer, old(self)@.params.window_ms).1,
    {
        self.pointer_tracker.add_sample(t_ns, dx, dy);
        self.pointer_tracker.predict(self.params.window_ms)
    }

    /// Records a scroll sample and predicts the scroll offset over the
    /// configured window.  The pointer tracker and the parameters are
    /// untouched.
    pub fn predict_scroll(&mut self, t_ns: i64, dx: i64, dy: i64) -> (r: (i128, i128))
        requires
            old(self).wf(),
            -DELTA_LIMIT <= dx <= DELTA_LIMIT,
            -DELTA_LIMIT <= dy <= DELTA_LIMIT,
        ensures
            final(self).wf(),
            final(self)@.scroll == buffer_after_add(
                old(self)@.scroll,
                (Sample { t_ns, dx, dy }),
                DEFAULT_MAX_SAMPLES,
            ),
            final(self)@.pointer == old(self)@.pointer,
            final(self)@.params == old(self)@.params,
            r.0 == predict_spec(final(self)@.scroll, old(self)@.params.window_ms).0,
            r.1 == predict_spec(final(self)@.scroll, old(self)@.params.window_ms).1,
    {
        self.scroll_tracker.add_sample(t_ns, dx, dy);
        self.scroll_tracker.predict(self.params.window_ms)
    }

    /// Clears both sample buffers; the parameters are preserved.
    pub fn reset(&mut self)
        requires
            old(self).wf(),
        ensures
            final(self).wf(),
            final(self)@ == fresh_model(old(self)@.params),
    {
        self.pointer_tracker.clear();
        self.scroll_tracker.clear();
    }
}

/// A reset predictor behaves as a freshly created one: `reset` leaves the
/// same model that `new` establishes for the same parameters, so every later
/// prediction agrees; in particular, until two new samples have arrived in a
/// buffer, prediction over it returns (0, 0).
pub proof fn lemma_reset_matches_fresh(
    after_reset: InputPredictor,
    fresh: InputPredictor,
    window_ms: u32,
)
    requires
        after_reset@ == fresh_model(after_reset@.params),
        fresh@ == fresh_model(after_reset@.params),
    ensures
        after_reset@ == fresh@,
        predict_spec(after_reset@.pointer, window_ms) == predict_spec(fresh@.pointer, window_ms),
        predict_spec(after_reset@.scroll, window_ms) == predict_spec(fresh@.scroll, window_ms),
        forall|x: Sample|
            predict_spec(#[trigger] after_reset@.pointer.push(x), window_ms) == (0int, 0int),
{
    assert forall|x: Sample|
        predict_spec(#[trigger] after_reset@.pointer.push(x), window_ms) == (0int, 0int) by {
        assert(after_reset@.pointer.push(x).len() == 1);
    }
}

} // verus!
