//! The contract the predictor exposes to a foreign caller.
//!
//! A foreign host holds a predictor through an opaque handle that may be
//! null, and passes output destinations that may be missing.  Here the
//! handle is an `Option` of the owned predictor and the presence of the
//! output destinations a boolean, so that the status-code logic is ordinary
//! verified code; an unverified shim maps raw pointers onto these values and
//! writes the returned offsets out.

use crate::predictor::{fresh_model, InputPredictor, PredictionParams};
use crate::tracker::{buffer_after_add, predict_spec, Sample, DEFAULT_MAX_SAMPLES, DELTA_LIMIT};
use vstd::prelude::*;

verus! {

/// Status of a successful boundary call.
pub const STATUS_OK: i32 = 0;

/// Status of a boundary call with a null handle or a missing output
/// destination; nothing is computed and no state is touched.
pub const STATUS_INVALID_ARGUMENT: i32 = -1;

/// A new predictor for the given parameters; the caller owns it.  Never
/// fails.
pub fn rust_input_predictor_create(
    window_ms: u32,
    smoothing_factor: i64,
    velocity_decay: i64,
) -> (p: InputPredictor)
    ensures
        p.wf(),
        p@ == fresh_model((PredictionParams { window_ms, smoothing_factor, velocity_decay })),
{
    InputPredictor::new(PredictionParams { window_ms, smoothing_factor, velocity_decay })
}

/// Releases a predictor by consuming it.  A null handle (`None`) is a safe
/// no-op; nothing is returned either way.
pub fn rust_input_predictor_destroy(predictor: Option<InputPredictor>) {
}

/// Records a pointer-motion sample and predicts the pointer offset.
/// Returns the status and, on success alone, the offsets to write to the
/// caller's destinations.  With a null handle or missing destinations the
/// predictor is untouched and nothing is produced.
pub fn rust_input_predictor_predict_pointer(
    predictor: &mut Option<InputPredictor>,
    outputs_present: bool,
    t_ns: i64,
    dx: i64,
    dy: i64,
) -> (r: (i32, Option<(i128, i128)>))
    requires
        (*old(predictor)) matches Some(p) ==> p.wf(),
        -DELTA_LIMIT <= dx <= DELTA_LIMIT,
        -DELTA_LIMIT <= dy <= DELTA_LIMIT,
    ensures
        (r.0 == STATUS_OK) <==> ((*old(predictor)) is Some && outputs_present),
        r.0 == STATUS_OK || r.0 == STATUS_INVALID_ARGUMENT,
        r.0 == STATUS_INVALID_ARGUMENT ==> *final(predictor) == *old(predictor) && r.1 is None,
        (*old(predictor)) matches Some(p) ==> outputs_present ==> {
            &&& (*final(predictor)) matches Some(q)
            &&& q.wf()
            &&& q@.pointer == buffer_after_add(
                p@.pointer,
                (Sample { t_ns, dx, dy }),
                DEFAULT_MAX_SAMPLES,
            )
            &&& q@.scroll == p@.scroll
            &&& q@.params == p@.params
            &&& r.1 matches Some(out)
            &&& out.0 == predict_spec(q@.pointer, p@.params.window_ms).0
            &&& out.1 == predict_spec(q@.pointer, p@.params.window_ms).1
        },
{
    let current: Option<InputPredictor> = predictor.take();
    match current {
        Some(mut p) => {
            if outputs_present {
                let out = p.predict_pointer_motion(t_ns, dx, dy);
                *predictor = Some(p);
                (STATUS_OK, Some(out))
            } else {
                *predictor = Some(p);
                (STATUS_INVALID_ARGUMENT, None)
            }
        },
        None => (STATUS_INVALID_ARGUMENT, None),
    }
}

/// Records a scroll sample and predicts the scroll offset; the same boundary
/// contract as the pointer call, routed to the scroll tracker.
pub fn rust_input_predictor_predict_scroll(
    predictor: &mut Option<InputPredictor>,
    outputs_present: bool,
    t_ns: i64,
    dx: i64,
    dy: i64,
) -> (r: (i32, Option<(i128, i128)>))
    requires
        (*old(predictor)) matches Some(p) ==> p.wf(),
        -DELTA_LIMIT <= dx <= DELTA_LIMIT,
        -DELTA_LIMIT <= dy <= DELTA_LIMIT,
    ensures
        (r.0 == STATUS_OK) <==> ((*old(predictor)) is Some && outputs_present),
        r.0 == STATUS_OK || r.0 == STATUS_INVALID_ARGUMENT,
        r.0 == STATUS_INVALID_ARGUMENT ==> *final(predictor) == *old(predictor) && r.1 is None,
        (*old(predictor)) matches Some(p) ==> outputs_present ==> {
            &&& (*final(predictor)) matches Some(q)
            &&& q.wf()
            &&& q@.scroll == buffer_after_add(
                p@.scroll,
                (Sample { t_ns, dx, dy }),
                DEFAULT_MAX_SAMPLES,
            )
            &&& q@.pointer == p@.pointer
            &&& q@.params == p@.params
            &&& r.1 matches Some(out)
            &&& out.0 == predict_spec(q@.scroll, p@.params.window_ms).0
            &&& out.1 == predict_spec(q@.scroll, p@.params.window_ms).1
        },
{
    let current: Option<InputPredictor> = predictor.take();
    match current {
        Some(mut p) => {
            if outputs_present {
                let out = p.predict_scroll(t_ns, dx, dy);
                *predictor = Some(p);
                (STATUS_OK, Some(out))
            } else {
                *predictor = Some(p);
                (STATUS_INVALID_ARGUMENT, None)
            }
        },
        None => (STATUS_INVALID_ARGUMENT, None),
    }
}

/// Clears both of the predictor's trackers, preserving the parameters.
/// Returns `STATUS_OK`, or `STATUS_INVALID_ARGUMENT` for a null handle,
/// which touches nothing.
pub fn rust_input_predictor_reset(predictor: &mut Option<InputPredictor>) -> (status: i32)
    requires
        (*old(predictor)) matches Some(p) ==> p.wf(),
    ensures
        (status == STATUS_OK) <==> (*old(predictor)) is Some,
        status == STATUS_OK || status == STATUS_INVALID_ARGUMENT,
        (*old(predictor)) is None ==> *final(predictor) == *old(predictor),
        (*old(predictor)) matches Some(p) ==> {
            &&& (*final(predictor)) matches Some(q)
            &&& q.wf()
            &&& q@ == fresh_model(p@.params)
        },
{
    let current: Option<InputPredictor> = predictor.take();
    match current {
        Some(mut p) => {
            p.reset();
            *predictor = Some(p);
            STATUS_OK
        },
        None => STATUS_INVALID_ARGUMENT,
    }
}

} // verus!
