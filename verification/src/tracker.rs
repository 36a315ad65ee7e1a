//! A bounded buffer of motion samples and velocity-based extrapolation.
//!
//! A tracker keeps the most recent samples in arrival order, evicting the
//! oldest once a fixed capacity is exceeded.  Prediction averages the
//! velocities of consecutive sample pairs inside a trailing time window and
//! extrapolates that velocity over the same window.
//!
//! Units: timestamps are nanoseconds; deltas and predicted offsets are
//! millionths of an input unit (fixed point, six fractional decimal digits).

use crate::num::{div_signed, div_trunc, lemma_div_trunc_bounded};
use vstd::prelude::*;

verus! {

/// Default number of samples a predictor's trackers keep.
pub const DEFAULT_MAX_SAMPLES: usize = 10;

/// Largest capacity a tracker accepts; keeps every intermediate sum of the
/// prediction arithmetic inside `i128`.
pub const MAX_CAPACITY: usize = 65536;

/// Largest magnitude a sample delta may have, in millionths of a unit.
/// Bounds each velocity term of the prediction arithmetic.
pub const DELTA_LIMIT: i64 = 1_000_000_000_000_000;

/// Nanoseconds in a millisecond.
pub const NANOS_PER_MILLI: i64 = 1_000_000;

/// Nanoseconds in a second.
pub const NANOS_PER_SECOND: i64 = 1_000_000_000;

/// Milliseconds in a second.
pub const MILLIS_PER_SECOND: i64 = 1_000;

/// One observed motion or scroll delta with its timestamp.
#[derive(Clone, Copy, PartialEq, Eq, Structural, Debug)]
pub struct Sample {
    /// Time of the observation, in nanoseconds.
    pub t_ns: i64,
    /// Horizontal delta, in millionths of a unit.
    pub dx: i64,
    /// Vertical delta, in millionths of a unit.
    pub dy: i64,
}

/// Whether a sample's deltas are within the magnitude the arithmetic admits.
pub open spec fn sample_in_range(s: Sample) -> bool {
    &&& -DELTA_LIMIT <= s.dx <= DELTA_LIMIT
    &&& -DELTA_LIMIT <= s.dy <= DELTA_LIMIT
}

/// The buffer after recording one sample: appended, and the oldest entry
/// evicted when the capacity would otherwise be exceeded.
pub open spec fn buffer_after_add(s: Seq<Sample>, x: Sample, cap: usize) -> Seq<Sample> {
    if s.len() < cap {
        s.push(x)
    } else {
        s.push(x).skip(1)
    }
}

/// Oldest timestamp still inside the trailing window that ends at the last
/// sample.
pub open spec fn cutoff_ns(s: Seq<Sample>, window_ms: u32) -> int
    recommends
        s.len() > 0,
{
    s.last().t_ns - window_ms * NANOS_PER_MILLI
}

/// Whether the consecutive pair starting at `i` contributes to the average:
/// its earlier sample is not before the cutoff and its elapsed time is
/// positive.
pub open spec fn pair_included(s: Seq<Sample>, i: int, cutoff: int) -> bool
    recommends
        0 <= i < s.len() - 1,
{
    &&& s[i].t_ns >= cutoff
    &&& s[i].t_ns < s[i + 1].t_ns
}

/// Horizontal velocity of the pair starting at `i`, in millionths of a unit
/// per second, truncated toward zero.
pub open spec fn vel_x(s: Seq<Sample>, i: int) -> int
    recommends
        0 <= i < s.len() - 1,
        s[i].t_ns < s[i + 1].t_ns,
{
    div_trunc((s[i + 1].dx - s[i].dx) * NANOS_PER_SECOND, s[i + 1].t_ns - s[i].t_ns)
}

/// Vertical velocity of the pair starting at `i`.
pub open spec fn vel_y(s: Seq<Sample>, i: int) -> int
    recommends
        0 <= i < s.len() - 1,
        s[i].t_ns < s[i + 1].t_ns,
{
    div_trunc((s[i + 1].dy - s[i].dy) * NANOS_PER_SECOND, s[i + 1].t_ns - s[i].t_ns)
}

/// Sum of the horizontal velocities of the included pairs among the first
/// `k` pairs.
pub open spec fn sum_vel_x(s: Seq<Sample>, cutoff: int, k: int) -> int
    decreases k,
{
    if k <= 0 {
        0
    } else {
        sum_vel_x(s, cutoff, k - 1) + if pair_included(s, k - 1, cutoff) {
            vel_x(s, k - 1)
        } else {
            0
        }
    }
}

/// Sum of the vertical velocities of the included pairs among the first `k`
/// pairs.
pub open spec fn sum_vel_y(s: Seq<Sample>, cutoff: int, k: int) -> int
    decreases k,
{
    if k <= 0 {
        0
    } else {
        sum_vel_y(s, cutoff, k - 1) + if pair_included(s, k - 1, cutoff) {
            vel_y(s, k - 1)
        } else {
            0
        }
    }
}

/// Sum of the elapsed times of the included pairs among the first `k` pairs.
pub open spec fn sum_dt(s: Seq<Sample>, cutoff: int, k: int) -> int
    decreases k,
{
    if k <= 0 {
        0
    } else {
        sum_dt(s, cutoff, k - 1) + if pair_included(s, k - 1, cutoff) {
            s[k].t_ns - s[k - 1].t_ns
        } else {
            0
        }
    }
}

/// The predicted offset for a sample buffer and a window, in millionths of a
/// unit.  Fewer than two samples, or no included pair with positive elapsed
/// time, predict zero; otherwise the summed velocities are averaged over the
/// full buffer span (`len - 1` pairs) and extrapolated over the window.
pub open spec fn predict_spec(s: Seq<Sample>, window_ms: u32) -> (int, int) {
    if s.len() < 2 {
        (0int, 0int)
    } else {
        let cutoff = cutoff_ns(s, window_ms);
        let k = s.len() - 1;
        if sum_dt(s, cutoff, k) > 0 {
            let avg_x = div_trunc(sum_vel_x(s, cutoff, k), k);
            let avg_y = div_trunc(sum_vel_y(s, cutoff, k), k);
            (
                div_trunc(avg_x * window_ms, MILLIS_PER_SECOND as int),
                div_trunc(avg_y * window_ms, MILLIS_PER_SECOND as int),
            )
        } else {
            (0int, 0int)
        }
    }
}

/// Bounded buffer of recent samples together with its extrapolation logic.
pub struct VelocityTracker {
    samples: Vec<Sample>,
    max_samples: usize,
}

impl View for VelocityTracker {
    type V = Seq<Sample>;

    closed spec fn view(&self) -> Seq<Sample> {
        self.samples@
    }
}

impl VelocityTracker {
    /// The fixed capacity this tracker was created with.
    pub closed spec fn capacity(&self) -> usize {
        self.max_samples
    }

    /// Well-formed: never more samples than the capacity, the capacity within
    /// the supported maximum, and every recorded delta in range.
    pub open spec fn wf(&self) -> bool {
        &&& self@.len() <= self.capacity()
        &&& self.capacity() <= MAX_CAPACITY
        &&& forall|i: int| 0 <= i < self@.len() ==> sample_in_range(#[trigger] self@[i])
    }

    /// An empty tracker with the given capacity.
    pub fn new(max_samples: usize) -> (t: Self)
        requires
            max_samples <= MAX_CAPACITY,
        ensures
            t.wf(),
            t@ == Seq::<Sample>::empty(),
            t.capacity() == max_samples,
    {
        VelocityTracker { samples: Vec::with_capacity(max_samples), max_samples }
    }

    /// Records one sample, evicting the oldest when the buffer would exceed
    /// its capacity.  Timestamp ordering is the caller's concern and is not
    /// validated.
    pub fn add_sample(&mut self, t_ns: i64, dx: i64, dy: i64)
        requires
            old(self).wf(),
            -DELTA_LIMIT <= dx <= DELTA_LIMIT,
            -DELTA_LIMIT <= dy <= DELTA_LIMIT,
        ensures
            final(self).wf(),
            final(self).capacity() == old(self).capacity(),
            final(self)@ == buffer_after_add(old(self)@, (Sample { t_ns, dx, dy }), old(self).capacity()),
    {
        self.samples.push(Sample { t_ns, dx, dy });
        if self.samples.len() > self.max_samples {
            self.samples.remove(0);
            proof {
                assert(self@ =~= old(self)@.push(Sample { t_ns, dx, dy }).skip(1));
            }
        }
    }

    /// Predicted offset over the given window, in millionths of a unit.
    pub fn predict(&self, prediction_window_ms: u32) -> (r: (i128, i128))
        requires
            self.wf(),
        ensures
            r.0 == predict_spec(self@, prediction_window_ms).0,
            r.1 == predict_spec(self@, prediction_window_ms).1,
            self@.len() < 2 ==> r == (0i128, 0i128),
    {
        let n: usize = self.samples.len();
        if n < 2 {
            return (0, 0);
        }
        let last_t: i128 = self.samples[n - 1].t_ns as i128;
        // 1_000_000 nanoseconds in a millisecond
        let cutoff: i128 = last_t - (prediction_window_ms as i128) * 1_000_000;
        proof {
            assert(cutoff == cutoff_ns(self@, prediction_window_ms));
        }

        let mut svx: i128 = 0;
        let mut svy: i128 = 0;
        let mut sdt: i128 = 0;
        let mut i: usize = 1;
        while i < n
            invariant
                self.wf(),
                n == self@.len(),
                2 <= n <= MAX_CAPACITY,
                1 <= i <= n,
                cutoff == cutoff_ns(self@, prediction_window_ms),
                svx == sum_vel_x(self@, cutoff as int, i - 1),
                svy == sum_vel_y(self@, cutoff as int, i - 1),
                sdt == sum_dt(self@, cutoff as int, i - 1),
                // each velocity term is at most 2 * DELTA_LIMIT * NANOS_PER_SECOND
                -(((i - 1) as int) * 2_000_000_000_000_000_000_000_000) <= svx
                    <= ((i - 1) as int) * 2_000_000_000_000_000_000_000_000,
                -(((i - 1) as int) * 2_000_000_000_000_000_000_000_000) <= svy
                    <= ((i - 1) as int) * 2_000_000_000_000_000_000_000_000,
                // each elapsed-time term is at most the span of i64 timestamps
                0 <= sdt <= ((i - 1) as int) * 18_446_744_073_709_551_615,
            decreases n - i,
        {
            let s1 = self.samples[i - 1];
            let s2 = self.samples[i];
            if s1.t_ns as i128 >= cutoff {
                let dt: i128 = s2.t_ns as i128 - s1.t_ns as i128;
                if dt > 0 {
                    proof {
                        assert(sample_in_range(self@[i as int - 1]));
                        assert(sample_in_range(self@[i as int]));
                    }
                    // 1_000_000_000 nanoseconds in a second
                    let ndx: i128 = (s2.dx as i128 - s1.dx as i128) * 1_000_000_000;
                    let ndy: i128 = (s2.dy as i128 - s1.dy as i128) * 1_000_000_000;
                    let qx: i128 = div_signed(ndx, dt);
                    let qy: i128 = div_signed(ndy, dt);
                    svx = svx + qx;
                    svy = svy + qy;
                    sdt = sdt + dt;
                }
            }
            i = i + 1;
        }

        if sdt > 0 {
            let n1: i128 = (n - 1) as i128;
            let avx: i128 = div_signed(svx, n1);
            let avy: i128 = div_signed(svy, n1);
            proof {
                lemma_div_trunc_bounded(svx as int, n1 as int, 2_000_000_000_000_000_000_000_000);
                lemma_div_trunc_bounded(svy as int, n1 as int, 2_000_000_000_000_000_000_000_000);
            }
            let wins: i128 = prediction_window_ms as i128;
            proof {
                assert(-(8_589_934_592_000_000_000_000_000_000_000_000) <= avx * wins
                    <= 8_589_934_592_000_000_000_000_000_000_000_000) by (nonlinear_arith)
                    requires
                        -2_000_000_000_000_000_000_000_000 <= avx <= 2_000_000_000_000_000_000_000_000,
                        0 <= wins <= 4_294_967_296,
                ;
                assert(-(8_589_934_592_000_000_000_000_000_000_000_000) <= avy * wins
                    <= 8_589_934_592_000_000_000_000_000_000_000_000) by (nonlinear_arith)
                    requires
                        -2_000_000_000_000_000_000_000_000 <= avy <= 2_000_000_000_000_000_000_000_000,
                        0 <= wins <= 4_294_967_296,
                ;
            }
            // 1_000 milliseconds in a second
            let px: i128 = div_signed(avx * wins, 1_000);
            let py: i128 = div_signed(avy * wins, 1_000);
            (px, py)
        } else {
            (0, 0)
        }
    }

    /// Number of samples currently buffered.
    pub fn len(&self) -> (n: usize)
        ensures
            n == self@.len(),
    {
        self.samples.len()
    }

    /// Empties the buffer; the capacity is unchanged.
    pub fn clear(&mut self)
        requires
            old(self).wf(),
        ensures
            final(self).wf(),
            final(self).capacity() == old(self).capacity(),
            final(self)@ == Seq::<Sample>::empty(),
    {
        self.samples.clear();
    }
}

/// Recording a sample never grows a buffer past its capacity, and eviction
/// is strictly oldest-first: an unfilled buffer just appends, while a full
/// one keeps its length, shifts every entry down by one — dropping the
/// oldest — and ends with the new sample.
pub proof fn lemma_buffer_capacity_bound(s: Seq<Sample>, x: Sample, cap: usize)
    requires
        s.len() <= cap,
    ensures
        buffer_after_add(s, x, cap).len() <= cap,
        s.len() < cap ==> buffer_after_add(s, x, cap) == s.push(x),
        s.len() == cap && cap > 0 ==> {
            &&& buffer_after_add(s, x, cap).len() == cap
            &&& forall|j: int| 0 <= j < cap - 1 ==> buffer_after_add(s, x, cap)[j] == s[j + 1]
            &&& buffer_after_add(s, x, cap).last() == x
        },
{
}

/// Prediction is a pure function of the recorded samples and the window:
/// identical sample sequences and windows always yield identical output.
pub proof fn lemma_predict_deterministic(a: Seq<Sample>, b: Seq<Sample>, window_ms: u32)
    requires
        a == b,
    ensures
        predict_spec(a, window_ms) == predict_spec(b, window_ms),
{
}

proof fn lemma_sum_dt_zero(s: Seq<Sample>, cutoff: int, k: int)
    requires
        k <= s.len() - 1,
        forall|i: int| 0 <= i < s.len() - 1 ==> (#[trigger] s[i + 1]).t_ns <= s[i].t_ns,
    ensures
        sum_dt(s, cutoff, k) == 0,
    decreases k,
{
    if k > 0 {
        lemma_sum_dt_zero(s, cutoff, k - 1);
        assert(s[k - 1 + 1].t_ns <= s[k - 1].t_ns);
    }
}

/// A buffer whose timestamps never strictly increase predicts zero motion:
/// every consecutive pair has non-positive elapsed time, so no pair
/// contributes and the total elapsed time stays zero.  Two samples with
/// identical timestamps are the simplest instance.
pub proof fn lemma_predict_zero_duration(s: Seq<Sample>, window_ms: u32)
    requires
        forall|i: int| 0 <= i < s.len() - 1 ==> (#[trigger] s[i + 1]).t_ns <= s[i].t_ns,
    ensures
        predict_spec(s, window_ms) == (0int, 0int),
{
    if s.len() >= 2 {
        lemma_sum_dt_zero(s, cutoff_ns(s, window_ms), s.len() - 1);
    }
}

} // verus!
