//! Exponential low-pass filter over fixed-point integers.
//!
//! Each filtered channel keeps the previous filtered value in milli-units
//! (thousandths of one raw count) and a smoothing coefficient in per-mille.
//! One update blends the new raw sample with the previous value:
//! `next = (a * sample_milli + (1000 - a) * prev) / 1000`, rounded down.
//! A larger coefficient tracks the input faster but suppresses less noise.

use vstd::prelude::*;
use vstd::arithmetic::div_mod::lemma_fundamental_div_mod;
use vstd::arithmetic::div_mod::lemma_fundamental_div_mod_converse;

verus! {

/// Denominator of the smoothing coefficient: a coefficient of `1000`
/// per-mille is `1.0`, which makes the filter track its input exactly.
pub const SMOOTHING_SCALE: u16 = 1000;

/// Largest raw sample a filter accepts (12-bit resolution).
pub const RAW_SAMPLE_MAX: u16 = 4095;

/// Largest filtered value, in milli-units: the largest raw sample times 1000.
pub const FILTERED_MAX: u64 = 4095 * 1000;

/// Distance between two integers on the number line.
pub open spec fn dist(a: int, b: int) -> int {
    if a >= b {
        a - b
    } else {
        b - a
    }
}

/// One filter update: blends a raw sample (already scaled to milli-units)
/// with the previous filtered value, rounding down.
pub open spec fn filter_step(prev: int, sample_milli: int, a: int) -> int {
    (a * sample_milli + (1000 - a) * prev) / 1000
}

/// The filtered value after `n` updates with the same sample.
pub open spec fn filter_iterate(prev: int, sample_milli: int, a: int, n: nat) -> int
    decreases n,
{
    if n == 0 {
        prev
    } else {
        filter_step(filter_iterate(prev, sample_milli, a, (n - 1) as nat), sample_milli, a)
    }
}

/// Rewrites one filter update as the previous value plus a rounded fraction
/// of the distance to the sample. This is the form the convergence and
/// monotonicity arguments rest on.
proof fn lemma_filter_step_decomposition(prev: int, x: int, a: int)
    requires
        1 <= a <= 1000,
    ensures
        filter_step(prev, x, a) == prev + (a * (x - prev)) / 1000,
{
    let d = a * (x - prev);
    let q = d / 1000;
    let r = d % 1000;
    lemma_fundamental_div_mod(d, 1000);
    assert(a * x + (1000 - a) * prev == 1000 * prev + d) by (nonlinear_arith)
        requires
            d == a * (x - prev),
    ;
    assert(1000 * prev + d == (prev + q) * 1000 + r) by (nonlinear_arith)
        requires
            d == 1000 * q + r,
    ;
    lemma_fundamental_div_mod_converse(1000 * prev + d, 1000, prev + q, r);
}

/// One update never overshoots: the next filtered value lies between the
/// previous value and the sample, whichever way the sample moved.
pub proof fn lemma_filter_step_bounds(prev: int, x: int, a: int)
    requires
        1 <= a <= 1000,
    ensures
        prev <= x ==> prev <= filter_step(prev, x, a) <= x,
        x <= prev ==> x <= filter_step(prev, x, a) <= prev,
{
    lemma_filter_step_decomposition(prev, x, a);
    let d = a * (x - prev);
    let q = d / 1000;
    lemma_fundamental_div_mod(d, 1000);
    if prev <= x {
        assert(0 <= d <= 1000 * (x - prev)) by (nonlinear_arith)
            requires
                1 <= a <= 1000,
                prev <= x,
                d == a * (x - prev),
        ;
        assert(0 <= 1000 * q + d % 1000);
        assert(1000 * q + d % 1000 <= 1000 * (x - prev));
        assert(q <= x - prev);
        assert(0 <= q);
    } else {
        assert(1000 * (x - prev) <= d <= 0) by (nonlinear_arith)
            requires
                1 <= a <= 1000,
                x <= prev,
                d == a * (x - prev),
        ;
        assert(1000 * (x - prev) <= 1000 * q + d % 1000);
        assert(1000 * q + d % 1000 <= 0);
        assert(x - prev <= q);
        assert(q <= 0);
    }
}

/// One update makes progress toward the sample. The distance to the sample
/// never grows; it strictly shrinks while the remaining distance `d` still
/// satisfies `a * d >= 1000` (one milli-unit or more of motion survives the
/// rounding); and once `a * d < 1000` it stays there.
pub proof fn lemma_filter_step_progress(prev: int, x: int, a: int)
    requires
        1 <= a <= 1000,
    ensures
        dist(filter_step(prev, x, a), x) <= dist(prev, x),
        a * dist(prev, x) >= 1000 ==> dist(filter_step(prev, x, a), x) <= dist(prev, x) - 1,
        a * dist(prev, x) < 1000 ==> a * dist(filter_step(prev, x, a), x) < 1000,
{
    lemma_filter_step_decomposition(prev, x, a);
    lemma_filter_step_bounds(prev, x, a);
    let next = filter_step(prev, x, a);
    let d = a * (x - prev);
    let q = d / 1000;
    lemma_fundamental_div_mod(d, 1000);
    if prev <= x {
        // next == prev + q with 0 <= q <= x - prev, so dist shrinks by q.
        assert(dist(next, x) == dist(prev, x) - q);
        if a * dist(prev, x) >= 1000 {
            assert(d == a * dist(prev, x)) by (nonlinear_arith)
                requires
                    prev <= x,
                    d == a * (x - prev),
                    dist(prev, x) == x - prev,
            ;
            assert(q >= 1);
        } else {
            assert(d == a * dist(prev, x)) by (nonlinear_arith)
                requires
                    prev <= x,
                    d == a * (x - prev),
                    dist(prev, x) == x - prev,
            ;
            assert(d < 1000);
            assert(q <= 0);
            assert(q == 0);
            assert(next == prev);
        }
    } else {
        // next == prev + q with x - prev <= q <= 0, so dist shrinks by -q.
        assert(dist(next, x) == dist(prev, x) + q);
        assert(-d == a * dist(prev, x)) by (nonlinear_arith)
            requires
                x <= prev,
                d == a * (x - prev),
                dist(prev, x) == prev - x,
        ;
        if a * dist(prev, x) >= 1000 {
            assert(d <= -1000);
            assert(q <= -1);
        } else {
            if dist(prev, x) >= 1 {
                assert(a * dist(prev, x) >= 1) by (nonlinear_arith)
                    requires
                        a >= 1,
                        dist(prev, x) >= 1,
                ;
                assert(d <= -1);
                assert(q <= -1);
                assert(dist(next, x) <= dist(prev, x) - 1);
            } else {
                assert(dist(prev, x) == 0);
                assert(d == 0);
                assert(q == 0);
            }
            assert(dist(next, x) <= dist(prev, x));
            assert(a * dist(next, x) <= a * dist(prev, x)) by (nonlinear_arith)
                requires
                    a >= 1,
                    0 <= dist(next, x) <= dist(prev, x),
            ;
        }
    }
}

/// Fed the same sample over and over, the filtered value moves toward it one
/// update at a time, monotonically and without overshoot: the whole sequence
/// stays between the initial value and the sample, whichever way it started.
pub proof fn lemma_filter_monotonic(prev: int, x: int, a: int, n: nat)
    requires
        1 <= a <= 1000,
    ensures
        prev <= x ==> prev <= filter_iterate(prev, x, a, n) <= filter_iterate(
            prev,
            x,
            a,
            (n + 1) as nat,
        ) <= x,
        x <= prev ==> x <= filter_iterate(prev, x, a, (n + 1) as nat) <= filter_iterate(
            prev,
            x,
            a,
            n,
        ) <= prev,
    decreases n,
{
    if n == 0 {
        lemma_filter_step_bounds(prev, x, a);
    } else {
        lemma_filter_monotonic(prev, x, a, (n - 1) as nat);
        lemma_filter_step_bounds(filter_iterate(prev, x, a, n), x, a);
    }
}

/// Helper for the convergence argument: after `n` updates, either the value
/// has already entered the band `a * dist < 1000` around the sample, or the
/// distance has shrunk by at least `n` milli-units.
proof fn lemma_filter_convergence_aux(prev: int, x: int, a: int, n: nat)
    requires
        1 <= a <= 1000,
    ensures
        a * dist(filter_iterate(prev, x, a, n), x) < 1000 || dist(filter_iterate(prev, x, a, n), x)
            + n <= dist(prev, x),
    decreases n,
{
    if n > 0 {
        lemma_filter_convergence_aux(prev, x, a, (n - 1) as nat);
        let before = filter_iterate(prev, x, a, (n - 1) as nat);
        lemma_filter_step_progress(before, x, a);
        if a * dist(before, x) >= 1000 {
            assert(dist(filter_iterate(prev, x, a, n), x) <= dist(before, x) - 1);
            if !(a * dist(before, x) < 1000) && dist(before, x) + (n - 1) <= dist(prev, x) {
                assert(dist(filter_iterate(prev, x, a, n), x) + n <= dist(prev, x));
            } else {
                assert(a * dist(before, x) < 1000);
            }
        }
    }
}

/// Convergence: fed the same sample for at least as many updates as the
/// initial distance in milli-units, the filtered value ends within
/// `1000 / a` milli-units of the sample — that is, within `1 / a` raw counts
/// — whatever the initial value and whatever the coefficient in `(0, 1]`.
pub proof fn lemma_filter_convergence(prev: int, x: int, a: int, n: nat)
    requires
        1 <= a <= 1000,
        n >= dist(prev, x),
    ensures
        a * dist(filter_iterate(prev, x, a, n), x) < 1000,
{
    lemma_filter_convergence_aux(prev, x, a, n);
    if dist(filter_iterate(prev, x, a, n), x) + n <= dist(prev, x) {
        assert(dist(filter_iterate(prev, x, a, n), x) <= 0);
        assert(a * 0 < 1000) by (nonlinear_arith);
    }
}

/// One low-pass filtered channel: the previous filtered value in milli-units
/// together with its smoothing coefficient in per-mille.
///
/// The state must persist across updates of the same channel — a fresh state
/// per sample would destroy the low-pass behaviour.
pub struct FilterState {
    smoothing: u16,
    value: u64,
}

impl FilterState {
    /// The smoothing coefficient, in per-mille of `1.0`.
    pub closed spec fn spec_smoothing(self) -> u16 {
        self.smoothing
    }

    /// The current filtered value, in milli-units.
    pub closed spec fn spec_value(self) -> u64 {
        self.value
    }

    /// A well-formed filter has a coefficient in `(0, 1]` and a value no
    /// larger than the largest raw sample.
    pub open spec fn wf(self) -> bool {
        &&& 1 <= self.spec_smoothing() <= SMOOTHING_SCALE
        &&& self.spec_value() <= FILTERED_MAX
    }

    /// Creates a filter at value zero, rejecting a smoothing coefficient
    /// outside `(0, 1]` — that is, outside `1..=1000` per-mille.
    pub fn new(smoothing_permille: u16) -> (r: Option<FilterState>)
        ensures
            r is Some <==> 1 <= smoothing_permille <= SMOOTHING_SCALE,
            r matches Some(f) ==> f.wf() && f.spec_smoothing() == smoothing_permille
                && f.spec_value() == 0,
    {
        if 1 <= smoothing_permille && smoothing_permille <= SMOOTHING_SCALE {
            Some(FilterState { smoothing: smoothing_permille, value: 0 })
        } else {
            None
        }
    }

    /// Feeds one raw sample through the filter, updating the state in place
    /// to `(a * sample_milli + (1000 - a) * prev) / 1000`.
    pub fn update(&mut self, sample: u16)
        requires
            old(self).wf(),
            sample <= RAW_SAMPLE_MAX,
        ensures
            final(self).wf(),
            final(self).spec_smoothing() == old(self).spec_smoothing(),
            final(self).spec_value() == filter_step(
                old(self).spec_value() as int,
                sample as int * 1000,
                old(self).spec_smoothing() as int,
            ),
    {
        let a: u64 = self.smoothing as u64;
        let sample_milli: u64 = sample as u64 * 1000;
        proof {
            assert(a * sample_milli <= 1000 * 4095000) by (nonlinear_arith)
                requires
                    a <= 1000,
                    sample_milli <= 4095000,
            ;
            assert((1000 - a) * self.value <= 1000 * 4095000) by (nonlinear_arith)
                requires
                    1 <= a <= 1000,
                    self.value <= 4095000,
            ;
        }
        let numerator: u64 = a * sample_milli + (1000 - a) * self.value;
        proof {
            lemma_filter_step_bounds(
                self.value as int,
                sample_milli as int,
                a as int,
            );
        }
        self.value = numerator / 1000;
    }

    /// Returns the current filtered value, in milli-units.
    pub fn value_milli(&self) -> (v: u64)
        ensures
            v == self.spec_value(),
    {
        self.value
    }

    /// Returns the smoothing coefficient, in per-mille.
    pub fn smoothing_permille(&self) -> (s: u16)
        ensures
            s == self.spec_smoothing(),
    {
        self.smoothing
    }
}

} // verus!
