//! A parabolic amplitude envelope, traced by adding a slope that itself
//! changes by a constant curvature.
//!
//! The curve for a duration of `D` steps and a peak `A` is
//! `4 * A * (k / D) * (1 - k / D)` at step `k`. The envelope holds one
//! rounded number, the height `4 * A / D^2`, and derives slope and curvature
//! from it without further rounding, in numbers with 92 fractional bits. The
//! steps then trace `height * k * (D - k)` exactly: a curve that is
//! symmetric, returns to zero at `D`, and lies below the ideal curve by no
//! more than `D^2 / 2^61`.
use vstd::prelude::*;

use crate::fixed::{saturate, saturating, truncating_quotient, wide_quotient, Fixed, ONE};

verus! {

/// A number of the envelope's state, with 92 fractional bits: `raw / 2^92`.
pub type Fine = i128;

/// The largest number of the envelope's state.
pub const FINE_MAX: Fine = 170141183460469231731687303715884105727;

/// The smallest number of the envelope's state.
pub const FINE_MIN: Fine = -170141183460469231731687303715884105728;

/// The state's units in one unit of a fixed-point number: `2^60`.
pub const FINE_PER_FIXED: Fine = 1152921504606846976;

/// What the product of a peak (32 fractional bits) and an inverse square (63
/// fractional bits) is divided by to give four times as much with 60
/// fractional bits: `2^33`.
pub const HEIGHT_DIVISOR: Fine = 8589934592;

/// The largest peak for which the shape of the curve is stated: 2.
pub const SHAPED_PEAK_MAX: Fixed = 8589934592;

/// The state of an envelope: where the curve stands, and the duration and
/// peak that it was derived from.
#[derive(Clone, Copy, Debug)]
pub struct ParabolicEnvelope {
    /// The current amplitude.
    pub amplitude: Fine,
    /// What the next step adds to the amplitude.
    pub slope: Fine,
    /// What each step adds to the slope.
    pub curve: Fine,
    /// The duration that the curve was derived from, in steps.
    pub duration_samples: Fixed,
    /// The peak that the curve was derived from.
    pub grain_amplitude: Fixed,
}

/// `v` clamped to the range of the envelope's state.
pub open spec fn saturate_fine(v: int) -> Fine {
    if v < FINE_MIN {
        FINE_MIN
    } else if v > FINE_MAX {
        FINE_MAX
    } else {
        v as Fine
    }
}

/// The duration that a curve is derived for: the one asked for, and one step
/// where less is asked for.
pub open spec fn curve_duration(duration_samples: Fixed) -> int {
    if duration_samples < ONE {
        ONE as int
    } else {
        duration_samples as int
    }
}

/// `1 / D^2` with 63 fractional bits, rounded down, for a duration `D` given
/// with 32 fractional bits.
pub open spec fn inverse_square(duration: int) -> int {
    0x8000_0000_0000_0000_0000_0000_0000_0000int / (duration * duration)
}

/// The height of the curve, `4 * A / D^2`, with 60 fractional bits, rounded
/// toward zero.
pub open spec fn height(duration_samples: Fixed, grain_amplitude: Fixed) -> int {
    truncating_quotient(
        grain_amplitude * inverse_square(curve_duration(duration_samples)),
        HEIGHT_DIVISOR as int,
    )
}

/// The first slope of the curve: `height * (D - 1)`.
pub open spec fn initial_slope(duration_samples: Fixed, grain_amplitude: Fixed) -> Fine {
    saturate_fine(
        height(duration_samples, grain_amplitude) * (curve_duration(duration_samples) - ONE),
    )
}

/// The curvature of the curve: `-2 * height`.
pub open spec fn curvature(duration_samples: Fixed, grain_amplitude: Fixed) -> Fine {
    saturate_fine(-(height(duration_samples, grain_amplitude) * HEIGHT_DIVISOR))
}

/// The product `k * (D - k)` for step `k` of a duration `D`, with 32
/// fractional bits.
pub open spec fn span(duration: int, steps: int) -> int {
    steps * (duration - steps * ONE)
}

impl ParabolicEnvelope {
    /// The envelope at its start: amplitude zero, with the slope and
    /// curvature of the curve for this duration and peak.
    pub open spec fn fresh(duration_samples: Fixed, grain_amplitude: Fixed) -> ParabolicEnvelope {
        ParabolicEnvelope {
            amplitude: 0,
            slope: initial_slope(duration_samples, grain_amplitude),
            curve: curvature(duration_samples, grain_amplitude),
            duration_samples,
            grain_amplitude,
        }
    }

    /// The envelope one step on: the slope is added to the amplitude and the
    /// curvature to the slope; where that amplitude would be negative, the
    /// envelope starts afresh.
    pub open spec fn stepped(self) -> ParabolicEnvelope {
        let amplitude = saturate_fine(self.amplitude + self.slope);
        if amplitude < 0 {
            Self::fresh(self.duration_samples, self.grain_amplitude)
        } else {
            ParabolicEnvelope {
                amplitude,
                slope: saturate_fine(self.slope + self.curve),
                ..self
            }
        }
    }

    /// The envelope `steps` steps on.
    pub open spec fn stepped_by(self, steps: nat) -> ParabolicEnvelope
        decreases steps,
    {
        if steps == 0 {
            self
        } else {
            self.stepped_by((steps - 1) as nat).stepped()
        }
    }

    /// The amplitude as a fixed-point number, rounded toward zero.
    pub open spec fn level(self) -> Fixed {
        saturate(truncating_quotient(self.amplitude as int, FINE_PER_FIXED as int))
    }

    /// However far an envelope is driven, its amplitude is never negative
    /// after a step, and its duration and peak stay as they were.
    pub proof fn lemma_never_negative(self, steps: nat)
        requires
            steps >= 1,
        ensures
            self.stepped_by(steps).amplitude >= 0,
            self.stepped_by(steps).level() >= 0,
            self.stepped_by(steps).duration_samples == self.duration_samples,
            self.stepped_by(steps).grain_amplitude == self.grain_amplitude,
        decreases steps,
    {
        if steps > 1 {
            self.lemma_never_negative((steps - 1) as nat);
        } else {
            assert(self.stepped_by(0) == self);
        }
    }

    /// The height is `4 * A / D^2` rounded down by less than two units: for
    /// a duration of at least one step and a peak from zero to two,
    /// `height * D^2 <= 4 * A < (height + 2) * D^2`.
    pub proof fn lemma_height(duration_samples: Fixed, grain_amplitude: Fixed)
        requires
            ONE <= duration_samples,
            0 <= grain_amplitude <= SHAPED_PEAK_MAX,
        ensures
            0 <= height(duration_samples, grain_amplitude),
            height(duration_samples, grain_amplitude) * (duration_samples * duration_samples)
                <= grain_amplitude * 0x4000_0000_0000_0000_0000_0000int,
            grain_amplitude * 0x4000_0000_0000_0000_0000_0000int < (height(
                duration_samples,
                grain_amplitude,
            ) + 2) * (duration_samples * duration_samples),
    {
        let d = duration_samples as int;
        let a = grain_amplitude as int;
        let dd = d * d;
        let big = 0x8000_0000_0000_0000_0000_0000_0000_0000int;
        let q = inverse_square(d);
        let h = height(duration_samples, grain_amplitude);
        assert(dd >= 1) by (nonlinear_arith)
            requires
                dd == d * d,
                d >= 1,
        ;
        vstd::arithmetic::div_mod::lemma_fundamental_div_mod(big, dd);
        vstd::arithmetic::div_mod::lemma_mod_bound(big, dd);
        vstd::arithmetic::div_mod::lemma_div_pos_is_pos(big, dd);
        // q * dd <= big < (q + 1) * dd
        assert(q * dd <= big && big < (q + 1) * dd) by (nonlinear_arith)
            requires
                big == dd * q + big % dd,
                0 <= big % dd < dd,
        ;
        let p = a * q;
        assert(p >= 0) by (nonlinear_arith)
            requires
                p == a * q,
                a >= 0,
                q >= 0,
        ;
        // h * 2^33 <= p < (h + 1) * 2^33
        assert(h == p / 8589934592);
        assert(h * 8589934592 <= p && p < (h + 1) * 8589934592);
        assert(h * dd * 8589934592 <= a * big) by (nonlinear_arith)
            requires
                h * 8589934592 <= p,
                p == a * q,
                q * dd <= big,
                a >= 0,
                dd >= 0,
                h >= 0,
        ;
        assert(a * big == (a * 0x4000_0000_0000_0000_0000_0000) * 8589934592)
            by (nonlinear_arith)
            requires
                big == 0x4000_0000_0000_0000_0000_0000 * 8589934592,
        ;
        assert((h + 2) * dd * 8589934592 > a * big) by (nonlinear_arith)
            requires
                p < (h + 1) * 8589934592,
                p == a * q,
                big < (q + 1) * dd,
                0 <= a <= 8589934592,
                dd >= 1,
                h >= 0,
                q >= 0,
        ;
    }

    /// For a duration of at least one step and a peak from zero to two, the
    /// steps up to the duration trace the curve `height * k * (D - k)`
    /// exactly: no step rounds, clamps or starts afresh.
    pub proof fn lemma_traces_parabola(duration_samples: Fixed, grain_amplitude: Fixed, steps: nat)
        requires
            ONE <= duration_samples,
            0 <= grain_amplitude <= SHAPED_PEAK_MAX,
            steps * ONE <= duration_samples,
        ensures
            Self::fresh(duration_samples, grain_amplitude).stepped_by(steps).amplitude == height(
                duration_samples,
                grain_amplitude,
            ) * span(duration_samples as int, steps as int),
            Self::fresh(duration_samples, grain_amplitude).stepped_by(steps).slope == height(
                duration_samples,
                grain_amplitude,
            ) * (duration_samples - (2 * steps + 1) * ONE),
            Self::fresh(duration_samples, grain_amplitude).stepped_by(steps).curve == -(height(
                duration_samples,
                grain_amplitude,
            ) * HEIGHT_DIVISOR),
            Self::fresh(duration_samples, grain_amplitude).stepped_by(steps).duration_samples
                == duration_samples,
            Self::fresh(duration_samples, grain_amplitude).stepped_by(steps).grain_amplitude
                == grain_amplitude,
        decreases steps,
    {
        let d = duration_samples as int;
        let h = height(duration_samples, grain_amplitude);
        Self::lemma_state_fits(duration_samples, grain_amplitude, steps as int);
        if steps == 0 {
            assert(span(d, 0) == 0) by (nonlinear_arith)
                requires
                    span(d, 0) == 0 * (d - 0 * ONE),
            ;
            assert(h * 0 == 0) by (nonlinear_arith);
        } else {
            let before = (steps - 1) as nat;
            Self::lemma_traces_parabola(duration_samples, grain_amplitude, before);
            Self::lemma_state_fits(duration_samples, grain_amplitude, before as int);
            let one = ONE as int;
            let k = before as int;
            assert(h * span(d, k) + h * (d - (2 * k + 1) * one) == h * span(d, k + 1))
                by (nonlinear_arith)
                requires
                    span(d, k) == k * (d - k * one),
                    span(d, k + 1) == (k + 1) * (d - (k + 1) * one),
            ;
            assert(h * (d - (2 * k + 1) * one) + (-(h * 8589934592)) == h * (d - (2 * (k + 1) + 1)
                * one)) by (nonlinear_arith)
                requires
                    one == 4294967296,
            ;
        }
    }

    /// Within the duration the state of the curve stays far inside its
    /// range and the amplitude is not negative.
    proof fn lemma_state_fits(duration_samples: Fixed, grain_amplitude: Fixed, steps: int)
        requires
            ONE <= duration_samples,
            0 <= grain_amplitude <= SHAPED_PEAK_MAX,
            0 <= steps,
            steps * ONE <= duration_samples,
        ensures
            0 <= height(duration_samples, grain_amplitude) * span(duration_samples as int, steps)
                <= 0x1_0000_0000_0000_0000_0000_0000,
            -0x2_0000_0000_0000_0000_0000_0000 <= height(duration_samples, grain_amplitude) * (
            duration_samples - (2 * steps + 1) * ONE) <= 0x2_0000_0000_0000_0000_0000_0000,
            0 <= height(duration_samples, grain_amplitude) * HEIGHT_DIVISOR
                <= 0x2_0000_0000_0000_0000_0000_0000,
            initial_slope(duration_samples, grain_amplitude) == height(
                duration_samples,
                grain_amplitude,
            ) * (duration_samples - ONE),
            curvature(duration_samples, grain_amplitude) == -(height(
                duration_samples,
                grain_amplitude,
            ) * HEIGHT_DIVISOR),
    {
        let d = duration_samples as int;
        let h = height(duration_samples, grain_amplitude);
        let one = 4294967296int;
        let m = span(d, steps);
        Self::lemma_height(duration_samples, grain_amplitude);
        let hdd = h * (d * d);
        assert(hdd <= 0x8000_0000_0000_0000_0000_0000_0000_0000) by (nonlinear_arith)
            requires
                hdd <= grain_amplitude * 0x4000_0000_0000_0000_0000_0000,
                grain_amplitude <= 8589934592,
        ;
        // h * d <= 2^95 and h <= 2^63, as d >= 2^32
        let hd = h * d;
        assert(hd * one <= hdd && hd >= 0) by (nonlinear_arith)
            requires
                hd == h * d,
                hdd == h * (d * d),
                d >= one,
                h >= 0,
                one > 0,
        ;
        assert(h * one <= hd) by (nonlinear_arith)
            requires
                hd == h * d,
                d >= one,
                h >= 0,
        ;
        assert(hd <= 0x8000_0000_0000_0000_0000_0000);
        assert(h <= 0x8000_0000_0000_0000);
        // 0 <= m * one <= d * d
        assert(0 <= m && m * one <= d * d) by (nonlinear_arith)
            requires
                m == steps * (d - steps * one),
                0 <= steps,
                steps * one <= d,
                one > 0,
        ;
        let hm = h * m;
        assert(0 <= hm && hm * one <= hdd) by (nonlinear_arith)
            requires
                hm == h * m,
                hdd == h * (d * d),
                0 <= m,
                m * one <= d * d,
                h >= 0,
        ;
        assert(hm <= 0x8000_0000_0000_0000_0000_0000);
        let reach = d - (2 * steps + 1) * one;
        assert(-2 * d <= reach <= d);
        let hr = h * reach;
        assert(-2 * hd <= hr <= hd) by (nonlinear_arith)
            requires
                hr == h * reach,
                hd == h * d,
                -2 * d <= reach <= d,
                h >= 0,
        ;
        let first = h * (d - one);
        assert(0 <= first <= hd) by (nonlinear_arith)
            requires
                first == h * (d - one),
                hd == h * d,
                d >= one,
                one > 0,
                h >= 0,
        ;
        assert(h * 8589934592 <= 0x2_0000_0000_0000_0000_0000_0000);
    }

    /// The shape of the curve. For a duration `D` of at least one step and a
    /// peak `A` from zero to two, the amplitude after `k <= D` steps is not
    /// above `4 * A * (k / D) * (1 - k / D)` and no more than `slack` below
    /// it, where `slack` is at most `D^2 / 2^61`. It never exceeds the peak;
    /// for a whole duration it is the same `k` steps after the start and `k`
    /// steps before the end, and it is zero at the end. What `process`
    /// returns is the amplitude cut to 32 fractional bits.
    ///
    /// The amplitude has 92 fractional bits and the duration 32, so the
    /// ideal value times `D^2` is `A * 2^94 * k * (D - k)` in their units.
    pub proof fn lemma_shape(duration_samples: Fixed, grain_amplitude: Fixed, steps: nat)
        requires
            ONE <= duration_samples,
            0 <= grain_amplitude <= SHAPED_PEAK_MAX,
            steps * ONE <= duration_samples,
        ensures
            ({
                let amplitude = Self::fresh(duration_samples, grain_amplitude).stepped_by(
                    steps,
                ).amplitude;
                let square = duration_samples * duration_samples;
                let ideal = grain_amplitude * 0x4000_0000_0000_0000_0000_0000int * span(
                    duration_samples as int,
                    steps as int,
                );
                let slack = 2 * span(duration_samples as int, steps as int);
                &&& 0 <= amplitude
                &&& amplitude * square <= ideal <= (amplitude + slack) * square
                &&& 0 <= slack
                &&& slack * 2 * ONE <= square
                &&& amplitude <= grain_amplitude * FINE_PER_FIXED
                &&& Self::fresh(duration_samples, grain_amplitude).stepped_by(steps).level()
                    == amplitude / FINE_PER_FIXED
                &&& 0 <= Self::fresh(duration_samples, grain_amplitude).stepped_by(steps).level()
                    <= grain_amplitude
                &&& amplitude == height(duration_samples, grain_amplitude) * span(
                    duration_samples as int,
                    steps as int,
                )
                &&& duration_samples % ONE == 0 ==> amplitude == Self::fresh(
                    duration_samples,
                    grain_amplitude,
                ).stepped_by((duration_samples / ONE - steps) as nat).amplitude
                &&& steps * ONE == duration_samples ==> amplitude == 0
            }),
    {
        let d = duration_samples as int;
        let a = grain_amplitude as int;
        let k = steps as int;
        let one = 4294967296int;
        let h = height(duration_samples, grain_amplitude);
        let m = span(d, k);
        let dd = d * d;
        let scale = 0x4000_0000_0000_0000_0000_0000int;
        Self::lemma_traces_parabola(duration_samples, grain_amplitude, steps);
        Self::lemma_height(duration_samples, grain_amplitude);
        assert(0 <= m && 4 * m * one <= dd) by (nonlinear_arith)
            requires
                m == k * (d - k * one),
                dd == d * d,
                0 <= k,
                k * one <= d,
                one > 0,
        ;
        let hm = h * m;
        assert(0 <= hm) by (nonlinear_arith)
            requires
                hm == h * m,
                h >= 0,
                m >= 0,
        ;
        assert(hm * dd <= a * scale * m) by (nonlinear_arith)
            requires
                hm == h * m,
                h * dd <= a * scale,
                m >= 0,
        ;
        assert(a * scale * m <= (hm + 2 * m) * dd) by (nonlinear_arith)
            requires
                hm == h * m,
                a * scale < (h + 2) * dd,
                m >= 0,
        ;
        assert(dd >= 1) by (nonlinear_arith)
            requires
                dd == d * d,
                d >= 1,
        ;
        // hm <= a * 2^60: hm * dd <= a * 2^94 * m and 4 * m * 2^32 <= dd
        assert(hm <= a * 1152921504606846976) by (nonlinear_arith)
            requires
                hm * dd <= a * scale * m,
                4 * m * one <= dd,
                scale == 1152921504606846976 * 4 * one,
                a >= 0,
                m >= 0,
                hm >= 0,
                dd >= 1,
                one == 4294967296,
        ;
        if d % one == 0 {
            let n = d / one;
            let back = n - k;
            assert(0 <= back && back * one <= d && span(d, back) == m) by (nonlinear_arith)
                requires
                    d == n * one,
                    back == n - k,
                    0 <= k,
                    k * one <= d,
                    one > 0,
                    span(d, back) == back * (d - back * one),
                    m == k * (d - k * one),
            ;
            Self::lemma_traces_parabola(duration_samples, grain_amplitude, back as nat);
        }
        if k * one == d {
            assert(m == 0) by (nonlinear_arith)
                requires
                    m == k * (d - k * one),
                    k * one == d,
            ;
            assert(hm == 0) by (nonlinear_arith)
                requires
                    hm == h * m,
                    m == 0,
            ;
        }
    }

    /// The peak. For a duration `D` of an even number of steps and a peak `A`
    /// from zero to two, the amplitude half way is not above `A` and no more
    /// than `D^2 / 2^61` below it.
    pub proof fn lemma_peak_at_midpoint(duration_samples: Fixed, grain_amplitude: Fixed)
        requires
            ONE <= duration_samples,
            duration_samples as int % (2 * ONE) == 0,
            0 <= grain_amplitude <= SHAPED_PEAK_MAX,
        ensures
            ({
                let amplitude = Self::fresh(duration_samples, grain_amplitude).stepped_by(
                    (duration_samples as int / (2 * ONE)) as nat,
                ).amplitude;
                let slack = (duration_samples * duration_samples) / (2 * ONE);
                grain_amplitude * FINE_PER_FIXED - slack <= amplitude <= grain_amplitude
                    * FINE_PER_FIXED
            }),
    {
        let d = duration_samples as int;
        let a = grain_amplitude as int;
        let one = 4294967296int;
        let k = d / (2 * one);
        assert(d == 2 * one * k);
        Self::lemma_shape(duration_samples, grain_amplitude, k as nat);
        let amplitude = Self::fresh(duration_samples, grain_amplitude).stepped_by(
            k as nat,
        ).amplitude as int;
        let m = span(d, k);
        let dd = d * d;
        let full = a * 1152921504606846976;
        assert(m == k * k * one && dd == 4 * one * m && dd == (2 * m) * (2 * one)) by (
            nonlinear_arith)
            requires
                m == k * (d - k * one),
                dd == d * d,
                d == 2 * one * k,
        ;
        assert(dd >= 1) by (nonlinear_arith)
            requires
                dd == d * d,
                d >= 1,
        ;
        let ideal = a * 0x4000_0000_0000_0000_0000_0000int * m;
        assert(ideal == full * dd) by (nonlinear_arith)
            requires
                ideal == a * 0x4000_0000_0000_0000_0000_0000int * m,
                full == a * 1152921504606846976,
                dd == 4 * one * m,
                one == 4294967296,
        ;
        assert(amplitude + 2 * m >= full) by (nonlinear_arith)
            requires
                ideal <= (amplitude + 2 * m) * dd,
                ideal == full * dd,
                dd >= 1,
        ;
        vstd::arithmetic::div_mod::lemma_div_multiples_vanish(2 * m, 2 * one);
        assert((2 * m) * (2 * one) == (2 * one) * (2 * m)) by (nonlinear_arith);
    }

    /// An envelope at its start for a curve of `duration_samples` steps that
    /// peaks at `grain_amplitude`. A duration of less than one step counts
    /// as one step.
    pub fn new(duration_samples: Fixed, grain_amplitude: Fixed) -> (envelope: ParabolicEnvelope)
        ensures
            envelope == Self::fresh(duration_samples, grain_amplitude),
    {
        let duration: u128 = if duration_samples < ONE {
            ONE as u128
        } else {
            duration_samples as u128
        };
        let once: u128 = 0x8000_0000_0000_0000_0000_0000_0000_0000u128 / duration;
        let twice: u128 = once / duration;
        proof {
            let big = 0x8000_0000_0000_0000_0000_0000_0000_0000int;
            let d = duration as int;
            vstd::arithmetic::div_mod::lemma_div_denominator(big, d, d);
            vstd::arithmetic::div_mod::lemma_div_is_ordered_by_denominator(big, 4294967296, d);
            vstd::arithmetic::div_mod::lemma_div_is_ordered_by_denominator(
                once as int,
                4294967296,
                d,
            );
            assert(twice == inverse_square(d));
            assert(once <= 0x8000_0000_0000_0000_0000_0000);
            assert(twice <= 0x8000_0000_0000_0000);
        }
        assert(-0x4000_0000_0000_0000_0000_0000_0000_0000 <= grain_amplitude * twice
            <= 0x4000_0000_0000_0000_0000_0000_0000_0000) by (nonlinear_arith)
            requires
                -0x8000_0000_0000_0000 <= grain_amplitude <= 0x8000_0000_0000_0000,
                0 <= twice <= 0x8000_0000_0000_0000,
        ;
        let product: i128 = grain_amplitude as i128 * twice as i128;
        let height: i128 = wide_quotient(product, HEIGHT_DIVISOR);
        let reach: i128 = duration as i128 - ONE as i128;
        let slope: Fine = match height.checked_mul(reach) {
            Some(exact) => exact,
            None => {
                assert(height * reach > FINE_MAX ==> height > 0) by (nonlinear_arith)
                    requires
                        reach >= 0,
                ;
                assert(height * reach < FINE_MIN ==> height < 0) by (nonlinear_arith)
                    requires
                        reach >= 0,
                ;
                if height > 0 {
                    FINE_MAX
                } else {
                    FINE_MIN
                }
            },
        };
        ParabolicEnvelope {
            amplitude: 0,
            slope,
            curve: -(height * HEIGHT_DIVISOR),
            duration_samples,
            grain_amplitude,
        }
    }

    /// Takes one step along the curve and returns the new amplitude as a
    /// fixed-point number, which is never negative: a step that would go
    /// below zero starts the envelope afresh.
    pub fn process(&mut self) -> (amplitude: Fixed)
        ensures
            *final(self) == old(self).stepped(),
            amplitude == final(self).level(),
            amplitude >= 0,
    {
        self.amplitude = fine_add(self.amplitude, self.slope);
        self.slope = fine_add(self.slope, self.curve);
        if self.amplitude < 0 {
            let new = ParabolicEnvelope::new(self.duration_samples, self.grain_amplitude);
            self.amplitude = new.amplitude;
            self.slope = new.slope;
            self.curve = new.curve;
        }
        saturating(wide_quotient(self.amplitude, FINE_PER_FIXED))
    }
}

/// The sum of two numbers of the envelope's state, clamped to their range.
pub fn fine_add(a: Fine, b: Fine) -> (r: Fine)
    ensures
        r == saturate_fine(a + b),
{
    if b >= 0 {
        if a > FINE_MAX - b {
            FINE_MAX
        } else {
            a + b
        }
    } else {
        if a < FINE_MIN - b {
            FINE_MIN
        } else {
            a + b
        }
    }
}

} // verus!
