//! Proportional-integral controller for the send-early lead time.
//!
//! The controller holds a fraction of the measured round-trip time to
//! subtract from the nominal send instant. The fraction lives in the unit
//! interval, carried in fixed point: `v` ranges over `0..=SCALE`, where
//! `SCALE` stands for 1. Both gains are one hundredth, i.e. `GAIN` scale
//! units. The integral accumulator `i` is unbounded and corrects persistent
//! bias; the clamp on `v` keeps the lead time between zero and the whole
//! round-trip time.

use vstd::prelude::*;

verus! {

/// Fixed-point denominator: this value of `v` stands for the fraction 1.
pub const SCALE: u64 = 1_000_000;

/// Both controller gains, one hundredth, in `SCALE` units.
pub const GAIN: u64 = 10_000;

/// Clamps a fixed-point fraction into `0..=SCALE`.
pub open spec fn clamp_unit(x: int) -> int {
    if x < 0 {
        0
    } else if x > SCALE {
        SCALE as int
    } else {
        x
    }
}

/// The controller state `update` moves to on a directional error of
/// plus or minus one.
pub open spec fn ratio_updated(r: Ratio, error: int) -> Ratio {
    (Ratio {
        v: clamp_unit(r.v + GAIN * error + GAIN * (r.i + error)) as u64,
        i: (r.i + error) as i64,
    })
}

/// Proportional-integral state: `v` is the bounded lead-time fraction in
/// `SCALE` units, `i` the unbounded integral accumulator.
#[derive(Clone, Copy, Debug)]
pub struct Ratio {
    /// Lead-time fraction in `0..=SCALE`.
    pub v: u64,
    /// Integral accumulator: the sum of all errors fed in so far.
    pub i: i64,
}

impl Ratio {
    /// The fraction stays inside the unit interval.
    pub open spec fn wf(self) -> bool {
        self.v <= SCALE
    }

    /// A neutral controller: fraction one half, empty accumulator.
    pub fn new() -> (r: Ratio)
        ensures
            r.v == SCALE / 2,
            r.i == 0,
            r.wf(),
    {
        Ratio { v: 500_000, i: 0 }
    }

    /// One control step on a directional error of plus or minus one:
    /// the error joins the accumulator, and the fraction moves by the
    /// proportional and integral terms, clamped into the unit interval.
    pub fn update(&mut self, error: i64)
        requires
            error == 1 || error == -1,
            old(self).wf(),
            i64::MIN < old(self).i < i64::MAX,
        ensures
            *final(self) == ratio_updated(*old(self), error as int),
            final(self).i == old(self).i + error,
            final(self).wf(),
    {
        self.i = self.i + error;
        let moved: i128 = (self.v as i128) + (GAIN as i128) * (error as i128) + (GAIN as i128)
            * (self.i as i128);
        if moved < 0 {
            self.v = 0;
        } else if moved > SCALE as i128 {
            self.v = SCALE;
        } else {
            self.v = moved as u64;
        }
    }

    /// Scales a duration (nanoseconds) by the current fraction, rounding
    /// down: the lead time to subtract from the nominal send instant. The
    /// result never exceeds the duration itself.
    pub fn apply(&self, dur: u64) -> (r: u64)
        requires
            self.wf(),
        ensures
            r == (dur * self.v) / (SCALE as int),
            r <= dur,
    {
        proof {
            vstd::arithmetic::mul::lemma_mul_upper_bound(
                dur as int,
                u64::MAX as int,
                self.v as int,
                SCALE as int,
            );
        }
        let scaled: u128 = ((dur as u128) * (self.v as u128)) / (SCALE as u128);
        proof {
            vstd::arithmetic::mul::lemma_mul_inequality(
                self.v as int,
                SCALE as int,
                dur as int,
            );
            vstd::arithmetic::div_mod::lemma_div_is_ordered(
                dur * self.v,
                dur * (SCALE as int),
                SCALE as int,
            );
            vstd::arithmetic::div_mod::lemma_div_multiples_vanish(dur as int, SCALE as int);
        }
        scaled as u64
    }
}

/// However many same-direction errors accumulate, the clamped fraction
/// never leaves the unit interval.
pub proof fn lemma_fraction_bounded(r: Ratio, error: int)
    requires
        error == 1 || error == -1,
    ensures
        0 <= ratio_updated(r, error).v <= SCALE,
{
}

} // verus!
