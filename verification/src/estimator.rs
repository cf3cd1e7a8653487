//! Exponentially weighted moving average of observed round-trip times.
//!
//! Durations are carried as whole nanoseconds. The smoothing factor is
//! 3/10: a new sample contributes three tenths of the next estimate, so the
//! estimate reacts within a few ticks to a sustained latency shift while
//! damping single-sample noise. A zero estimate means "no data yet": the
//! first (non-zero) sample seeds the estimate directly.

use vstd::prelude::*;

verus! {

/// One EWMA step: a zero previous estimate is the empty state, which the
/// sample seeds; otherwise the new estimate keeps seven tenths of the old
/// one and takes three tenths of the sample, rounded down.
pub open spec fn ewma_step(prev: int, sample: int) -> int {
    if prev == 0 {
        sample
    } else {
        (7 * prev + 3 * sample) / 10
    }
}

/// The running round-trip-time estimate, in nanoseconds.
#[derive(Clone, Copy, Debug)]
pub struct Window {
    /// Current estimate in nanoseconds; zero means no sample seen yet.
    pub data: u64,
}

impl Window {
    /// A fresh estimator with no data.
    pub fn new() -> (r: Window)
        ensures
            r.data == 0,
    {
        Window { data: 0 }
    }

    /// Feeds one observed round-trip time (nanoseconds) into the estimate.
    pub fn push(&mut self, sample: u64)
        ensures
            final(self).data == ewma_step(old(self).data as int, sample as int),
    {
        if self.data == 0 {
            self.data = sample;
        } else {
            let mix: u128 = (7 * (self.data as u128) + 3 * (sample as u128)) / 10;
            proof {
                let m: int = if self.data >= sample { self.data as int } else { sample as int };
                assert(7 * (self.data as int) + 3 * (sample as int) <= 10 * m);
                vstd::arithmetic::div_mod::lemma_div_is_ordered(
                    7 * (self.data as int) + 3 * (sample as int),
                    10 * m,
                    10,
                );
                vstd::arithmetic::div_mod::lemma_div_multiples_vanish(m, 10);
            }
            self.data = mix as u64;
        }
    }

    /// The current estimate in nanoseconds; zero if no sample was ever pushed.
    pub fn avg(self) -> (r: u64)
        ensures
            r == self.data,
    {
        self.data
    }

    /// True iff no sample has ever been pushed.
    pub fn is_empty(self) -> (r: bool)
        ensures
            r == (self.data == 0),
    {
        self.data == 0
    }
}

/// After the first sample the estimate equals that sample exactly, and after
/// a second sample it equals seven tenths of the first plus three tenths of
/// the second (rounded down to a whole nanosecond). A zero first sample is
/// indistinguishable from the empty state and is left out.
pub proof fn lemma_first_two_samples(s1: u64, s2: u64)
    requires
        s1 > 0,
    ensures
        ewma_step(0, s1 as int) == s1,
        ewma_step(ewma_step(0, s1 as int), s2 as int) == (7 * s1 + 3 * s2) / 10,
{
}

} // verus!
