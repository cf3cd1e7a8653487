//! The per-tick state machine of the synchronization loop.
//!
//! The loop owns a virtual clock: `date`, the target second in
//! nanoseconds since the epoch, always aligned to a second boundary and
//! advanced by exactly one second every tick. A successful tick feeds the
//! round-trip time to the estimator, lets the two server-time readings
//! move the controller, and yields the lead time for the next send; a
//! failed tick leaves estimator and controller untouched and yields a
//! lead time from the stale estimate. Either way the clock advances, and
//! a clock that has fallen behind real time is realigned to it instead of
//! chasing the missed ticks.

use crate::classify::{consensus, consensus_of, Consensus, ServerTime};
use crate::controller::{ratio_updated, Ratio, SCALE};
use crate::estimator::{ewma_step, Window};
use crate::NANOS_PER_SEC;
use vstd::prelude::*;

verus! {

/// The seconds component of an instant in nanoseconds since the epoch.
pub open spec fn second_of(date: int) -> int {
    (date / (NANOS_PER_SEC as int)) % 60
}

/// The second just before `sec`, wrapping at the minute.
pub open spec fn sec_before(sec: int) -> int {
    if sec == 0 {
        59
    } else {
        sec - 1
    }
}

/// Where the virtual clock stands after a tick: one second further, or —
/// if even that lags behind real time — realigned to the second boundary
/// just after `now`.
pub open spec fn next_date(date: int, now: int) -> int {
    if date + NANOS_PER_SEC < now {
        now - now % (NANOS_PER_SEC as int) + NANOS_PER_SEC
    } else {
        date + NANOS_PER_SEC
    }
}

/// The instant a write must be dispatched so that it lands on the target
/// second: the target instant less the lead time (never before the epoch).
pub open spec fn send_instant(date: int, off: int) -> int {
    if off <= date {
        date - off
    } else {
        0
    }
}

/// What to do between ticks: sleep for that long, or — already past the
/// send instant — proceed at once, that far behind schedule.
#[derive(Clone, Copy, Debug, PartialEq, Eq, Structural)]
pub enum SleepPlan {
    /// Sleep this many nanoseconds until the next send instant.
    Sleep(u64),
    /// The send instant has passed by this many nanoseconds: do not sleep.
    Behind(u64),
}

/// The mutable state of the synchronization loop.
#[derive(Clone, Copy, Debug)]
pub struct SyncState {
    /// The round-trip-time estimator.
    pub win: Window,
    /// The lead-time controller.
    pub ratio: Ratio,
    /// The target second, nanoseconds since the epoch, second-aligned.
    pub date: u64,
    /// Seconds component of the second before the target.
    pub sec0: u32,
    /// Seconds component of the target second.
    pub sec1: u32,
}

impl SyncState {
    /// The controller fraction is in range, the window seconds are
    /// seconds, and the virtual clock sits on a second boundary.
    pub open spec fn wf(self) -> bool {
        &&& self.ratio.wf()
        &&& self.sec0 < 60
        &&& self.sec1 < 60
        &&& self.date as int % (NANOS_PER_SEC as int) == 0
    }

    /// Fresh loop state at real time `now`: empty estimator, neutral
    /// controller, virtual clock on the second boundary at or before
    /// `now`, window set for that second.
    pub fn new(now: u64) -> (r: SyncState)
        ensures
            r.wf(),
            r.win.data == 0,
            r.ratio.v == SCALE / 2,
            r.ratio.i == 0,
            r.date == now - now % NANOS_PER_SEC,
            r.sec1 == second_of(r.date as int),
            r.sec0 == sec_before(second_of(r.date as int)),
    {
        let date = crate::align_date(now);
        proof {
            vstd::arithmetic::div_mod::lemma_mod_bound(
                date as int / (NANOS_PER_SEC as int),
                60,
            );
            vstd::arithmetic::div_mod::lemma_div_pos_is_pos(date as int, NANOS_PER_SEC as int);
        }
        let sec: u32 = ((date / NANOS_PER_SEC) % 60) as u32;
        let (s0, s1) = crate::classify::second_window(sec);
        SyncState { win: Window::new(), ratio: Ratio::new(), date, sec0: s0, sec1: s1 }
    }

    /// Sets the classification window for the target second `sec`.
    pub fn set_second(&mut self, sec: u32)
        requires
            sec < 60,
        ensures
            final(self).sec1 == sec,
            final(self).sec0 == sec_before(sec as int),
            final(self).win == old(self).win,
            final(self).ratio == old(self).ratio,
            final(self).date == old(self).date,
    {
        let (s0, s1) = crate::classify::second_window(sec);
        self.sec0 = s0;
        self.sec1 = s1;
    }

    /// Moves the virtual clock one tick on: one second further, or
    /// realigned just past real time if it has fallen behind, and the
    /// classification window follows it. Estimator and controller are
    /// untouched.
    pub fn advance_clock(&mut self, now: u64)
        requires
            old(self).wf(),
            old(self).date + NANOS_PER_SEC <= u64::MAX,
            now + NANOS_PER_SEC <= u64::MAX,
        ensures
            final(self).wf(),
            final(self).date == next_date(old(self).date as int, now as int),
            final(self).sec1 == second_of(final(self).date as int),
            final(self).sec0 == sec_before(second_of(final(self).date as int)),
            final(self).win == old(self).win,
            final(self).ratio == old(self).ratio,
    {
        proof {
            vstd::arithmetic::div_mod::lemma_mod_add_multiples_vanish(
                self.date as int,
                NANOS_PER_SEC as int,
            );
        }
        self.date = self.date + NANOS_PER_SEC;
        if self.date < now {
            let aligned = crate::align_date(now);
            proof {
                vstd::arithmetic::div_mod::lemma_fundamental_div_mod(
                    now as int,
                    NANOS_PER_SEC as int,
                );
                vstd::arithmetic::div_mod::lemma_mod_multiples_basic(
                    now as int / (NANOS_PER_SEC as int),
                    NANOS_PER_SEC as int,
                );
                vstd::arithmetic::div_mod::lemma_mod_add_multiples_vanish(
                    aligned as int,
                    NANOS_PER_SEC as int,
                );
            }
            self.date = aligned + NANOS_PER_SEC;
        }
        proof {
            vstd::arithmetic::div_mod::lemma_mod_bound(
                self.date as int / (NANOS_PER_SEC as int),
                60,
            );
            vstd::arithmetic::div_mod::lemma_div_pos_is_pos(
                self.date as int,
                NANOS_PER_SEC as int,
            );
        }
        let sec: u32 = ((self.date / NANOS_PER_SEC) % 60) as u32;
        self.set_second(sec);
    }

    /// One successful tick: if the estimator already had data, the two
    /// readings may move the controller — down when both say the send
    /// landed early, up when both say it landed late, and in no other
    /// case. The round-trip time then joins the estimate, the lead time
    /// for the next send is the new estimate scaled by the new fraction,
    /// and the clock advances.
    pub fn step_success(
        &mut self,
        rtt: u64,
        field: ServerTime,
        header: ServerTime,
        now: u64,
    ) -> (off: u64)
        requires
            old(self).wf(),
            i64::MIN < old(self).ratio.i < i64::MAX,
            old(self).date + NANOS_PER_SEC <= u64::MAX,
            now + NANOS_PER_SEC <= u64::MAX,
        ensures
            final(self).wf(),
            final(self).ratio == (if old(self).win.data != 0 && consensus_of(field, header)
                == Consensus::TooEarly {
                ratio_updated(old(self).ratio, -1)
            } else if old(self).win.data != 0 && consensus_of(field, header)
                == Consensus::TooLate {
                ratio_updated(old(self).ratio, 1)
            } else {
                old(self).ratio
            }),
            final(self).win.data == ewma_step(old(self).win.data as int, rtt as int),
            off == (ewma_step(old(self).win.data as int, rtt as int) * final(self).ratio.v) / (
            SCALE as int),
            final(self).date == next_date(old(self).date as int, now as int),
            final(self).sec1 == second_of(final(self).date as int),
            final(self).sec0 == sec_before(second_of(final(self).date as int)),
    {
        if !self.win.is_empty() {
            match consensus(field, header) {
                Consensus::TooEarly => self.ratio.update(-1),
                Consensus::TooLate => self.ratio.update(1),
                _ => {},
            }
        }
        self.win.push(rtt);
        let avg = self.win.avg();
        let off = self.ratio.apply(avg);
        self.advance_clock(now);
        off
    }

    /// One failed tick: estimator and controller keep their state, the
    /// lead time falls back to the stale estimate scaled by the current
    /// fraction, and the clock still advances.
    pub fn step_failure(&mut self, now: u64) -> (off: u64)
        requires
            old(self).wf(),
            old(self).date + NANOS_PER_SEC <= u64::MAX,
            now + NANOS_PER_SEC <= u64::MAX,
        ensures
            final(self).wf(),
            final(self).win == old(self).win,
            final(self).ratio == old(self).ratio,
            off == (old(self).win.data * old(self).ratio.v) / (SCALE as int),
            final(self).date == next_date(old(self).date as int, now as int),
            final(self).sec1 == second_of(final(self).date as int),
            final(self).sec0 == sec_before(second_of(final(self).date as int)),
    {
        let avg = self.win.avg();
        let off = self.ratio.apply(avg);
        self.advance_clock(now);
        off
    }
}

/// Plans the wait before the next send: sleep until the send instant, or
/// report how far behind schedule the loop already is.
pub fn sleep_plan(date: u64, off: u64, now: u64) -> (r: SleepPlan)
    ensures
        send_instant(date as int, off as int) >= now ==> r == SleepPlan::Sleep(
            (send_instant(date as int, off as int) - now) as u64,
        ),
        send_instant(date as int, off as int) < now ==> r == SleepPlan::Behind(
            (now - send_instant(date as int, off as int)) as u64,
        ),
{
    let until = if off <= date {
        date - off
    } else {
        0
    };
    if until >= now {
        SleepPlan::Sleep(until - now)
    } else {
        SleepPlan::Behind(now - until)
    }
}

} // verus!
