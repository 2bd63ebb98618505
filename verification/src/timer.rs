//! A repeating countdown timer with an attached piece of state.
//!
//! The count starts at zero so the first update always fires; after a
//! fire the period is added back, so a steady stream of small deltas
//! fires once per period on average.

use vstd::prelude::*;

use crate::consts;
use crate::util;
use crate::util::Ticked;

verus! {

pub struct Timer<T> {
    pub period_ms: i64,
    pub time_until_next_ms: i64,
    pub state: T,
}

impl<T> Timer<T> {
    /// A timer is usable while its period is positive and its count
    /// stays inside the clamped band.
    pub open spec fn wf(self) -> bool {
        &&& 0 < self.period_ms <= consts::POS_LIMIT
        &&& -consts::POS_LIMIT <= self.time_until_next_ms <= consts::POS_LIMIT
    }

    pub fn new_with_state(period_ms: i64, state: T) -> (t: Timer<T>)
        requires
            0 < period_ms <= consts::POS_LIMIT,
        ensures
            t.wf(),
            t.period_ms == period_ms,
            t.time_until_next_ms == 0,
            t.state == state,
    {
        Timer { period_ms, time_until_next_ms: 0, state }
    }

    pub fn update_period(&mut self, period_ms: i64)
        requires
            0 < period_ms <= consts::POS_LIMIT,
            old(self).wf(),
        ensures
            final(self).wf(),
            final(self).period_ms == period_ms,
            final(self).time_until_next_ms == old(self).time_until_next_ms,
            final(self).state == old(self).state,
    {
        self.period_ms = period_ms;
    }

    pub fn get_state(&self) -> (s: &T)
        ensures
            *s == self.state,
    {
        &self.state
    }

    pub fn update_state(&mut self, state: T)
        ensures
            final(self).period_ms == old(self).period_ms,
            final(self).time_until_next_ms == old(self).time_until_next_ms,
            final(self).state == state,
    {
        self.state = state;
    }

    /// Advance the countdown by `delta_ms`; fires exactly when the count
    /// reaches or passes zero, re-arming by one period.
    pub fn update(&mut self, delta_ms: i64) -> (t: Ticked)
        requires
            old(self).wf(),
            0 <= delta_ms,
        ensures
            final(self).wf(),
            final(self).period_ms == old(self).period_ms,
            final(self).state == old(self).state,
            t.0 <==> util::spec_clamp_pos(old(self).time_until_next_ms - delta_ms) <= 0,
            t.0 ==> final(self).time_until_next_ms == util::spec_clamp_pos(
                old(self).time_until_next_ms - delta_ms,
            ) + old(self).period_ms,
            !t.0 ==> final(self).time_until_next_ms == util::spec_clamp_pos(
                old(self).time_until_next_ms - delta_ms,
            ),
    {
        let base: i64 = util::add_clamped(self.time_until_next_ms, -delta_ms);
        if base <= 0 {
            self.time_until_next_ms = base + self.period_ms;
            Ticked(true)
        } else {
            self.time_until_next_ms = base;
            Ticked(false)
        }
    }
}


impl Timer<()> {
    /// A stateless repeating timer.
    pub fn new(period_ms: i64) -> (t: Timer<()>)
        requires
            0 < period_ms <= consts::POS_LIMIT,
        ensures
            t.wf(),
            t.period_ms == period_ms,
            t.time_until_next_ms == 0,
    {
        Timer::new_with_state(period_ms, ())
    }
}

} // verus!
