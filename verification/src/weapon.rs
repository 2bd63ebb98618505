//! A weapon profile derived from a card: fire cadence, projectile range
//! and speed, and the movement penalties imposed while carrying it.

use vstd::prelude::*;

use crate::consts;
use crate::util::Shot;

verus! {

#[derive(Clone, Copy, PartialEq, Eq, Structural, Debug)]
pub struct Weapon {
    /// Time between shots, ms.
    pub fire_period_ms: i64,
    /// Projectile travel range, micro-tiles.
    pub range: i64,
    /// Movement multiplier while ready to fire, milli-units.
    pub ms_walk_milli: i64,
    /// Movement multiplier while reloading, milli-units.
    pub ms_shoot_milli: i64,
    /// Remaining reload time, ms.
    pub time_until_next_shot_ms: i64,
    /// Projectile speed, micro-tiles per ms.
    pub bullet_speed: i64,
}

impl Weapon {
    pub open spec fn wf(self) -> bool {
        &&& 0 < self.fire_period_ms <= consts::POS_LIMIT
        &&& 0 <= self.range <= consts::RANGE_LIMIT
        &&& 0 <= self.ms_walk_milli <= 1000
        &&& 0 <= self.ms_shoot_milli <= 1000
        &&& 0 <= self.time_until_next_shot_ms <= self.fire_period_ms
        &&& 0 < self.bullet_speed <= consts::VEL_LIMIT
    }

    pub fn new(
        fire_period_ms: i64,
        range: i64,
        ms_walk_milli: i64,
        ms_shoot_milli: i64,
        bullet_speed: i64,
    ) -> (w: Weapon)
        requires
            0 < fire_period_ms <= consts::POS_LIMIT,
            0 <= range <= consts::RANGE_LIMIT,
            0 <= ms_walk_milli <= 1000,
            0 <= ms_shoot_milli <= 1000,
            0 < bullet_speed <= consts::VEL_LIMIT,
        ensures
            w.wf(),
            w == (Weapon {
                fire_period_ms,
                range,
                ms_walk_milli,
                ms_shoot_milli,
                time_until_next_shot_ms: 0,
                bullet_speed,
            }),
    {
        Weapon {
            fire_period_ms,
            range,
            ms_walk_milli,
            ms_shoot_milli,
            time_until_next_shot_ms: 0,
            bullet_speed,
        }
    }

    /// The movement multiplier imposed right now: the walking one while
    /// ready to fire, the harsher one while reloading.
    pub fn get_ms_penalty(&self) -> (p: i64)
        ensures
            p == (if self.time_until_next_shot_ms <= 0 {
                self.ms_walk_milli
            } else {
                self.ms_shoot_milli
            }),
    {
        if self.can_shoot() {
            self.ms_walk_milli
        } else {
            self.ms_shoot_milli
        }
    }

    /// Run the reload clock down, flooring at zero.
    pub fn update(&mut self, delta_ms: i64)
        requires
            old(self).wf(),
            0 <= delta_ms,
        ensures
            final(self).wf(),
            final(self).time_until_next_shot_ms == (if old(self).time_until_next_shot_ms
                - delta_ms >= 0 {
                old(self).time_until_next_shot_ms - delta_ms
            } else {
                0int
            }),
            final(self).fire_period_ms == old(self).fire_period_ms,
            final(self).range == old(self).range,
            final(self).ms_walk_milli == old(self).ms_walk_milli,
            final(self).ms_shoot_milli == old(self).ms_shoot_milli,
            final(self).bullet_speed == old(self).bullet_speed,
    {
        if self.time_until_next_shot_ms >= delta_ms {
            self.time_until_next_shot_ms = self.time_until_next_shot_ms - delta_ms;
        } else {
            self.time_until_next_shot_ms = 0;
        }
    }

    pub fn can_shoot(&self) -> (r: bool)
        ensures
            r == (self.time_until_next_shot_ms <= 0),
    {
        self.time_until_next_shot_ms <= 0
    }

    /// Fire if ready: a successful shot re-arms the full reload period.
    pub fn try_shoot(&mut self) -> (shot: Shot)
        requires
            old(self).wf(),
        ensures
            final(self).wf(),
            shot.0 == (old(self).time_until_next_shot_ms <= 0),
            final(self).time_until_next_shot_ms == (if shot.0 {
                old(self).fire_period_ms
            } else {
                old(self).time_until_next_shot_ms
            }),
            final(self).fire_period_ms == old(self).fire_period_ms,
            final(self).range == old(self).range,
            final(self).ms_walk_milli == old(self).ms_walk_milli,
            final(self).ms_shoot_milli == old(self).ms_shoot_milli,
            final(self).bullet_speed == old(self).bullet_speed,
    {
        if self.can_shoot() {
            self.time_until_next_shot_ms = self.fire_period_ms;
            Shot(true)
        } else {
            Shot(false)
        }
    }
}

} // verus!
