//! The player: movement under weapon penalties and modifier bonuses,
//! aim, health, and the kill-driven experience ladder.

use vstd::prelude::*;

use crate::consts;
use crate::geom;
use crate::geom::Vec2i;
use crate::hand::Hand;
use crate::powerup::Powerups;
use crate::util;
use crate::util::Shot;

verus! {

/// One tick's worth of input, already reduced to plain values by the
/// surrounding input layer: a raw movement vector, a raw aim vector
/// (zero when nothing aims), and the fire intent.
pub struct PlayerInput {
    pub movement: Vec2i,
    pub aim: Vec2i,
    pub fire: bool,
}

impl PlayerInput {
    pub open spec fn wf(self) -> bool {
        &&& -2000 <= self.movement.x <= 2000
        &&& -2000 <= self.movement.y <= 2000
        &&& -2000 <= self.aim.x <= 2000
        &&& -2000 <= self.aim.y <= 2000
    }
}

/// Experience rolls over level thresholds one at a time: while the
/// experience reaches `2 * level^2`, that much is spent and the level
/// rises by one.
pub open spec fn spec_levelup(xp: int, level: int) -> (int, int)
    decreases xp,
    when xp >= 0
{
    if level >= 1 && 2 * level * level > 0 && xp >= 2 * level * level {
        spec_levelup(xp - 2 * level * level, level + 1)
    } else {
        (xp, level)
    }
}

pub struct Player {
    pub pos: Vec2i,
    /// Facing, milli-units; shots leave in this direction.
    pub direction: Vec2i,
    /// Last normalized movement direction, milli-units; enemies that
    /// predict extrapolate along it.
    pub movement: Vec2i,
    pub hand: Hand,
    pub health: i64,
    pub max_health: i64,
    pub xp: i64,
    pub level: i64,
}

impl Player {
    pub open spec fn wf(self) -> bool {
        &&& self.pos.in_pos_band()
        &&& -1000 <= self.direction.x <= 1000
        &&& -1000 <= self.direction.y <= 1000
        &&& -1000 <= self.movement.x <= 1000
        &&& -1000 <= self.movement.y <= 1000
        &&& self.hand.wf()
        &&& 1 <= self.max_health <= 1_000_000_000
        &&& 0 <= self.health <= self.max_health
        &&& 0 <= self.xp <= 2_000_000_000_000
        &&& 1 <= self.level <= 2_000_000
    }

    pub fn new(hand: Hand) -> (p: Player)
        requires
            hand.wf(),
        ensures
            p.wf(),
            p.pos == (Vec2i { x: 0, y: 0 }),
            p.direction == (Vec2i { x: 1000, y: 0 }),
            p.movement == (Vec2i { x: 0, y: 0 }),
            p.hand == hand,
            p.health == consts::PLAYER_MAX_HEALTH,
            p.max_health == consts::PLAYER_MAX_HEALTH,
            p.xp == 0,
            p.level == 1,
    {
        Player {
            pos: Vec2i { x: 0, y: 0 },
            direction: Vec2i { x: 1000, y: 0 },
            movement: Vec2i { x: 0, y: 0 },
            hand,
            health: consts::PLAYER_MAX_HEALTH,
            max_health: consts::PLAYER_MAX_HEALTH,
            xp: 0,
            level: 1,
        }
    }

    /// The walking speed this tick, micro-tiles per second: the base
    /// speed scaled by the mitigated weapon penalty and the modifier
    /// speed bonus, capped at the machine speed limit.
    pub open spec fn spec_effective_speed(self, powerups: Powerups) -> int {
        let penalty = if self.hand.slots@[self.hand.active as int].weapon.time_until_next_shot_ms
            <= 0 {
            self.hand.slots@[self.hand.active as int].weapon.ms_walk_milli as int
        } else {
            self.hand.slots@[self.hand.active as int].weapon.ms_shoot_milli as int
        };
        let mitigated = if penalty + consts::MS_MITIGATION_PER_POWERUP_MILLI
            * powerups.powerups@.len() <= 1000 {
            penalty + consts::MS_MITIGATION_PER_POWERUP_MILLI * powerups.powerups@.len()
        } else {
            1000int
        };
        let s1 = util::spec_tdiv(consts::PLAYER_SPEED * mitigated, 1000);
        let bonus = 1000 + consts::SPEED_MOD_PER_POWERUP_MILLI * powerups.powerups@.len();
        let s2 = util::spec_tdiv(s1 * bonus, 1000);
        if s2 <= consts::SPEED_LIMIT {
            s2
        } else {
            consts::SPEED_LIMIT as int
        }
    }

    /// One tick of input handling: normalize the movement intent, walk
    /// along it at the effective speed, face the aim (or the walk
    /// direction when nothing aims), run the weapon clocks, and fire if
    /// asked and ready.
    pub fn handle_input(
        &mut self,
        input: &PlayerInput,
        powerups: &Powerups,
        delta_ms: i64,
    ) -> (shot: Shot)
        requires
            old(self).wf(),
            input.wf(),
            powerups.wf(),
            0 <= delta_ms <= consts::MAX_DELTA_MS,
        ensures
            final(self).wf(),
            final(self).movement == geom::spec_norm_dir(input.movement),
            ({
                let eff = old(self).spec_effective_speed(*powerups);
                let mv = geom::spec_norm_dir(input.movement);
                &&& final(self).pos.x == util::spec_clamp_pos(
                    old(self).pos.x + util::spec_tdiv(mv.x * eff * delta_ms, 1_000_000),
                )
                &&& final(self).pos.y == util::spec_clamp_pos(
                    old(self).pos.y + util::spec_tdiv(mv.y * eff * delta_ms, 1_000_000),
                )
            }),
            final(self).direction == (if geom::spec_norm_dir(input.aim) != (Vec2i {
                x: 0,
                y: 0,
            }) {
                geom::spec_norm_dir(input.aim)
            } else if geom::spec_norm_dir(input.movement) != (Vec2i { x: 0, y: 0 }) {
                geom::spec_norm_dir(input.movement)
            } else {
                old(self).direction
            }),
            final(self).health == old(self).health,
            final(self).max_health == old(self).max_health,
            final(self).xp == old(self).xp,
            final(self).level == old(self).level,
            final(self).hand.active == old(self).hand.active,
            final(self).hand.slots@.len() == old(self).hand.slots@.len(),
            forall|i: int|
                0 <= i < old(self).hand.slots@.len()
                    ==> (#[trigger] final(self).hand.slots@[i]).card
                    == old(self).hand.slots@[i].card,
            ({
                let pre = old(self).hand.slots@[old(self).hand.active as int].weapon;
                let cooled = if pre.time_until_next_shot_ms - delta_ms >= 0 {
                    pre.time_until_next_shot_ms - delta_ms
                } else {
                    0int
                };
                let post = final(self).hand.slots@[old(self).hand.active as int].weapon;
                &&& shot.0 == (input.fire && cooled <= 0)
                &&& post.time_until_next_shot_ms == (if shot.0 {
                    pre.fire_period_ms as int
                } else {
                    cooled
                })
            }),
            forall|i: int|
                0 <= i < old(self).hand.slots@.len() && i != old(self).hand.active ==> {
                    let pre = old(self).hand.slots@[i].weapon;
                    let post = (#[trigger] final(self).hand.slots@[i]).weapon;
                    &&& post.time_until_next_shot_ms == (
                    if pre.time_until_next_shot_ms - delta_ms >= 0 {
                        pre.time_until_next_shot_ms - delta_ms
                    } else {
                        0int
                    })
                    &&& post.fire_period_ms == pre.fire_period_ms
                    &&& post.range == pre.range
                    &&& post.bullet_speed == pre.bullet_speed
                },
    {
        let mv = geom::norm_dir(input.movement);
        self.movement = mv;

        let penalty = self.hand.get_ms_penalty();
        let mitigated = powerups.ms_penalty_mod_milli(penalty);
        let s1 = util::mul_div(consts::PLAYER_SPEED, mitigated, 1000);
        proof {
            util::lemma_abs_mul_le(consts::PLAYER_SPEED as int, mitigated as int, 1_200_000, 1000);
            vstd::arithmetic::div_mod::lemma_div_pos_is_pos(
                consts::PLAYER_SPEED * mitigated,
                1000,
            );
            vstd::arithmetic::div_mod::lemma_div_is_ordered(
                consts::PLAYER_SPEED * mitigated,
                1_200_000_000,
                1000,
            );
        }
        let bonus_u: u64 = powerups.speed_mod_milli();
        proof {
            assert(bonus_u <= 10_000_001_000) by {
                assert(powerups.powerups@.len() <= 1_000_000_000);
            }
        }
        let bonus: i64 = bonus_u as i64;
        proof {
            util::lemma_abs_mul_le(s1 as int, bonus as int, 1_200_000, 10_000_001_000);
        }
        let s2 = util::mul_div(s1, bonus, 1000);
        let eff: i64 = if s2 <= consts::SPEED_LIMIT {
            s2
        } else {
            consts::SPEED_LIMIT
        };
        proof {
            assert(eff == old(self).spec_effective_speed(*powerups));
            assert(0 <= eff <= consts::SPEED_LIMIT) by {
                vstd::arithmetic::div_mod::lemma_div_pos_is_pos(s1 * bonus, 1000);
            }
            util::lemma_abs_mul_le(mv.x as int, eff as int, 1000, consts::SPEED_LIMIT as int);
            util::lemma_abs_mul_le(
                mv.x as int * eff as int,
                delta_ms as int,
                1_000_000_000_000,
                consts::MAX_DELTA_MS as int,
            );
            util::lemma_abs_mul_le(mv.y as int, eff as int, 1000, consts::SPEED_LIMIT as int);
            util::lemma_abs_mul_le(
                mv.y as int * eff as int,
                delta_ms as int,
                1_000_000_000_000,
                consts::MAX_DELTA_MS as int,
            );
        }
        let step_x = util::mul3_div(mv.x, eff, delta_ms, 1_000_000);
        let step_y = util::mul3_div(mv.y, eff, delta_ms, 1_000_000);
        self.pos = Vec2i {
            x: util::add_clamped(self.pos.x, step_x),
            y: util::add_clamped(self.pos.y, step_y),
        };

        let aim = geom::norm_dir(input.aim);
        if aim.x != 0 || aim.y != 0 {
            self.direction = aim;
        } else if mv.x != 0 || mv.y != 0 {
            self.direction = mv;
        }

        self.hand.update(delta_ms);
        if input.fire {
            self.hand.try_shoot()
        } else {
            Shot(false)
        }
    }

    /// Take a hit: health falls, flooring at zero; death is judged by
    /// the caller at the end of the tick.
    pub fn apply_damage(&mut self, damage: i64)
        requires
            old(self).wf(),
            0 <= damage <= 1_000_000_000,
        ensures
            final(self).wf(),
            final(self).health == (if old(self).health - damage >= 0 {
                old(self).health - damage
            } else {
                0int
            }),
            *final(self) == (Player { health: final(self).health, ..*old(self) }),
    {
        if self.health >= damage {
            self.health = self.health - damage;
        } else {
            self.health = 0;
        }
    }

    /// Heal, never beyond full health.
    pub fn heal(&mut self, amount: i64)
        requires
            old(self).wf(),
            0 <= amount <= 1_000_000_000,
        ensures
            final(self).wf(),
            final(self).health == (if old(self).health + amount <= old(self).max_health {
                old(self).health + amount
            } else {
                old(self).max_health as int
            }),
            *final(self) == (Player { health: final(self).health, ..*old(self) }),
    {
        if self.health + amount <= self.max_health {
            self.health = self.health + amount;
        } else {
            self.health = self.max_health;
        }
    }

    /// Kills feed experience one point each; thresholds roll over as
    /// many times as they are met, and the number of levels gained
    /// comes back so the caller can queue one reward per level.
    pub fn gain_xp(&mut self, count: i64) -> (levels_gained: i64)
        requires
            old(self).wf(),
            0 <= count <= 1_000_000,
            old(self).xp + count <= 2_000_000_000_000,
        ensures
            final(self).wf(),
            ({
                let after = spec_levelup(old(self).xp + count, old(self).level as int);
                &&& final(self).xp == after.0
                &&& final(self).level == after.1
                &&& levels_gained == after.1 - old(self).level
            }),
            *final(self) == (Player {
                xp: final(self).xp,
                level: final(self).level,
                ..*old(self)
            }),
            levels_gained >= 0,
    {
        self.xp = self.xp + count;
        let ghost total = self.xp as int;
        let ghost level0 = self.level as int;
        let mut gained: i64 = 0;
        loop
            invariant_except_break
                self.wf(),
                0 <= self.xp,
                1 <= level0 <= self.level,
                0 <= total <= 2_000_000_000_000,
                gained == self.level - level0,
                self.xp <= 2_000_000_000_000,
                spec_levelup(self.xp as int, self.level as int) == spec_levelup(total, level0),
                *self == (Player { xp: self.xp, level: self.level, ..*old(self) }),
            ensures
                self.wf(),
                1 <= level0 <= self.level,
                gained == self.level - level0,
                spec_levelup(self.xp as int, self.level as int) == spec_levelup(total, level0),
                self.xp < 2 * self.level * self.level,
                *self == (Player { xp: self.xp, level: self.level, ..*old(self) }),
            decreases self.xp,
        {
            proof {
                assert(0 < self.level * self.level <= 4_000_000_000_000
                    && 2 * (self.level * self.level) == 2 * self.level
                    * self.level) by (nonlinear_arith)
                    requires
                        1 <= self.level <= 2_000_000,
                ;
            }
            let thr: i64 = 2 * (self.level * self.level);
            if self.xp < thr {
                break;
            }
            self.xp = self.xp - thr;
            proof {
                assert(self.level < 2_000_000) by (nonlinear_arith)
                    requires
                        2 * (self.level * self.level) <= 2_000_000_000_000,
                        1 <= self.level,
                ;
            }
            self.level = self.level + 1;
            gained = gained + 1;
        }
        proof {
            assert(spec_levelup(self.xp as int, self.level as int) == (
                self.xp as int,
                self.level as int,
            ));
        }
        gained
    }
}

} // verus!
