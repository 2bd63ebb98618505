//! The per-enemy behavior state machine: stun, steering (direct chase
//! or lead-time prediction), the anti-straggler pull, and the three
//! variants' attack cycles — melee charge, ranged charge-and-reload,
//! and the elite spread-shot cadence.

use vstd::prelude::*;

use crate::bullet::Bullet;
use crate::bullet::BulletDamage;
use crate::consts;
use crate::deck::Damage;
use crate::event::DamageEvent;
use crate::event::DamageNumberColor;
use crate::geom;
use crate::geom::Vec2i;
use crate::player::Player;
use crate::rng;
use crate::timer::Timer;
use crate::util;

verus! {

/// A timed status that suspends movement and attack progression.
#[derive(Clone, Copy, PartialEq, Eq, Structural, Debug)]
pub struct EnemyStunned {
    pub time_remaining_ms: i64,
}

impl EnemyStunned {
    pub open spec fn wf(self) -> bool {
        0 <= self.time_remaining_ms <= consts::POS_LIMIT
    }

    pub fn new() -> (s: EnemyStunned)
        ensures
            s.wf(),
            s.time_remaining_ms == 0,
    {
        EnemyStunned { time_remaining_ms: 0 }
    }

    /// Run the stun clock down, flooring at zero.
    pub fn update(&mut self, delta_ms: i64)
        requires
            old(self).wf(),
            0 <= delta_ms,
        ensures
            final(self).wf(),
            final(self).time_remaining_ms == (if old(self).time_remaining_ms - delta_ms >= 0 {
                old(self).time_remaining_ms - delta_ms
            } else {
                0int
            }),
    {
        if self.time_remaining_ms >= delta_ms {
            self.time_remaining_ms = self.time_remaining_ms - delta_ms;
        } else {
            self.time_remaining_ms = 0;
        }
    }

    pub fn is_stunned(&self) -> (r: bool)
        ensures
            r == (self.time_remaining_ms > 0),
    {
        self.time_remaining_ms > 0
    }

    /// A hit adds stun time, capped at the clamp band.
    pub fn add_time(&mut self, stun_ms: i64)
        requires
            old(self).wf(),
            0 <= stun_ms,
        ensures
            final(self).wf(),
            final(self).time_remaining_ms == (if old(self).time_remaining_ms + stun_ms
                <= consts::POS_LIMIT {
                old(self).time_remaining_ms + stun_ms
            } else {
                consts::POS_LIMIT as int
            }),
    {
        if stun_ms <= consts::POS_LIMIT - self.time_remaining_ms {
            self.time_remaining_ms = self.time_remaining_ms + stun_ms;
        } else {
            self.time_remaining_ms = consts::POS_LIMIT;
        }
    }
}

/// The two-phase attack cycle: time until the next attack may begin
/// (reload), and time spent charging in range.
#[derive(Clone, Copy, PartialEq, Eq, Structural, Debug)]
pub struct EnemyAttack {
    pub time_until_next_attack_ms: i64,
    pub time_in_range_ms: i64,
}

impl EnemyAttack {
    pub open spec fn wf(self) -> bool {
        &&& -consts::POS_LIMIT <= self.time_until_next_attack_ms <= consts::POS_LIMIT
        &&& 0 <= self.time_in_range_ms <= consts::POS_LIMIT
    }

    pub fn new() -> (a: EnemyAttack)
        ensures
            a.wf(),
            a.time_until_next_attack_ms == 0,
            a.time_in_range_ms == 0,
    {
        EnemyAttack { time_until_next_attack_ms: 0, time_in_range_ms: 0 }
    }

    pub fn is_charging(&self) -> (r: bool)
        ensures
            r == (self.time_in_range_ms > 0 && self.time_until_next_attack_ms <= 0),
    {
        self.time_in_range_ms > 0 && self.time_until_next_attack_ms <= 0
    }
}

#[derive(Clone, Copy, PartialEq, Eq, Structural, Debug)]
pub enum EnemyType {
    Melee,
    Ranged,
    Super,
}

impl EnemyType {
    /// Attack range, micro-tiles.
    pub open spec fn spec_range(self) -> int {
        match self {
            EnemyType::Melee => consts::ENEMY_MELEE_RANGE as int,
            EnemyType::Ranged => consts::ENEMY_RANGED_RANGE as int,
            EnemyType::Super => consts::ENEMY_SUPER_RANGE as int,
        }
    }

    pub fn range(&self) -> (r: i64)
        ensures
            r == self.spec_range(),
    {
        match self {
            EnemyType::Melee => consts::ENEMY_MELEE_RANGE,
            EnemyType::Ranged => consts::ENEMY_RANGED_RANGE,
            EnemyType::Super => consts::ENEMY_SUPER_RANGE,
        }
    }

    /// Charge time, ms; elites have no charge phase.
    pub open spec fn spec_charge_time_ms(self) -> int {
        match self {
            EnemyType::Melee => consts::ENEMY_MELEE_CHARGE_TIME_MS as int,
            EnemyType::Ranged => consts::ENEMY_RANGED_CHARGE_TIME_MS as int,
            EnemyType::Super => -1,
        }
    }

    pub fn charge_time_ms(&self) -> (r: i64)
        ensures
            r == self.spec_charge_time_ms(),
    {
        match self {
            EnemyType::Melee => consts::ENEMY_MELEE_CHARGE_TIME_MS,
            EnemyType::Ranged => consts::ENEMY_RANGED_CHARGE_TIME_MS,
            EnemyType::Super => -1,
        }
    }

    /// Reload time, ms; elites have their own cadence.
    pub open spec fn spec_reload_time_ms(self) -> int {
        match self {
            EnemyType::Melee => consts::ENEMY_MELEE_RELOAD_TIME_MS as int,
            EnemyType::Ranged => consts::ENEMY_RANGED_RELOAD_TIME_MS as int,
            EnemyType::Super => -1,
        }
    }

    pub fn reload_time_ms(&self) -> (r: i64)
        ensures
            r == self.spec_reload_time_ms(),
    {
        match self {
            EnemyType::Melee => consts::ENEMY_MELEE_RELOAD_TIME_MS,
            EnemyType::Ranged => consts::ENEMY_RANGED_RELOAD_TIME_MS,
            EnemyType::Super => -1,
        }
    }

    /// Hitbox radius, micro-tiles.
    pub open spec fn spec_radius(self) -> int {
        match self {
            EnemyType::Super => consts::ENEMY_SUPER_RADIUS as int,
            _ => consts::ENEMY_RADIUS as int,
        }
    }

    pub fn radius(&self) -> (r: i64)
        ensures
            r == self.spec_radius(),
    {
        match self {
            EnemyType::Super => consts::ENEMY_SUPER_RADIUS,
            _ => consts::ENEMY_RADIUS,
        }
    }

    pub fn is_melee(&self) -> (r: bool)
        ensures
            r == (*self == EnemyType::Melee),
    {
        match self {
            EnemyType::Melee => true,
            EnemyType::Ranged => false,
            EnemyType::Super => false,
        }
    }
}

/// What an enemy asks the spawn scheduler to fire this tick.
#[derive(Clone, Copy, PartialEq, Eq, Structural, Debug)]
pub enum EnemyShotType {
    NoShot,
    Standard,
    Spread,
}

/// How the enemy steers: straight at the player, or at the player's
/// position extrapolated by a fixed lead time.
#[derive(Clone, Copy, PartialEq, Eq, Structural, Debug)]
pub enum EnemyMovementType {
    Chase,
    Predict(i64),
}

/// The elite fire period for a wave: the rate ramps linearly once
/// elites are unlocked.
pub open spec fn spec_super_fire_period_ms(wave: int) -> int {
    if wave > consts::ENEMY_SUPER_WAVE_START {
        5000int / (wave - consts::ENEMY_SUPER_WAVE_START)
    } else {
        5000
    }
}

/// The stun clock after a tick of `delta` milliseconds.
pub open spec fn spec_stun_after(e: Enemy, delta: int) -> int {
    if e.enemy_stunned.time_remaining_ms - delta >= 0 {
        e.enemy_stunned.time_remaining_ms - delta
    } else {
        0
    }
}

#[derive(Clone, Copy)]
pub struct Enemy {
    pub pos: Vec2i,
    pub health: i64,
    pub max_health: i64,
    /// Damage dealt to the player by attacks.
    pub damage: i64,
    /// Walking speed, micro-tiles per second.
    pub speed: i64,
    /// Facing, milli-units; shots leave in this direction.
    pub direction: Vec2i,
    pub enemy_type: EnemyType,
    pub enemy_attack: EnemyAttack,
    pub enemy_stunned: EnemyStunned,
    pub enemy_movement: EnemyMovementType,
    /// Stable for the enemy's lifetime; projectiles de-duplicate their
    /// hits by it.
    pub id: u64,
}

impl Enemy {
    pub open spec fn wf(self) -> bool {
        &&& self.pos.in_pos_band()
        &&& 0 <= self.health <= self.max_health
        &&& 1 <= self.max_health <= 1_000_000_000_000
        &&& 0 <= self.damage <= 1_000_000
        &&& 0 <= self.speed <= consts::SPEED_LIMIT
        &&& -1000 <= self.direction.x <= 1000
        &&& -1000 <= self.direction.y <= 1000
        &&& self.enemy_attack.wf()
        &&& self.enemy_stunned.wf()
        &&& (self.enemy_movement matches EnemyMovementType::Predict(lt) ==> 0 <= lt <= 10_000)
    }

    /// A new enemy. Melee enemies steer by prediction with a fixed
    /// probability, with a random lead time; everything else chases.
    pub fn new(
        pos: Vec2i,
        health: i64,
        damage: i64,
        speed: i64,
        enemy_type: EnemyType,
        id: u64,
    ) -> (e: Enemy)
        requires
            pos.in_pos_band(),
            1 <= health <= 1_000_000_000_000,
            0 <= damage <= 1_000_000,
            0 <= speed <= consts::SPEED_LIMIT,
        ensures
            e.wf(),
            e.pos == pos,
            e.health == health,
            e.max_health == health,
            e.damage == damage,
            e.speed == speed,
            e.direction == (Vec2i { x: 1000, y: 0 }),
            e.enemy_type == enemy_type,
            e.enemy_attack.time_until_next_attack_ms == 0,
            e.enemy_attack.time_in_range_ms == 0,
            e.enemy_stunned.time_remaining_ms == 0,
            e.id == id,
            enemy_type != EnemyType::Melee ==> e.enemy_movement == EnemyMovementType::Chase,
            enemy_type == EnemyType::Melee ==> (e.enemy_movement == EnemyMovementType::Chase
                || (e.enemy_movement matches EnemyMovementType::Predict(lt)
                && consts::ENEMY_PREDICT_LEAD_TIME_MIN_MS <= lt
                < consts::ENEMY_PREDICT_LEAD_TIME_MAX_MS)),
    {
        let enemy_movement = if enemy_type.is_melee() && rng::percent_roll(
            consts::ENEMY_PREDICT_CHANCE_PERCENT,
        ) {
            let lead_time = rng::gen_between(
                consts::ENEMY_PREDICT_LEAD_TIME_MIN_MS,
                consts::ENEMY_PREDICT_LEAD_TIME_MAX_MS,
            );
            EnemyMovementType::Predict(lead_time)
        } else {
            EnemyMovementType::Chase
        };
        Enemy {
            pos,
            health,
            max_health: health,
            damage,
            speed,
            direction: Vec2i { x: 1000, y: 0 },
            enemy_type,
            enemy_attack: EnemyAttack::new(),
            enemy_stunned: EnemyStunned::new(),
            enemy_movement,
            id,
        }
    }

    /// A hit lands: health falls by the damage and floors at zero;
    /// infinite damage empties any health.
    pub fn take_damage(&mut self, d: Damage)
        requires
            old(self).wf(),
        ensures
            final(self).wf(),
            final(self).health == (match d {
                Damage::Infinite => 0int,
                Damage::Finite(v) => if old(self).health - v >= 0 {
                    old(self).health - v
                } else {
                    0int
                },
            }),
            *final(self) == (Enemy { health: final(self).health, ..*old(self) }),
    {
        match d {
            Damage::Infinite => {
                self.health = 0;
            },
            Damage::Finite(v) => {
                if v >= self.health as u64 {
                    self.health = 0;
                } else {
                    self.health = self.health - v as i64;
                }
            },
        }
    }

    /// Where this enemy steers: the player, or the player extrapolated
    /// along their last movement direction for the lead time.
    pub open spec fn spec_target_point(self, p: Player) -> Vec2i {
        match self.enemy_movement {
            EnemyMovementType::Chase => p.pos,
            EnemyMovementType::Predict(lt) => Vec2i {
                x: util::spec_clamp_pos(
                    p.pos.x + util::spec_tdiv(p.movement.x * consts::PLAYER_SPEED * lt, 1_000_000),
                ) as i64,
                y: util::spec_clamp_pos(
                    p.pos.y + util::spec_tdiv(p.movement.y * consts::PLAYER_SPEED * lt, 1_000_000),
                ) as i64,
            },
        }
    }

    /// The facing after steering: toward the target point.
    pub open spec fn spec_dir_after(self, p: Player) -> Vec2i {
        geom::spec_norm_dir(
            Vec2i {
                x: (self.spec_target_point(p).x - self.pos.x) as i64,
                y: (self.spec_target_point(p).y - self.pos.y) as i64,
            },
        )
    }

    /// The undamped movement step along a facing.
    pub open spec fn spec_base_step(self, dir: Vec2i, delta_ms: int) -> Vec2i {
        Vec2i {
            x: util::spec_tdiv(dir.x * self.speed * delta_ms, 1_000_000) as i64,
            y: util::spec_tdiv(dir.y * self.speed * delta_ms, 1_000_000) as i64,
        }
    }

    /// The anti-straggler pull: a decayed step back toward the player.
    pub open spec fn spec_wrap_step(self, p: Player, max_wrap: int) -> Vec2i {
        let n = geom::spec_norm_dir(
            Vec2i { x: (p.pos.x - self.pos.x) as i64, y: (p.pos.y - self.pos.y) as i64 },
        );
        let w = util::spec_tdiv(max_wrap * consts::ENEMY_WRAP_STRENGTH_MILLI, 1000);
        Vec2i {
            x: util::spec_tdiv(n.x * w, 1000) as i64,
            y: util::spec_tdiv(n.y * w, 1000) as i64,
        }
    }

    /// One tick of the state machine. In order: the stun clock runs
    /// down and a stunned enemy does nothing else; an enemy pulled far
    /// behind is wrapped toward the player and skips its attack; the
    /// enemy then faces its target, advances its reload, runs its
    /// variant's attack logic, and finally moves.
    pub fn update(
        &mut self,
        player: &mut Player,
        wave: i64,
        max_dist: i64,
        delta_ms: i64,
    ) -> (r: (EnemyShotType, Option<DamageEvent>))
        requires
            old(self).wf(),
            old(player).wf(),
            0 <= wave <= 1_000_000,
            0 <= max_dist <= 0x10_0000_0000,
            0 <= delta_ms <= consts::MAX_DELTA_MS,
        ensures
            final(self).wf(),
            final(player).wf(),
            final(self).health == old(self).health,
            final(self).max_health == old(self).max_health,
            final(self).damage == old(self).damage,
            final(self).speed == old(self).speed,
            final(self).enemy_type == old(self).enemy_type,
            final(self).enemy_movement == old(self).enemy_movement,
            final(self).id == old(self).id,
            final(self).enemy_stunned.time_remaining_ms == spec_stun_after(
                *old(self),
                delta_ms as int,
            ),
            *final(self) == spec_enemy_step(
                *old(self),
                *old(player),
                wave as int,
                max_dist as int,
                delta_ms as int,
            ),
            r.0 == spec_step_shot(*old(self), *old(player), max_dist as int, delta_ms as int),
            spec_step_melee_hit(*old(self), *old(player), max_dist as int, delta_ms as int)
                ==> {
                &&& final(player).health == (if old(player).health - old(self).damage >= 0 {
                    old(player).health - old(self).damage
                } else {
                    0int
                })
                &&& *final(player) == (Player { health: final(player).health, ..*old(player) })
                &&& r.1 == Some(
                    DamageEvent {
                        amount: old(self).damage,
                        pos: old(player).pos,
                        color: DamageNumberColor::PlayerDamage,
                    },
                )
            },
            !spec_step_melee_hit(*old(self), *old(player), max_dist as int, delta_ms as int)
                ==> *final(player) == *old(player) && r.1 == Option::<DamageEvent>::None,
    {
        proof {
            reveal(spec_enemy_step);
            reveal(spec_step_shot);
        }
        self.enemy_stunned.update(delta_ms);
        if self.enemy_stunned.is_stunned() {
            return (EnemyShotType::NoShot, None);
        }

        let target: Vec2i = match self.enemy_movement {
            EnemyMovementType::Chase => player.pos,
            EnemyMovementType::Predict(lead_time) => {
                proof {
                    util::lemma_abs_mul_le(
                        player.movement.x as int,
                        consts::PLAYER_SPEED as int,
                        1000,
                        consts::PLAYER_SPEED as int,
                    );
                    util::lemma_abs_mul_le(
                        player.movement.x as int * consts::PLAYER_SPEED as int,
                        lead_time as int,
                        1_200_000_000,
                        10_000,
                    );
                    util::lemma_abs_mul_le(
                        player.movement.y as int,
                        consts::PLAYER_SPEED as int,
                        1000,
                        consts::PLAYER_SPEED as int,
                    );
                    util::lemma_abs_mul_le(
                        player.movement.y as int * consts::PLAYER_SPEED as int,
                        lead_time as int,
                        1_200_000_000,
                        10_000,
                    );
                }
                let lx = util::mul3_div(player.movement.x, consts::PLAYER_SPEED, lead_time, 1_000_000);
                let ly = util::mul3_div(player.movement.y, consts::PLAYER_SPEED, lead_time, 1_000_000);
                Vec2i {
                    x: util::add_clamped(player.pos.x, lx),
                    y: util::add_clamped(player.pos.y, ly),
                }
            },
        };

        let dsq: i128 = geom::dist_sq(player.pos, self.pos);
        let max_wrap: i64 = consts::ENEMY_MAX_RANGE_MULT * max_dist;
        proof {
            util::lemma_abs_mul_le(max_wrap as int, max_wrap as int, 0x40_0000_0000, 0x40_0000_0000);
        }
        let mw2: i128 = (max_wrap as i128) * (max_wrap as i128);
        if dsq > mw2 {
            let n = geom::norm_dir(
                Vec2i { x: player.pos.x - self.pos.x, y: player.pos.y - self.pos.y },
            );
            let w = util::mul_div(max_wrap, consts::ENEMY_WRAP_STRENGTH_MILLI, 1000);
            proof {
                vstd::arithmetic::div_mod::lemma_div_pos_is_pos(
                    max_wrap * consts::ENEMY_WRAP_STRENGTH_MILLI,
                    1000,
                );
                vstd::arithmetic::div_mod::lemma_div_is_ordered(
                    max_wrap * consts::ENEMY_WRAP_STRENGTH_MILLI,
                    0x40_0000_0000int * 1000,
                    1000,
                );
                util::lemma_abs_mul_le(max_wrap as int, 1000, 0x40_0000_0000, 1000);
                util::lemma_abs_mul_le(n.x as int, w as int, 1000, 0x40_0000_0000);
                util::lemma_abs_mul_le(n.y as int, w as int, 1000, 0x40_0000_0000);
            }
            let wx = util::mul_div(n.x, w, 1000);
            let wy = util::mul_div(n.y, w, 1000);
            self.pos = Vec2i {
                x: util::add_clamped(self.pos.x, wx),
                y: util::add_clamped(self.pos.y, wy),
            };
            return (EnemyShotType::NoShot, None);
        }

        let raw_dir = geom::norm_dir(
            Vec2i { x: target.x - self.pos.x, y: target.y - self.pos.y },
        );
        let dir = if raw_dir.x == 0 && raw_dir.y == 0 {
            self.direction
        } else {
            raw_dir
        };
        self.direction = dir;
        proof {
            util::lemma_abs_mul_le(dir.x as int, self.speed as int, 1000, consts::SPEED_LIMIT as int);
            util::lemma_abs_mul_le(
                dir.x as int * self.speed as int,
                delta_ms as int,
                1_000_000_000_000,
                consts::MAX_DELTA_MS as int,
            );
            util::lemma_abs_mul_le(dir.y as int, self.speed as int, 1000, consts::SPEED_LIMIT as int);
            util::lemma_abs_mul_le(
                dir.y as int * self.speed as int,
                delta_ms as int,
                1_000_000_000_000,
                consts::MAX_DELTA_MS as int,
            );
        }
        let mut step = Vec2i {
            x: util::mul3_div(dir.x, self.speed, delta_ms, 1_000_000),
            y: util::mul3_div(dir.y, self.speed, delta_ms, 1_000_000),
        };
        proof {
            assert(-100_000_000_000_000 <= step.x <= 100_000_000_000_000);
            assert(-100_000_000_000_000 <= step.y <= 100_000_000_000_000);
        }

        let mut shot: EnemyShotType = EnemyShotType::NoShot;
        let mut hit_event: Option<DamageEvent> = None;

        let range = self.enemy_type.range();
        let charge_time = self.enemy_type.charge_time_ms();
        proof {
            util::lemma_abs_mul_le(range as int, range as int, 5_000_000, 5_000_000);
        }
        let range2: i128 = (range as i128) * (range as i128);
        let in_range = dsq < range2;

        let base = util::add_clamped(self.enemy_attack.time_until_next_attack_ms, -delta_ms);
        self.enemy_attack.time_until_next_attack_ms = base;

        if base <= 0 {
            match self.enemy_type {
                EnemyType::Ranged => {
                    if self.enemy_attack.time_in_range_ms > 0 {
                        step = Vec2i { x: 0, y: 0 };
                        if self.enemy_attack.time_in_range_ms + delta_ms >= charge_time {
                            self.enemy_attack.time_until_next_attack_ms =
                                consts::ENEMY_RANGED_RELOAD_TIME_MS;
                            self.enemy_attack.time_in_range_ms = 0;
                            shot = EnemyShotType::Standard;
                        } else {
                            self.enemy_attack.time_in_range_ms =
                                self.enemy_attack.time_in_range_ms + delta_ms;
                        }
                    } else if in_range {
                        self.enemy_attack.time_in_range_ms =
                            self.enemy_attack.time_in_range_ms + delta_ms;
                    }
                },
                EnemyType::Melee => {
                    if in_range {
                        if self.enemy_attack.time_in_range_ms + delta_ms >= charge_time {
                            self.enemy_attack.time_until_next_attack_ms =
                                consts::ENEMY_MELEE_RELOAD_TIME_MS;
                            self.enemy_attack.time_in_range_ms = 0;
                            player.apply_damage(self.damage);
                            hit_event = Some(
                                DamageEvent {
                                    amount: self.damage,
                                    pos: player.pos,
                                    color: DamageNumberColor::PlayerDamage,
                                },
                            );
                        } else {
                            self.enemy_attack.time_in_range_ms =
                                self.enemy_attack.time_in_range_ms + delta_ms;
                        }
                    } else {
                        self.enemy_attack.time_in_range_ms = 0;
                    }
                },
                EnemyType::Super => {
                    if in_range {
                        let period: i64 = if wave > consts::ENEMY_SUPER_WAVE_START {
                            (5000u64 / ((wave - consts::ENEMY_SUPER_WAVE_START) as u64)) as i64
                        } else {
                            5000
                        };
                        self.enemy_attack.time_until_next_attack_ms = period;
                        shot = EnemyShotType::Spread;
                    }
                },
            }
        }

        match self.enemy_type {
            EnemyType::Ranged => {
                let rr2: i128 = (consts::ENEMY_RANGED_RANGE as i128) * (
                consts::ENEMY_RANGED_RANGE as i128);
                if dsq < rr2 {
                    step = Vec2i { x: 0, y: 0 };
                } else {
                    proof {
                        util::lemma_abs_mul_le(
                            step.x as int,
                            consts::ENEMY_RANGED_SPEED_PENALTY_MILLI as int,
                            100_000_000_000_000,
                            1000,
                        );
                        util::lemma_abs_mul_le(
                            step.y as int,
                            consts::ENEMY_RANGED_SPEED_PENALTY_MILLI as int,
                            100_000_000_000_000,
                            1000,
                        );
                    }
                    step = Vec2i {
                        x: util::mul_div(step.x, consts::ENEMY_RANGED_SPEED_PENALTY_MILLI, 1000),
                        y: util::mul_div(step.y, consts::ENEMY_RANGED_SPEED_PENALTY_MILLI, 1000),
                    };
                }
            },
            EnemyType::Super => {
                let smr2: i128 = (consts::ENEMY_SUPER_MIN_RANGE as i128) * (
                consts::ENEMY_SUPER_MIN_RANGE as i128);
                if dsq < smr2 {
                    step = Vec2i { x: 0, y: 0 };
                }
            },
            EnemyType::Melee => {},
        }

        self.pos = Vec2i {
            x: util::add_clamped(self.pos.x, step.x),
            y: util::add_clamped(self.pos.y, step.y),
        };

        (shot, hit_event)
    }
}


/// The straggler condition: farther from the player than twice the
/// camera's visible radius.
pub open spec fn spec_step_wrapped(e: Enemy, p: Player, max_dist: int) -> bool {
    let max_wrap = consts::ENEMY_MAX_RANGE_MULT * max_dist;
    geom::spec_dist_sq(p.pos, e.pos) > max_wrap * max_wrap
}

/// Whether this tick's step lands a melee strike on the player.
pub open spec fn spec_step_melee_hit(e: Enemy, p: Player, max_dist: int, delta: int) -> bool {
    let dsq = geom::spec_dist_sq(p.pos, e.pos);
    let reload_after = util::spec_clamp_pos(e.enemy_attack.time_until_next_attack_ms - delta);
    let range = e.enemy_type.spec_range();
    let charge = e.enemy_type.spec_charge_time_ms();
    &&& !(spec_stun_after(e, delta) > 0)
    &&& !spec_step_wrapped(e, p, max_dist)
    &&& e.enemy_type == EnemyType::Melee
    &&& reload_after <= 0
    &&& dsq < range * range
    &&& e.enemy_attack.time_in_range_ms + delta >= charge
}

/// What this tick's step asks the scheduler to fire.
#[verifier::opaque]
pub open spec fn spec_step_shot(e: Enemy, p: Player, max_dist: int, delta: int) -> EnemyShotType {
    let dsq = geom::spec_dist_sq(p.pos, e.pos);
    let reload_after = util::spec_clamp_pos(e.enemy_attack.time_until_next_attack_ms - delta);
    let ready = reload_after <= 0;
    let range = e.enemy_type.spec_range();
    let charge = e.enemy_type.spec_charge_time_ms();
    if spec_stun_after(e, delta) > 0 || spec_step_wrapped(e, p, max_dist) {
        EnemyShotType::NoShot
    } else if e.enemy_type == EnemyType::Ranged && ready && e.enemy_attack.time_in_range_ms > 0
        && e.enemy_attack.time_in_range_ms + delta >= charge {
        EnemyShotType::Standard
    } else if e.enemy_type == EnemyType::Super && ready && dsq < range * range {
        EnemyShotType::Spread
    } else {
        EnemyShotType::NoShot
    }
}

/// The complete per-enemy step of one tick, as a function of the old
/// enemy, the player it sees, the wave, the camera's visible radius
/// and the tick length. `Enemy::update` returns exactly this state.
#[verifier::opaque]
pub open spec fn spec_enemy_step(e: Enemy, p: Player, wave: int, max_dist: int, delta: int) -> Enemy {
    let stun_after = spec_stun_after(e, delta);
    let stunned_e = EnemyStunned { time_remaining_ms: stun_after as i64 };
    let dsq = geom::spec_dist_sq(p.pos, e.pos);
    let max_wrap = consts::ENEMY_MAX_RANGE_MULT * max_dist;
    let reload_after = util::spec_clamp_pos(e.enemy_attack.time_until_next_attack_ms - delta);
    let ready = reload_after <= 0;
    let range = e.enemy_type.spec_range();
    let in_range = dsq < range * range;
    let charge = e.enemy_type.spec_charge_time_ms();
    let in_charge = e.enemy_attack.time_in_range_ms + delta >= charge;
    let melee_hit = spec_step_melee_hit(e, p, max_dist, delta);
    let ranged_fire = e.enemy_type == EnemyType::Ranged && ready
        && e.enemy_attack.time_in_range_ms > 0 && in_charge;
    let spread_fire = e.enemy_type == EnemyType::Super && ready && in_range;
    let dir = if e.spec_dir_after(p) == (Vec2i { x: 0, y: 0 }) {
        e.direction
    } else {
        e.spec_dir_after(p)
    };
    let base = e.spec_base_step(dir, delta);
    if stun_after > 0 {
        Enemy { enemy_stunned: stunned_e, ..e }
    } else if spec_step_wrapped(e, p, max_dist) {
        Enemy {
            pos: Vec2i {
                x: util::spec_clamp_pos(e.pos.x + e.spec_wrap_step(p, max_wrap).x) as i64,
                y: util::spec_clamp_pos(e.pos.y + e.spec_wrap_step(p, max_wrap).y) as i64,
            },
            enemy_stunned: stunned_e,
            ..e
        }
    } else {
        let until = if melee_hit {
            consts::ENEMY_MELEE_RELOAD_TIME_MS as int
        } else if ranged_fire {
            consts::ENEMY_RANGED_RELOAD_TIME_MS as int
        } else if spread_fire {
            spec_super_fire_period_ms(wave)
        } else {
            reload_after
        };
        let in_r = if e.enemy_type == EnemyType::Melee {
            if !ready {
                e.enemy_attack.time_in_range_ms as int
            } else if !in_range || melee_hit {
                0int
            } else {
                e.enemy_attack.time_in_range_ms + delta
            }
        } else if e.enemy_type == EnemyType::Ranged {
            if !ready {
                e.enemy_attack.time_in_range_ms as int
            } else if ranged_fire {
                0int
            } else if e.enemy_attack.time_in_range_ms > 0 || in_range {
                e.enemy_attack.time_in_range_ms + delta
            } else {
                e.enemy_attack.time_in_range_ms as int
            }
        } else {
            e.enemy_attack.time_in_range_ms as int
        };
        let step = if e.enemy_type == EnemyType::Melee {
            base
        } else if e.enemy_type == EnemyType::Ranged {
            if dsq < consts::ENEMY_RANGED_RANGE * consts::ENEMY_RANGED_RANGE {
                Vec2i { x: 0, y: 0 }
            } else if ready && e.enemy_attack.time_in_range_ms > 0 {
                Vec2i { x: 0, y: 0 }
            } else {
                Vec2i {
                    x: util::spec_tdiv(base.x * consts::ENEMY_RANGED_SPEED_PENALTY_MILLI, 1000) as i64,
                    y: util::spec_tdiv(base.y * consts::ENEMY_RANGED_SPEED_PENALTY_MILLI, 1000) as i64,
                }
            }
        } else {
            if dsq < consts::ENEMY_SUPER_MIN_RANGE * consts::ENEMY_SUPER_MIN_RANGE {
                Vec2i { x: 0, y: 0 }
            } else {
                base
            }
        };
        Enemy {
            pos: Vec2i {
                x: util::spec_clamp_pos(e.pos.x + step.x) as i64,
                y: util::spec_clamp_pos(e.pos.y + step.y) as i64,
            },
            direction: dir,
            enemy_attack: EnemyAttack {
                time_until_next_attack_ms: until as i64,
                time_in_range_ms: in_r as i64,
            },
            enemy_stunned: stunned_e,
            ..e
        }
    }
}

/// The player after the first `i` enemies of the roster have stepped:
/// each melee strike takes its flat damage, flooring at zero; nothing
/// else about the player changes.
pub open spec fn spec_player_after_enemies(
    enemies: Seq<Enemy>,
    p: Player,
    max_dist: int,
    delta: int,
    i: int,
) -> Player
    decreases i,
{
    if i <= 0 {
        p
    } else {
        let q = spec_player_after_enemies(enemies, p, max_dist, delta, i - 1);
        let e = enemies[i - 1];
        if spec_step_melee_hit(e, q, max_dist, delta) {
            Player {
                health: (if q.health - e.damage >= 0 {
                    q.health - e.damage
                } else {
                    0int
                }) as i64,
                ..q
            }
        } else {
            q
        }
    }
}

/// The combat-text events the first `i` enemies emit, in roster order:
/// one player-damage number per melee strike.
pub open spec fn spec_melee_events(
    enemies: Seq<Enemy>,
    p: Player,
    max_dist: int,
    delta: int,
    i: int,
) -> Seq<DamageEvent>
    decreases i,
{
    if i <= 0 {
        Seq::empty()
    } else {
        let prev = spec_melee_events(enemies, p, max_dist, delta, i - 1);
        let q = spec_player_after_enemies(enemies, p, max_dist, delta, i - 1);
        let e = enemies[i - 1];
        if spec_step_melee_hit(e, q, max_dist, delta) {
            prev.push(
                DamageEvent {
                    amount: e.damage,
                    pos: q.pos,
                    color: DamageNumberColor::PlayerDamage,
                },
            )
        } else {
            prev
        }
    }
}

/// How many of the first `i` enemies fire a shot this tick.
pub open spec fn spec_fired_count(
    enemies: Seq<Enemy>,
    p: Player,
    max_dist: int,
    delta: int,
    i: int,
) -> int
    decreases i,
{
    if i <= 0 {
        0
    } else {
        let prev = spec_fired_count(enemies, p, max_dist, delta, i - 1);
        let q = spec_player_after_enemies(enemies, p, max_dist, delta, i - 1);
        prev + if spec_step_shot(enemies[i - 1], q, max_dist, delta) != EnemyShotType::NoShot {
            1int
        } else {
            0int
        }
    }
}

/// The melee events replay exactly the health the player loses over
/// the roster fold.
pub proof fn lemma_melee_events_replay(
    enemies: Seq<Enemy>,
    p: Player,
    max_dist: int,
    delta: int,
    i: int,
)
    requires
        0 <= i <= enemies.len(),
        0 <= p.health,
        forall|k: int| 0 <= k < enemies.len() ==> 0 <= (#[trigger] enemies[k]).damage,
    ensures
        0 <= spec_player_after_enemies(enemies, p, max_dist, delta, i).health <= p.health,
        spec_player_after_enemies(enemies, p, max_dist, delta, i).max_health == p.max_health,
        spec_player_after_enemies(enemies, p, max_dist, delta, i).health
            == crate::event::spec_replay_events(
            p.health as int,
            p.max_health as int,
            spec_melee_events(enemies, p, max_dist, delta, i),
            0,
            spec_melee_events(enemies, p, max_dist, delta, i).len() as int,
        ),
    decreases i,
{
    if i > 0 {
        lemma_melee_events_replay(enemies, p, max_dist, delta, i - 1);
        let q = spec_player_after_enemies(enemies, p, max_dist, delta, i - 1);
        let e = enemies[i - 1];
        let prev = spec_melee_events(enemies, p, max_dist, delta, i - 1);
        let cur = spec_melee_events(enemies, p, max_dist, delta, i);
        if spec_step_melee_hit(e, q, max_dist, delta) {
            assert(cur == prev.push(
                DamageEvent {
                    amount: e.damage,
                    pos: q.pos,
                    color: DamageNumberColor::PlayerDamage,
                },
            ));
            assert(prev.subrange(0, prev.len() as int) =~= cur.subrange(0, prev.len() as int));
            crate::event::lemma_replay_prefix_agree(
                p.health as int,
                p.max_health as int,
                prev,
                cur,
                0,
                prev.len() as int,
            );
            assert(cur[cur.len() - 1].color == DamageNumberColor::PlayerDamage);
            assert(cur.len() == prev.len() + 1);
            let ph = p.health as int;
            let pm = p.max_health as int;
            assert(crate::event::spec_replay_events(ph, pm, cur, 0, prev.len() as int)
                == crate::event::spec_replay_events(ph, pm, prev, 0, prev.len() as int));
            assert(crate::event::spec_replay_events(ph, pm, cur, 0, cur.len() as int) == ({
                let prev_h = crate::event::spec_replay_events(ph, pm, cur, 0, prev.len() as int);
                if prev_h - e.damage >= 0 {
                    prev_h - e.damage
                } else {
                    0int
                }
            }));
            assert(spec_player_after_enemies(enemies, p, max_dist, delta, i) == (Player {
                health: (if q.health - e.damage >= 0 {
                    q.health - e.damage
                } else {
                    0int
                }) as i64,
                ..q
            }));
            assert(spec_player_after_enemies(enemies, p, max_dist, delta, i).health
                == crate::event::spec_replay_events(ph, pm, cur, 0, cur.len() as int));
        } else {
            assert(cur == prev);
            assert(spec_player_after_enemies(enemies, p, max_dist, delta, i) == q);
        }
    }
}

pub proof fn lemma_fired_count_bounds(
    enemies: Seq<Enemy>,
    p: Player,
    max_dist: int,
    delta: int,
    i: int,
)
    ensures
        0 <= spec_fired_count(enemies, p, max_dist, delta, i) <= (if i >= 0 {
            i
        } else {
            0int
        }),
    decreases i,
{
    if i > 0 {
        lemma_fired_count_bounds(enemies, p, max_dist, delta, i - 1);
    }
}

/// Enemies in a wave: the quota grows linearly.
pub open spec fn spec_wave_count(wave: int) -> int {
    5 + 3 * (wave - 1)
}

pub fn wave_count(wave: i64) -> (n: i64)
    requires
        1 <= wave <= 1_000_000,
    ensures
        n == spec_wave_count(wave as int),
        5 <= n <= 3_000_005,
{
    5 + 3 * (wave - 1)
}

/// Enemy health in a wave: grows linearly.
pub open spec fn spec_wave_hp(wave: int) -> int {
    10 + 10 * (wave - 1)
}

pub fn wave_hp(wave: i64) -> (hp: i64)
    requires
        1 <= wave <= 1_000_000,
    ensures
        hp == spec_wave_hp(wave as int),
        10 <= hp <= 10_000_000,
{
    10 + 10 * (wave - 1)
}

/// Elite health bonus: a multiplier that itself grows with the wave.
pub open spec fn spec_super_hp_mod(wave: int) -> int {
    5 + wave
}

/// Enemy walking speed in a wave, micro-tiles per second: grows
/// linearly, capped at the machine speed limit.
pub open spec fn spec_wave_speed(wave: int) -> int {
    if consts::ENEMY_SPEED + 10_800 * (wave - 1) <= consts::SPEED_LIMIT {
        consts::ENEMY_SPEED + 10_800 * (wave - 1)
    } else {
        consts::SPEED_LIMIT as int
    }
}

pub fn wave_speed(wave: i64) -> (s: i64)
    requires
        1 <= wave <= 1_000_000,
    ensures
        s == spec_wave_speed(wave as int),
        0 <= s <= consts::SPEED_LIMIT,
{
    let raw: i64 = consts::ENEMY_SPEED + 10_800 * (wave - 1);
    if raw <= consts::SPEED_LIMIT {
        raw
    } else {
        consts::SPEED_LIMIT
    }
}

/// The spawn period for a wave, ms: the spawn rate climbs along a
/// bounded logarithmic ramp from one spawn per five seconds toward one
/// per two seconds, so the period falls step by step and then holds.
pub open spec fn spec_spawn_period_ms(wave: int) -> int {
    if wave <= 0 {
        5000
    } else if wave == 1 {
        3488
    } else if wave == 2 {
        2963
    } else if wave == 3 {
        2678
    } else if wave == 4 {
        2492
    } else if wave == 5 {
        2358
    } else if wave == 6 {
        2255
    } else if wave == 7 {
        2173
    } else if wave == 8 {
        2106
    } else if wave == 9 {
        2049
    } else {
        2000
    }
}

pub fn spawn_period_ms(wave: i64) -> (p: i64)
    ensures
        p == spec_spawn_period_ms(wave as int),
        2000 <= p <= 5000,
{
    if wave <= 0 {
        5000
    } else if wave == 1 {
        3488
    } else if wave == 2 {
        2963
    } else if wave == 3 {
        2678
    } else if wave == 4 {
        2492
    } else if wave == 5 {
        2358
    } else if wave == 6 {
        2255
    } else if wave == 7 {
        2173
    } else if wave == 8 {
        2106
    } else if wave == 9 {
        2049
    } else {
        2000
    }
}

/// What the last prune step removed: how many enemies died, and
/// whether an elite was among them.
#[derive(Clone, Copy, PartialEq, Eq, Structural, Debug)]
pub struct EnemiesKilled {
    pub count: i64,
    pub super_killed: bool,
}

/// The enemies of `s` that are still alive.
pub open spec fn spec_live(s: Seq<Enemy>) -> Seq<Enemy>
    decreases s.len(),
{
    if s.len() == 0 {
        Seq::empty()
    } else if s.last().health > 0 {
        spec_live(s.drop_last()).push(s.last())
    } else {
        spec_live(s.drop_last())
    }
}

/// How many live elites `s` holds.
pub open spec fn spec_count_super(s: Seq<Enemy>) -> int
    decreases s.len(),
{
    if s.len() == 0 {
        0
    } else {
        spec_count_super(s.drop_last()) + if s.last().enemy_type == EnemyType::Super {
            1int
        } else {
            0int
        }
    }
}

/// Everyone on the pruned roster has positive health.
pub proof fn lemma_live_all_positive(s: Seq<Enemy>)
    ensures
        forall|i: int| 0 <= i < spec_live(s).len() ==> (#[trigger] spec_live(s)[i]).health > 0,
    decreases s.len(),
{
    if s.len() > 0 {
        lemma_live_all_positive(s.drop_last());
    }
}

pub proof fn lemma_live_len(s: Seq<Enemy>)
    ensures
        0 <= spec_live(s).len() <= s.len(),
    decreases s.len(),
{
    if s.len() > 0 {
        lemma_live_len(s.drop_last());
    }
}

proof fn lemma_count_super_bounds(s: Seq<Enemy>)
    ensures
        0 <= spec_count_super(s) <= s.len(),
    decreases s.len(),
{
    if s.len() > 0 {
        lemma_count_super_bounds(s.drop_last());
    }
}

/// The spawn scheduler and roster owner: the wave counter, the spawn
/// timer with its wave-dependent period, the elite-spawn flag, and the
/// enemies and enemy projectiles themselves.
pub struct EnemyManager {
    pub enemies: Vec<Enemy>,
    /// Wave number; spawning begins by advancing it to one.
    pub wave: i64,
    /// How many spawns are left before the wave advances.
    pub enemies_until_next_wave: i64,
    pub spawn_timer: Timer<()>,
    pub enemy_bullets: Vec<Bullet>,
    /// Set once per wave at the half-count mark, consumed by the next
    /// spawn.
    pub should_spawn_super: bool,
    pub next_enemy_id: u64,
}

impl EnemyManager {
    pub open spec fn wf(self) -> bool {
        &&& self.enemies@.len() <= 100_000
        &&& forall|i: int| 0 <= i < self.enemies@.len() ==> (#[trigger] self.enemies@[i]).wf()
        &&& forall|i: int|
            0 <= i < self.enemies@.len() ==> (#[trigger] self.enemies@[i]).id
                < self.next_enemy_id
        &&& forall|i: int, j: int|
            0 <= i < j < self.enemies@.len() ==> self.enemies@[i].id != self.enemies@[j].id
        &&& self.enemy_bullets@.len() <= 1_000_000
        &&& forall|i: int|
            0 <= i < self.enemy_bullets@.len() ==> (#[trigger] self.enemy_bullets@[i]).wf()
        &&& 0 <= self.wave <= 1_000_000
        &&& 0 <= self.enemies_until_next_wave <= 3_000_005
        &&& (self.wave == 0 ==> self.enemies_until_next_wave == 0)
        &&& self.spawn_timer.wf()
    }

    pub fn new() -> (m: EnemyManager)
        ensures
            m.wf(),
            m.enemies@.len() == 0,
            m.wave == 0,
            m.enemies_until_next_wave == 0,
            m.enemy_bullets@.len() == 0,
            m.should_spawn_super == false,
            m.next_enemy_id == 0,
            m.spawn_timer.period_ms == spec_spawn_period_ms(0),
            m.spawn_timer.time_until_next_ms == 0,
    {
        EnemyManager {
            enemies: Vec::new(),
            wave: 0,
            enemies_until_next_wave: 0,
            spawn_timer: Timer::new_with_state(spawn_period_ms(0), ()),
            enemy_bullets: Vec::new(),
            should_spawn_super: false,
            next_enemy_id: 0,
        }
    }

    /// Spawn one enemy near the player: an elite if one is pending,
    /// otherwise ranged with a fixed probability, otherwise melee; its
    /// health and speed follow the wave curves, elites with their
    /// multiplicative bonus; it appears on a circle of the spawn radius
    /// around the player.
    fn spawn_enemy(&mut self, player_pos: Vec2i)
        requires
            old(self).wf(),
            player_pos.in_pos_band(),
            1 <= old(self).wave,
            1 <= old(self).enemies_until_next_wave,
            old(self).enemies@.len() < 100_000,
            old(self).next_enemy_id < 0xFFFF_FFFF_FFFF_FFFF,
        ensures
            final(self).wf(),
            final(self).enemies@.len() == old(self).enemies@.len() + 1,
            forall|i: int|
                0 <= i < old(self).enemies@.len() ==> #[trigger] final(self).enemies@[i] == old(
                    self,
                ).enemies@[i],
            ({
                let e = final(self).enemies@.last();
                &&& e.id == old(self).next_enemy_id
                &&& e.health == e.max_health
                &&& e.damage == consts::ENEMY_DAMAGE
                &&& e.speed == spec_wave_speed(old(self).wave as int)
                &&& (old(self).should_spawn_super ==> e.enemy_type == EnemyType::Super
                    && e.max_health == spec_super_capped_hp(old(self).wave as int))
                &&& (!old(self).should_spawn_super ==> (e.enemy_type == EnemyType::Ranged
                    || e.enemy_type == EnemyType::Melee) && e.max_health == spec_wave_hp(
                    old(self).wave as int,
                ))
                &&& ((-(consts::POS_LIMIT - 15_000_000) <= player_pos.x <= consts::POS_LIMIT
                    - 15_000_000 && -(consts::POS_LIMIT - 15_000_000) <= player_pos.y
                    <= consts::POS_LIMIT - 15_000_000) ==> geom::spec_dist_sq(e.pos, player_pos)
                    >= 193_000_000_000_000)
            }),
            final(self).next_enemy_id == old(self).next_enemy_id + 1,
            final(self).enemies_until_next_wave == old(self).enemies_until_next_wave - 1,
            final(self).should_spawn_super == false,
            final(self).wave == old(self).wave,
            final(self).spawn_timer == old(self).spawn_timer,
            final(self).enemy_bullets == old(self).enemy_bullets,
    {
        let raw = geom::rand_annulus_dir();
        let n = geom::norm_dir(raw);
        proof {
            util::lemma_abs_mul_le(consts::ENEMY_SPAWN_RADIUS as int, n.x as int, 14_000_000, 1000);
            util::lemma_abs_mul_le(consts::ENEMY_SPAWN_RADIUS as int, n.y as int, 14_000_000, 1000);
        }
        let off_x = util::mul_div(consts::ENEMY_SPAWN_RADIUS, n.x, 1000);
        let off_y = util::mul_div(consts::ENEMY_SPAWN_RADIUS, n.y, 1000);
        proof {
            geom::lemma_norm_annulus_lower(raw);
            assert(consts::ENEMY_SPAWN_RADIUS as int * n.x == n.x as int * 14_000_000
                && consts::ENEMY_SPAWN_RADIUS as int * n.y == n.y as int
                * 14_000_000) by (nonlinear_arith);
            geom::lemma_spawn_offset_far(n, off_x as int, off_y as int);
            util::lemma_tdiv_quotient_bound(n.x as int * 14_000_000, 1000, 14_000_000);
            util::lemma_tdiv_quotient_bound(n.y as int * 14_000_000, 1000, 14_000_000);
        }
        let spawn_pos = Vec2i {
            x: util::add_clamped(player_pos.x, off_x),
            y: util::add_clamped(player_pos.y, off_y),
        };

        let enemy_type = if self.should_spawn_super {
            self.should_spawn_super = false;
            EnemyType::Super
        } else if rng::percent_roll(consts::ENEMY_RANGED_CHANCE_PERCENT) {
            EnemyType::Ranged
        } else {
            EnemyType::Melee
        };

        let base_hp = wave_hp(self.wave);
        let hp: i64 = if enemy_type.is_melee() || matches!(enemy_type, EnemyType::Ranged) {
            base_hp
        } else {
            let md = 5 + self.wave;
            proof {
                util::lemma_abs_mul_le(base_hp as int, md as int, 10_000_000, 1_000_005);
                assert(base_hp * md >= 1) by (nonlinear_arith)
                    requires
                        base_hp >= 10,
                        md >= 6,
                ;
            }
            let raw_hp = base_hp * md;
            if raw_hp <= 1_000_000_000_000 {
                raw_hp
            } else {
                1_000_000_000_000
            }
        };

        let enemy = Enemy::new(
            spawn_pos,
            hp,
            consts::ENEMY_DAMAGE,
            wave_speed(self.wave),
            enemy_type,
            self.next_enemy_id,
        );
        self.next_enemy_id = self.next_enemy_id + 1;
        self.enemies_until_next_wave = self.enemies_until_next_wave - 1;
        self.enemies.push(enemy);
    }
}

/// Elite health for a wave: the wave health times the elite bonus,
/// capped at the largest health the model carries.
pub open spec fn spec_super_capped_hp(wave: int) -> int {
    if spec_wave_hp(wave) * spec_super_hp_mod(wave) <= 1_000_000_000_000 {
        spec_wave_hp(wave) * spec_super_hp_mod(wave)
    } else {
        1_000_000_000_000
    }
}


impl EnemyManager {
    /// One scheduler tick: every enemy runs its state machine (melee
    /// hits land on the player and come back as events), enemy shot
    /// intents become projectiles, and the spawn timer drives the wave
    /// bookkeeping and at most one spawn.
    #[verifier::rlimit(60)]
    pub fn update(
        &mut self,
        player: &mut Player,
        max_dist: i64,
        delta_ms: i64,
    ) -> (evs: Vec<DamageEvent>)
        requires
            old(self).wf(),
            old(player).wf(),
            0 <= max_dist <= 0x10_0000_0000,
            0 <= delta_ms <= consts::MAX_DELTA_MS,
        ensures
            final(self).wf(),
            final(player).wf(),
            old(self).enemies@.len() <= final(self).enemies@.len() <= old(self).enemies@.len()
                + 1,
            forall|i: int|
                0 <= i < old(self).enemies@.len() ==> {
                    let pre = old(self).enemies@[i];
                    let post = #[trigger] final(self).enemies@[i];
                    &&& post.id == pre.id
                    &&& post.enemy_type == pre.enemy_type
                    &&& post.health == pre.health
                    &&& post.max_health == pre.max_health
                    &&& post.damage == pre.damage
                    &&& post.speed == pre.speed
                    &&& post.enemy_movement == pre.enemy_movement
                },
            *final(player) == (Player { health: final(player).health, ..*old(player) }),
            final(player).health <= old(player).health,
            forall|i: int|
                0 <= i < evs@.len() ==> (#[trigger] evs@[i]).color
                    == DamageNumberColor::PlayerDamage,
            old(self).enemy_bullets@.len() <= final(self).enemy_bullets@.len(),
            forall|i: int|
                0 <= i < old(self).enemy_bullets@.len()
                    ==> #[trigger] final(self).enemy_bullets@[i]
                    == old(self).enemy_bullets@[i],
            forall|i: int|
                old(self).enemy_bullets@.len() <= i < final(self).enemy_bullets@.len() ==> {
                    let b = #[trigger] final(self).enemy_bullets@[i];
                    &&& b.hp == 1
                    &&& b.hit_ids@.len() == 0
                    &&& b.distance_to_travel == consts::ENEMY_RANGED_BULLET_RANGE
                    &&& b.bullet_damage is Standard
                },
            final(self).wave >= old(self).wave,
            forall|i: int|
                0 <= i < old(self).enemies@.len() ==> #[trigger] final(self).enemies@[i]
                    == spec_enemy_step(
                    old(self).enemies@[i],
                    spec_player_after_enemies(
                        old(self).enemies@,
                        *old(player),
                        max_dist as int,
                        delta_ms as int,
                        i,
                    ),
                    old(self).wave as int,
                    max_dist as int,
                    delta_ms as int,
                ),
            *final(player) == spec_player_after_enemies(
                old(self).enemies@,
                *old(player),
                max_dist as int,
                delta_ms as int,
                old(self).enemies@.len() as int,
            ),
            evs@ == spec_melee_events(
                old(self).enemies@,
                *old(player),
                max_dist as int,
                delta_ms as int,
                old(self).enemies@.len() as int,
            ),
            final(player).health == crate::event::spec_replay_events(
                old(player).health as int,
                old(player).max_health as int,
                evs@,
                0,
                evs@.len() as int,
            ),
            old(self).enemy_bullets@.len() + old(self).enemies@.len() <= 1_000_000
                ==> final(self).enemy_bullets@.len() == old(self).enemy_bullets@.len()
                + spec_fired_count(
                old(self).enemies@,
                *old(player),
                max_dist as int,
                delta_ms as int,
                old(self).enemies@.len() as int,
            ),
            forall|k: int|
                old(self).enemy_bullets@.len() <= k < final(self).enemy_bullets@.len() ==> ({
                    let b = #[trigger] final(self).enemy_bullets@[k];
                    exists|i: int|
                        #![trigger old(self).enemies@[i]]
                        0 <= i < old(self).enemies@.len() && ({
                            let q = spec_player_after_enemies(
                                old(self).enemies@,
                                *old(player),
                                max_dist as int,
                                delta_ms as int,
                                i,
                            );
                            let stepped = spec_enemy_step(
                                old(self).enemies@[i],
                                q,
                                old(self).wave as int,
                                max_dist as int,
                                delta_ms as int,
                            );
                            let shot = spec_step_shot(
                                old(self).enemies@[i],
                                q,
                                max_dist as int,
                                delta_ms as int,
                            );
                            &&& shot != EnemyShotType::NoShot
                            &&& b.pos == stepped.pos
                            &&& b.start_pos == stepped.pos
                            &&& b.bullet_damage == BulletDamage::Standard(
                                old(self).enemies@[i].damage as u64,
                            )
                            &&& (shot == EnemyShotType::Standard ==> b.vel == (Vec2i {
                                x: util::spec_tdiv(
                                    stepped.direction.x * consts::ENEMY_RANGED_BULLET_SPEED,
                                    1000,
                                ) as i64,
                                y: util::spec_tdiv(
                                    stepped.direction.y * consts::ENEMY_RANGED_BULLET_SPEED,
                                    1000,
                                ) as i64,
                            }))
                        })
                }),
            ({
                let ticked = util::spec_clamp_pos(
                    old(self).spawn_timer.time_until_next_ms - delta_ms,
                ) <= 0;
                let spawned = ticked && old(self).enemies@.len() < 100_000 && old(
                    self,
                ).next_enemy_id < 0xFFFF_FFFF_FFFF_FFFF;
                &&& final(self).enemies@.len() == old(self).enemies@.len() + (if spawned {
                    1int
                } else {
                    0int
                })
                &&& final(self).spawn_timer.time_until_next_ms == (if ticked {
                    util::spec_clamp_pos(old(self).spawn_timer.time_until_next_ms - delta_ms)
                        + old(self).spawn_timer.period_ms
                } else {
                    util::spec_clamp_pos(old(self).spawn_timer.time_until_next_ms - delta_ms)
                })
                &&& (!ticked ==> {
                    &&& final(self).wave == old(self).wave
                    &&& final(self).enemies_until_next_wave
                        == old(self).enemies_until_next_wave
                    &&& final(self).should_spawn_super == old(self).should_spawn_super
                    &&& final(self).next_enemy_id == old(self).next_enemy_id
                })
                &&& (ticked && old(self).enemies_until_next_wave <= 0 ==> {
                    &&& final(self).wave == (if old(self).wave < 1_000_000 {
                        old(self).wave + 1
                    } else {
                        old(self).wave as int
                    })
                    &&& final(self).spawn_timer.period_ms == spec_spawn_period_ms(
                        final(self).wave as int,
                    )
                    &&& final(self).enemies_until_next_wave == spec_wave_count(
                        final(self).wave as int,
                    ) - (if spawned {
                        1int
                    } else {
                        0int
                    })
                })
                &&& (ticked && old(self).enemies_until_next_wave > 0 ==> {
                    &&& final(self).wave == old(self).wave
                    &&& final(self).enemies_until_next_wave
                        == old(self).enemies_until_next_wave - (if spawned {
                        1int
                    } else {
                        0int
                    })
                    &&& final(self).should_spawn_super == (old(self).should_spawn_super
                        && !spawned) || (old(self).enemies_until_next_wave == spec_wave_count(
                        old(self).wave as int,
                    ) / 2 && old(self).wave > consts::ENEMY_SUPER_WAVE_START && !spawned)
                })
                &&& (spawned ==> final(self).enemies@.last().id == old(self).next_enemy_id
                    && final(self).enemies@.last().health
                    == final(self).enemies@.last().max_health)
                &&& (spawned ==> ({
                    let e = final(self).enemies@.last();
                    let flag = if old(self).enemies_until_next_wave <= 0 {
                        old(self).should_spawn_super
                    } else {
                        old(self).should_spawn_super || (old(self).enemies_until_next_wave
                            == spec_wave_count(old(self).wave as int) / 2 && old(self).wave
                            > consts::ENEMY_SUPER_WAVE_START)
                    };
                    &&& e.damage == consts::ENEMY_DAMAGE
                    &&& e.speed == spec_wave_speed(final(self).wave as int)
                    &&& (flag ==> e.enemy_type == EnemyType::Super && e.max_health
                        == spec_super_capped_hp(final(self).wave as int))
                    &&& (!flag ==> (e.enemy_type == EnemyType::Ranged || e.enemy_type
                        == EnemyType::Melee) && e.max_health == spec_wave_hp(
                        final(self).wave as int,
                    ))
                }))
            }),
    {
        let mut evs: Vec<DamageEvent> = Vec::new();
        let mut i: usize = 0;
        let wave = self.wave;
        let ghost en0 = old(self).enemies@;
        let ghost p0 = *old(player);
        let ghost md = max_dist as int;
        let ghost dd = delta_ms as int;
        let ghost b0 = old(self).enemy_bullets@.len() as int;
        while i < self.enemies.len()
            invariant
                self.wf(),
                player.wf(),
                0 <= max_dist <= 0x10_0000_0000,
                0 <= delta_ms <= consts::MAX_DELTA_MS,
                0 <= wave <= 1_000_000,
                i <= self.enemies@.len(),
                self.enemies@.len() == old(self).enemies@.len(),
                en0 == old(self).enemies@,
                p0 == *old(player),
                md == max_dist as int,
                dd == delta_ms as int,
                b0 == old(self).enemy_bullets@.len() as int,
                wave == old(self).wave,
                forall|k: int| i <= k < en0.len() ==> #[trigger] self.enemies@[k] == en0[k],
                forall|k: int|
                    0 <= k < i ==> #[trigger] self.enemies@[k] == spec_enemy_step(
                        en0[k],
                        spec_player_after_enemies(en0, p0, md, dd, k),
                        wave as int,
                        md,
                        dd,
                    ),
                *player == spec_player_after_enemies(en0, p0, md, dd, i as int),
                evs@ == spec_melee_events(en0, p0, md, dd, i as int),
                b0 + en0.len() <= 1_000_000 ==> self.enemy_bullets@.len() == b0
                    + spec_fired_count(en0, p0, md, dd, i as int),
                forall|k: int|
                    b0 <= k < self.enemy_bullets@.len() ==> ({
                        let b = #[trigger] self.enemy_bullets@[k];
                        exists|j: int|
                            #![trigger en0[j]]
                            0 <= j < en0.len() && ({
                                let q = spec_player_after_enemies(en0, p0, md, dd, j);
                                let stepped = spec_enemy_step(en0[j], q, wave as int, md, dd);
                                let shot = spec_step_shot(en0[j], q, md, dd);
                                &&& shot != EnemyShotType::NoShot
                                &&& b.pos == stepped.pos
                                &&& b.start_pos == stepped.pos
                                &&& b.bullet_damage == BulletDamage::Standard(
                                    en0[j].damage as u64,
                                )
                                &&& (shot == EnemyShotType::Standard ==> b.vel == (Vec2i {
                                    x: util::spec_tdiv(
                                        stepped.direction.x * consts::ENEMY_RANGED_BULLET_SPEED,
                                        1000,
                                    ) as i64,
                                    y: util::spec_tdiv(
                                        stepped.direction.y * consts::ENEMY_RANGED_BULLET_SPEED,
                                        1000,
                                    ) as i64,
                                }))
                            })
                    }),
                forall|k: int|
                    0 <= k < old(self).enemies@.len() ==> {
                        let pre = old(self).enemies@[k];
                        let post = #[trigger] self.enemies@[k];
                        &&& post.id == pre.id
                        &&& post.enemy_type == pre.enemy_type
                        &&& post.health == pre.health
                        &&& post.max_health == pre.max_health
                        &&& post.damage == pre.damage
                        &&& post.speed == pre.speed
                        &&& post.enemy_movement == pre.enemy_movement
                    },
                *player == (Player { health: player.health, ..*old(player) }),
                player.health <= old(player).health,
                forall|k: int|
                    0 <= k < evs@.len() ==> (#[trigger] evs@[k]).color
                        == DamageNumberColor::PlayerDamage,
                old(self).enemy_bullets@.len() <= self.enemy_bullets@.len(),
                forall|k: int|
                    0 <= k < old(self).enemy_bullets@.len() ==> #[trigger] self.enemy_bullets@[k]
                        == old(self).enemy_bullets@[k],
                forall|k: int|
                    old(self).enemy_bullets@.len() <= k < self.enemy_bullets@.len() ==> {
                        let b = #[trigger] self.enemy_bullets@[k];
                        &&& b.hp == 1
                        &&& b.hit_ids@.len() == 0
                        &&& b.distance_to_travel == consts::ENEMY_RANGED_BULLET_RANGE
                        &&& b.bullet_damage is Standard
                    },
                self.wave == old(self).wave,
                self.enemies_until_next_wave == old(self).enemies_until_next_wave,
                self.spawn_timer == old(self).spawn_timer,
                self.should_spawn_super == old(self).should_spawn_super,
                self.next_enemy_id == old(self).next_enemy_id,
            decreases self.enemies@.len() - i,
        {
            proof {
                assert(self.enemies@[i as int] == en0[i as int]);
                assert(*player == spec_player_after_enemies(en0, p0, md, dd, i as int));
            }
            let mut e: Enemy = self.enemies[i];
            let (shot, ev) = e.update(player, wave, max_dist, delta_ms);
            self.enemies.set(i, e);
            proof {
                let q = spec_player_after_enemies(en0, p0, md, dd, i as int);
                lemma_fired_count_bounds(en0, p0, md, dd, i as int);
                assert(e == spec_enemy_step(en0[i as int], q, wave as int, md, dd));
                assert(spec_player_after_enemies(en0, p0, md, dd, i as int + 1) == (
                if spec_step_melee_hit(en0[i as int], q, md, dd) {
                    Player {
                        health: (if q.health - en0[i as int].damage >= 0 {
                            q.health - en0[i as int].damage
                        } else {
                            0int
                        }) as i64,
                        ..q
                    }
                } else {
                    q
                }));
                assert(spec_melee_events(en0, p0, md, dd, i as int + 1) == (
                if spec_step_melee_hit(en0[i as int], q, md, dd) {
                    spec_melee_events(en0, p0, md, dd, i as int).push(
                        DamageEvent {
                            amount: en0[i as int].damage,
                            pos: q.pos,
                            color: DamageNumberColor::PlayerDamage,
                        },
                    )
                } else {
                    spec_melee_events(en0, p0, md, dd, i as int)
                }));
                assert(spec_fired_count(en0, p0, md, dd, i as int + 1) == spec_fired_count(
                    en0,
                    p0,
                    md,
                    dd,
                    i as int,
                ) + (if spec_step_shot(en0[i as int], q, md, dd) != EnemyShotType::NoShot {
                    1int
                } else {
                    0int
                }));
            }
            proof {
                assert forall|a: int, b: int|
                    0 <= a < b < self.enemies@.len() implies self.enemies@[a].id
                    != self.enemies@[b].id by {
                    assert(self.enemies@[a].id == old(self).enemies@[a].id);
                    assert(self.enemies@[b].id == old(self).enemies@[b].id);
                }
                assert forall|a: int|
                    0 <= a < self.enemies@.len() implies (#[trigger] self.enemies@[a]).id
                    < self.next_enemy_id by {
                    assert(self.enemies@[a].id == old(self).enemies@[a].id);
                }
            }
            if let Some(event) = ev {
                evs.push(event);
            }
            match shot {
                EnemyShotType::NoShot => {},
                EnemyShotType::Standard => {
                    if self.enemy_bullets.len() < 1_000_000 {
                        let b = standard_shot(&e);
                        self.enemy_bullets.push(b);
                    }
                },
                EnemyShotType::Spread => {
                    if self.enemy_bullets.len() < 1_000_000 {
                        let dir = geom::rand_cone_dir(e.direction);
                        let b = spread_shot(&e, dir);
                        self.enemy_bullets.push(b);
                    }
                },
            }
            i = i + 1;
        }

        let ticked = self.spawn_timer.update(delta_ms);
        if ticked.0 {
            if self.enemies_until_next_wave <= 0 {
                if self.wave < 1_000_000 {
                    self.wave = self.wave + 1;
                }
                self.enemies_until_next_wave = wave_count(self.wave);
                self.spawn_timer.update_period(spawn_period_ms(self.wave));
            } else {
                let half: i64 = (wave_count(self.wave) as u64 / 2) as i64;
                if self.enemies_until_next_wave == half && self.wave
                    > consts::ENEMY_SUPER_WAVE_START {
                    self.should_spawn_super = true;
                }
            }
            if self.enemies.len() < 100_000 && self.next_enemy_id < 0xFFFF_FFFF_FFFF_FFFF {
                let ppos = player.pos;
                self.spawn_enemy(ppos);
            }
        }
        proof {
            assert forall|k: int| 0 <= k < en0.len() implies 0 <= (#[trigger] en0[k]).damage by {
                assert(old(self).enemies@[k].wf());
            }
            lemma_melee_events_replay(en0, p0, md, dd, en0.len() as int);
        }

        evs
    }

    /// Remove the dead: every enemy whose health has reached zero
    /// leaves the roster, the others keep their order. Reports how
    /// many died and whether an elite was among them.
    pub fn prune_dead(&mut self) -> (killed: EnemiesKilled)
        requires
            old(self).wf(),
        ensures
            final(self).wf(),
            final(self).enemies@ == spec_live(old(self).enemies@),
            forall|i: int|
                0 <= i < final(self).enemies@.len()
                    ==> (#[trigger] final(self).enemies@[i]).health > 0,
            killed.count == old(self).enemies@.len() - spec_live(old(self).enemies@).len(),
            killed.count >= 0,
            killed.super_killed == (spec_count_super(old(self).enemies@) > spec_count_super(
                spec_live(old(self).enemies@),
            )),
            final(self).wave == old(self).wave,
            final(self).enemies_until_next_wave == old(self).enemies_until_next_wave,
            final(self).spawn_timer == old(self).spawn_timer,
            final(self).enemy_bullets == old(self).enemy_bullets,
            final(self).should_spawn_super == old(self).should_spawn_super,
            final(self).next_enemy_id == old(self).next_enemy_id,
    {
        let supers_before = count_supers(&self.enemies);
        let mut kept: Vec<Enemy> = Vec::new();
        let mut i: usize = 0;
        proof {
            assert(self.enemies@.subrange(0, 0) =~= Seq::<Enemy>::empty());
        }
        while i < self.enemies.len()
            invariant
                i <= self.enemies@.len(),
                self.enemies@.len() <= 100_000,
                forall|k: int| 0 <= k < self.enemies@.len() ==> (#[trigger] self.enemies@[k]).wf(),
                kept@ == spec_live(self.enemies@.subrange(0, i as int)),
                kept@.len() <= i,
                forall|k: int| 0 <= k < kept@.len() ==> (#[trigger] kept@[k]).wf(),
            decreases self.enemies@.len() - i,
        {
            proof {
                let pre = self.enemies@.subrange(0, i as int);
                let post = self.enemies@.subrange(0, i + 1);
                assert(post.drop_last() =~= pre);
                assert(post.last() == self.enemies@[i as int]);
                lemma_live_len(pre);
            }
            let e = self.enemies[i];
            if e.health > 0 {
                kept.push(e);
            }
            i = i + 1;
        }
        proof {
            assert(self.enemies@.subrange(0, self.enemies@.len() as int) =~= self.enemies@);
            lemma_live_len(self.enemies@);
            lemma_live_distinct_ids(self.enemies@, self.next_enemy_id as int);
            lemma_live_all_positive(self.enemies@);
        }
        let new_len = kept.len();
        let old_len = self.enemies.len();
        let supers_after = count_supers(&kept);
        self.enemies = kept;
        EnemiesKilled {
            count: (old_len - new_len) as i64,
            super_killed: supers_before > supers_after,
        }
    }
}

/// The projectile a ranged enemy fires: straight along its facing.
fn standard_shot(e: &Enemy) -> (b: Bullet)
    requires
        e.wf(),
    ensures
        b.wf(),
        b.pos == e.pos,
        b.start_pos == e.pos,
        b.hp == 1,
        b.hit_ids@.len() == 0,
        b.bullet_damage matches BulletDamage::Standard(v) && v == e.damage,
        b.distance_to_travel == consts::ENEMY_RANGED_BULLET_RANGE,
        b.vel.x == util::spec_tdiv(e.direction.x * consts::ENEMY_RANGED_BULLET_SPEED, 1000),
        b.vel.y == util::spec_tdiv(e.direction.y * consts::ENEMY_RANGED_BULLET_SPEED, 1000),
{
    proof {
        util::lemma_abs_mul_le(
            e.direction.x as int,
            consts::ENEMY_RANGED_BULLET_SPEED as int,
            1000,
            consts::ENEMY_RANGED_BULLET_SPEED as int,
        );
        util::lemma_abs_mul_le(
            e.direction.y as int,
            consts::ENEMY_RANGED_BULLET_SPEED as int,
            1000,
            consts::ENEMY_RANGED_BULLET_SPEED as int,
        );
        util::lemma_tdiv_quotient_bound(
            e.direction.x * consts::ENEMY_RANGED_BULLET_SPEED,
            1000,
            consts::ENEMY_RANGED_BULLET_SPEED as int,
        );
        util::lemma_tdiv_quotient_bound(
            e.direction.y * consts::ENEMY_RANGED_BULLET_SPEED,
            1000,
            consts::ENEMY_RANGED_BULLET_SPEED as int,
        );
    }
    let vel = Vec2i {
        x: util::mul_div(e.direction.x, consts::ENEMY_RANGED_BULLET_SPEED, 1000),
        y: util::mul_div(e.direction.y, consts::ENEMY_RANGED_BULLET_SPEED, 1000),
    };
    Bullet::new(
        e.pos,
        vel,
        consts::ENEMY_RANGED_BULLET_RANGE,
        BulletDamage::Standard(e.damage as u64),
        1,
    )
}

/// The projectile an elite fires: along a direction drawn from the
/// spread cone around its facing.
fn spread_shot(e: &Enemy, dir: Vec2i) -> (b: Bullet)
    requires
        e.wf(),
        -2000 <= dir.x <= 2000,
        -2000 <= dir.y <= 2000,
    ensures
        b.wf(),
        b.pos == e.pos,
        b.start_pos == e.pos,
        b.hp == 1,
        b.hit_ids@.len() == 0,
        b.bullet_damage matches BulletDamage::Standard(v) && v == e.damage,
        b.distance_to_travel == consts::ENEMY_RANGED_BULLET_RANGE,
        b.vel.x == util::spec_tdiv(dir.x * consts::ENEMY_RANGED_BULLET_SPEED, 1000),
        b.vel.y == util::spec_tdiv(dir.y * consts::ENEMY_RANGED_BULLET_SPEED, 1000),
{
    proof {
        util::lemma_abs_mul_le(
            dir.x as int,
            consts::ENEMY_RANGED_BULLET_SPEED as int,
            2000,
            consts::ENEMY_RANGED_BULLET_SPEED as int,
        );
        util::lemma_abs_mul_le(
            dir.y as int,
            consts::ENEMY_RANGED_BULLET_SPEED as int,
            2000,
            consts::ENEMY_RANGED_BULLET_SPEED as int,
        );
        util::lemma_tdiv_quotient_bound(
            dir.x * consts::ENEMY_RANGED_BULLET_SPEED,
            1000,
            2 * consts::ENEMY_RANGED_BULLET_SPEED as int,
        );
        util::lemma_tdiv_quotient_bound(
            dir.y * consts::ENEMY_RANGED_BULLET_SPEED,
            1000,
            2 * consts::ENEMY_RANGED_BULLET_SPEED as int,
        );
    }
    let vel = Vec2i {
        x: util::mul_div(dir.x, consts::ENEMY_RANGED_BULLET_SPEED, 1000),
        y: util::mul_div(dir.y, consts::ENEMY_RANGED_BULLET_SPEED, 1000),
    };
    Bullet::new(
        e.pos,
        vel,
        consts::ENEMY_RANGED_BULLET_RANGE,
        BulletDamage::Standard(e.damage as u64),
        1,
    )
}

/// How many elites a roster holds.
fn count_supers(v: &Vec<Enemy>) -> (n: usize)
    ensures
        n == spec_count_super(v@),
{
    let mut n: usize = 0;
    let mut i: usize = 0;
    proof {
        assert(v@.subrange(0, 0) =~= Seq::<Enemy>::empty());
        lemma_count_super_bounds(v@);
    }
    while i < v.len()
        invariant
            i <= v@.len(),
            n <= i,
            n == spec_count_super(v@.subrange(0, i as int)),
        decreases v@.len() - i,
    {
        proof {
            let pre = v@.subrange(0, i as int);
            let post = v@.subrange(0, i + 1);
            assert(post.drop_last() =~= pre);
            assert(post.last() == v@[i as int]);
        }
        if matches!(v[i].enemy_type, EnemyType::Super) {
            n = n + 1;
        }
        i = i + 1;
    }
    proof {
        assert(v@.subrange(0, v@.len() as int) =~= v@);
    }
    n
}


/// Every entry of the live subsequence is an entry of the full one.
proof fn lemma_live_element_of(s: Seq<Enemy>, k: int)
    requires
        0 <= k < spec_live(s).len(),
    ensures
        exists|i: int| 0 <= i < s.len() && s[i] == spec_live(s)[k],
    decreases s.len(),
{
    lemma_live_len(s);
    if s.len() > 0 {
        if s.last().health > 0 && k == spec_live(s).len() - 1 {
            assert(s[s.len() - 1] == spec_live(s)[k]);
        } else {
            lemma_live_element_of(s.drop_last(), k);
            let i = choose|i: int|
                0 <= i < s.drop_last().len() && s.drop_last()[i] == spec_live(s.drop_last())[k];
            assert(s[i] == spec_live(s)[k]);
        }
    }
}

/// Pruning keeps enemy ids pairwise distinct and within their bound.
proof fn lemma_live_distinct_ids(s: Seq<Enemy>, bound: int)
    requires
        forall|i: int, j: int| 0 <= i < j < s.len() ==> s[i].id != s[j].id,
        forall|i: int| 0 <= i < s.len() ==> (#[trigger] s[i]).id < bound,
    ensures
        forall|i: int, j: int|
            0 <= i < j < spec_live(s).len() ==> spec_live(s)[i].id != spec_live(s)[j].id,
        forall|i: int| 0 <= i < spec_live(s).len() ==> (#[trigger] spec_live(s)[i]).id < bound,
    decreases s.len(),
{
    lemma_live_len(s);
    if s.len() > 0 {
        let pre = s.drop_last();
        lemma_live_distinct_ids(pre, bound);
        if s.last().health > 0 {
            assert forall|i: int, j: int|
                0 <= i < j < spec_live(s).len() implies spec_live(s)[i].id != spec_live(
                s,
            )[j].id by {
                if j < spec_live(s).len() - 1 {
                    assert(spec_live(s)[i] == spec_live(pre)[i]);
                    assert(spec_live(s)[j] == spec_live(pre)[j]);
                } else {
                    assert(spec_live(s)[i] == spec_live(pre)[i]);
                    assert(spec_live(s)[j] == s.last());
                    lemma_live_element_of(pre, i);
                    let w = choose|w: int|
                        0 <= w < pre.len() && pre[w] == spec_live(pre)[i];
                    assert(s[w] == spec_live(pre)[i]);
                    assert(s[w].id != s[s.len() - 1].id);
                }
            }
            assert forall|i: int|
                0 <= i < spec_live(s).len() implies (#[trigger] spec_live(s)[i]).id < bound by {
                if i < spec_live(s).len() - 1 {
                    assert(spec_live(s)[i] == spec_live(pre)[i]);
                } else {
                    assert(spec_live(s)[i] == s.last());
                    assert(s[s.len() - 1].id < bound);
                }
            }
        }
    }
}

} // verus!
