//! Tuning constants for the simulation, all in exact integer units.
//!
//! Units used throughout the crate:
//! - positions and distances: micro-tiles (one tile = 1_000_000);
//! - times and timers: milliseconds;
//! - walking speeds: micro-tiles per second;
//! - projectile velocities: micro-tiles per millisecond;
//! - direction vectors: milli-units (a unit vector has length about 1000);
//! - probabilities: integer thresholds compared against a uniform roll;
//! - health, damage and healing: whole points.

use vstd::prelude::*;

verus! {

/// Frame deltas above this cap are dropped by the caller rather than
/// simulated, so every update in this crate may assume it.
pub const MAX_DELTA_MS: i64 = 100;

/// Positions are clamped to this magnitude; far beyond any reachable
/// play area, it only serves to keep all arithmetic in range.
pub const POS_LIMIT: i64 = 0x100_0000_0000;

/// Largest velocity component a projectile may carry, micro-tiles/ms.
pub const VEL_LIMIT: i64 = 1_048_576;

/// Largest travel range a projectile may be given, micro-tiles.
pub const RANGE_LIMIT: i64 = 0x100_0000_0000;

/// Largest walking speed an enemy or the player may be given,
/// micro-tiles per second.
pub const SPEED_LIMIT: i64 = 1_000_000_000;

pub const PLAYER_SPEED: i64 = 1_200_000;
pub const PLAYER_MAX_HEALTH: i64 = 10;
pub const PLAYER_RADIUS: i64 = 144_000;

pub const BULLET_RADIUS: i64 = 60_000;

pub const ENEMY_SPEED: i64 = 720_000;
pub const ENEMY_RADIUS: i64 = 240_000;
pub const ENEMY_SUPER_RADIUS: i64 = 600_000;
pub const ENEMY_DAMAGE: i64 = 1;

pub const ENEMY_MELEE_RANGE: i64 = 500_000;
pub const ENEMY_MELEE_CHARGE_TIME_MS: i64 = 500;
pub const ENEMY_MELEE_RELOAD_TIME_MS: i64 = 1000;

pub const ENEMY_RANGED_RANGE: i64 = 4_000_000;
pub const ENEMY_RANGED_CHARGE_TIME_MS: i64 = 750;
pub const ENEMY_RANGED_RELOAD_TIME_MS: i64 = 4000;
/// Movement damping applied to ranged enemies outside their range,
/// in milli-units (750 means three quarters speed).
pub const ENEMY_RANGED_SPEED_PENALTY_MILLI: i64 = 750;

pub const ENEMY_RANGED_BULLET_SPEED: i64 = 4000;
pub const ENEMY_RANGED_BULLET_RANGE: i64 = 12_000_000;

pub const ENEMY_SUPER_RANGE: i64 = 5_000_000;
pub const ENEMY_SUPER_MIN_RANGE: i64 = 1_000_000;
/// Elites may spawn only on waves strictly beyond this one.
pub const ENEMY_SUPER_WAVE_START: i64 = 2;

/// Chance, in percent, that a spawned enemy is ranged.
pub const ENEMY_RANGED_CHANCE_PERCENT: u32 = 33;
/// Chance, in percent, that a melee enemy steers by prediction.
pub const ENEMY_PREDICT_CHANCE_PERCENT: u32 = 25;
pub const ENEMY_PREDICT_LEAD_TIME_MIN_MS: i64 = 250;
pub const ENEMY_PREDICT_LEAD_TIME_MAX_MS: i64 = 750;

/// New enemies appear on a circle of this radius around the player.
pub const ENEMY_SPAWN_RADIUS: i64 = 14_000_000;

/// An enemy farther from the player than this multiple of the camera's
/// visible radius is pulled back instead of walking.
pub const ENEMY_MAX_RANGE_MULT: i64 = 2;
/// Strength of that pull, in milli-units of the wrap distance.
pub const ENEMY_WRAP_STRENGTH_MILLI: i64 = 500;

pub const HEARTS_HEAL_CHANCE_PERCENT: u32 = 5;
pub const SPADES_DAMAGE_CHANCE_PERCENT: u32 = 20;
pub const CLUBS_STUN_TIME_MS: i64 = 250;

/// Player speed bonus per accumulated modifier, milli-units.
pub const SPEED_MOD_PER_POWERUP_MILLI: u64 = 10;
/// Weapon movement-penalty mitigation per accumulated modifier,
/// milli-units added back toward full speed.
pub const MS_MITIGATION_PER_POWERUP_MILLI: u64 = 5;

/// Cards with this value or above are not dealt into a starting hand.
pub const SLOT_MAX_START_VALUE: u8 = 4;
pub const HAND_CARD_COUNT: usize = 5;

} // verus!
