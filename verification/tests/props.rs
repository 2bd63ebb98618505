//! Concrete checks of the library's stated properties: monotone
//! difficulty curves, pierce accounting, exact integration with
//! inclusive range expiry, health clamping, the experience ladder,
//! heal rolls with no modifiers, and the stun clock.

use house_of_cards::bullet::{Bullet, BulletDamage};
use house_of_cards::deck::{Damage, Deck};
use house_of_cards::enemy::{self, Enemy, EnemyStunned, EnemyType};
use house_of_cards::geom::Vec2i;
use house_of_cards::hand::Hand;
use house_of_cards::player::Player;
use house_of_cards::powerup::Powerups;

fn test_player() -> Player {
    macroquad::rand::srand(7);
    let mut deck = Deck::new();
    let hand = Hand::new(&mut deck);
    Player::new(hand)
}

#[test]
fn difficulty_curves_are_monotone() {
    let mut prev_count = enemy::wave_count(1);
    let mut prev_hp = enemy::wave_hp(1);
    let mut prev_speed = enemy::wave_speed(1);
    let mut prev_period = enemy::spawn_period_ms(0);
    for w in 2..40i64 {
        let c = enemy::wave_count(w);
        let h = enemy::wave_hp(w);
        let s = enemy::wave_speed(w);
        let p = enemy::spawn_period_ms(w);
        assert!(c >= prev_count);
        assert!(h >= prev_hp);
        assert!(s >= prev_speed);
        assert!(p <= prev_period);
        prev_count = c;
        prev_hp = h;
        prev_speed = s;
        prev_period = p;
    }
}

#[test]
fn difficulty_curve_values() {
    assert_eq!(enemy::wave_count(1), 5);
    assert_eq!(enemy::wave_count(2), 8);
    assert_eq!(enemy::wave_hp(1), 10);
    assert_eq!(enemy::wave_hp(2), 20);
    assert_eq!(enemy::wave_speed(1), 720_000);
    assert_eq!(enemy::wave_speed(2), 730_800);
    assert_eq!(enemy::spawn_period_ms(0), 5000);
    assert_eq!(enemy::spawn_period_ms(10), 2000);
    assert_eq!(enemy::spawn_period_ms(100), 2000);
}

#[test]
fn pierce_two_distinct_hits_then_removed() {
    let mut b = Bullet::new(
        Vec2i { x: 0, y: 0 },
        Vec2i { x: 0, y: 0 },
        1_000_000,
        BulletDamage::Standard(3),
        2,
    );
    assert!(b.should_keep());
    assert!(b.not_already_hit(10));
    b.hit(10);
    assert!(b.should_keep());
    assert!(!b.not_already_hit(10));
    assert!(b.not_already_hit(11));
    b.hit(11);
    assert!(!b.should_keep());
    assert!(!b.not_already_hit(10));
    assert!(!b.not_already_hit(11));
}

#[test]
fn integration_is_exact_and_expiry_is_inclusive() {
    let mut b = Bullet::new(
        Vec2i { x: 0, y: 0 },
        Vec2i { x: 3, y: 4 },
        600,
        BulletDamage::Standard(1),
        1,
    );
    b.update(50);
    assert_eq!(b.pos, Vec2i { x: 150, y: 200 });
    assert!(b.should_keep());
    b.update(50);
    assert_eq!(b.pos, Vec2i { x: 300, y: 400 });
    assert!(b.should_keep());
    // One more step reaches distance 600 exactly; the boundary counts.
    b.update(20);
    assert_eq!(b.pos, Vec2i { x: 360, y: 480 });
    assert!(!b.should_keep());
}

#[test]
fn enemy_health_clamps_at_zero() {
    macroquad::rand::srand(3);
    let mut e = Enemy::new(Vec2i { x: 0, y: 0 }, 10, 1, 720_000, EnemyType::Melee, 0);
    e.take_damage(Damage::Finite(3));
    assert_eq!(e.health, 7);
    e.take_damage(Damage::Finite(100));
    assert_eq!(e.health, 0);
    let mut e2 = Enemy::new(Vec2i { x: 0, y: 0 }, 500, 1, 720_000, EnemyType::Super, 1);
    e2.take_damage(Damage::Infinite);
    assert_eq!(e2.health, 0);
}

#[test]
fn dead_enemies_leave_the_roster_after_prune() {
    macroquad::rand::srand(4);
    let mut m = enemy::EnemyManager::new();
    let alive = Enemy::new(Vec2i { x: 0, y: 0 }, 10, 1, 720_000, EnemyType::Melee, 0);
    let mut dead = Enemy::new(Vec2i { x: 0, y: 0 }, 10, 1, 720_000, EnemyType::Super, 1);
    dead.take_damage(Damage::Infinite);
    m.enemies.push(alive);
    m.enemies.push(dead);
    let killed = m.prune_dead();
    assert_eq!(killed.count, 1);
    assert!(killed.super_killed);
    assert_eq!(m.enemies.len(), 1);
    assert_eq!(m.enemies[0].id, 0);
}

#[test]
fn one_level_up_spends_exactly_the_threshold() {
    let mut p = test_player();
    assert_eq!(p.level, 1);
    assert_eq!(p.xp, 0);
    // Threshold at level 1 is 2.
    let ups = p.gain_xp(3);
    assert_eq!(ups, 1);
    assert_eq!(p.level, 2);
    assert_eq!(p.xp, 1);
}

#[test]
fn double_level_up_in_one_tick() {
    let mut p = test_player();
    // 2 * 1^2 + 2 * 2^2 = 10: enough for two consecutive thresholds.
    let ups = p.gain_xp(10);
    assert_eq!(ups, 2);
    assert_eq!(p.level, 3);
    assert_eq!(p.xp, 0);
}

#[test]
fn heal_amount_without_hearts_is_always_zero() {
    macroquad::rand::srand(99);
    let powerups = Powerups::new();
    for _ in 0..200 {
        assert_eq!(powerups.hearts_heal_amount(), 0);
    }
}

#[test]
fn stun_clock_runs_down_and_clamps() {
    let mut s = EnemyStunned::new();
    s.add_time(250);
    assert_eq!(s.time_remaining_ms, 250);
    s.update(100);
    assert_eq!(s.time_remaining_ms, 150);
    assert!(s.is_stunned());
    s.update(150);
    assert_eq!(s.time_remaining_ms, 0);
    assert!(!s.is_stunned());
    s.update(50);
    assert_eq!(s.time_remaining_ms, 0);
}
