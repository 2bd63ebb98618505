//! Behavior of the enemy state machine through whole ticks: melee
//! charge-and-strike, the ranged charge-fire-reload cycle, and checks
//! that the random rolls actually vary.

use house_of_cards::bullet::{Bullet, BulletDamage};
use house_of_cards::deck::{Card, Damage, Suit};
use house_of_cards::enemy::{Enemy, EnemyType};
use house_of_cards::event::DamageNumberColor;
use house_of_cards::geom::Vec2i;
use house_of_cards::player::PlayerInput;
use house_of_cards::powerup::{Powerup, Powerups};
use house_of_cards::session::Session;

fn idle_input() -> PlayerInput {
    PlayerInput {
        movement: Vec2i { x: 0, y: 0 },
        aim: Vec2i { x: 0, y: 0 },
        fire: false,
    }
}

const MAX_DIST: i64 = 0x10_0000_0000;

#[test]
fn melee_enemy_charges_then_strikes() {
    macroquad::rand::srand(100);
    let mut session = Session::new();
    // Within melee range (half a tile) of the player at the origin.
    let enemy = Enemy::new(Vec2i { x: 300_000, y: 0 }, 10, 1, 720_000, EnemyType::Melee, 50);
    session.enemy_manager.enemies.push(enemy);

    let mut hit_events = 0;
    for _ in 0..5 {
        let report = session.tick(&idle_input(), MAX_DIST, 100);
        for ev in report.events.iter() {
            if ev.color == DamageNumberColor::PlayerDamage {
                hit_events += 1;
            }
        }
    }
    // Half a second in range completes the charge exactly once.
    assert_eq!(hit_events, 1);
    assert_eq!(session.player.health, 9);

    // The reload keeps a second strike out for a while.
    for _ in 0..4 {
        let _ = session.tick(&idle_input(), MAX_DIST, 100);
    }
    assert_eq!(session.player.health, 9);
}

#[test]
fn ranged_enemy_fires_and_the_shot_travels() {
    macroquad::rand::srand(200);
    let mut session = Session::new();
    // Three tiles away: inside the four-tile ranged attack range.
    let enemy = Enemy::new(Vec2i { x: 3_000_000, y: 0 }, 10, 1, 720_000, EnemyType::Ranged, 60);
    session.enemy_manager.enemies.push(enemy);

    let mut saw_enemy_bullet = false;
    for _ in 0..30 {
        let _ = session.tick(&idle_input(), MAX_DIST, 100);
        if !session.enemy_manager.enemy_bullets.is_empty() {
            saw_enemy_bullet = true;
        }
    }
    assert!(saw_enemy_bullet);
    // Standing in range, the enemy holds its ground.
    assert_eq!(session.enemy_manager.enemies[0].pos, Vec2i { x: 3_000_000, y: 0 });
    // The shot crossed three tiles well within three seconds.
    assert!(session.player.health < 10);
}

#[test]
fn melee_enemy_walks_toward_player_and_faces_it() {
    macroquad::rand::srand(150);
    let mut session = Session::new();
    // Five tiles to the right of the player at the origin.
    let enemy = Enemy::new(Vec2i { x: 5_000_000, y: 0 }, 10, 1, 720_000, EnemyType::Melee, 51);
    session.enemy_manager.enemies.push(enemy);

    let _ = session.tick(&idle_input(), MAX_DIST, 100);
    let e = &session.enemy_manager.enemies[0];
    // The player stands still, so chase and predict agree: the enemy
    // faces straight left and covers speed * delta exactly.
    assert_eq!(e.direction, Vec2i { x: -1000, y: 0 });
    assert_eq!(e.pos, Vec2i { x: 5_000_000 - 72_000, y: 0 });
}

#[test]
fn wave_advances_once_the_quota_is_spent() {
    macroquad::rand::srand(300);
    let mut session = Session::new();
    assert_eq!(session.enemy_manager.wave, 0);
    // The first spawn-timer tick advances to wave one immediately.
    let _ = session.tick(&idle_input(), MAX_DIST, 100);
    assert_eq!(session.enemy_manager.wave, 1);
    assert_eq!(session.enemy_manager.enemies.len(), 1);
    assert_eq!(session.enemy_manager.enemies_until_next_wave, 4);
}

#[test]
fn straggler_is_pulled_back_toward_the_player() {
    macroquad::rand::srand(170);
    let mut session = Session::new();
    // With a visible radius of one tile, five tiles away is a
    // straggler: the wrap pull moves it half the wrap distance.
    let enemy = Enemy::new(Vec2i { x: 5_000_000, y: 0 }, 10, 1, 720_000, EnemyType::Melee, 52);
    session.enemy_manager.enemies.push(enemy);

    let _ = session.tick(&idle_input(), 1_000_000, 100);
    let e = &session.enemy_manager.enemies[0];
    assert_eq!(e.pos, Vec2i { x: 4_000_000, y: 0 });
    // The wrap skips attack logic, so the facing is untouched.
    assert_eq!(e.direction, Vec2i { x: 1000, y: 0 });
}

#[test]
fn spawned_enemies_have_distinct_ids() {
    macroquad::rand::srand(400);
    let mut session = Session::new();
    for _ in 0..400 {
        let _ = session.tick(&idle_input(), MAX_DIST, 100);
    }
    let enemies = &session.enemy_manager.enemies;
    assert!(enemies.len() >= 2);
    for i in 0..enemies.len() {
        for j in (i + 1)..enemies.len() {
            assert!(enemies[i].id != enemies[j].id);
        }
    }
}

#[test]
fn fire_intent_follows_the_weapon_cadence() {
    macroquad::rand::srand(800);
    let mut session = Session::new();
    let firing = PlayerInput {
        movement: Vec2i { x: 0, y: 0 },
        aim: Vec2i { x: 1000, y: 0 },
        fire: true,
    };
    // A starting-hand card carries the 200 ms profile: the first tick
    // fires, the second is still reloading, the third fires again.
    let _ = session.tick(&firing, MAX_DIST, 100);
    assert_eq!(session.player_bullets.len(), 1);
    let _ = session.tick(&firing, MAX_DIST, 100);
    assert_eq!(session.player_bullets.len(), 1);
    let _ = session.tick(&firing, MAX_DIST, 100);
    assert_eq!(session.player_bullets.len(), 2);
    // Shots leave along the aim.
    assert!(session.player_bullets[0].vel.x > 0);
    assert_eq!(session.player_bullets[0].vel.y, 0);
}

#[test]
fn elite_fires_a_spread_shot_at_once() {
    macroquad::rand::srand(900);
    let mut session = Session::new();
    // Three tiles away: inside the five-tile elite range; an elite has
    // no charge phase, so it fires on its first ready tick.
    let enemy = Enemy::new(Vec2i { x: 3_000_000, y: 0 }, 500, 1, 720_000, EnemyType::Super, 70);
    session.enemy_manager.enemies.push(enemy);

    let _ = session.tick(&idle_input(), MAX_DIST, 100);
    assert_eq!(session.enemy_manager.enemy_bullets.len(), 1);
    // The next shot waits out the five-second cadence.
    for _ in 0..10 {
        let _ = session.tick(&idle_input(), MAX_DIST, 100);
    }
    assert_eq!(session.enemy_manager.enemy_bullets.len(), 1);
}

#[test]
fn diamond_shots_carry_extra_pierce() {
    macroquad::rand::srand(1000);
    let mut session = Session::new();
    session.powerups.add(Powerup::Diamonds);
    session.powerups.add(Powerup::Diamonds);
    session.player.hand.set_card(Card::new(Suit::Diamonds, 3));
    let firing = PlayerInput {
        movement: Vec2i { x: 0, y: 0 },
        aim: Vec2i { x: 1000, y: 0 },
        fire: true,
    };
    let _ = session.tick(&firing, MAX_DIST, 100);
    assert_eq!(session.player_bullets.len(), 1);
    // Two diamonds plus the one every shot gets.
    assert_eq!(session.player_bullets[0].hp, 3);
}

#[test]
fn clubs_hits_stun_for_the_accumulated_time() {
    macroquad::rand::srand(1100);
    let mut session = Session::new();
    session.powerups.add(Powerup::Clubs);
    session.powerups.add(Powerup::Clubs);

    let enemy_pos = Vec2i { x: 5_000_000, y: 0 };
    let enemy = Enemy::new(enemy_pos, 10, 1, 720_000, EnemyType::Melee, 80);
    session.enemy_manager.enemies.push(enemy);
    let bullet = Bullet::new(
        enemy_pos,
        Vec2i { x: 0, y: 0 },
        100_000_000,
        BulletDamage::Card(Card::new(Suit::Clubs, 3)),
        1,
    );
    session.player_bullets.push(bullet);

    let _ = session.tick(&idle_input(), MAX_DIST, 100);
    let e = session
        .enemy_manager
        .enemies
        .iter()
        .find(|e| e.id == 80)
        .expect("the struck enemy survives");
    assert_eq!(e.health, 7);
    assert_eq!(e.enemy_stunned.time_remaining_ms, 500);
}

#[test]
fn joker_flip_takes_both_outcomes() {
    macroquad::rand::srand(500);
    let joker = Card::new(Suit::Joker, 0);
    let mut zeros = 0;
    let mut hundreds = 0;
    for _ in 0..200 {
        match joker.damage(None) {
            Damage::Finite(0) => zeros += 1,
            Damage::Finite(100) => hundreds += 1,
            other => panic!("unexpected joker damage {:?}", other),
        }
    }
    assert!(zeros > 0);
    assert!(hundreds > 0);
}

#[test]
fn heart_rolls_sometimes_heal() {
    macroquad::rand::srand(600);
    let mut p = Powerups::new();
    for _ in 0..100 {
        p.add(Powerup::Hearts);
    }
    let mut total = 0i64;
    for _ in 0..100 {
        let amount = p.hearts_heal_amount();
        assert!((0..=100).contains(&amount));
        total += amount;
    }
    // A five-percent roll per heart over ten thousand rolls cannot
    // plausibly stay at zero.
    assert!(total > 0);
}

#[test]
fn spade_rolls_sometimes_double() {
    macroquad::rand::srand(700);
    let mut p = Powerups::new();
    for _ in 0..100 {
        p.add(Powerup::Spades);
    }
    let mut total = 0u64;
    for _ in 0..100 {
        let doublings = p.spades_damage_mod();
        assert!(doublings <= 100);
        total += doublings;
    }
    assert!(total > 0);
}
