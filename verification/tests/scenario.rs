//! A full-pipeline scenario: one melee enemy at ten health is struck
//! by a flat-ten-damage projectile with pierce one, and after the
//! tick's prune the kill is counted into score and experience.

use house_of_cards::bullet::{Bullet, BulletDamage};
use house_of_cards::enemy::{Enemy, EnemyType};
use house_of_cards::game_state::GameState;
use house_of_cards::geom::Vec2i;
use house_of_cards::player::PlayerInput;
use house_of_cards::session::Session;

#[test]
fn melee_kill_counts_once() {
    macroquad::rand::srand(12345);
    let mut session = Session::new();
    assert_eq!(session.game_state.current_state(), GameState::Alive);

    // One melee enemy, five tiles from the player, at ten health.
    let enemy_pos = Vec2i { x: 5_000_000, y: 0 };
    let enemy = Enemy::new(enemy_pos, 10, 1, 720_000, EnemyType::Melee, 77);
    session.enemy_manager.enemies.push(enemy);

    // A flat-ten-damage projectile with pierce one, sitting on it.
    let bullet = Bullet::new(
        enemy_pos,
        Vec2i { x: 0, y: 0 },
        100_000_000,
        BulletDamage::Standard(10),
        1,
    );
    session.player_bullets.push(bullet);

    let input = PlayerInput {
        movement: Vec2i { x: 0, y: 0 },
        aim: Vec2i { x: 0, y: 0 },
        fire: false,
    };
    let report = session.tick(&input, 0x10_0000_0000, 100);

    assert_eq!(report.killed.count, 1);
    assert!(!report.killed.super_killed);
    assert_eq!(session.score, 1);
    assert_eq!(session.player.xp, 1);
    assert_eq!(session.player.level, 1);
    assert!(!report.died);
    // The spent projectile is gone with its target.
    assert_eq!(session.player_bullets.len(), 0);
    for e in session.enemy_manager.enemies.iter() {
        assert!(e.id != 77);
        assert!(e.health > 0);
    }
}

#[test]
fn stunned_enemy_does_not_advance() {
    macroquad::rand::srand(5);
    let mut session = Session::new();
    let enemy_pos = Vec2i { x: 5_000_000, y: 0 };
    let mut enemy = Enemy::new(enemy_pos, 10, 1, 720_000, EnemyType::Melee, 7);
    enemy.enemy_stunned.add_time(500);
    session.enemy_manager.enemies.push(enemy);

    let input = PlayerInput {
        movement: Vec2i { x: 0, y: 0 },
        aim: Vec2i { x: 0, y: 0 },
        fire: false,
    };
    let _ = session.tick(&input, 0x10_0000_0000, 100);

    let e = &session.enemy_manager.enemies[0];
    assert_eq!(e.pos, enemy_pos);
    assert_eq!(e.enemy_stunned.time_remaining_ms, 400);
}

#[test]
fn tick_on_pause_leaves_world_alone() {
    macroquad::rand::srand(6);
    let mut session = Session::new();
    session.toggle_pause();
    assert_eq!(session.game_state.current_state(), GameState::Paused);
    let pos_before = session.player.pos;
    let input = PlayerInput {
        movement: Vec2i { x: 1000, y: 0 },
        aim: Vec2i { x: 0, y: 0 },
        fire: true,
    };
    let report = session.tick(&input, 0x10_0000_0000, 100);
    assert_eq!(report.killed.count, 0);
    assert_eq!(report.leveled_up, 0);
    assert!(!report.died);
    assert_eq!(session.player.pos, pos_before);
    assert_eq!(session.player_bullets.len(), 0);
    session.toggle_pause();
    assert_eq!(session.game_state.current_state(), GameState::Alive);
}

#[test]
fn player_movement_follows_input() {
    macroquad::rand::srand(8);
    let mut session = Session::new();
    let input = PlayerInput {
        movement: Vec2i { x: 1000, y: 0 },
        aim: Vec2i { x: 0, y: 1000 },
        fire: false,
    };
    let before = session.player.pos;
    let _ = session.tick(&input, 0x10_0000_0000, 100);
    // The player walked along +x and faces the aim.
    assert!(session.player.pos.x > before.x);
    assert_eq!(session.player.pos.y, before.y);
    assert_eq!(session.player.direction, Vec2i { x: 0, y: 1000 });
}

#[test]
fn choosing_a_powerup_grows_the_accumulator() {
    macroquad::rand::srand(9);
    let mut session = Session::new();
    let chosen = session.powerup_choices[1];
    session.choose_powerup(1);
    assert_eq!(session.powerups.powerups.len(), 1);
    assert_eq!(session.powerups.powerups[0], chosen);
}

#[test]
fn choosing_a_card_swaps_the_active_slot() {
    macroquad::rand::srand(10);
    let mut session = Session::new();
    let chosen = session.card_choices[2];
    session.choose_card(2);
    let active = session.player.hand.active_card();
    assert_eq!(active, chosen);
}
