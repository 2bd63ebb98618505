//! Unit checks for the smaller pieces: timers, weapons, the hand, the
//! outer state machine, geometry, and the collision predicates.

use house_of_cards::deck::Deck;
use house_of_cards::enemy::EnemyType;
use house_of_cards::game_state::{GameState, GameStateManager};
use house_of_cards::geom::{self, Vec2i};
use house_of_cards::hand::Hand;
use house_of_cards::hitbox;
use house_of_cards::timer::Timer;
use house_of_cards::weapon::Weapon;
use house_of_cards::world::Tile;

#[test]
fn timer_fires_on_schedule() {
    let mut t: Timer<()> = Timer::new_with_state(1000, ());
    assert!(t.update(10).0);
    assert_eq!(t.time_until_next_ms, 990);
    assert!(!t.update(10).0);
    assert_eq!(t.time_until_next_ms, 980);
    assert!(t.update(980).0);
    assert_eq!(t.time_until_next_ms, 1000);
}

#[test]
fn timer_state_and_period() {
    let mut t: Timer<u32> = Timer::new_with_state(500, 3);
    assert_eq!(*t.get_state(), 3);
    t.update_state(9);
    assert_eq!(*t.get_state(), 9);
    t.update_period(250);
    assert_eq!(t.period_ms, 250);
}

#[test]
fn weapon_reload_cycle() {
    let mut w = Weapon::new(500, 1_000_000, 900, 600, 5000);
    assert!(w.can_shoot());
    assert_eq!(w.get_ms_penalty(), 900);
    assert!(w.try_shoot().0);
    assert!(!w.can_shoot());
    assert_eq!(w.get_ms_penalty(), 600);
    assert!(!w.try_shoot().0);
    w.update(499);
    assert!(!w.can_shoot());
    w.update(1);
    assert!(w.can_shoot());
}

#[test]
fn game_state_machine_transitions() {
    let mut s = GameState::new();
    assert_eq!(s, GameState::Alive);
    s.toggle_pause();
    assert_eq!(s, GameState::Paused);
    s.toggle_pause();
    assert_eq!(s, GameState::Alive);
    let mut d = GameState::Dead;
    d.toggle_pause();
    assert_eq!(d, GameState::Dead);
}

#[test]
fn game_state_manager_stack() {
    let mut m = GameStateManager::new();
    assert_eq!(m.current_state(), GameState::Alive);
    assert!(!m.show_mouse());
    m.next(GameState::ChooseCard);
    assert_eq!(m.current_state(), GameState::ChooseCard);
    assert!(m.show_mouse());
    m.next(GameState::PowerupCard);
    m.back();
    assert_eq!(m.current_state(), GameState::ChooseCard);
    m.back();
    assert_eq!(m.current_state(), GameState::Alive);
    m.back();
    assert_eq!(m.current_state(), GameState::Alive);
    m.toggle_pause();
    assert_eq!(m.current_state(), GameState::Paused);
}

#[test]
fn starting_hand_holds_five_low_cards() {
    macroquad::rand::srand(17);
    let mut deck = Deck::new();
    let mut hand = Hand::new(&mut deck);
    assert_eq!(hand.active, 0);
    for i in 0..5 {
        hand.active = i;
        let c = hand.active_card();
        assert!(c.value >= 2 && c.value < 4);
        assert!(!c.is_ace() && !c.is_face());
    }
    hand.active = 0;
    assert!(hand.can_shoot());
    assert!(hand.try_shoot().0);
    assert!(!hand.can_shoot());
    assert!(!hand.try_shoot().0);
    hand.update(10_000);
    assert!(hand.can_shoot());
}

#[test]
fn dealing_a_hand_conserves_the_deck() {
    macroquad::rand::srand(19);
    let mut deck = Deck::new();
    let mut hand = Hand::new(&mut deck);
    // No refill can occur dealing from a full deck, and low cards are
    // plentiful, so hand plus deck still hold exactly the 54 cards.
    assert_eq!(deck.cards.len() + 5, 54);
    let mut seen: Vec<(u8, u8)> = Vec::new();
    let mut push_card = |seen: &mut Vec<(u8, u8)>, suit, value| {
        let key = (suit, value);
        assert!(!seen.contains(&key), "card duplicated");
        seen.push(key);
    };
    let code = |c: house_of_cards::deck::Card| -> (u8, u8) {
        let s = match c.suit {
            house_of_cards::deck::Suit::Spades => 0,
            house_of_cards::deck::Suit::Hearts => 1,
            house_of_cards::deck::Suit::Clubs => 2,
            house_of_cards::deck::Suit::Diamonds => 3,
            house_of_cards::deck::Suit::Joker => 4,
            house_of_cards::deck::Suit::Back => 5,
        };
        (s, c.value)
    };
    for i in 0..5 {
        hand.active = i;
        let (s, v) = code(hand.active_card());
        push_card(&mut seen, s, v);
    }
    for _ in 0..49 {
        let (s, v) = code(deck.draw_card());
        push_card(&mut seen, s, v);
    }
    assert_eq!(seen.len(), 54);
}

#[test]
fn tiles_neighbour_within_one_palette_step() {
    assert!(Tile::Background(3).can_place_next_to(&Tile::Background(4)));
    assert!(Tile::Background(3).can_place_next_to(&Tile::Background(3)));
    assert!(Tile::Background(4).can_place_next_to(&Tile::Background(3)));
    assert!(!Tile::Background(3).can_place_next_to(&Tile::Background(5)));
    assert!(!Tile::Background(3).can_place_next_to(&Tile::Black));
    assert!(!Tile::Black.can_place_next_to(&Tile::Black));
}

#[test]
fn integer_square_root() {
    assert_eq!(geom::isqrt(0), 0);
    assert_eq!(geom::isqrt(1), 1);
    assert_eq!(geom::isqrt(15), 3);
    assert_eq!(geom::isqrt(16), 4);
    assert_eq!(geom::isqrt(1_000_000), 1000);
    assert_eq!(geom::isqrt(999_999), 999);
}

#[test]
fn direction_normalization() {
    let d = geom::norm_dir(Vec2i { x: 3000, y: 4000 });
    assert_eq!(d, Vec2i { x: 600, y: 800 });
    let z = geom::norm_dir(Vec2i { x: 0, y: 0 });
    assert_eq!(z, Vec2i { x: 0, y: 0 });
    let left = geom::norm_dir(Vec2i { x: -5_000_000, y: 0 });
    assert_eq!(left, Vec2i { x: -1000, y: 0 });
}

#[test]
fn circle_collision_boundary_is_inclusive() {
    let a = Vec2i { x: 0, y: 0 };
    let b = Vec2i { x: 10, y: 0 };
    assert!(hitbox::circles_collide(a, 4, b, 6));
    assert!(!hitbox::circles_collide(a, 4, b, 5));
}

#[test]
fn rectangle_circle_collision_axis_aligned() {
    let rc = Vec2i { x: 0, y: 0 };
    let rot = Vec2i { x: 1000, y: 0 };
    assert!(hitbox::rectangle_circle_collide(rc, 5, 5, rot, Vec2i { x: 5, y: 0 }));
    assert!(!hitbox::rectangle_circle_collide(rc, 5, 5, rot, Vec2i { x: 6, y: 0 }));
    assert!(hitbox::rectangle_circle_collide(rc, 5, 5, rot, Vec2i { x: 3, y: -5 }));
    assert!(!hitbox::rectangle_circle_collide(rc, 5, 5, rot, Vec2i { x: 3, y: 6 }));
}

#[test]
fn rectangle_circle_collision_rotated() {
    // Rotated 90 degrees: local x axis points along +y.
    let rc = Vec2i { x: 0, y: 0 };
    let rot = Vec2i { x: 0, y: 1000 };
    assert!(hitbox::rectangle_circle_collide(rc, 10, 2, rot, Vec2i { x: 0, y: 9 }));
    assert!(!hitbox::rectangle_circle_collide(rc, 2, 10, rot, Vec2i { x: 0, y: 9 }));
}

#[test]
fn enemy_type_parameters() {
    assert_eq!(EnemyType::Melee.range(), 500_000);
    assert_eq!(EnemyType::Ranged.range(), 4_000_000);
    assert_eq!(EnemyType::Super.range(), 5_000_000);
    assert_eq!(EnemyType::Melee.charge_time_ms(), 500);
    assert_eq!(EnemyType::Ranged.reload_time_ms(), 4000);
    assert!(EnemyType::Melee.is_melee());
    assert!(!EnemyType::Ranged.is_melee());
    assert_eq!(EnemyType::Super.radius(), 600_000);
    assert_eq!(EnemyType::Melee.radius(), 240_000);
}
