//! The deck, the cards, and the modifier engine: a full deck holds
//! every card once however it is shuffled, draws refill transparently,
//! and the card formulas and modifier counts produce their exact
//! values.

use house_of_cards::deck::{apply_doublings, Card, Damage, Deck, Suit};
use house_of_cards::powerup::{Powerup, Powerups};

#[test]
fn full_deck_holds_every_card_once() {
    macroquad::rand::srand(1);
    let mut deck = Deck::new();
    let mut seen: Vec<(u8, u8)> = Vec::new();
    for _ in 0..54 {
        let c = deck.draw_card();
        let suit_code: u8 = match c.suit {
            Suit::Spades => 0,
            Suit::Hearts => 1,
            Suit::Clubs => 2,
            Suit::Diamonds => 3,
            Suit::Joker => 4,
            Suit::Back => 5,
        };
        let key = (suit_code, c.value);
        assert!(!seen.contains(&key), "duplicate card drawn");
        seen.push(key);
    }
    assert_eq!(seen.len(), 54);
    for suit_code in 0..4u8 {
        for value in 1..=13u8 {
            assert!(seen.contains(&(suit_code, value)));
        }
    }
    assert!(seen.contains(&(4, 0)));
    assert!(seen.contains(&(4, 1)));
}

#[test]
fn exhausted_deck_refills_transparently() {
    macroquad::rand::srand(2);
    let mut deck = Deck::new();
    for _ in 0..200 {
        let c = deck.draw_card();
        assert!(c.value <= 13);
    }
}

#[test]
fn draw_three_returns_three() {
    macroquad::rand::srand(3);
    let mut deck = Deck::new();
    let cs = deck.draw_three_cards();
    assert_eq!(cs.len(), 3);
}

#[test]
fn card_predicates() {
    assert!(Card::new(Suit::Hearts, 5).is_red());
    assert!(Card::new(Suit::Diamonds, 12).is_red());
    assert!(!Card::new(Suit::Spades, 5).is_red());
    assert!(!Card::new(Suit::Clubs, 1).is_red());
    assert!(Card::new(Suit::Joker, 0).is_red());
    assert!(!Card::new(Suit::Joker, 1).is_red());
    assert!(Card::new(Suit::Hearts, 11).is_face());
    assert!(!Card::new(Suit::Hearts, 10).is_face());
    assert!(Card::new(Suit::Hearts, 1).is_ace());
    assert!(!Card::new(Suit::Hearts, 2).is_ace());
}

#[test]
fn card_damage_values() {
    assert_eq!(Card::new(Suit::Spades, 7).damage(None), Damage::Finite(7));
    assert_eq!(Card::new(Suit::Hearts, 12).damage(None), Damage::Finite(20));
    assert_eq!(Card::new(Suit::Clubs, 1).damage(None), Damage::Infinite);
    macroquad::rand::srand(11);
    for _ in 0..50 {
        let d = Card::new(Suit::Joker, 0).damage(None);
        assert!(d == Damage::Finite(0) || d == Damage::Finite(100));
    }
    // Spades with an empty accumulator cannot double.
    let empty = Powerups::new();
    assert_eq!(
        Card::new(Suit::Spades, 9).damage(Some(&empty)),
        Damage::Finite(9)
    );
}

#[test]
fn doubling_is_combinatorial() {
    assert_eq!(apply_doublings(Damage::Finite(5), 0), Damage::Finite(5));
    assert_eq!(apply_doublings(Damage::Finite(5), 3), Damage::Finite(40));
    assert_eq!(apply_doublings(Damage::Infinite, 7), Damage::Infinite);
}

#[test]
fn weapon_profiles_follow_the_card() {
    let ace = Card::new(Suit::Clubs, 1).get_weapon();
    assert_eq!(ace.fire_period_ms, 5000);
    assert_eq!(ace.range, 20_000_000);
    assert_eq!(ace.bullet_speed, 10_000);
    let joker = Card::new(Suit::Joker, 0).get_weapon();
    assert_eq!(joker.fire_period_ms, 10_000);
    assert_eq!(joker.range, 3_000_000);
    let plain = Card::new(Suit::Hearts, 4).get_weapon();
    assert_eq!(plain.fire_period_ms, 200);
    assert_eq!(plain.range, 15_000_000);
    assert_eq!(plain.bullet_speed, 7500);
}

#[test]
fn modifier_counts_and_derived_values() {
    let mut p = Powerups::new();
    p.add(Powerup::Diamonds);
    p.add(Powerup::Clubs);
    p.add(Powerup::Diamonds);
    p.add(Powerup::Hearts);
    assert_eq!(p.count(&Powerup::Diamonds), 2);
    assert_eq!(p.count(&Powerup::Clubs), 1);
    assert_eq!(p.count(&Powerup::Spades), 0);
    assert_eq!(p.diamonds_bullet_hp(), 3);
    assert_eq!(p.clubs_stun_time(), 250);
    assert_eq!(p.speed_mod_milli(), 1040);
    assert_eq!(p.ms_penalty_mod_milli(900), 920);
    assert_eq!(p.ms_penalty_mod_milli(995), 1000);
    // No spades: the damage modifier never doubles.
    macroquad::rand::srand(21);
    for _ in 0..50 {
        assert_eq!(p.spades_damage_mod(), 0);
    }
}

#[test]
fn stun_and_heal_follow_their_suits() {
    let mut p = Powerups::new();
    p.add(Powerup::Clubs);
    p.add(Powerup::Clubs);
    let clubs = Card::new(Suit::Clubs, 3);
    let spades = Card::new(Suit::Spades, 3);
    assert_eq!(clubs.stun_time(&p), 500);
    assert_eq!(spades.stun_time(&p), 0);
    assert_eq!(spades.heal_amount(&p), 0);
    macroquad::rand::srand(31);
    let hearts = Card::new(Suit::Hearts, 3);
    let healed = hearts.heal_amount(&p);
    assert_eq!(healed, 0);
}

#[test]
fn pick_three_powerups_are_distinct() {
    macroquad::rand::srand(41);
    for _ in 0..20 {
        let three = Powerup::pick_three();
        assert_eq!(three.len(), 3);
        assert!(three[0] != three[1]);
        assert!(three[0] != three[2]);
        assert!(three[1] != three[2]);
    }
}
