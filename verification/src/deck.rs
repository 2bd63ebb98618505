//! Playing cards double as ammunition: each card carries a suit and a
//! value, yields a weapon profile, and decides the damage, healing and
//! stun of the shots fired with it. The deck refills and reshuffles
//! itself transparently when it runs out.

use vstd::prelude::*;

use crate::consts;
use crate::powerup::Powerup;
use crate::powerup::Powerups;
use crate::rng;
use crate::weapon::Weapon;

verus! {

broadcast use vstd::seq_lib::group_to_multiset_ensures;

#[derive(Clone, Copy, PartialEq, Eq, Structural, Debug)]
pub enum Suit {
    Spades,
    Hearts,
    Clubs,
    Diamonds,
    Joker,
    Back,
}

#[derive(Clone, Copy, PartialEq, Eq, Structural, Debug)]
pub struct Card {
    pub suit: Suit,
    pub value: u8,
}

/// A damage figure: either a finite number of points or the infinite
/// damage of an ace, which no health survives.
#[derive(Clone, Copy, PartialEq, Eq, Structural, Debug)]
pub enum Damage {
    Finite(u64),
    Infinite,
}

/// Doubling a finite damage `k` times, saturating at the largest
/// representable value; infinite damage stays infinite.
pub open spec fn spec_double_sat(v: int, k: nat) -> int
    decreases k,
{
    if k == 0 {
        v
    } else {
        let p = spec_double_sat(v, (k - 1) as nat);
        if p > 0x7FFF_FFFF_FFFF_FFFF {
            0xFFFF_FFFF_FFFF_FFFF
        } else {
            2 * p
        }
    }
}

pub open spec fn spec_apply_doublings(d: Damage, k: nat) -> Damage {
    match d {
        Damage::Infinite => Damage::Infinite,
        Damage::Finite(v) => Damage::Finite(spec_double_sat(v as int, k) as u64),
    }
}

proof fn lemma_double_sat_in_range(v: int, k: nat)
    requires
        0 <= v <= 0xFFFF_FFFF_FFFF_FFFF,
    ensures
        0 <= spec_double_sat(v, k) <= 0xFFFF_FFFF_FFFF_FFFF,
    decreases k,
{
    if k > 0 {
        lemma_double_sat_in_range(v, (k - 1) as nat);
    }
}

/// Apply `k` damage doublings.
pub fn apply_doublings(d: Damage, k: u64) -> (r: Damage)
    ensures
        r == spec_apply_doublings(d, k as nat),
{
    match d {
        Damage::Infinite => Damage::Infinite,
        Damage::Finite(v) => {
            let mut acc: u64 = v;
            let mut i: u64 = 0;
            while i < k
                invariant
                    i <= k,
                    acc == spec_double_sat(v as int, i as nat),
                decreases k - i,
            {
                proof {
                    lemma_double_sat_in_range(v as int, i as nat);
                }
                if acc > 0x7FFF_FFFF_FFFF_FFFF {
                    acc = 0xFFFF_FFFF_FFFF_FFFF;
                } else {
                    acc = 2 * acc;
                }
                i = i + 1;
            }
            Damage::Finite(acc)
        },
    }
}

/// What the damage of a shot fired with card `c` can be, under the
/// modifier accumulator `pw`: a joker's coin flip, an ace's infinity,
/// a face card's 20 or the card value, doubled for spades once per
/// successful roll.
pub open spec fn spec_card_damage_ok(c: Card, pw: crate::powerup::Powerups, d: Damage) -> bool {
    &&& (c.suit == Suit::Joker ==> (d == Damage::Finite(100) || d == Damage::Finite(0)))
    &&& (c.suit != Suit::Joker && c.value == 1 ==> d == Damage::Infinite)
    &&& (c.suit != Suit::Joker && c.suit != Suit::Spades && c.value != 1 ==> d == Damage::Finite(
        spec_plain_damage(c) as u64,
    ))
    &&& (c.suit == Suit::Spades && c.value != 1 ==> exists|k: nat|
        k <= pw.spec_count(crate::powerup::Powerup::Spades) && d
            == #[trigger] spec_apply_doublings(
            Damage::Finite(spec_plain_damage(c) as u64),
            k,
        ))
}

/// The finite base damage of a non-joker, non-ace card.
pub open spec fn spec_plain_damage(c: Card) -> int {
    if c.value > 10 {
        20
    } else {
        c.value as int
    }
}

impl Card {
    pub fn new(suit: Suit, value: u8) -> (c: Card)
        ensures
            c.suit == suit,
            c.value == value,
    {
        Card { suit, value }
    }

    pub open spec fn spec_is_red(self) -> bool {
        match self.suit {
            Suit::Hearts | Suit::Diamonds => true,
            Suit::Spades | Suit::Clubs => false,
            Suit::Joker | Suit::Back => self.value == 0,
        }
    }

    pub fn is_red(&self) -> (r: bool)
        ensures
            r == self.spec_is_red(),
    {
        match self.suit {
            Suit::Hearts | Suit::Diamonds => true,
            Suit::Spades | Suit::Clubs => false,
            Suit::Joker | Suit::Back => self.value == 0,
        }
    }

    pub fn is_face(&self) -> (r: bool)
        ensures
            r == (self.value > 10),
    {
        self.value > 10
    }

    pub fn is_ace(&self) -> (r: bool)
        ensures
            r == (self.value == 1),
    {
        self.value == 1
    }

    /// Healing granted by a hit with this card: only hearts heal, by
    /// the modifier engine's per-instance rolls.
    pub fn heal_amount(&self, powerups: &Powerups) -> (amount: i64)
        requires
            powerups.wf(),
        ensures
            0 <= amount <= powerups.spec_count(Powerup::Hearts),
            self.suit != Suit::Hearts ==> amount == 0,
    {
        if self.suit == Suit::Hearts {
            powerups.hearts_heal_amount()
        } else {
            proof {
                crate::powerup::lemma_count_in_seq_bounds(
                    powerups.powerups@,
                    Powerup::Hearts,
                );
            }
            0
        }
    }

    /// Stun inflicted by a hit with this card: only clubs stun, by the
    /// deterministic per-instance increment.
    pub fn stun_time(&self, powerups: &Powerups) -> (stun_ms: i64)
        requires
            powerups.wf(),
        ensures
            self.suit == Suit::Clubs ==> stun_ms == powerups.spec_count(Powerup::Clubs)
                * consts::CLUBS_STUN_TIME_MS,
            self.suit != Suit::Clubs ==> stun_ms == 0,
            0 <= stun_ms,
    {
        if self.suit == Suit::Clubs {
            let r = powerups.clubs_stun_time();
            proof {
                crate::powerup::lemma_count_in_seq_bounds(powerups.powerups@, Powerup::Clubs);
            }
            r
        } else {
            0
        }
    }

    /// The damage of a shot fired with this card. A joker deals 100 or
    /// nothing on a coin flip; an ace is infinite; a face card deals 20;
    /// any other card deals its value. Spades damage is then doubled
    /// once per successful modifier roll.
    pub fn damage(&self, powerups: Option<&Powerups>) -> (d: Damage)
        requires
            powerups matches Some(p) ==> p.wf(),
        ensures
            self.suit == Suit::Joker ==> (d == Damage::Finite(100) || d == Damage::Finite(0)),
            self.suit != Suit::Joker && self.value == 1 ==> d == Damage::Infinite,
            self.suit != Suit::Joker && self.value != 1 && (self.suit != Suit::Spades
                || powerups is None) ==> d == Damage::Finite(spec_plain_damage(*self) as u64),
            powerups matches Some(p) ==> (self.suit == Suit::Spades && self.value != 1
                ==> exists|k: nat|
                    k <= p.spec_count(Powerup::Spades) && d == #[trigger] spec_apply_doublings(
                        Damage::Finite(spec_plain_damage(*self) as u64),
                        k,
                    )),
            powerups matches Some(p) ==> spec_card_damage_ok(*self, *p, d),
    {
        let base: Damage = if self.suit == Suit::Joker {
            if rng::gen_index(2) == 0 {
                Damage::Finite(100)
            } else {
                Damage::Finite(0)
            }
        } else if self.value == 1 {
            Damage::Infinite
        } else if self.value > 10 {
            Damage::Finite(20)
        } else {
            Damage::Finite(self.value as u64)
        };
        let doublings: u64 = match powerups {
            Some(p) => {
                if self.suit == Suit::Spades {
                    p.spades_damage_mod()
                } else {
                    0
                }
            },
            None => 0,
        };
        let d = apply_doublings(base, doublings);
        proof {
            if doublings == 0 {
                assert(spec_apply_doublings(base, 0) == base);
            }
            if self.suit == Suit::Spades && self.value != 1 {
                assert(d == spec_apply_doublings(
                    Damage::Finite(spec_plain_damage(*self) as u64),
                    doublings as nat,
                ));
            }
        }
        d
    }

    /// The weapon profile this card provides.
    pub open spec fn spec_weapon(self) -> Weapon {
        if self.suit == Suit::Joker {
            Weapon {
                fire_period_ms: 10_000,
                range: 3_000_000,
                ms_walk_milli: 900,
                ms_shoot_milli: 600,
                time_until_next_shot_ms: 0,
                bullet_speed: 5000,
            }
        } else if self.value == 1 {
            Weapon {
                fire_period_ms: 5000,
                range: 20_000_000,
                ms_walk_milli: 900,
                ms_shoot_milli: 700,
                time_until_next_shot_ms: 0,
                bullet_speed: 10_000,
            }
        } else if self.value > 10 {
            Weapon {
                fire_period_ms: 500,
                range: 15_000_000,
                ms_walk_milli: 1000,
                ms_shoot_milli: 750,
                time_until_next_shot_ms: 0,
                bullet_speed: 7500,
            }
        } else {
            Weapon {
                fire_period_ms: 200,
                range: 15_000_000,
                ms_walk_milli: 1000,
                ms_shoot_milli: 750,
                time_until_next_shot_ms: 0,
                bullet_speed: 7500,
            }
        }
    }

    pub fn get_weapon(&self) -> (w: Weapon)
        ensures
            w == self.spec_weapon(),
            w.wf(),
    {
        if self.suit == Suit::Joker {
            Weapon::new(10_000, 3_000_000, 900, 600, 5000)
        } else if self.is_ace() {
            Weapon::new(5000, 20_000_000, 900, 700, 10_000)
        } else if self.is_face() {
            Weapon::new(500, 15_000_000, 1000, 750, 7500)
        } else {
            Weapon::new(200, 15_000_000, 1000, 750, 7500)
        }
    }
}

/// The card at position `i` of a fresh, unshuffled deck: thirteen of
/// each suit, then the two jokers.
pub open spec fn spec_standard_card(i: int) -> Card {
    if i < 13 {
        Card { suit: Suit::Spades, value: (i + 1) as u8 }
    } else if i < 26 {
        Card { suit: Suit::Hearts, value: (i - 12) as u8 }
    } else if i < 39 {
        Card { suit: Suit::Clubs, value: (i - 25) as u8 }
    } else if i < 52 {
        Card { suit: Suit::Diamonds, value: (i - 38) as u8 }
    } else if i == 52 {
        Card { suit: Suit::Joker, value: 0 }
    } else {
        Card { suit: Suit::Joker, value: 1 }
    }
}

/// Relies on `macroquad::rand::ChooseRandom::shuffle` (quad-rand): an
/// in-place Fisher-Yates pass of index swaps, so the result holds
/// exactly the elements that were there, in some order.
#[verifier::external_body]
fn shuffle_cards(v: &mut Vec<Card>)
    requires
        old(v)@.len() <= 1_000_000,
    ensures
        final(v)@.len() == old(v)@.len(),
        final(v)@.to_multiset() == old(v)@.to_multiset(),
{
    macroquad::rand::ChooseRandom::shuffle(v.as_mut_slice());
}

pub struct Deck {
    /// Every card of the full deck; the refill source.
    pub all_cards: Vec<Card>,
    /// The cards still to be drawn, top of the deck last.
    pub cards: Vec<Card>,
}

impl Deck {
    pub open spec fn wf(self) -> bool {
        &&& self.all_cards@.len() == 54
        &&& self.cards@.len() <= 1_000_000
    }

    /// A full deck of 54 cards, shuffled.
    pub fn new() -> (d: Deck)
        ensures
            d.wf(),
            d.all_cards@.len() == 54,
            forall|i: int| 0 <= i < 54 ==> d.all_cards@[i] == spec_standard_card(i),
            d.cards@.len() == 54,
            d.cards@.to_multiset() == d.all_cards@.to_multiset(),
    {
        let mut all_cards: Vec<Card> = Vec::new();
        let mut i: usize = 0;
        while i < 52
            invariant
                i <= 52,
                all_cards@.len() == i,
                forall|k: int| 0 <= k < i ==> all_cards@[k] == spec_standard_card(k),
            decreases 52 - i,
        {
            let card: Card = if i < 13 {
                Card { suit: Suit::Spades, value: (i + 1) as u8 }
            } else if i < 26 {
                Card { suit: Suit::Hearts, value: (i - 12) as u8 }
            } else if i < 39 {
                Card { suit: Suit::Clubs, value: (i - 25) as u8 }
            } else {
                Card { suit: Suit::Diamonds, value: (i - 38) as u8 }
            };
            all_cards.push(card);
            i = i + 1;
        }
        all_cards.push(Card { suit: Suit::Joker, value: 0 });
        all_cards.push(Card { suit: Suit::Joker, value: 1 });
        let mut cards: Vec<Card> = copy_cards(&all_cards);
        shuffle_cards(&mut cards);
        Deck { all_cards, cards }
    }

    /// Draw the top card. An empty deck silently refills from the full
    /// set and reshuffles first, so a draw always succeeds.
    pub fn draw_card(&mut self) -> (c: Card)
        requires
            old(self).wf(),
        ensures
            final(self).wf(),
            final(self).all_cards == old(self).all_cards,
            final(self).cards@.len() <= (if old(self).cards@.len() >= 53 {
                old(self).cards@.len() as int
            } else {
                53int
            }),
            old(self).cards@.len() > 0 ==> {
                &&& c == old(self).cards@.last()
                &&& final(self).cards@ == old(self).cards@.drop_last()
            },
            old(self).cards@.len() == 0 ==> {
                &&& final(self).cards@.len() == 53
                &&& final(self).cards@.push(c).to_multiset() == old(
                    self,
                ).all_cards@.to_multiset()
            },
    {
        if self.cards.len() == 0 {
            self.refresh();
        }
        let ghost pre = self.cards@;
        let c = self.cards.pop().unwrap();
        proof {
            assert(pre.drop_last().push(pre.last()) =~= pre);
        }
        c
    }

    /// Draw three cards in a row.
    pub fn draw_three_cards(&mut self) -> (cs: Vec<Card>)
        requires
            old(self).wf(),
        ensures
            final(self).wf(),
            final(self).all_cards == old(self).all_cards,
            final(self).cards@.len() <= (if old(self).cards@.len() >= 53 {
                old(self).cards@.len() as int
            } else {
                53int
            }),
            cs@.len() == 3,
            old(self).cards@.len() >= 3 ==> {
                let n = old(self).cards@.len() as int;
                &&& cs@[0] == old(self).cards@[n - 1]
                &&& cs@[1] == old(self).cards@[n - 2]
                &&& cs@[2] == old(self).cards@[n - 3]
                &&& final(self).cards@ == old(self).cards@.subrange(0, n - 3)
            },
    {
        let ghost orig = self.cards@;
        let mut cs: Vec<Card> = Vec::new();
        let c0 = self.draw_card();
        cs.push(c0);
        let c1 = self.draw_card();
        cs.push(c1);
        let c2 = self.draw_card();
        cs.push(c2);
        proof {
            if orig.len() >= 3 {
                assert(orig.drop_last().drop_last().drop_last() =~= orig.subrange(
                    0,
                    orig.len() - 3,
                ));
            }
        }
        cs
    }

    /// Return a card to the top of the deck.
    pub fn add_card(&mut self, card: Card)
        requires
            old(self).wf(),
            old(self).cards@.len() < 1_000_000,
        ensures
            final(self).wf(),
            final(self).all_cards == old(self).all_cards,
            final(self).cards@ == old(self).cards@.push(card),
    {
        self.cards.push(card);
    }

    /// Refill the draw pile from the full set and shuffle it.
    fn refresh(&mut self)
        requires
            old(self).wf(),
        ensures
            final(self).wf(),
            final(self).all_cards == old(self).all_cards,
            final(self).cards@.len() == old(self).all_cards@.len(),
            final(self).cards@.to_multiset() == old(self).all_cards@.to_multiset(),
    {
        self.cards = copy_cards(&self.all_cards);
        shuffle_cards(&mut self.cards);
    }

    /// Shuffle the remaining draw pile.
    pub fn shuffle(&mut self)
        requires
            old(self).wf(),
        ensures
            final(self).wf(),
            final(self).all_cards == old(self).all_cards,
            final(self).cards@.len() == old(self).cards@.len(),
            final(self).cards@.to_multiset() == old(self).cards@.to_multiset(),
    {
        shuffle_cards(&mut self.cards);
    }
}

/// An element-wise copy of a card vector.
fn copy_cards(v: &Vec<Card>) -> (r: Vec<Card>)
    ensures
        r@ == v@,
{
    let mut r: Vec<Card> = Vec::new();
    let mut i: usize = 0;
    while i < v.len()
        invariant
            i <= v@.len(),
            r@ == v@.subrange(0, i as int),
        decreases v@.len() - i,
    {
        r.push(v[i]);
        proof {
            assert(v@.subrange(0, i as int).push(v@[i as int]) =~= v@.subrange(0, i + 1));
        }
        i = i + 1;
    }
    proof {
        assert(v@.subrange(0, v@.len() as int) =~= v@);
    }
    r
}

} // verus!
