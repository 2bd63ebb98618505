//! The player's hand: five card slots, each with the weapon profile its
//! card provides, and one active slot that fires and imposes its
//! movement penalty.

use vstd::prelude::*;

use crate::consts;
use vstd::multiset::Multiset;
use crate::deck::Card;
use crate::deck::Deck;
use crate::deck::Suit;
use crate::util::Shot;
use crate::weapon::Weapon;

verus! {

broadcast use vstd::seq_lib::group_to_multiset_ensures, vstd::multiset::group_multiset_axioms, vstd::multiset::group_multiset_properties;

#[derive(Clone, Copy)]
pub struct Slot {
    pub card: Card,
    pub weapon: Weapon,
}

/// A slot's weapon is the one its card provides, with only the reload
/// clock free to move.
pub open spec fn spec_slot_ok(s: Slot) -> bool {
    &&& s.weapon.wf()
    &&& s.weapon.fire_period_ms == s.card.spec_weapon().fire_period_ms
    &&& s.weapon.range == s.card.spec_weapon().range
    &&& s.weapon.ms_walk_milli == s.card.spec_weapon().ms_walk_milli
    &&& s.weapon.ms_shoot_milli == s.card.spec_weapon().ms_shoot_milli
    &&& s.weapon.bullet_speed == s.card.spec_weapon().bullet_speed
}

/// The cards a set of slots holds, as a multiset.
pub open spec fn spec_slot_cards_ms(slots: Seq<Slot>) -> Multiset<Card>
    decreases slots.len(),
{
    if slots.len() == 0 {
        Multiset::empty()
    } else {
        spec_slot_cards_ms(slots.drop_last()).insert(slots.last().card)
    }
}

/// `n` copies of a multiset, merged.
pub open spec fn spec_repeat_ms(m: Multiset<Card>, n: nat) -> Multiset<Card>
    decreases n,
{
    if n == 0 {
        Multiset::empty()
    } else {
        spec_repeat_ms(m, (n - 1) as nat).add(m)
    }
}

/// Cards dealt into a starting hand: no ace, no face card, no joker,
/// and a value below the configured cap.
pub open spec fn spec_start_slot_ok(c: Card) -> bool {
    &&& c.value != 1
    &&& !(c.value > 10)
    &&& c.suit != Suit::Joker
    &&& c.value < consts::SLOT_MAX_START_VALUE
}

pub struct Hand {
    pub slots: Vec<Slot>,
    /// Index of the active slot.
    pub active: usize,
}

impl Hand {
    pub open spec fn wf(self) -> bool {
        &&& self.slots@.len() == consts::HAND_CARD_COUNT
        &&& self.active < consts::HAND_CARD_COUNT
        &&& forall|i: int| 0 <= i < self.slots@.len() ==> spec_slot_ok(#[trigger] self.slots@[i])
    }

    /// Deal a starting hand: draw until five low cards are found,
    /// returning everything else to the deck, which is then shuffled.
    /// The search is bounded; slots that somehow stay open fall back to
    /// the two of spades. Cards are conserved: the hand plus the final
    /// deck hold exactly the old deck's cards, plus one full pack per
    /// transparent refill and one two of spades per fallback slot.
    pub fn new(deck: &mut Deck) -> (h: Hand)
        requires
            old(deck).wf(),
            old(deck).cards@.len() <= 900_000,
        ensures
            h.wf(),
            h.active == 0,
            forall|i: int|
                0 <= i < h.slots@.len() ==> spec_start_slot_ok(
                    (#[trigger] h.slots@[i]).card,
                ) && (h.slots@[i]).weapon == (h.slots@[i]).card.spec_weapon(),
            final(deck).wf(),
            final(deck).all_cards == old(deck).all_cards,
            final(deck).cards@.len() <= 901_000,
            exists|refills: nat, fallbacks: nat|
                #![trigger spec_repeat_ms(old(deck).all_cards@.to_multiset(), refills), spec_repeat_ms(Multiset::empty().insert(Card { suit: Suit::Spades, value: 2 }), fallbacks)]
                fallbacks <= 5 && spec_slot_cards_ms(h.slots@).add(
                    final(deck).cards@.to_multiset(),
                ) == old(deck).cards@.to_multiset().add(
                    spec_repeat_ms(old(deck).all_cards@.to_multiset(), refills),
                ).add(
                    spec_repeat_ms(
                        Multiset::empty().insert(Card { suit: Suit::Spades, value: 2 }),
                        fallbacks,
                    ),
                ),
    {
        let ghost c0 = old(deck).cards@.to_multiset();
        let ghost all0 = old(deck).all_cards@.to_multiset();
        let ghost two_ms = Multiset::empty().insert(Card { suit: Suit::Spades, value: 2 });
        let ghost mut refills: nat = 0nat;
        let mut slots: Vec<Slot> = Vec::new();
        let mut discarded: Vec<Card> = Vec::new();
        let mut attempts: u64 = 0;
        proof {
            assert(slots@.len() == 0 && discarded@.len() == 0);
            assert forall|c: Card| #[trigger] discarded@.to_multiset().count(c) == 0 by {
                assert(!discarded@.contains(c));
            }
            assert(spec_slot_cards_ms(slots@).add(discarded@.to_multiset()).add(
                deck.cards@.to_multiset(),
            ) =~= c0.add(spec_repeat_ms(all0, 0)));
        }
        while attempts < 1000 && slots.len() < consts::HAND_CARD_COUNT
            invariant
                deck.wf(),
                deck.all_cards == old(deck).all_cards,
                deck.cards@.len() <= 900_000,
                attempts <= 1000,
                discarded@.len() <= attempts,
                slots@.len() <= consts::HAND_CARD_COUNT,
                forall|i: int|
                    0 <= i < slots@.len() ==> spec_start_slot_ok(
                        (#[trigger] slots@[i]).card,
                    ) && (slots@[i]).weapon == (slots@[i]).card.spec_weapon(),
                c0 == old(deck).cards@.to_multiset(),
                all0 == old(deck).all_cards@.to_multiset(),
                spec_slot_cards_ms(slots@).add(discarded@.to_multiset()).add(
                    deck.cards@.to_multiset(),
                ) == c0.add(spec_repeat_ms(all0, refills)),
            decreases 1000 - attempts,
        {
            let ghost pre_cards = deck.cards@;
            let ghost slots_pre = slots@;
            let ghost disc_pre = discarded@;
            let ghost refills0 = refills;
            let card = deck.draw_card();
            proof {
                if pre_cards.len() > 0 {
                    assert(pre_cards.drop_last().push(pre_cards.last()) =~= pre_cards);
                    assert(deck.cards@.to_multiset().insert(card) =~= pre_cards.to_multiset());
                } else {
                    assert forall|c: Card| #[trigger] pre_cards.to_multiset().count(c) == 0 by {
                        assert(!pre_cards.contains(c));
                    }
                    assert(pre_cards.to_multiset() =~= Multiset::<Card>::empty());
                    assert(deck.cards@.push(card).to_multiset() =~= deck.cards@.to_multiset()
                        .insert(card));
                    assert(deck.cards@.to_multiset().insert(card) =~= all0);
                    refills = refills + 1;
                    assert(spec_repeat_ms(all0, refills) == spec_repeat_ms(all0, refills0).add(
                        all0,
                    ));
                }
            }
            if card.is_ace() || card.is_face() || card.suit == Suit::Joker || card.value
                >= consts::SLOT_MAX_START_VALUE {
                discarded.push(card);
                proof {
                    assert(discarded@.to_multiset() =~= disc_pre.to_multiset().insert(card));
                    assert forall|x: Card|
                        spec_slot_cards_ms(slots@).add(discarded@.to_multiset()).add(
                            deck.cards@.to_multiset(),
                        ).count(x) == c0.add(spec_repeat_ms(all0, refills)).count(x) by {
                        assert(spec_slot_cards_ms(slots_pre).add(disc_pre.to_multiset()).add(
                            pre_cards.to_multiset(),
                        ).count(x) == c0.add(spec_repeat_ms(all0, refills0)).count(x));
                        assert(discarded@.to_multiset().count(x) == disc_pre.to_multiset()
                            .insert(card).count(x));
                        if refills == refills0 {
                            assert(deck.cards@.to_multiset().insert(card).count(x)
                                == pre_cards.to_multiset().count(x));
                        } else {
                            assert(deck.cards@.to_multiset().insert(card).count(x) == all0.count(
                                x,
                            ));
                            assert(pre_cards.to_multiset().count(x) == 0);
                            assert(spec_repeat_ms(all0, refills).count(x) == spec_repeat_ms(
                                all0,
                                refills0,
                            ).add(all0).count(x));
                        }
                    }
                    assert(spec_slot_cards_ms(slots@).add(discarded@.to_multiset()).add(
                        deck.cards@.to_multiset(),
                    ) =~= c0.add(spec_repeat_ms(all0, refills)));
                }
            } else {
                let weapon = card.get_weapon();
                slots.push(Slot { card, weapon });
                proof {
                    assert(slots@.drop_last() =~= slots_pre);
                    assert(slots@.last() == (Slot { card, weapon }));
                    assert(spec_slot_cards_ms(slots@) == spec_slot_cards_ms(slots_pre).insert(
                        card,
                    ));
                    assert forall|x: Card|
                        spec_slot_cards_ms(slots@).add(discarded@.to_multiset()).add(
                            deck.cards@.to_multiset(),
                        ).count(x) == c0.add(spec_repeat_ms(all0, refills)).count(x) by {
                        assert(spec_slot_cards_ms(slots_pre).add(disc_pre.to_multiset()).add(
                            pre_cards.to_multiset(),
                        ).count(x) == c0.add(spec_repeat_ms(all0, refills0)).count(x));
                        assert(spec_slot_cards_ms(slots@).count(x) == spec_slot_cards_ms(
                            slots_pre,
                        ).insert(card).count(x));
                        if refills == refills0 {
                            assert(deck.cards@.to_multiset().insert(card).count(x)
                                == pre_cards.to_multiset().count(x));
                        } else {
                            assert(deck.cards@.to_multiset().insert(card).count(x) == all0.count(
                                x,
                            ));
                            assert(pre_cards.to_multiset().count(x) == 0);
                            assert(spec_repeat_ms(all0, refills).count(x) == spec_repeat_ms(
                                all0,
                                refills0,
                            ).add(all0).count(x));
                        }
                    }
                    assert(spec_slot_cards_ms(slots@).add(discarded@.to_multiset()).add(
                        deck.cards@.to_multiset(),
                    ) =~= c0.add(spec_repeat_ms(all0, refills)));
                }
            }
            attempts = attempts + 1;
        }
        let ghost mut fallbacks: nat = 0nat;
        let ghost cards_after_search = deck.cards@;
        let ghost disc_after_search = discarded@;
        while slots.len() < consts::HAND_CARD_COUNT
            invariant
                slots@.len() <= consts::HAND_CARD_COUNT,
                forall|i: int|
                    0 <= i < slots@.len() ==> spec_start_slot_ok(
                        (#[trigger] slots@[i]).card,
                    ) && (slots@[i]).weapon == (slots@[i]).card.spec_weapon(),
                deck.wf(),
                deck.all_cards == old(deck).all_cards,
                deck.cards@.len() <= 900_000,
                deck.cards@ == cards_after_search,
                discarded@ == disc_after_search,
                discarded@.len() <= 1000,
                fallbacks <= slots@.len(),
                c0 == old(deck).cards@.to_multiset(),
                all0 == old(deck).all_cards@.to_multiset(),
                two_ms == Multiset::empty().insert(Card { suit: Suit::Spades, value: 2 }),
                spec_slot_cards_ms(slots@).add(discarded@.to_multiset()).add(
                    deck.cards@.to_multiset(),
                ) == c0.add(spec_repeat_ms(all0, refills)).add(spec_repeat_ms(two_ms, fallbacks)),
            decreases consts::HAND_CARD_COUNT - slots@.len(),
        {
            let ghost slots_pre = slots@;
            let ghost fb0 = fallbacks;
            let card = Card { suit: Suit::Spades, value: 2 };
            let weapon = card.get_weapon();
            slots.push(Slot { card, weapon });
            proof {
                fallbacks = fallbacks + 1;
                assert(slots@.drop_last() =~= slots_pre);
                assert(spec_slot_cards_ms(slots@) == spec_slot_cards_ms(slots_pre).insert(card));
                assert(spec_repeat_ms(two_ms, fallbacks) == spec_repeat_ms(two_ms, fb0).add(
                    two_ms,
                ));
                assert forall|x: Card|
                    spec_slot_cards_ms(slots@).add(discarded@.to_multiset()).add(
                        deck.cards@.to_multiset(),
                    ).count(x) == c0.add(spec_repeat_ms(all0, refills)).add(
                        spec_repeat_ms(two_ms, fallbacks),
                    ).count(x) by {
                    assert(spec_slot_cards_ms(slots_pre).add(discarded@.to_multiset()).add(
                        deck.cards@.to_multiset(),
                    ).count(x) == c0.add(spec_repeat_ms(all0, refills)).add(
                        spec_repeat_ms(two_ms, fb0),
                    ).count(x));
                    assert(spec_slot_cards_ms(slots@).count(x) == spec_slot_cards_ms(
                        slots_pre,
                    ).insert(card).count(x));
                    assert(spec_repeat_ms(two_ms, fallbacks).count(x) == spec_repeat_ms(
                        two_ms,
                        fb0,
                    ).add(two_ms).count(x));
                }
                assert(spec_slot_cards_ms(slots@).add(discarded@.to_multiset()).add(
                    deck.cards@.to_multiset(),
                ) =~= c0.add(spec_repeat_ms(all0, refills)).add(
                    spec_repeat_ms(two_ms, fallbacks),
                ));
            }
        }
        while discarded.len() > 0
            invariant
                discarded@.len() <= 1000,
                deck.wf(),
                deck.all_cards == old(deck).all_cards,
                deck.cards@.len() + discarded@.len() <= 901_000,
                slots@.len() == consts::HAND_CARD_COUNT,
                forall|i: int|
                    0 <= i < slots@.len() ==> spec_start_slot_ok(
                        (#[trigger] slots@[i]).card,
                    ) && (slots@[i]).weapon == (slots@[i]).card.spec_weapon(),
                c0 == old(deck).cards@.to_multiset(),
                all0 == old(deck).all_cards@.to_multiset(),
                two_ms == Multiset::empty().insert(Card { suit: Suit::Spades, value: 2 }),
                fallbacks <= 5,
                spec_slot_cards_ms(slots@).add(discarded@.to_multiset()).add(
                    deck.cards@.to_multiset(),
                ) == c0.add(spec_repeat_ms(all0, refills)).add(spec_repeat_ms(two_ms, fallbacks)),
            decreases discarded@.len(),
        {
            let ghost disc_pre = discarded@;
            let ghost cards_pre = deck.cards@;
            let c = match discarded.pop() {
                Some(c) => c,
                None => Card { suit: Suit::Spades, value: 2 },
            };
            deck.add_card(c);
            proof {
                assert(disc_pre.drop_last().push(disc_pre.last()) =~= disc_pre);
                assert(discarded@.to_multiset().insert(c) =~= disc_pre.to_multiset());
                assert(deck.cards@.to_multiset() =~= cards_pre.to_multiset().insert(c));
                assert forall|x: Card|
                    spec_slot_cards_ms(slots@).add(discarded@.to_multiset()).add(
                        deck.cards@.to_multiset(),
                    ).count(x) == c0.add(spec_repeat_ms(all0, refills)).add(
                        spec_repeat_ms(two_ms, fallbacks),
                    ).count(x) by {
                    assert(spec_slot_cards_ms(slots@).add(disc_pre.to_multiset()).add(
                        cards_pre.to_multiset(),
                    ).count(x) == c0.add(spec_repeat_ms(all0, refills)).add(
                        spec_repeat_ms(two_ms, fallbacks),
                    ).count(x));
                    assert(discarded@.to_multiset().insert(c).count(x) == disc_pre.to_multiset()
                        .count(x));
                    assert(deck.cards@.to_multiset().count(x) == cards_pre.to_multiset().insert(
                        c,
                    ).count(x));
                }
                assert(spec_slot_cards_ms(slots@).add(discarded@.to_multiset()).add(
                    deck.cards@.to_multiset(),
                ) =~= c0.add(spec_repeat_ms(all0, refills)).add(
                    spec_repeat_ms(two_ms, fallbacks),
                ));
            }
        }
        deck.shuffle();
        proof {
            assert(forall|i: int|
                0 <= i < slots@.len() ==> spec_slot_ok(#[trigger] slots@[i]));
            assert forall|c: Card| #[trigger] discarded@.to_multiset().count(c) == 0 by {
                assert(!discarded@.contains(c));
            }
            assert(spec_slot_cards_ms(slots@).add(deck.cards@.to_multiset()) =~= c0.add(
                spec_repeat_ms(all0, refills),
            ).add(spec_repeat_ms(two_ms, fallbacks)));
        }
        Hand { slots, active: 0 }
    }

    pub fn active_weapon(&self) -> (w: &Weapon)
        requires
            self.wf(),
        ensures
            *w == self.slots@[self.active as int].weapon,
    {
        &self.slots[self.active].weapon
    }

    pub fn active_card(&self) -> (c: Card)
        requires
            self.wf(),
        ensures
            c == self.slots@[self.active as int].card,
    {
        self.slots[self.active].card
    }

    pub fn can_shoot(&self) -> (r: bool)
        requires
            self.wf(),
        ensures
            r == (self.slots@[self.active as int].weapon.time_until_next_shot_ms <= 0),
    {
        self.active_weapon().can_shoot()
    }

    /// The movement multiplier the active weapon imposes right now.
    pub fn get_ms_penalty(&self) -> (p: i64)
        requires
            self.wf(),
        ensures
            p == (if self.slots@[self.active as int].weapon.time_until_next_shot_ms <= 0 {
                self.slots@[self.active as int].weapon.ms_walk_milli
            } else {
                self.slots@[self.active as int].weapon.ms_shoot_milli
            }),
            0 <= p <= 1000,
    {
        self.active_weapon().get_ms_penalty()
    }

    /// Run every slot's reload clock down by `delta_ms`.
    pub fn update(&mut self, delta_ms: i64)
        requires
            old(self).wf(),
            0 <= delta_ms,
        ensures
            final(self).wf(),
            final(self).active == old(self).active,
            final(self).slots@.len() == old(self).slots@.len(),
            forall|i: int|
                0 <= i < old(self).slots@.len() ==> {
                    let pre = old(self).slots@[i];
                    let post = #[trigger] final(self).slots@[i];
                    &&& post.card == pre.card
                    &&& post.weapon.time_until_next_shot_ms == (
                    if pre.weapon.time_until_next_shot_ms - delta_ms >= 0 {
                        pre.weapon.time_until_next_shot_ms - delta_ms
                    } else {
                        0int
                    })
                    &&& post.weapon.fire_period_ms == pre.weapon.fire_period_ms
                    &&& post.weapon.range == pre.weapon.range
                    &&& post.weapon.ms_walk_milli == pre.weapon.ms_walk_milli
                    &&& post.weapon.ms_shoot_milli == pre.weapon.ms_shoot_milli
                    &&& post.weapon.bullet_speed == pre.weapon.bullet_speed
                },
    {
        let mut i: usize = 0;
        while i < self.slots.len()
            invariant
                i <= self.slots@.len(),
                self.slots@.len() == old(self).slots@.len(),
                self.active == old(self).active,
                0 <= delta_ms,
                forall|k: int|
                    i <= k < self.slots@.len() ==> #[trigger] self.slots@[k] == old(self).slots@[k],
                forall|k: int|
                    0 <= k < i ==> {
                        let pre = old(self).slots@[k];
                        let post = #[trigger] self.slots@[k];
                        &&& post.card == pre.card
                        &&& post.weapon.time_until_next_shot_ms == (
                        if pre.weapon.time_until_next_shot_ms - delta_ms >= 0 {
                            pre.weapon.time_until_next_shot_ms - delta_ms
                        } else {
                            0int
                        })
                        &&& post.weapon.fire_period_ms == pre.weapon.fire_period_ms
                        &&& post.weapon.range == pre.weapon.range
                        &&& post.weapon.ms_walk_milli == pre.weapon.ms_walk_milli
                        &&& post.weapon.ms_shoot_milli == pre.weapon.ms_shoot_milli
                        &&& post.weapon.bullet_speed == pre.weapon.bullet_speed
                    },
                forall|k: int| 0 <= k < self.slots@.len() ==> spec_slot_ok(
                    #[trigger] old(self).slots@[k],
                ),
                forall|k: int| 0 <= k < self.slots@.len() ==> spec_slot_ok(
                    #[trigger] self.slots@[k],
                ),
            decreases self.slots@.len() - i,
        {
            let mut w: Weapon = self.slots[i].weapon;
            let card: Card = self.slots[i].card;
            w.update(delta_ms);
            self.slots.set(i, Slot { card, weapon: w });
            proof {
                assert forall|k: int| 0 <= k < self.slots@.len() implies spec_slot_ok(
                    #[trigger] self.slots@[k],
                ) by {
                    assert(spec_slot_ok(old(self).slots@[k]));
                    if k > i as int {
                        assert(self.slots@[k] == old(self).slots@[k]);
                    }
                }
            }
            i = i + 1;
        }
    }

    /// Put a new card (and its weapon, fresh) into the active slot.
    pub fn set_card(&mut self, card: Card)
        requires
            old(self).wf(),
        ensures
            final(self).wf(),
            final(self).active == old(self).active,
            final(self).slots@.len() == old(self).slots@.len(),
            final(self).slots@[old(self).active as int].card == card,
            final(self).slots@[old(self).active as int].weapon == card.spec_weapon(),
            forall|i: int|
                0 <= i < old(self).slots@.len() && i != old(self).active
                    ==> #[trigger] final(self).slots@[i] == old(self).slots@[i],
    {
        let weapon = card.get_weapon();
        let a = self.active;
        self.slots.set(a, Slot { card, weapon });
    }

    /// Fire the active slot if its weapon is ready.
    pub fn try_shoot(&mut self) -> (shot: Shot)
        requires
            old(self).wf(),
        ensures
            final(self).wf(),
            final(self).active == old(self).active,
            final(self).slots@.len() == old(self).slots@.len(),
            shot.0 == (old(self).slots@[old(self).active as int].weapon.time_until_next_shot_ms
                <= 0),
            ({
                let pre = old(self).slots@[old(self).active as int];
                let post = final(self).slots@[old(self).active as int];
                &&& post.card == pre.card
                &&& post.weapon.time_until_next_shot_ms == (if shot.0 {
                    pre.weapon.fire_period_ms
                } else {
                    pre.weapon.time_until_next_shot_ms
                })
                &&& post.weapon.fire_period_ms == pre.weapon.fire_period_ms
                &&& post.weapon.range == pre.weapon.range
                &&& post.weapon.ms_walk_milli == pre.weapon.ms_walk_milli
                &&& post.weapon.ms_shoot_milli == pre.weapon.ms_shoot_milli
                &&& post.weapon.bullet_speed == pre.weapon.bullet_speed
            }),
            forall|i: int|
                0 <= i < old(self).slots@.len() && i != old(self).active
                    ==> #[trigger] final(self).slots@[i] == old(self).slots@[i],
    {
        let a = self.active;
        let mut w: Weapon = self.slots[a].weapon;
        let card: Card = self.slots[a].card;
        let shot = w.try_shoot();
        self.slots.set(a, Slot { card, weapon: w });
        shot
    }
}

} // verus!
