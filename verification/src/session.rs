//! One play session: the world state and the fixed order of a
//! simulation tick. Within a tick, enemy behavior (including enemy
//! fire) runs first, then every projectile integrates, then collisions
//! resolve through the modifier engine, then the dead and the spent are
//! pruned, and only then does progression tally kills — an order that
//! keeps hit de-duplication and pierce accounting coherent.

use vstd::prelude::*;

use crate::bullet;
use crate::bullet::Bullet;
use crate::bullet::BulletDamage;
use crate::consts;
use crate::deck::Card;
use crate::deck::Damage;
use crate::deck::Deck;
use crate::deck::Suit;
use crate::enemy::EnemiesKilled;
use crate::enemy::Enemy;
use crate::enemy::EnemyManager;
use crate::event::DamageEvent;
use crate::event::DamageNumberColor;
use crate::game_state::GameState;
use crate::geom::Vec2i;
use crate::game_state::GameStateManager;
use crate::hand::Hand;
use crate::hitbox;
use crate::player::Player;
use crate::player::PlayerInput;
use crate::powerup::Powerup;
use crate::powerup::Powerups;
use crate::util;

verus! {

/// Score is kept within this bound.
pub const SCORE_LIMIT: i64 = 1_000_000_000_000;

/// What one tick reports outward: combat-text events, what the prune
/// step removed, how many levels the player gained, and whether the
/// player died.
pub struct TickReport {
    pub events: Vec<DamageEvent>,
    pub killed: EnemiesKilled,
    pub leveled_up: i64,
    pub died: bool,
    /// Whether the player's fire intent actually fired this tick.
    pub fired: bool,
}

pub struct Session {
    pub game_state: GameStateManager,
    pub score: i64,
    pub powerups: Powerups,
    pub deck: Deck,
    pub player: Player,
    pub enemy_manager: EnemyManager,
    pub player_bullets: Vec<Bullet>,
    pub card_choices: Vec<Card>,
    pub powerup_choices: Vec<Powerup>,
}

impl Session {
    pub open spec fn wf(self) -> bool {
        &&& self.game_state.wf()
        &&& 0 <= self.score <= SCORE_LIMIT
        &&& self.powerups.wf()
        &&& self.deck.wf()
        &&& self.deck.cards@.len() <= 902_000
        &&& self.player.wf()
        &&& self.enemy_manager.wf()
        &&& self.player_bullets@.len() <= 1_000_000
        &&& forall|i: int|
            0 <= i < self.player_bullets@.len() ==> (#[trigger] self.player_bullets@[i]).wf()
        &&& self.card_choices@.len() == 3
        &&& self.powerup_choices@.len() == 3
    }

    /// A fresh session: a shuffled deck, a dealt hand, a full-health
    /// player, an empty wave scheduler, and the first pair of choice
    /// screens already drawn.
    pub fn new() -> (s: Session)
        ensures
            s.wf(),
            s.score == 0,
            s.game_state.current_state == GameState::Alive,
            s.player.health == consts::PLAYER_MAX_HEALTH,
            s.player.xp == 0,
            s.player.level == 1,
            s.powerups.powerups@.len() == 0,
            s.enemy_manager.wave == 0,
            s.enemy_manager.enemies@.len() == 0,
            s.player_bullets@.len() == 0,
    {
        let mut deck = Deck::new();
        let hand = Hand::new(&mut deck);
        let player = Player::new(hand);
        let powerup_choices = Powerup::pick_three();
        let card_choices = deck.draw_three_cards();
        Session {
            game_state: GameStateManager::new(),
            score: 0,
            powerups: Powerups::new(),
            deck,
            player,
            enemy_manager: EnemyManager::new(),
            player_bullets: Vec::new(),
            card_choices,
            powerup_choices,
        }
    }

    /// One simulation tick, run only while the player is alive; on any
    /// other screen the world is untouched and the report is empty.
    #[verifier::rlimit(100)]
    pub fn tick(&mut self, input: &PlayerInput, max_dist: i64, delta_ms: i64) -> (report:
        TickReport)
        requires
            old(self).wf(),
            input.wf(),
            0 <= max_dist <= 0x10_0000_0000,
            0 <= delta_ms <= consts::MAX_DELTA_MS,
        ensures
            final(self).wf(),
            old(self).game_state.current_state != GameState::Alive ==> {
                &&& *final(self) == *old(self)
                &&& report.events@.len() == 0
                &&& report.killed.count == 0
                &&& !report.killed.super_killed
                &&& report.leveled_up == 0
                &&& !report.died
            },
            old(self).game_state.current_state == GameState::Alive ==> {
                &&& report.killed.count >= 0
                &&& final(self).score == (if old(self).score + report.killed.count
                    <= SCORE_LIMIT {
                    old(self).score + report.killed.count
                } else {
                    SCORE_LIMIT as int
                })
                &&& report.leveled_up >= 0
                &&& report.died == (final(self).player.health == 0)
                &&& (report.died ==> final(self).game_state.current_state == GameState::Dead)
                &&& (!report.died && report.killed.super_killed
                    ==> final(self).game_state.current_state == GameState::PowerupCard)
                &&& (!report.died && !report.killed.super_killed && report.leveled_up > 0
                    ==> final(self).game_state.current_state == GameState::ChooseCard)
                &&& (!report.died && !report.killed.super_killed && report.leveled_up == 0
                    ==> final(self).game_state.current_state == GameState::Alive)
                &&& final(self).player.level == old(self).player.level + report.leveled_up
                &&& final(self).player.movement == crate::geom::spec_norm_dir(input.movement)
                &&& ({
                    let eff = old(self).player.spec_effective_speed(old(self).powerups);
                    let mv = crate::geom::spec_norm_dir(input.movement);
                    &&& final(self).player.pos.x == util::spec_clamp_pos(
                        old(self).player.pos.x + util::spec_tdiv(mv.x * eff * delta_ms, 1_000_000),
                    )
                    &&& final(self).player.pos.y == util::spec_clamp_pos(
                        old(self).player.pos.y + util::spec_tdiv(mv.y * eff * delta_ms, 1_000_000),
                    )
                })
                &&& final(self).player.direction == (if crate::geom::spec_norm_dir(input.aim)
                    != (crate::geom::Vec2i { x: 0, y: 0 }) {
                    crate::geom::spec_norm_dir(input.aim)
                } else if crate::geom::spec_norm_dir(input.movement) != (crate::geom::Vec2i {
                    x: 0,
                    y: 0,
                }) {
                    crate::geom::spec_norm_dir(input.movement)
                } else {
                    old(self).player.direction
                })
                &&& (old(self).player.xp + report.killed.count <= 2_000_000_000_000 ==> ({
                    let after = crate::player::spec_levelup(
                        old(self).player.xp + report.killed.count,
                        old(self).player.level as int,
                    );
                    &&& final(self).player.xp == after.0
                    &&& final(self).player.level == after.1
                }))
                &&& final(self).player.health == crate::event::spec_replay_events(
                    old(self).player.health as int,
                    old(self).player.max_health as int,
                    report.events@,
                    0,
                    report.events@.len() as int,
                )
                &&& report.fired == (input.fire && ({
                    let pre = old(self).player.hand.slots@[old(
                        self,
                    ).player.hand.active as int].weapon.time_until_next_shot_ms;
                    (if pre - delta_ms >= 0 {
                        pre - delta_ms
                    } else {
                        0int
                    }) <= 0
                }))
                &&& forall|i: int|
                    0 <= i < final(self).enemy_manager.enemies@.len()
                        ==> (#[trigger] final(self).enemy_manager.enemies@[i]).health > 0
                &&& ({
                    let spawned = util::spec_clamp_pos(
                        old(self).enemy_manager.spawn_timer.time_until_next_ms - delta_ms,
                    ) <= 0 && old(self).enemy_manager.enemies@.len() < 100_000 && old(
                        self,
                    ).enemy_manager.next_enemy_id < 0xFFFF_FFFF_FFFF_FFFF;
                    report.killed.count == old(self).enemy_manager.enemies@.len() + (if spawned {
                        1int
                    } else {
                        0int
                    }) - final(self).enemy_manager.enemies@.len()
                })
                &&& ({
                    let room = old(self).player_bullets@.len() < 1_000_000;
                    exists|mid: Seq<Bullet>|
                        {
                            &&& #[trigger] mid.len() == old(self).player_bullets@.len() + (
                            if report.fired && room {
                                1int
                            } else {
                                0int
                            })
                            &&& (forall|i: int|
                                0 <= i < old(self).player_bullets@.len() ==> ({
                                    let stepped = (#[trigger] old(
                                        self,
                                    ).player_bullets@[i]).spec_step(delta_ms as int);
                                    &&& mid[i].start_pos == stepped.start_pos
                                    &&& mid[i].pos == stepped.pos
                                    &&& mid[i].vel == stepped.vel
                                    &&& mid[i].distance_to_travel == stepped.distance_to_travel
                                    &&& mid[i].bullet_damage == stepped.bullet_damage
                                    &&& stepped.hp - 1 <= mid[i].hp <= stepped.hp
                                }))
                            &&& (report.fired && room ==> ({
                                let card = old(self).player.hand.slots@[old(
                                    self,
                                ).player.hand.active as int].card;
                                let w = old(self).player.hand.slots@[old(
                                    self,
                                ).player.hand.active as int].weapon;
                                let cpos = final(self).player.pos;
                                let cvel = Vec2i {
                                    x: util::spec_tdiv(
                                        final(self).player.direction.x * w.bullet_speed,
                                        1000,
                                    ) as i64,
                                    y: util::spec_tdiv(
                                        final(self).player.direction.y * w.bullet_speed,
                                        1000,
                                    ) as i64,
                                };
                                let hp0 = if card.suit == Suit::Diamonds {
                                    if old(self).powerups.spec_count(Powerup::Diamonds) + 1
                                        <= 1_000_000 {
                                        old(self).powerups.spec_count(Powerup::Diamonds) + 1
                                    } else {
                                        1_000_000int
                                    }
                                } else {
                                    1int
                                };
                                let spos = Vec2i {
                                    x: util::spec_clamp_pos(cpos.x + cvel.x * delta_ms) as i64,
                                    y: util::spec_clamp_pos(cpos.y + cvel.y * delta_ms) as i64,
                                };
                                let shp = if crate::geom::spec_dist_sq(spos, cpos) >= w.range
                                    * w.range {
                                    0int
                                } else {
                                    hp0
                                };
                                let last = mid[mid.len() - 1];
                                &&& last.start_pos == cpos
                                &&& last.pos == spos
                                &&& last.vel == cvel
                                &&& last.distance_to_travel == w.range
                                &&& last.bullet_damage == BulletDamage::Card(card)
                                &&& last.hit_ids@.len() <= 1
                                &&& shp - 1 <= last.hp <= shp
                            }))
                            &&& final(self).player_bullets@ == crate::bullet::spec_live_bullets(
                                mid,
                            )
                        }
                })
            },
    {
        if !matches!(self.game_state.current_state(), GameState::Alive) {
            return TickReport {
                events: Vec::new(),
                killed: EnemiesKilled { count: 0, super_killed: false },
                leveled_up: 0,
                died: false,
                fired: false,
            };
        }

        let mut events: Vec<DamageEvent> = Vec::new();

        // Input, movement and fire intent.
        let shot = self.player.handle_input(input, &self.powerups, delta_ms);
        if shot.0 && self.player_bullets.len() < 1_000_000 {
            let b = fire_card_shot(&self.player, &self.powerups);
            self.player_bullets.push(b);
        }

        // Enemy behavior, enemy fire, spawning.
        let mut melee_events = self.enemy_manager.update(&mut self.player, max_dist, delta_ms);
        let ghost melee0 = melee_events@;
        append_events(&mut events, &mut melee_events);
        let ghost ev_a = events@;
        let ghost h_a = self.player.health as int;

        // All projectiles integrate.
        integrate_bullets(&mut self.player_bullets, delta_ms);
        integrate_bullets(&mut self.enemy_manager.enemy_bullets, delta_ms);

        // Collision resolution: player shots against enemies, enemy
        // shots against the player.
        collide_player_bullets(
            &mut self.player_bullets,
            &mut self.enemy_manager.enemies,
            &mut self.player,
            &self.powerups,
            &mut events,
        );
        let ghost mid = self.player_bullets@;
        let ghost ev_b = events@;
        let ghost h_b = self.player.health as int;
        let ghost eb_snapshot = self.enemy_manager.enemy_bullets@;
        let ghost p_snapshot = self.player;
        proof {
            lemma_shot_fold_bounds(eb_snapshot, p_snapshot, eb_snapshot.len() as int);
        }
        collide_enemy_bullets(
            &mut self.enemy_manager.enemy_bullets,
            &mut self.player,
            &mut events,
        );

        let ghost ev_c = events@;
        let ghost h_c = self.player.health as int;
        proof {
            let h0 = old(self).player.health as int;
            let m0 = old(self).player.max_health as int;
            let l1 = ev_a.len() as int;
            let l2 = ev_b.len() as int;
            let l3 = ev_c.len() as int;
            assert(Seq::<DamageEvent>::empty() + melee0 =~= melee0);
            assert(ev_a == melee0);
            assert(h_a == crate::event::spec_replay_events(h0, m0, ev_a, 0, l1));
            assert(ev_a.subrange(0, l1) =~= ev_b.subrange(0, l1));
            crate::event::lemma_replay_prefix_agree(h0, m0, ev_a, ev_b, 0, l1);
            crate::event::lemma_replay_compose(h0, m0, ev_b, 0, l1, l2);
            assert(h_b == crate::event::spec_replay_events(h0, m0, ev_b, 0, l2));
            assert(ev_b.subrange(0, l2) =~= ev_c.subrange(0, l2));
            crate::event::lemma_replay_prefix_agree(h0, m0, ev_b, ev_c, 0, l2);
            crate::event::lemma_replay_compose(h0, m0, ev_c, 0, l2, l3);
            assert(h_c == crate::event::spec_replay_events(h0, m0, ev_c, 0, l3));
        }

        // Prune the spent and the dead.
        bullet::prune_bullets(&mut self.player_bullets);
        bullet::prune_bullets(&mut self.enemy_manager.enemy_bullets);
        let killed = self.enemy_manager.prune_dead();

        // Progression: kills feed score and experience.
        let new_score: i64 = if self.score <= SCORE_LIMIT - killed.count {
            self.score + killed.count
        } else {
            SCORE_LIMIT
        };
        self.score = new_score;
        let leveled_up: i64 = if killed.count <= 1_000_000 && self.player.xp
            <= 2_000_000_000_000 - killed.count {
            self.player.gain_xp(killed.count)
        } else {
            0
        };
        if leveled_up > 0 {
            // One card-choice interlude is queued per level gained.
            let ghost s0 = *self;
            let mut k: i64 = 0;
            while k < leveled_up
                invariant
                    self.game_state.wf(),
                    0 <= k <= leveled_up,
                    k > 0 ==> self.game_state.current_state == GameState::ChooseCard,
                    k == 0 ==> self.game_state == s0.game_state,
                    self.score == s0.score,
                    self.powerups == s0.powerups,
                    self.deck == s0.deck,
                    self.player == s0.player,
                    self.enemy_manager == s0.enemy_manager,
                    self.player_bullets == s0.player_bullets,
                    self.card_choices == s0.card_choices,
                    self.powerup_choices == s0.powerup_choices,
                decreases leveled_up - k,
            {
                self.game_state.next(GameState::ChooseCard);
                k = k + 1;
            }
            let choices = self.deck.draw_three_cards();
            self.card_choices = choices;
        }
        if killed.super_killed {
            self.game_state.next(GameState::PowerupCard);
            let choices = Powerup::pick_three();
            self.powerup_choices = choices;
        }

        let died = self.player.health == 0;
        if died {
            self.game_state.next(GameState::Dead);
        }

        TickReport { events, killed, leveled_up, died, fired: shot.0 }
    }

    /// Take the chosen powerup from the reward screen and return to the
    /// previous state. A full accumulator ignores the pick.
    pub fn choose_powerup(&mut self, index: usize)
        requires
            old(self).wf(),
            index < 3,
        ensures
            final(self).wf(),
            old(self).powerups.powerups@.len() < 1_000_000_000
                ==> final(self).powerups.powerups@ == old(self).powerups.powerups@.push(
                old(self).powerup_choices@[index as int],
            ),
            final(self).game_state.current_state == (if old(
                self,
            ).game_state.last_states@.len() > 0 {
                old(self).game_state.last_states@.last()
            } else {
                GameState::Alive
            }),
    {
        if self.powerups.powerups.len() < 1_000_000_000 {
            let p = self.powerup_choices[index];
            self.powerups.add(p);
        }
        self.game_state.back();
    }

    /// Swap the chosen card into the active hand slot and return to the
    /// previous state.
    pub fn choose_card(&mut self, index: usize)
        requires
            old(self).wf(),
            index < 3,
        ensures
            final(self).wf(),
            final(self).player.hand.slots@[old(self).player.hand.active as int].card == old(
                self,
            ).card_choices@[index as int],
            final(self).game_state.current_state == (if old(
                self,
            ).game_state.last_states@.len() > 0 {
                old(self).game_state.last_states@.last()
            } else {
                GameState::Alive
            }),
    {
        let card = self.card_choices[index];
        self.player.hand.set_card(card);
        self.game_state.back();
    }

    /// Leave the card-choice screen without taking anything.
    pub fn discard_card_choices(&mut self)
        requires
            old(self).wf(),
        ensures
            final(self).wf(),
            final(self).game_state.current_state == (if old(
                self,
            ).game_state.last_states@.len() > 0 {
                old(self).game_state.last_states@.last()
            } else {
                GameState::Alive
            }),
            final(self).player == old(self).player,
            final(self).powerups == old(self).powerups,
    {
        self.game_state.back();
    }

    pub fn toggle_pause(&mut self)
        requires
            old(self).wf(),
        ensures
            final(self).wf(),
            final(self).game_state.current_state == crate::game_state::spec_toggle_pause(
                old(self).game_state.current_state,
            ),
    {
        self.game_state.toggle_pause();
    }
}

/// The projectile a player shot fires: along the player's facing, with
/// the active card's speed and range, carrying the card itself; its
/// pierce is fixed by the modifier engine at this moment.
fn fire_card_shot(player: &Player, powerups: &Powerups) -> (b: Bullet)
    requires
        player.wf(),
        powerups.wf(),
    ensures
        b.wf(),
        b.pos == player.pos,
        b.start_pos == player.pos,
        b.bullet_damage matches BulletDamage::Card(c) && c == player.hand.slots@[player.hand.active as int].card,
        b.hit_ids@.len() == 0,
        b.distance_to_travel == player.hand.slots@[player.hand.active as int].weapon.range,
        b.vel.x == util::spec_tdiv(
            player.direction.x * player.hand.slots@[player.hand.active as int].weapon.bullet_speed,
            1000,
        ),
        b.vel.y == util::spec_tdiv(
            player.direction.y * player.hand.slots@[player.hand.active as int].weapon.bullet_speed,
            1000,
        ),
        ({
            let card = player.hand.slots@[player.hand.active as int].card;
            &&& (card.suit == Suit::Diamonds ==> b.hp == (if powerups.spec_count(
                Powerup::Diamonds,
            ) + 1 <= 1_000_000 {
                powerups.spec_count(Powerup::Diamonds) + 1
            } else {
                1_000_000int
            }))
            &&& (card.suit != Suit::Diamonds ==> b.hp == 1)
        }),
{
    let card = player.hand.active_card();
    let weapon = player.hand.active_weapon();
    let speed = weapon.bullet_speed;
    let range = weapon.range;
    let hp: i64 = if card.suit == Suit::Diamonds {
        let raw = powerups.diamonds_bullet_hp();
        if raw <= 1_000_000 {
            raw
        } else {
            1_000_000
        }
    } else {
        1
    };
    proof {
        crate::powerup::lemma_count_in_seq_bounds(powerups.powerups@, Powerup::Diamonds);
        util::lemma_abs_mul_le(player.direction.x as int, speed as int, 1000, speed as int);
        util::lemma_abs_mul_le(player.direction.y as int, speed as int, 1000, speed as int);
        assert(1000 * (speed as int) == (speed as int) * 1000) by (nonlinear_arith);
        util::lemma_tdiv_quotient_bound(player.direction.x * speed, 1000, speed as int);
        util::lemma_tdiv_quotient_bound(player.direction.y * speed, 1000, speed as int);
    }
    let vel = crate::geom::Vec2i {
        x: util::mul_div(player.direction.x, speed, 1000),
        y: util::mul_div(player.direction.y, speed, 1000),
    };
    Bullet::new(player.pos, vel, range, BulletDamage::Card(card), hp)
}

/// Move every event of `extra` to the end of `evs`.
fn append_events(evs: &mut Vec<DamageEvent>, extra: &mut Vec<DamageEvent>)
    ensures
        final(evs)@ == old(evs)@ + old(extra)@,
{
    let ghost orig = evs@;
    let ghost add = extra@;
    let mut i: usize = 0;
    proof {
        assert(orig + add.subrange(0, 0) =~= orig);
    }
    while i < extra.len()
        invariant
            i <= add.len(),
            extra@ == add,
            evs@ == orig + add.subrange(0, i as int),
        decreases add.len() - i,
    {
        evs.push(extra[i]);
        proof {
            assert((orig + add.subrange(0, i as int)).push(add[i as int]) =~= orig + add.subrange(
                0,
                i + 1,
            ));
        }
        i = i + 1;
    }
    proof {
        assert(orig + add.subrange(0, add.len() as int) =~= orig + add);
    }
}

/// Integrate every projectile of a roster by one tick.
fn integrate_bullets(v: &mut Vec<Bullet>, delta_ms: i64)
    requires
        old(v)@.len() <= 1_000_000,
        forall|i: int| 0 <= i < old(v)@.len() ==> (#[trigger] old(v)@[i]).wf(),
        0 <= delta_ms <= consts::MAX_DELTA_MS,
    ensures
        final(v)@.len() == old(v)@.len(),
        forall|i: int| 0 <= i < final(v)@.len() ==> (#[trigger] final(v)@[i]).wf(),
        forall|i: int|
            0 <= i < final(v)@.len() ==> #[trigger] final(v)@[i] == old(v)@[i].spec_step(
                delta_ms as int,
            ),
{
    let mut i: usize = 0;
    while i < v.len()
        invariant
            i <= v@.len(),
            v@.len() == old(v)@.len(),
            v@.len() <= 1_000_000,
            0 <= delta_ms <= consts::MAX_DELTA_MS,
            forall|k: int| 0 <= k < v@.len() ==> (#[trigger] v@[k]).wf(),
            forall|k: int| i <= k < v@.len() ==> #[trigger] v@[k] == old(v)@[k],
            forall|k: int|
                0 <= k < i ==> #[trigger] v@[k] == old(v)@[k].spec_step(delta_ms as int),
        decreases v@.len() - i,
    {
        let mut b = v.remove(i);
        b.update(delta_ms);
        self_insert(v, i, b);
        i = i + 1;
    }
}

/// Put `b` back at position `i`.
fn self_insert(v: &mut Vec<Bullet>, i: usize, b: Bullet)
    requires
        i <= old(v)@.len(),
        old(v)@.len() < 1_000_000_000,
    ensures
        final(v)@ == old(v)@.insert(i as int, b),
        final(v)@.len() == old(v)@.len() + 1,
{
    v.insert(i, b);
}

/// Resolve this tick's player-shot hits: for each live shot, the first
/// not-yet-struck enemy it overlaps takes the modifier-engine outcome
/// (damage, stun, heal), and the shot spends one pierce on that enemy.
fn collide_player_bullets(
    bullets: &mut Vec<Bullet>,
    enemies: &mut Vec<Enemy>,
    player: &mut Player,
    powerups: &Powerups,
    evs: &mut Vec<DamageEvent>,
)
    requires
        old(bullets)@.len() <= 1_000_000,
        forall|i: int| 0 <= i < old(bullets)@.len() ==> (#[trigger] old(bullets)@[i]).wf(),
        old(enemies)@.len() <= 100_000,
        forall|i: int| 0 <= i < old(enemies)@.len() ==> (#[trigger] old(enemies)@[i]).wf(),
        old(player).wf(),
        powerups.wf(),
    ensures
        final(bullets)@.len() == old(bullets)@.len(),
        forall|i: int| 0 <= i < final(bullets)@.len() ==> (#[trigger] final(bullets)@[i]).wf(),
        forall|i: int|
            0 <= i < old(bullets)@.len() ==> ({
                let pre = old(bullets)@[i];
                let post = #[trigger] final(bullets)@[i];
                &&& post.pos == pre.pos
                &&& post.start_pos == pre.start_pos
                &&& post.vel == pre.vel
                &&& post.distance_to_travel == pre.distance_to_travel
                &&& post.bullet_damage == pre.bullet_damage
                &&& post.hp >= pre.hp - 1
                &&& (pre.hp <= 0 ==> post == pre)
                &&& (pre.hp > 0 && (exists|j: int|
                    0 <= j < old(enemies)@.len() && spec_can_hit(pre, #[trigger] old(
                        enemies,
                    )@[j])) ==> post.hit_ids@.len() == pre.hit_ids@.len() + 1 && post.hp
                    == pre.hp - 1)
                &&& (pre.hp > 0 && (forall|j: int|
                    0 <= j < old(enemies)@.len() ==> !spec_can_hit(pre, #[trigger] old(
                        enemies,
                    )@[j])) ==> post == pre)
            }),
        final(enemies)@.len() == old(enemies)@.len(),
        forall|i: int|
            0 <= i < old(enemies)@.len() ==> {
                let pre = old(enemies)@[i];
                let post = #[trigger] final(enemies)@[i];
                &&& post.wf()
                &&& post.id == pre.id
                &&& post.enemy_type == pre.enemy_type
                &&& post.max_health == pre.max_health
                &&& post.damage == pre.damage
                &&& post.speed == pre.speed
                &&& post.pos == pre.pos
                &&& post.direction == pre.direction
                &&& post.enemy_movement == pre.enemy_movement
                &&& post.health <= pre.health
            },
        final(player).wf(),
        *final(player) == (Player { health: final(player).health, ..*old(player) }),
        final(player).health >= old(player).health,
        old(evs)@.len() <= final(evs)@.len(),
        forall|k: int| 0 <= k < old(evs)@.len() ==> #[trigger] final(evs)@[k] == old(evs)@[k],
        final(player).health == crate::event::spec_replay_events(
            old(player).health as int,
            old(player).max_health as int,
            final(evs)@,
            old(evs)@.len() as int,
            final(evs)@.len() as int,
        ),
    {
    let ghost p0 = *old(player);
    let ghost e0 = old(evs)@;
    let mut bi: usize = 0;
    while bi < bullets.len()
        invariant
            bi <= bullets@.len(),
            p0 == *old(player),
            e0 == old(evs)@,
            e0.len() <= evs@.len(),
            forall|k: int| 0 <= k < e0.len() ==> #[trigger] evs@[k] == e0[k],
            player.health == crate::event::spec_replay_events(
                p0.health as int,
                p0.max_health as int,
                evs@,
                e0.len() as int,
                evs@.len() as int,
            ),
            bullets@.len() == old(bullets)@.len(),
            bullets@.len() <= 1_000_000,
            enemies@.len() <= 100_000,
            forall|k: int| 0 <= k < bullets@.len() ==> (#[trigger] bullets@[k]).wf(),
            forall|k: int| bi <= k < bullets@.len() ==> #[trigger] bullets@[k] == old(bullets)@[k],
            forall|k: int|
                0 <= k < bi ==> ({
                    let pre = old(bullets)@[k];
                    let post = #[trigger] bullets@[k];
                    &&& post.pos == pre.pos
                    &&& post.start_pos == pre.start_pos
                    &&& post.vel == pre.vel
                    &&& post.distance_to_travel == pre.distance_to_travel
                    &&& post.bullet_damage == pre.bullet_damage
                    &&& post.hp >= pre.hp - 1
                    &&& (pre.hp <= 0 ==> post == pre)
                    &&& (pre.hp > 0 && (exists|j: int|
                        0 <= j < old(enemies)@.len() && spec_can_hit(pre, #[trigger] old(
                            enemies,
                        )@[j])) ==> post.hit_ids@.len() == pre.hit_ids@.len() + 1 && post.hp
                        == pre.hp - 1)
                    &&& (pre.hp > 0 && (forall|j: int|
                        0 <= j < old(enemies)@.len() ==> !spec_can_hit(pre, #[trigger] old(
                            enemies,
                        )@[j])) ==> post == pre)
                }),
            enemies@.len() == old(enemies)@.len(),
            forall|k: int|
                0 <= k < old(enemies)@.len() ==> {
                    let pre = old(enemies)@[k];
                    let post = #[trigger] enemies@[k];
                    &&& post.wf()
                    &&& post.id == pre.id
                    &&& post.enemy_type == pre.enemy_type
                    &&& post.max_health == pre.max_health
                    &&& post.damage == pre.damage
                    &&& post.speed == pre.speed
                    &&& post.pos == pre.pos
                    &&& post.direction == pre.direction
                    &&& post.enemy_movement == pre.enemy_movement
                    &&& post.health <= pre.health
                },
            player.wf(),
            *player == (Player { health: player.health, ..p0 }),
            player.health >= p0.health,
            powerups.wf(),
        decreases bullets@.len() - bi,
    {
        proof {
            assert(bullets@[bi as int] == old(bullets)@[bi as int]);
        }
        let ghost en_before = enemies@;
        let ghost evs_before = evs@;
        let ghost h_before = player.health as int;
        let keep = bullets[bi].should_keep();
        if keep {
            let mut b = bullets.remove(bi);
            collide_one_bullet(&mut b, enemies, player, powerups, evs);
            self_insert(bullets, bi, b);
            proof {
                let ph = p0.health as int;
                let pm = p0.max_health as int;
                let e0l = e0.len() as int;
                let lb = evs_before.len() as int;
                assert(evs_before.subrange(e0l, lb) =~= evs@.subrange(e0l, lb));
                crate::event::lemma_replay_prefix_agree(ph, pm, evs_before, evs@, e0l, lb);
                crate::event::lemma_replay_compose(ph, pm, evs@, e0l, lb, evs@.len() as int);
                let pre = old(bullets)@[bi as int];
                if exists|j: int|
                    0 <= j < old(enemies)@.len() && spec_can_hit(pre, #[trigger] old(
                        enemies,
                    )@[j]) {
                    let j = choose|j: int|
                        0 <= j < old(enemies)@.len() && spec_can_hit(pre, #[trigger] old(
                            enemies,
                        )@[j]);
                    assert(en_before[j].id == old(enemies)@[j].id && en_before[j].pos == old(
                        enemies,
                    )@[j].pos && en_before[j].direction == old(enemies)@[j].direction
                        && en_before[j].enemy_type == old(enemies)@[j].enemy_type);
                    assert(spec_can_hit(pre, en_before[j]));
                    assert(exists|jj: int|
                        0 <= jj < en_before.len() && spec_can_hit(pre, #[trigger] en_before[jj]));
                } else {
                    assert forall|jj: int|
                        0 <= jj < en_before.len() implies !spec_can_hit(
                        pre,
                        #[trigger] en_before[jj],
                    ) by {
                        assert(!spec_can_hit(pre, old(enemies)@[jj]));
                        assert(en_before[jj].id == old(enemies)@[jj].id && en_before[jj].pos
                            == old(enemies)@[jj].pos && en_before[jj].direction == old(
                            enemies,
                        )@[jj].direction && en_before[jj].enemy_type == old(
                            enemies,
                        )@[jj].enemy_type);
                    }
                }
            }
        }
        bi = bi + 1;
    }
}

/// Whether this shot may strike this enemy right now: it has not
/// struck it before and overlaps its oriented hitbox.
pub open spec fn spec_can_hit(b: Bullet, e: Enemy) -> bool {
    &&& !b.hit_ids@.contains(e.id)
    &&& hitbox::spec_rect_circle_collide(
        e.pos,
        e.enemy_type.spec_radius(),
        e.enemy_type.spec_radius(),
        e.direction,
        b.pos,
    )
}

/// Scan the roster for the first enemy this shot overlaps and has not
/// yet struck, and resolve that one hit.
fn collide_one_bullet(
    b: &mut Bullet,
    enemies: &mut Vec<Enemy>,
    player: &mut Player,
    powerups: &Powerups,
    evs: &mut Vec<DamageEvent>,
)
    requires
        old(b).wf(),
        old(b).hp > 0,
        old(enemies)@.len() <= 100_000,
        forall|i: int| 0 <= i < old(enemies)@.len() ==> (#[trigger] old(enemies)@[i]).wf(),
        old(player).wf(),
        powerups.wf(),
    ensures
        final(b).wf(),
        final(enemies)@.len() == old(enemies)@.len(),
        forall|i: int|
            0 <= i < old(enemies)@.len() ==> {
                let pre = old(enemies)@[i];
                let post = #[trigger] final(enemies)@[i];
                &&& post.wf()
                &&& post.id == pre.id
                &&& post.enemy_type == pre.enemy_type
                &&& post.max_health == pre.max_health
                &&& post.damage == pre.damage
                &&& post.speed == pre.speed
                &&& post.pos == pre.pos
                &&& post.direction == pre.direction
                &&& post.enemy_movement == pre.enemy_movement
                &&& post.health <= pre.health
            },
        final(player).wf(),
        *final(player) == (Player { health: final(player).health, ..*old(player) }),
        final(player).health >= old(player).health,
        final(b).hp >= old(b).hp - 1,
        final(b).pos == old(b).pos,
        final(b).start_pos == old(b).start_pos,
        final(b).vel == old(b).vel,
        final(b).distance_to_travel == old(b).distance_to_travel,
        final(b).bullet_damage == old(b).bullet_damage,
        (forall|i: int|
            0 <= i < old(enemies)@.len() ==> !spec_can_hit(*old(b), #[trigger] old(
                enemies,
            )@[i])) ==> {
            &&& *final(b) == *old(b)
            &&& final(enemies)@ == old(enemies)@
            &&& *final(player) == *old(player)
        },
        (exists|i: int|
            0 <= i < old(enemies)@.len() && spec_can_hit(*old(b), #[trigger] old(
                enemies,
            )@[i])) ==> final(b).hit_ids@.len() == old(b).hit_ids@.len() + 1 && final(b).hp
            == old(b).hp - 1,
        old(evs)@.len() <= final(evs)@.len() <= old(evs)@.len() + 2,
        forall|k: int| 0 <= k < old(evs)@.len() ==> #[trigger] final(evs)@[k] == old(evs)@[k],
        final(player).health == crate::event::spec_replay_events(
            old(player).health as int,
            old(player).max_health as int,
            final(evs)@,
            old(evs)@.len() as int,
            final(evs)@.len() as int,
        ),
        final(b).hit_ids@.len() > old(b).hit_ids@.len() ==> exists|i: int|
            0 <= i < old(enemies)@.len() && spec_can_hit(*old(b), #[trigger] old(enemies)@[i])
                && final(b).hit_ids@ == old(b).hit_ids@.push(old(enemies)@[i].id)
                && final(b).hp == old(b).hp - 1 && (forall|k: int|
                0 <= k < i ==> !spec_can_hit(*old(b), #[trigger] old(enemies)@[k])) && ({
                let pre = old(enemies)@[i];
                let post = final(enemies)@[i];
                &&& (old(b).bullet_damage matches BulletDamage::Standard(v) ==> {
                    &&& post.health == (if pre.health - v >= 0 {
                        pre.health - v
                    } else {
                        0int
                    })
                    &&& post.enemy_stunned == pre.enemy_stunned
                    &&& *final(player) == *old(player)
                })
                &&& (old(b).bullet_damage matches BulletDamage::Card(c) ==> {
                    &&& (exists|d: Damage|
                        #[trigger] crate::deck::spec_card_damage_ok(c, *powerups, d)
                            && post.health == (match d {
                            Damage::Infinite => 0int,
                            Damage::Finite(v) => if pre.health - v >= 0 {
                                pre.health - v
                            } else {
                                0int
                            },
                        }))
                    &&& post.enemy_stunned.time_remaining_ms == (if c.suit
                        == crate::deck::Suit::Clubs {
                        if pre.enemy_stunned.time_remaining_ms + powerups.spec_count(
                            Powerup::Clubs,
                        ) * consts::CLUBS_STUN_TIME_MS <= consts::POS_LIMIT {
                            pre.enemy_stunned.time_remaining_ms + powerups.spec_count(
                                Powerup::Clubs,
                            ) * consts::CLUBS_STUN_TIME_MS
                        } else {
                            consts::POS_LIMIT as int
                        }
                    } else {
                        pre.enemy_stunned.time_remaining_ms as int
                    })
                })
            }),
{
    let ghost p0 = *old(player);
    let ghost e0 = old(evs)@;
    let mut ei: usize = 0;
    let mut done: bool = false;
    while ei < enemies.len() && !done
        invariant
            ei <= enemies@.len(),
            p0 == *old(player),
            e0 == old(evs)@,
            !done ==> evs@ == e0,
            done ==> e0.len() <= evs@.len() <= e0.len() + 2,
            done ==> forall|k: int| 0 <= k < e0.len() ==> #[trigger] evs@[k] == e0[k],
            done ==> player.health == crate::event::spec_replay_events(
                p0.health as int,
                p0.max_health as int,
                evs@,
                e0.len() as int,
                evs@.len() as int,
            ),
            b.wf(),
            !done ==> b.hp > 0,
            !done ==> *b == *old(b) && enemies@ == old(enemies)@ && *player == *old(player),
            !done ==> forall|k: int|
                0 <= k < ei ==> !spec_can_hit(*old(b), #[trigger] old(enemies)@[k]),
            done ==> exists|i: int|
                0 <= i < old(enemies)@.len() && spec_can_hit(*old(b), #[trigger] old(
                    enemies,
                )@[i]) && b.hit_ids@ == old(b).hit_ids@.push(old(enemies)@[i].id)
                    && b.hp == old(b).hp - 1 && (forall|k: int|
                    0 <= k < i ==> !spec_can_hit(*old(b), #[trigger] old(enemies)@[k])) && ({
                    let pre = old(enemies)@[i];
                    let post = enemies@[i];
                    &&& (old(b).bullet_damage matches BulletDamage::Standard(v) ==> {
                        &&& post.health == (if pre.health - v >= 0 {
                            pre.health - v
                        } else {
                            0int
                        })
                        &&& post.enemy_stunned == pre.enemy_stunned
                        &&& *player == p0
                    })
                    &&& (old(b).bullet_damage matches BulletDamage::Card(c) ==> {
                        &&& (exists|d: Damage|
                            #[trigger] crate::deck::spec_card_damage_ok(c, *powerups, d)
                                && post.health == (match d {
                                Damage::Infinite => 0int,
                                Damage::Finite(v) => if pre.health - v >= 0 {
                                    pre.health - v
                                } else {
                                    0int
                                },
                            }))
                        &&& post.enemy_stunned.time_remaining_ms == (if c.suit
                            == crate::deck::Suit::Clubs {
                            if pre.enemy_stunned.time_remaining_ms + powerups.spec_count(
                                Powerup::Clubs,
                            ) * consts::CLUBS_STUN_TIME_MS <= consts::POS_LIMIT {
                                pre.enemy_stunned.time_remaining_ms + powerups.spec_count(
                                    Powerup::Clubs,
                                ) * consts::CLUBS_STUN_TIME_MS
                            } else {
                                consts::POS_LIMIT as int
                            }
                        } else {
                            pre.enemy_stunned.time_remaining_ms as int
                        })
                    })
                }),
            done ==> forall|k: int|
                0 <= k < old(enemies)@.len() && !(exists|i: int|
                    0 <= i < old(enemies)@.len() && spec_can_hit(*old(b), #[trigger] old(
                        enemies,
                    )@[i]) && old(enemies)@[i].id == old(enemies)@[k].id)
                    ==> #[trigger] enemies@[k] == old(enemies)@[k],
            b.hp >= old(b).hp - 1,
            b.pos == old(b).pos,
            b.start_pos == old(b).start_pos,
            b.vel == old(b).vel,
            b.distance_to_travel == old(b).distance_to_travel,
            b.bullet_damage == old(b).bullet_damage,
            enemies@.len() == old(enemies)@.len(),
            forall|k: int|
                0 <= k < old(enemies)@.len() ==> {
                    let pre = old(enemies)@[k];
                    let post = #[trigger] enemies@[k];
                    &&& post.wf()
                    &&& post.id == pre.id
                    &&& post.enemy_type == pre.enemy_type
                    &&& post.max_health == pre.max_health
                    &&& post.damage == pre.damage
                    &&& post.speed == pre.speed
                    &&& post.pos == pre.pos
                    &&& post.direction == pre.direction
                    &&& post.enemy_movement == pre.enemy_movement
                    &&& post.health <= pre.health
                },
            player.wf(),
            *player == (Player { health: player.health, ..p0 }),
            player.health >= p0.health,
            powerups.wf(),
        decreases enemies@.len() - ei,
    {
        let e = enemies[ei];
        let fresh = b.not_already_hit(e.id);
        let radius = e.enemy_type.radius();
        proof {
            assert(e == old(enemies)@[ei as int]);
        }
        if fresh && hitbox::rectangle_circle_collide(e.pos, radius, radius, e.direction, b.pos) {
            proof {
                assert(spec_can_hit(*old(b), old(enemies)@[ei as int]));
            }
            let hr = b.hit_result(powerups);
            proof {
                crate::powerup::lemma_count_in_seq_bounds(
                    powerups.powerups@,
                    Powerup::Hearts,
                );
                if b.bullet_damage is Card {
                    let c = b.bullet_damage->Card_0;
                    assert(crate::deck::spec_card_damage_ok(c, *powerups, hr.damage));
                }
            }
            let mut e2 = enemies[ei];
            e2.take_damage(hr.damage);
            e2.enemy_stunned.add_time(hr.stun_time_ms);
            enemies.set(ei, e2);
            let amount: i64 = match hr.damage {
                Damage::Finite(v) => {
                    if v > 0x7FFF_FFFF_FFFF_FFFF {
                        i64::MAX
                    } else {
                        v as i64
                    }
                },
                Damage::Infinite => -1,
            };
            evs.push(
                DamageEvent { amount, pos: e2.pos, color: DamageNumberColor::EnemyDamage },
            );
            if hr.heal_amount > 0 {
                player.heal(hr.heal_amount);
                evs.push(
                    DamageEvent {
                        amount: hr.heal_amount,
                        pos: player.pos,
                        color: DamageNumberColor::PlayerHeal,
                    },
                );
            }
            b.hit(e.id);
            proof {
                let e0l = e0.len() as int;
                let ph = p0.health as int;
                let pm = p0.max_health as int;
                assert(crate::event::spec_replay_events(ph, pm, evs@, e0l, e0l) == ph);
                assert(evs@[e0l].color == DamageNumberColor::EnemyDamage);
                assert(crate::event::spec_replay_events(ph, pm, evs@, e0l, e0l + 1) == ph);
                if evs@.len() == e0.len() + 2 {
                    assert(evs@[e0l + 1].color == DamageNumberColor::PlayerHeal);
                    assert(crate::event::spec_replay_events(ph, pm, evs@, e0l, e0l + 2) == (
                    if ph + evs@[e0l + 1].amount <= pm {
                        ph + evs@[e0l + 1].amount
                    } else {
                        pm
                    }));
                }
            }
            proof {
                let ii = ei as int;
                assert(spec_can_hit(*old(b), old(enemies)@[ii]));
                assert(b.hit_ids@ == old(b).hit_ids@.push(old(enemies)@[ii].id));
                assert(b.hp == old(b).hp - 1);
                assert(forall|k: int|
                    0 <= k < ii ==> !spec_can_hit(*old(b), #[trigger] old(enemies)@[k]));
                let pre = old(enemies)@[ii];
                let post = enemies@[ii];
                if b.bullet_damage is Standard {
                    let v = b.bullet_damage->Standard_0;
                    assert(hr.damage == Damage::Finite(v));
                    assert(post.health == (if pre.health - v >= 0 {
                        pre.health - v
                    } else {
                        0int
                    }));
                    assert(post.enemy_stunned.time_remaining_ms
                        == pre.enemy_stunned.time_remaining_ms);
                    assert(post.enemy_stunned == pre.enemy_stunned);
                    assert(*player == p0);
                } else {
                    let c = b.bullet_damage->Card_0;
                    assert(crate::deck::spec_card_damage_ok(c, *powerups, hr.damage));
                    assert(post.health == (match hr.damage {
                        Damage::Infinite => 0int,
                        Damage::Finite(v) => if pre.health - v >= 0 {
                            pre.health - v
                        } else {
                            0int
                        },
                    }));
                }
            }
            done = true;
        }
        ei = ei + 1;
    }
}

/// The capped flat damage an enemy shot carries; card-driven shots
/// have no flat figure.
pub open spec fn spec_capped_standard_damage(b: Bullet) -> int {
    match b.bullet_damage {
        BulletDamage::Standard(v) => if v > 1_000_000_000 {
            1_000_000_000int
        } else {
            v as int
        },
        BulletDamage::Card(_) => 0,
    }
}

/// Every shot in the roster carries a flat damage figure.
pub open spec fn spec_all_standard(bullets: Seq<Bullet>) -> bool {
    forall|i: int| 0 <= i < bullets.len() ==> (#[trigger] bullets[i]).bullet_damage is Standard
}

/// Total flat damage the first `i` shots land on the player.
pub open spec fn spec_shot_damage_total(bullets: Seq<Bullet>, p: Player, i: int) -> int
    decreases i,
{
    if i <= 0 {
        0
    } else {
        spec_shot_damage_total(bullets, p, i - 1) + if spec_shot_hits_player(
            bullets[i - 1],
            p,
        ) {
            spec_capped_standard_damage(bullets[i - 1])
        } else {
            0int
        }
    }
}

/// How many of the first `i` shots strike the player.
pub open spec fn spec_shot_hit_count(bullets: Seq<Bullet>, p: Player, i: int) -> int
    decreases i,
{
    if i <= 0 {
        0
    } else {
        spec_shot_hit_count(bullets, p, i - 1) + if spec_shot_hits_player(bullets[i - 1], p) {
            1int
        } else {
            0int
        }
    }
}

proof fn lemma_shot_fold_bounds(bullets: Seq<Bullet>, p: Player, i: int)
    ensures
        0 <= spec_shot_hit_count(bullets, p, i) <= (if i >= 0 {
            i
        } else {
            0int
        }),
        0 <= spec_shot_damage_total(bullets, p, i),
    decreases i,
{
    if i > 0 {
        lemma_shot_fold_bounds(bullets, p, i - 1);
    }
}

/// Whether an enemy shot strikes the player right now: it still has
/// pierce and overlaps the player's circle.
pub open spec fn spec_shot_hits_player(b: Bullet, p: Player) -> bool {
    &&& b.hp > 0
    &&& hitbox::spec_circles_collide(
        b.pos,
        consts::BULLET_RADIUS as int,
        p.pos,
        consts::PLAYER_RADIUS as int,
    )
}

/// Resolve enemy shots against the player: every shot that still has
/// pierce and overlaps the player lands its (capped) flat damage and
/// is consumed, adding one player-damage number; every other shot is
/// untouched.
fn collide_enemy_bullets(
    bullets: &mut Vec<Bullet>,
    player: &mut Player,
    evs: &mut Vec<DamageEvent>,
)
    requires
        old(bullets)@.len() <= 1_000_000,
        forall|i: int| 0 <= i < old(bullets)@.len() ==> (#[trigger] old(bullets)@[i]).wf(),
        old(player).wf(),
    ensures
        final(bullets)@.len() == old(bullets)@.len(),
        forall|i: int| 0 <= i < final(bullets)@.len() ==> (#[trigger] final(bullets)@[i]).wf(),
        forall|i: int|
            0 <= i < old(bullets)@.len() ==> #[trigger] final(bullets)@[i] == (
            if spec_shot_hits_player(old(bullets)@[i], *old(player)) {
                Bullet { hp: 0, ..old(bullets)@[i] }
            } else {
                old(bullets)@[i]
            }),
        final(player).wf(),
        *final(player) == (Player { health: final(player).health, ..*old(player) }),
        final(player).health <= old(player).health,
        spec_all_standard(old(bullets)@) ==> final(player).health == (if old(player).health
            - spec_shot_damage_total(old(bullets)@, *old(player), old(bullets)@.len() as int)
            >= 0 {
            old(player).health - spec_shot_damage_total(
                old(bullets)@,
                *old(player),
                old(bullets)@.len() as int,
            )
        } else {
            0int
        }),
        final(evs)@.len() == old(evs)@.len() + spec_shot_hit_count(
            old(bullets)@,
            *old(player),
            old(bullets)@.len() as int,
        ),
        final(player).health == crate::event::spec_replay_events(
            old(player).health as int,
            old(player).max_health as int,
            final(evs)@,
            old(evs)@.len() as int,
            final(evs)@.len() as int,
        ),
        forall|k: int| 0 <= k < old(evs)@.len() ==> #[trigger] final(evs)@[k] == old(evs)@[k],
        forall|k: int|
            old(evs)@.len() <= k < final(evs)@.len() ==> (#[trigger] final(evs)@[k]).color
                == DamageNumberColor::PlayerDamage,
{
    let ghost p0 = *old(player);
    let ghost bl0 = old(bullets)@;
    let ghost e0 = old(evs)@;
    let mut i: usize = 0;
    while i < bullets.len()
        invariant
            i <= bullets@.len(),
            bullets@.len() == bl0.len(),
            bl0 == old(bullets)@,
            p0 == *old(player),
            e0 == old(evs)@,
            bullets@.len() <= 1_000_000,
            forall|k: int| 0 <= k < bullets@.len() ==> (#[trigger] bullets@[k]).wf(),
            forall|k: int| i <= k < bullets@.len() ==> #[trigger] bullets@[k] == bl0[k],
            forall|k: int|
                0 <= k < i ==> #[trigger] bullets@[k] == (if spec_shot_hits_player(bl0[k], p0) {
                    Bullet { hp: 0, ..bl0[k] }
                } else {
                    bl0[k]
                }),
            player.wf(),
            *player == (Player { health: player.health, ..p0 }),
            player.health <= p0.health,
            spec_all_standard(bl0) ==> player.health == (if p0.health - spec_shot_damage_total(
                bl0,
                p0,
                i as int,
            ) >= 0 {
                p0.health - spec_shot_damage_total(bl0, p0, i as int)
            } else {
                0int
            }),
            evs@.len() == e0.len() + spec_shot_hit_count(bl0, p0, i as int),
            forall|k: int| 0 <= k < e0.len() ==> #[trigger] evs@[k] == e0[k],
            player.health == crate::event::spec_replay_events(
                p0.health as int,
                p0.max_health as int,
                evs@,
                e0.len() as int,
                evs@.len() as int,
            ),
            forall|k: int|
                e0.len() <= k < evs@.len() ==> (#[trigger] evs@[k]).color
                    == DamageNumberColor::PlayerDamage,
        decreases bullets@.len() - i,
    {
        proof {
            lemma_shot_fold_bounds(bl0, p0, i as int);
            lemma_shot_fold_bounds(bl0, p0, i as int + 1);
            assert(bullets@[i as int] == bl0[i as int]);
            assert(spec_shot_damage_total(bl0, p0, i as int + 1) == spec_shot_damage_total(
                bl0,
                p0,
                i as int,
            ) + (if spec_shot_hits_player(bl0[i as int], p0) {
                spec_capped_standard_damage(bl0[i as int])
            } else {
                0int
            }));
            assert(spec_shot_hit_count(bl0, p0, i as int + 1) == spec_shot_hit_count(
                bl0,
                p0,
                i as int,
            ) + (if spec_shot_hits_player(bl0[i as int], p0) {
                1int
            } else {
                0int
            }));
        }
        let keep = bullets[i].should_keep();
        let hitp = hitbox::circles_collide(
            bullets[i].pos,
            consts::BULLET_RADIUS,
            player.pos,
            consts::PLAYER_RADIUS,
        );
        let ghost evs_before = evs@;
        let ghost h_before = player.health as int;
        if keep && hitp {
            let mut b = bullets.remove(i);
            let damage: i64 = match &b.bullet_damage {
                BulletDamage::Standard(v) => {
                    if *v > 1_000_000_000 {
                        1_000_000_000
                    } else {
                        *v as i64
                    }
                },
                BulletDamage::Card(c) => {
                    match c.damage(None) {
                        Damage::Finite(v) => {
                            if v > 1_000_000_000 {
                                1_000_000_000
                            } else {
                                v as i64
                            }
                        },
                        Damage::Infinite => 1_000_000_000,
                    }
                },
            };
            player.apply_damage(damage);
            evs.push(
                DamageEvent {
                    amount: damage,
                    pos: player.pos,
                    color: DamageNumberColor::PlayerDamage,
                },
            );
            b.remove();
            self_insert(bullets, i, b);
            proof {
                let ph = p0.health as int;
                let pm = p0.max_health as int;
                let e0l = e0.len() as int;
                let lb = evs_before.len() as int;
                assert(evs_before.subrange(e0l, lb) =~= evs@.subrange(e0l, lb));
                crate::event::lemma_replay_prefix_agree(ph, pm, evs_before, evs@, e0l, lb);
                assert(evs@[lb].color == DamageNumberColor::PlayerDamage);
                assert(evs@[lb].amount == damage);
                assert(crate::event::spec_replay_events(ph, pm, evs@, e0l, lb + 1) == ({
                    let prev = crate::event::spec_replay_events(ph, pm, evs@, e0l, lb);
                    if prev - damage >= 0 {
                        prev - damage
                    } else {
                        0int
                    }
                }));
            }
        }
        i = i + 1;
    }
    proof {
        assert(spec_shot_damage_total(bl0, p0, bl0.len() as int) == spec_shot_damage_total(
            bl0,
            p0,
            bullets@.len() as int,
        ));
    }
}

} // verus!
