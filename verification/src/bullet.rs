//! Projectiles: straight-line motion integrated exactly, range-based
//! expiry with an inclusive boundary, a per-target hit set that only
//! grows, and a pierce count that falls by one per distinct enemy hit.

use vstd::prelude::*;

use crate::consts;
use crate::deck::Card;
use crate::deck::Damage;
use crate::geom;
use crate::geom::Vec2i;
use crate::powerup::Powerup;
use crate::powerup::Powerups;
use crate::util;

verus! {

/// What a projectile deals on a hit: a flat figure for enemy shots, or
/// whatever the fired card decides for player shots.
pub enum BulletDamage {
    Standard(u64),
    Card(Card),
}

/// The outcome of one hit, as resolved by the modifier engine.
pub struct BulletHitResult {
    pub damage: Damage,
    pub stun_time_ms: i64,
    pub heal_amount: i64,
}

pub struct Bullet {
    pub start_pos: Vec2i,
    /// Current position, micro-tiles.
    pub pos: Vec2i,
    /// Velocity, micro-tiles per millisecond.
    pub vel: Vec2i,
    /// Maximum travel distance, micro-tiles.
    pub distance_to_travel: i64,
    pub bullet_damage: BulletDamage,
    /// Remaining pierce: how many more distinct enemies it may hit.
    pub hp: i64,
    /// Ids of enemies already struck; never hit twice.
    pub hit_ids: Vec<u64>,
}

impl Bullet {
    pub open spec fn wf(self) -> bool {
        &&& self.start_pos.in_pos_band()
        &&& self.pos.in_pos_band()
        &&& -consts::VEL_LIMIT <= self.vel.x <= consts::VEL_LIMIT
        &&& -consts::VEL_LIMIT <= self.vel.y <= consts::VEL_LIMIT
        &&& 0 <= self.distance_to_travel <= consts::RANGE_LIMIT
        &&& 0 <= self.hp
        &&& self.hp + self.hit_ids@.len() <= 1_000_000
        &&& forall|i: int, j: int|
            0 <= i < j < self.hit_ids@.len() ==> self.hit_ids@[i] != self.hit_ids@[j]
    }

    pub fn new(
        start_pos: Vec2i,
        vel: Vec2i,
        distance_to_travel: i64,
        bullet_damage: BulletDamage,
        hp: i64,
    ) -> (b: Bullet)
        requires
            start_pos.in_pos_band(),
            -consts::VEL_LIMIT <= vel.x <= consts::VEL_LIMIT,
            -consts::VEL_LIMIT <= vel.y <= consts::VEL_LIMIT,
            0 <= distance_to_travel <= consts::RANGE_LIMIT,
            0 <= hp <= 1_000_000,
        ensures
            b.wf(),
            b.start_pos == start_pos,
            b.pos == start_pos,
            b.vel == vel,
            b.distance_to_travel == distance_to_travel,
            b.bullet_damage == bullet_damage,
            b.hp == hp,
            b.hit_ids@.len() == 0,
    {
        Bullet {
            start_pos,
            pos: start_pos,
            vel,
            distance_to_travel,
            bullet_damage,
            hp,
            hit_ids: Vec::new(),
        }
    }

    /// A projectile stays in play while it has pierce left.
    pub fn should_keep(&self) -> (keep: bool)
        ensures
            keep == (self.hp > 0),
    {
        self.hp > 0
    }

    /// Whether this projectile has not yet struck the enemy with `id`.
    pub fn not_already_hit(&self, id: u64) -> (fresh: bool)
        ensures
            fresh == !self.hit_ids@.contains(id),
    {
        let mut i: usize = 0;
        while i < self.hit_ids.len()
            invariant
                i <= self.hit_ids@.len(),
                forall|k: int| 0 <= k < i ==> self.hit_ids@[k] != id,
            decreases self.hit_ids@.len() - i,
        {
            if self.hit_ids[i] == id {
                return false;
            }
            i = i + 1;
        }
        true
    }

    /// Record a hit on a new enemy: the hit set grows by that id and
    /// one pierce is spent.
    pub fn hit(&mut self, id: u64)
        requires
            old(self).wf(),
            !old(self).hit_ids@.contains(id),
            old(self).hp > 0,
            old(self).hit_ids@.len() < 1_000_000,
        ensures
            final(self).wf(),
            final(self).hit_ids@ == old(self).hit_ids@.push(id),
            final(self).hp == old(self).hp - 1,
            final(self).pos == old(self).pos,
            final(self).start_pos == old(self).start_pos,
            final(self).vel == old(self).vel,
            final(self).distance_to_travel == old(self).distance_to_travel,
            final(self).bullet_damage == old(self).bullet_damage,
    {
        self.hit_ids.push(id);
        self.hp = self.hp - 1;
        proof {
            assert forall|i: int, j: int|
                0 <= i < j < self.hit_ids@.len() implies self.hit_ids@[i] != self.hit_ids@[j] by {
                if j < self.hit_ids@.len() - 1 {
                    assert(old(self).hit_ids@[i] != old(self).hit_ids@[j]);
                } else {
                    assert(self.hit_ids@[i] == old(self).hit_ids@[i]);
                }
            }
        }
    }

    /// Discard the projectile outright.
    pub fn remove(&mut self)
        requires
            old(self).wf(),
        ensures
            final(self).wf(),
            final(self).hp == 0,
            final(self).pos == old(self).pos,
            final(self).start_pos == old(self).start_pos,
            final(self).vel == old(self).vel,
            final(self).distance_to_travel == old(self).distance_to_travel,
            final(self).bullet_damage == old(self).bullet_damage,
            final(self).hit_ids == old(self).hit_ids,
    {
        self.hp = 0;
    }

    /// Resolve the outcome of one hit through the modifier engine.
    pub fn hit_result(&self, powerups: &Powerups) -> (r: BulletHitResult)
        requires
            powerups.wf(),
        ensures
            self.bullet_damage matches BulletDamage::Standard(v) ==> {
                &&& r.damage == Damage::Finite(v)
                &&& r.stun_time_ms == 0
                &&& r.heal_amount == 0
            },
            self.bullet_damage matches BulletDamage::Card(c) ==> {
                &&& (c.suit == crate::deck::Suit::Clubs ==> r.stun_time_ms == powerups.spec_count(
                    Powerup::Clubs,
                ) * consts::CLUBS_STUN_TIME_MS)
                &&& (c.suit != crate::deck::Suit::Clubs ==> r.stun_time_ms == 0)
                &&& 0 <= r.stun_time_ms
                &&& 0 <= r.heal_amount <= powerups.spec_count(Powerup::Hearts)
                &&& (c.suit != crate::deck::Suit::Hearts ==> r.heal_amount == 0)
                &&& (c.suit == crate::deck::Suit::Joker ==> (r.damage == Damage::Finite(100)
                    || r.damage == Damage::Finite(0)))
                &&& (c.suit != crate::deck::Suit::Joker && c.value == 1 ==> r.damage
                    == Damage::Infinite)
                &&& (c.suit != crate::deck::Suit::Joker && c.suit != crate::deck::Suit::Spades
                    && c.value != 1 ==> r.damage == Damage::Finite(
                    crate::deck::spec_plain_damage(c) as u64,
                ))
                &&& (c.suit == crate::deck::Suit::Spades && c.value != 1 ==> exists|k: nat|
                    k <= powerups.spec_count(Powerup::Spades) && r.damage
                        == #[trigger] crate::deck::spec_apply_doublings(
                        Damage::Finite(crate::deck::spec_plain_damage(c) as u64),
                        k,
                    ))
            },
    {
        match &self.bullet_damage {
            BulletDamage::Standard(damage) => BulletHitResult {
                damage: Damage::Finite(*damage),
                stun_time_ms: 0,
                heal_amount: 0,
            },
            BulletDamage::Card(card) => BulletHitResult {
                damage: card.damage(Some(powerups)),
                stun_time_ms: card.stun_time(powerups),
                heal_amount: card.heal_amount(powerups),
            },
        }
    }

    /// One integration step: the position advances by exactly
    /// `vel * delta` (clamped only at the far coordinate band), and the
    /// projectile removes itself the moment its distance from the
    /// origin reaches its range, boundary included.
    pub open spec fn spec_step(self, delta: int) -> Bullet {
        let np = Vec2i {
            x: util::spec_clamp_pos(self.pos.x + self.vel.x * delta) as i64,
            y: util::spec_clamp_pos(self.pos.y + self.vel.y * delta) as i64,
        };
        let nhp = if geom::spec_dist_sq(np, self.start_pos) >= self.distance_to_travel
            * self.distance_to_travel {
            0int
        } else {
            self.hp as int
        };
        Bullet { pos: np, hp: nhp as i64, ..self }
    }

    /// Integrate by one tick: the new state is exactly `spec_step`.
    pub fn update(&mut self, delta_ms: i64)
        requires
            old(self).wf(),
            0 <= delta_ms <= consts::MAX_DELTA_MS,
        ensures
            final(self).wf(),
            *final(self) == old(self).spec_step(delta_ms as int),
    {
        proof {
            util::lemma_abs_mul_le(
                self.vel.x as int,
                delta_ms as int,
                consts::VEL_LIMIT as int,
                consts::MAX_DELTA_MS as int,
            );
            util::lemma_abs_mul_le(
                self.vel.y as int,
                delta_ms as int,
                consts::VEL_LIMIT as int,
                consts::MAX_DELTA_MS as int,
            );
        }
        let mvx: i64 = self.vel.x * delta_ms;
        let mvy: i64 = self.vel.y * delta_ms;
        self.pos = Vec2i {
            x: util::add_clamped(self.pos.x, mvx),
            y: util::add_clamped(self.pos.y, mvy),
        };
        let d2: i128 = geom::dist_sq(self.pos, self.start_pos);
        proof {
            util::lemma_abs_mul_le(
                self.distance_to_travel as int,
                self.distance_to_travel as int,
                consts::RANGE_LIMIT as int,
                consts::RANGE_LIMIT as int,
            );
        }
        let r2: i128 = (self.distance_to_travel as i128) * (self.distance_to_travel as i128);
        if d2 >= r2 {
            self.hp = 0;
        }
    }
}


/// The projectiles of `s` that still have pierce left.
pub open spec fn spec_live_bullets(s: Seq<Bullet>) -> Seq<Bullet>
    decreases s.len(),
{
    if s.len() == 0 {
        Seq::empty()
    } else if s.last().hp > 0 {
        spec_live_bullets(s.drop_last()).push(s.last())
    } else {
        spec_live_bullets(s.drop_last())
    }
}

pub proof fn lemma_live_bullets_len(s: Seq<Bullet>)
    ensures
        0 <= spec_live_bullets(s).len() <= s.len(),
    decreases s.len(),
{
    if s.len() > 0 {
        lemma_live_bullets_len(s.drop_last());
    }
}

/// Drop every exhausted projectile, keeping the others in order.
pub fn prune_bullets(v: &mut Vec<Bullet>)
    requires
        old(v)@.len() <= 1_000_000,
        forall|i: int| 0 <= i < old(v)@.len() ==> (#[trigger] old(v)@[i]).wf(),
    ensures
        final(v)@ == spec_live_bullets(old(v)@),
        final(v)@.len() <= old(v)@.len(),
        forall|i: int| 0 <= i < final(v)@.len() ==> (#[trigger] final(v)@[i]).wf(),
{
    let ghost orig = v@;
    let mut i: usize = 0;
    let ghost mut j: int = 0;
    proof {
        assert(orig.subrange(0, 0) =~= Seq::<Bullet>::empty());
        assert(orig.subrange(0, orig.len() as int) =~= orig);
        assert(v@ =~= spec_live_bullets(orig.subrange(0, 0)).add(
            orig.subrange(0, orig.len() as int),
        ));
    }
    while i < v.len()
        invariant
            0 <= j <= orig.len(),
            orig.len() <= 1_000_000,
            forall|k: int| 0 <= k < orig.len() ==> (#[trigger] orig[k]).wf(),
            v@ == spec_live_bullets(orig.subrange(0, j)).add(
                orig.subrange(j, orig.len() as int),
            ),
            i == spec_live_bullets(orig.subrange(0, j)).len(),
            i <= v@.len(),
        decreases orig.len() - j,
    {
        proof {
            assert(v@.len() == i + orig.len() - j);
            assert(j < orig.len());
            let pre = orig.subrange(0, j);
            let post = orig.subrange(0, j + 1);
            assert(post.drop_last() =~= pre);
            assert(post.last() == orig[j]);
            lemma_live_bullets_len(pre);
            assert(v@[i as int] == orig[j]);
        }
        let keep = v[i].should_keep();
        if keep {
            proof {
                assert(spec_live_bullets(orig.subrange(0, j + 1)) =~= spec_live_bullets(
                    orig.subrange(0, j),
                ).push(orig[j]));
                assert(spec_live_bullets(orig.subrange(0, j + 1)).add(
                    orig.subrange(j + 1, orig.len() as int),
                ) =~= v@);
            }
            i = i + 1;
        } else {
            let _ = v.remove(i);
            proof {
                assert(spec_live_bullets(orig.subrange(0, j + 1)) =~= spec_live_bullets(
                    orig.subrange(0, j),
                ));
                assert(spec_live_bullets(orig.subrange(0, j + 1)).add(
                    orig.subrange(j + 1, orig.len() as int),
                ) =~= v@);
            }
        }
        proof {
            j = j + 1;
        }
    }
    proof {
        assert(orig.subrange(j, orig.len() as int).len() == 0);
        assert(j == orig.len());
        assert(orig.subrange(0, orig.len() as int) =~= orig);
        assert(v@ =~= spec_live_bullets(orig));
        lemma_live_bullets_len(orig);
        assert forall|k: int| 0 <= k < v@.len() implies (#[trigger] v@[k]).wf() by {
            lemma_live_bullets_elements(orig, k);
        }
    }
}

/// Every element of the live subsequence occurs in the full one.
proof fn lemma_live_bullets_elements(s: Seq<Bullet>, k: int)
    requires
        0 <= k < spec_live_bullets(s).len(),
    ensures
        exists|i: int| 0 <= i < s.len() && s[i] == spec_live_bullets(s)[k],
    decreases s.len(),
{
    lemma_live_bullets_len(s);
    if s.len() > 0 {
        if s.last().hp > 0 && k == spec_live_bullets(s).len() - 1 {
            assert(s[s.len() - 1] == spec_live_bullets(s)[k]);
        } else {
            lemma_live_bullets_elements(s.drop_last(), k);
            let i = choose|i: int|
                0 <= i < s.drop_last().len() && s.drop_last()[i] == spec_live_bullets(
                    s.drop_last(),
                )[k];
            assert(s[i] == spec_live_bullets(s)[k]);
        }
    }
}

} // verus!
