//! The library's global guarantees, stated and proved once: difficulty
//! only escalates, pierce accounting balances, straight-line motion
//! integrates exactly, the pruned roster holds no dead enemy, and the
//! experience ladder rolls over thresholds one at a time.

use vstd::prelude::*;

use crate::bullet::Bullet;
use crate::consts;
use crate::enemy;
use crate::enemy::Enemy;
use crate::geom::Vec2i;
use crate::player::spec_levelup;
use crate::util;

verus! {

/// Difficulty never eases: each wave from the first onward asks for at
/// least as many enemies as the one before, each at least as healthy
/// and fast, spawned at least as often.
pub proof fn lemma_monotonic_difficulty(w: int)
    requires
        w >= 1,
    ensures
        enemy::spec_wave_count(w) >= enemy::spec_wave_count(w - 1),
        enemy::spec_wave_hp(w) >= enemy::spec_wave_hp(w - 1),
        enemy::spec_wave_speed(w) >= enemy::spec_wave_speed(w - 1),
        enemy::spec_spawn_period_ms(w) <= enemy::spec_spawn_period_ms(w - 1),
{
}

/// Pierce accounting balances across a recorded hit: the sum of pierce
/// left and distinct enemies struck is unchanged, the struck enemy is
/// in the hit set, and the projectile is spent exactly when the hit
/// set has consumed the whole original capacity. Together with the
/// hit-set's distinctness, a projectile of capacity `k` removes itself
/// after exactly `k` distinct-enemy hits and never strikes the same
/// enemy twice.
pub proof fn lemma_pierce_accounting(pre: Bullet, post: Bullet, id: u64)
    requires
        pre.wf(),
        pre.hp > 0,
        !pre.hit_ids@.contains(id),
        post.hit_ids@ == pre.hit_ids@.push(id),
        post.hp == pre.hp - 1,
    ensures
        post.hp + post.hit_ids@.len() == pre.hp + pre.hit_ids@.len(),
        post.hit_ids@.contains(id),
        (post.hp == 0 <==> post.hit_ids@.len() == pre.hp + pre.hit_ids@.len()),
{
    assert(post.hit_ids@[post.hit_ids@.len() - 1] == id);
}

/// A projectile's remaining pierce and its hit set exhaust a fixed
/// capacity: once the hit set holds the full capacity of distinct
/// enemies, and only then, the projectile is spent.
pub proof fn lemma_pierce_exhaustion(b: Bullet, capacity: int)
    requires
        b.wf(),
        b.hp + b.hit_ids@.len() == capacity,
    ensures
        (b.hp == 0 <==> b.hit_ids@.len() == capacity),
        b.hit_ids@.len() <= capacity,
        forall|i: int, j: int|
            0 <= i < j < b.hit_ids@.len() ==> b.hit_ids@[i] != b.hit_ids@[j],
{
}

/// One exact integration step: the position advances by `v * d`,
/// clamped only at the coordinate band.
pub open spec fn spec_step_pos(p: Vec2i, v: Vec2i, d: int) -> Vec2i {
    Vec2i {
        x: util::spec_clamp_pos(p.x + v.x * d) as i64,
        y: util::spec_clamp_pos(p.y + v.y * d) as i64,
    }
}

/// The position after a run of integration steps.
pub open spec fn spec_pos_after(p: Vec2i, v: Vec2i, ds: Seq<int>) -> Vec2i
    decreases ds.len(),
{
    if ds.len() == 0 {
        p
    } else {
        spec_step_pos(spec_pos_after(p, v, ds.drop_last()), v, ds.last())
    }
}

pub open spec fn spec_sum(ds: Seq<int>) -> int
    decreases ds.len(),
{
    if ds.len() == 0 {
        0
    } else {
        spec_sum(ds.drop_last()) + ds.last()
    }
}

pub open spec fn all_deltas_ok(ds: Seq<int>) -> bool {
    forall|i: int| 0 <= i < ds.len() ==> 0 <= #[trigger] ds[i] <= consts::MAX_DELTA_MS
}

proof fn lemma_sum_bounds(ds: Seq<int>)
    requires
        all_deltas_ok(ds),
    ensures
        0 <= spec_sum(ds),
    decreases ds.len(),
{
    if ds.len() > 0 {
        assert(all_deltas_ok(ds.drop_last()));
        lemma_sum_bounds(ds.drop_last());
        assert(ds.last() >= 0);
    }
}

/// Integration is exact: a projectile that starts inside the safe part
/// of the coordinate band and flies for steps totalling `t`
/// milliseconds at velocity `v` sits at exactly `origin + t * v` —
/// the discrete trajectory agrees with the closed form, step split
/// notwithstanding.
pub proof fn lemma_integration_exact(p: Vec2i, v: Vec2i, ds: Seq<int>)
    requires
        all_deltas_ok(ds),
        -consts::VEL_LIMIT <= v.x <= consts::VEL_LIMIT,
        -consts::VEL_LIMIT <= v.y <= consts::VEL_LIMIT,
        -consts::POS_LIMIT <= p.x - consts::VEL_LIMIT * spec_sum(ds),
        p.x + consts::VEL_LIMIT * spec_sum(ds) <= consts::POS_LIMIT,
        -consts::POS_LIMIT <= p.y - consts::VEL_LIMIT * spec_sum(ds),
        p.y + consts::VEL_LIMIT * spec_sum(ds) <= consts::POS_LIMIT,
    ensures
        spec_pos_after(p, v, ds) == (Vec2i {
            x: (p.x + v.x * spec_sum(ds)) as i64,
            y: (p.y + v.y * spec_sum(ds)) as i64,
        }),
    decreases ds.len(),
{
    lemma_sum_bounds(ds);
    if ds.len() == 0 {
        assert(v.x * 0 == 0) by (nonlinear_arith);
        assert(v.y * 0 == 0) by (nonlinear_arith);
    } else {
        let pre = ds.drop_last();
        let d = ds.last();
        let t0 = spec_sum(pre);
        let t = spec_sum(ds);
        assert(all_deltas_ok(pre));
        lemma_sum_bounds(pre);
        assert(t == t0 + d);
        assert(consts::VEL_LIMIT * t0 <= consts::VEL_LIMIT * t
            && consts::VEL_LIMIT * t0 >= 0) by (nonlinear_arith)
            requires
                0 <= t0 <= t,
        ;
        util::lemma_abs_mul_le(v.x as int, t0, consts::VEL_LIMIT as int, t0);
        util::lemma_abs_mul_le(v.y as int, t0, consts::VEL_LIMIT as int, t0);
        util::lemma_abs_mul_le(v.x as int, t, consts::VEL_LIMIT as int, t);
        util::lemma_abs_mul_le(v.y as int, t, consts::VEL_LIMIT as int, t);
        lemma_integration_exact(p, v, pre);
        let q = spec_pos_after(p, v, pre);
        assert(q.x == p.x + v.x * t0 && q.y == p.y + v.y * t0);
        assert(v.x * t0 + v.x * d == v.x * (t0 + d) && v.y * t0 + v.y * d == v.y * (t0
            + d)) by (nonlinear_arith);
        assert(-(consts::VEL_LIMIT as int) * t <= v.x * t <= consts::VEL_LIMIT as int * t
            && -(consts::VEL_LIMIT as int) * t <= v.y * t <= consts::VEL_LIMIT as int
            * t) by (nonlinear_arith)
            requires
                -consts::VEL_LIMIT <= v.x <= consts::VEL_LIMIT,
                -consts::VEL_LIMIT <= v.y <= consts::VEL_LIMIT,
                t >= 0,
        ;
        assert(util::spec_clamp_pos(q.x + v.x * d) == p.x + v.x * t);
        assert(util::spec_clamp_pos(q.y + v.y * d) == p.y + v.y * t);
    }
}

/// After the prune step every enemy on the roster has positive health:
/// an enemy whose health reached zero is absent.
pub proof fn lemma_dead_are_pruned(s: Seq<Enemy>, i: int)
    requires
        0 <= i < enemy::spec_live(s).len(),
    ensures
        enemy::spec_live(s)[i].health > 0,
    decreases s.len(),
{
    if s.len() > 0 {
        enemy::lemma_live_len(s.drop_last());
        if s.last().health > 0 && i == enemy::spec_live(s).len() - 1 {
        } else {
            lemma_dead_are_pruned(s.drop_last(), i);
        }
    }
}

/// One level-up: with experience at or past the threshold `2 * L^2`,
/// the ladder spends exactly the threshold and moves to level `L + 1`.
pub proof fn lemma_levelup_step(xp: int, level: int)
    requires
        level >= 1,
        xp >= 2 * level * level,
    ensures
        spec_levelup(xp, level) == spec_levelup(xp - 2 * level * level, level + 1),
{
    assert(2 * level * level > 0) by (nonlinear_arith)
        requires
            level >= 1,
    ;
}

/// Below the threshold the ladder rests: experience and level stand.
pub proof fn lemma_levelup_done(xp: int, level: int)
    requires
        level >= 1,
        0 <= xp < 2 * level * level,
    ensures
        spec_levelup(xp, level) == (xp, level),
{
}

/// A double level-up in one tick: with enough experience for two
/// consecutive thresholds, the ladder climbs twice, spending each
/// threshold in turn.
pub proof fn lemma_levelup_twice(xp: int, level: int)
    requires
        level >= 1,
        xp >= 2 * level * level + 2 * (level + 1) * (level + 1),
    ensures
        spec_levelup(xp, level) == spec_levelup(
            xp - 2 * level * level - 2 * (level + 1) * (level + 1),
            level + 2,
        ),
{
    assert(2 * (level + 1) * (level + 1) > 0) by (nonlinear_arith)
        requires
            level >= 1,
    ;
    lemma_levelup_step(xp, level);
    lemma_levelup_step(xp - 2 * level * level, level + 1);
}

} // verus!
