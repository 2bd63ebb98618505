//! Events the simulation reports outward each tick, for the floating
//! combat text and the reward screens around it.

use vstd::prelude::*;

use crate::geom::Vec2i;

verus! {

#[derive(Clone, Copy, PartialEq, Eq, Structural, Debug)]
pub enum DamageNumberColor {
    PlayerHeal,
    PlayerDamage,
    EnemyDamage,
}

/// One floating combat number: an amount, where it happened, and its
/// category. An `amount` of `-1` stands for infinite damage.
#[derive(Clone, Copy, PartialEq, Eq, Structural, Debug)]
pub struct DamageEvent {
    pub amount: i64,
    pub pos: Vec2i,
    pub color: DamageNumberColor,
}


/// Replaying the events of window `[a, b)` over a health value: each
/// player-damage number takes its amount (flooring at zero), each heal
/// number adds its amount (capped at full health), and enemy-damage
/// numbers leave the player alone.
pub open spec fn spec_replay_events(
    h: int,
    maxh: int,
    evs: Seq<DamageEvent>,
    a: int,
    b: int,
) -> int
    decreases b - a,
{
    if b <= a {
        h
    } else {
        let prev = spec_replay_events(h, maxh, evs, a, b - 1);
        let e = evs[b - 1];
        match e.color {
            DamageNumberColor::PlayerDamage => if prev - e.amount >= 0 {
                prev - e.amount
            } else {
                0
            },
            DamageNumberColor::PlayerHeal => if prev + e.amount <= maxh {
                prev + e.amount
            } else {
                maxh
            },
            DamageNumberColor::EnemyDamage => prev,
        }
    }
}

/// The replay reads only the window it is given.
pub proof fn lemma_replay_prefix_agree(
    h: int,
    maxh: int,
    s1: Seq<DamageEvent>,
    s2: Seq<DamageEvent>,
    a: int,
    b: int,
)
    requires
        0 <= a <= b <= s1.len(),
        b <= s2.len(),
        s1.subrange(a, b) == s2.subrange(a, b),
    ensures
        spec_replay_events(h, maxh, s1, a, b) == spec_replay_events(h, maxh, s2, a, b),
    decreases b - a,
{
    if b > a {
        assert(s1.subrange(a, b)[b - 1 - a] == s1[b - 1]);
        assert(s2.subrange(a, b)[b - 1 - a] == s2[b - 1]);
        assert(s1.subrange(a, b - 1) =~= s1.subrange(a, b).subrange(0, b - 1 - a));
        assert(s2.subrange(a, b - 1) =~= s2.subrange(a, b).subrange(0, b - 1 - a));
        lemma_replay_prefix_agree(h, maxh, s1, s2, a, b - 1);
    }
}

/// Replaying a window splits at any midpoint.
pub proof fn lemma_replay_compose(h: int, maxh: int, s: Seq<DamageEvent>, a: int, b: int, c: int)
    requires
        a <= b <= c,
    ensures
        spec_replay_events(h, maxh, s, a, c) == spec_replay_events(
            spec_replay_events(h, maxh, s, a, b),
            maxh,
            s,
            b,
            c,
        ),
    decreases c - b,
{
    if c > b {
        lemma_replay_compose(h, maxh, s, a, b, c - 1);
    }
}

} // verus!
