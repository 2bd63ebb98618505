//! The modifier engine: a growing multiset of acquired powerups, one
//! per playing-card suit, and the derived effect values applied at each
//! hit or shot. The deterministic effects (stun, pierce, speed) are
//! exact functions of the counts; the probabilistic ones (heal, damage
//! doubling) roll once per accumulated instance.

use vstd::prelude::*;

use crate::consts;
use crate::rng;

verus! {

#[derive(Clone, Copy, PartialEq, Eq, Structural, Debug)]
pub enum Powerup {
    Diamonds,
    Hearts,
    Clubs,
    Spades,
}

/// How many entries of `s` equal `p`.
pub open spec fn count_in_seq(s: Seq<Powerup>, p: Powerup) -> int
    decreases s.len(),
{
    if s.len() == 0 {
        0
    } else {
        count_in_seq(s.drop_last(), p) + if s.last() == p {
            1int
        } else {
            0int
        }
    }
}

pub proof fn lemma_count_in_seq_bounds(s: Seq<Powerup>, p: Powerup)
    ensures
        0 <= count_in_seq(s, p) <= s.len(),
    decreases s.len(),
{
    if s.len() > 0 {
        lemma_count_in_seq_bounds(s.drop_last(), p);
    }
}

/// No two entries of `s` are equal.
pub open spec fn distinct_seq(s: Seq<Powerup>) -> bool {
    forall|i: int, j: int| 0 <= i < j < s.len() ==> s[i] != s[j]
}

/// Four pairwise different values cannot all sit in a sequence of
/// fewer than four distinct entries.
proof fn lemma_four_distinct_len(s: Seq<Powerup>)
    requires
        distinct_seq(s),
        s.contains(Powerup::Diamonds),
        s.contains(Powerup::Hearts),
        s.contains(Powerup::Clubs),
        s.contains(Powerup::Spades),
    ensures
        s.len() >= 4,
{
    let i = choose|i: int| 0 <= i < s.len() && s[i] == Powerup::Diamonds;
    let j = choose|j: int| 0 <= j < s.len() && s[j] == Powerup::Hearts;
    let k = choose|k: int| 0 <= k < s.len() && s[k] == Powerup::Clubs;
    let l = choose|l: int| 0 <= l < s.len() && s[l] == Powerup::Spades;
    assert(i != j && i != k && i != l && j != k && j != l && k != l);
}

impl Powerup {
    /// One of the four powerups, chosen by a uniform roll. Which one
    /// comes out cannot be promised.
    pub fn pick_card() -> Powerup {
        let roll: u32 = rng::gen_index(4);
        if roll == 0 {
            Powerup::Diamonds
        } else if roll == 1 {
            Powerup::Hearts
        } else if roll == 2 {
            Powerup::Clubs
        } else {
            Powerup::Spades
        }
    }

    /// Three pairwise different random powerups. Random draws are tried
    /// a bounded number of times; any slots still open afterwards are
    /// filled with the missing suits in a fixed order.
    pub fn pick_three() -> (r: Vec<Powerup>)
        ensures
            r@.len() == 3,
            distinct_seq(r@),
    {
        let mut picked: Vec<Powerup> = Vec::new();
        let mut tries: u64 = 0;
        while tries < 64
            invariant
                picked@.len() <= 3,
                distinct_seq(picked@),
            decreases 64 - tries,
        {
            if picked.len() < 3 {
                let p = Powerup::pick_card();
                if !contains_powerup(&picked, p) {
                    push_distinct(&mut picked, p);
                }
            }
            tries = tries + 1;
        }
        if picked.len() < 3 && !contains_powerup(&picked, Powerup::Diamonds) {
            push_distinct(&mut picked, Powerup::Diamonds);
        }
        if picked.len() < 3 && !contains_powerup(&picked, Powerup::Hearts) {
            push_distinct(&mut picked, Powerup::Hearts);
        }
        if picked.len() < 3 && !contains_powerup(&picked, Powerup::Clubs) {
            push_distinct(&mut picked, Powerup::Clubs);
        }
        if picked.len() < 3 && !contains_powerup(&picked, Powerup::Spades) {
            push_distinct(&mut picked, Powerup::Spades);
        }
        proof {
            if picked@.len() < 3 {
                lemma_four_distinct_len(picked@);
            }
        }
        picked
    }
}

/// Whether `p` occurs in `v`.
fn contains_powerup(v: &Vec<Powerup>, p: Powerup) -> (r: bool)
    ensures
        r == v@.contains(p),
{
    let mut i: usize = 0;
    while i < v.len()
        invariant
            i <= v@.len(),
            forall|k: int| 0 <= k < i ==> v@[k] != p,
        decreases v@.len() - i,
    {
        if v[i] == p {
            return true;
        }
        i = i + 1;
    }
    false
}

/// Push a value known to be absent, keeping distinctness.
fn push_distinct(v: &mut Vec<Powerup>, p: Powerup)
    requires
        distinct_seq(old(v)@),
        !old(v)@.contains(p),
        old(v)@.len() < 100,
    ensures
        final(v)@ == old(v)@.push(p),
        distinct_seq(final(v)@),
        final(v)@.contains(p),
{
    v.push(p);
    proof {
        assert(v@[v@.len() - 1] == p);
        assert forall|i: int, j: int| 0 <= i < j < v@.len() implies v@[i] != v@[j] by {
            if j < v@.len() - 1 {
                assert(old(v)@[i] != old(v)@[j]);
            } else {
                assert(v@[i] == old(v)@[i]);
            }
        }
    }
}

pub struct Powerups {
    pub powerups: Vec<Powerup>,
}

impl Powerups {
    /// The accumulator stays small enough for every derived value to
    /// fit comfortably in the integer types below.
    pub open spec fn wf(self) -> bool {
        self.powerups@.len() <= 1_000_000_000
    }

    pub open spec fn spec_count(self, p: Powerup) -> int {
        count_in_seq(self.powerups@, p)
    }

    pub fn new() -> (r: Powerups)
        ensures
            r.wf(),
            r.powerups@.len() == 0,
    {
        Powerups { powerups: Vec::new() }
    }

    /// Acquire one more modifier; the multiset only ever grows.
    pub fn add(&mut self, powerup: Powerup)
        requires
            old(self).wf(),
            old(self).powerups@.len() < 1_000_000_000,
        ensures
            final(self).wf(),
            final(self).powerups@ == old(self).powerups@.push(powerup),
    {
        self.powerups.push(powerup);
    }

    /// How many modifiers of the given suit have been acquired.
    pub fn count(&self, powerup: &Powerup) -> (n: usize)
        ensures
            n == self.spec_count(*powerup),
    {
        let mut n: usize = 0;
        let mut i: usize = 0;
        proof {
            assert(self.powerups@.subrange(0, 0) =~= Seq::<Powerup>::empty());
        }
        while i < self.powerups.len()
            invariant
                i <= self.powerups@.len(),
                n <= i,
                n == count_in_seq(self.powerups@.subrange(0, i as int), *powerup),
            decreases self.powerups@.len() - i,
        {
            proof {
                let pre = self.powerups@.subrange(0, i as int);
                let post = self.powerups@.subrange(0, i + 1);
                assert(post.drop_last() =~= pre);
                assert(post.last() == self.powerups@[i as int]);
            }
            if self.powerups[i] == *powerup {
                n = n + 1;
            }
            i = i + 1;
        }
        proof {
            assert(self.powerups@.subrange(0, self.powerups@.len() as int) =~= self.powerups@);
        }
        n
    }

    /// Pierce capacity for a diamonds shot: one hit per diamonds
    /// modifier, plus the one every projectile gets.
    pub fn diamonds_bullet_hp(&self) -> (hp: i64)
        requires
            self.wf(),
        ensures
            hp == self.spec_count(Powerup::Diamonds) + 1,
    {
        proof {
            lemma_count_in_seq_bounds(self.powerups@, Powerup::Diamonds);
        }
        let n: usize = self.count(&Powerup::Diamonds);
        n as i64 + 1
    }

    /// One independent roll per hearts modifier; each success heals one
    /// point. With no hearts modifiers the amount is always zero.
    pub fn hearts_heal_amount(&self) -> (amount: i64)
        requires
            self.wf(),
        ensures
            0 <= amount <= self.spec_count(Powerup::Hearts),
            self.spec_count(Powerup::Hearts) == 0 ==> amount == 0,
    {
        proof {
            lemma_count_in_seq_bounds(self.powerups@, Powerup::Hearts);
        }
        let n: usize = self.count(&Powerup::Hearts);
        let mut amount: i64 = 0;
        let mut i: usize = 0;
        while i < n
            invariant
                i <= n,
                0 <= amount <= i,
                n <= 1_000_000_000,
            decreases n - i,
        {
            if rng::percent_roll(consts::HEARTS_HEAL_CHANCE_PERCENT) {
                amount = amount + 1;
            }
            i = i + 1;
        }
        amount
    }

    /// Deterministic stun bonus: a fixed increment per clubs modifier.
    pub fn clubs_stun_time(&self) -> (stun_ms: i64)
        requires
            self.wf(),
        ensures
            stun_ms == self.spec_count(Powerup::Clubs) * consts::CLUBS_STUN_TIME_MS,
    {
        proof {
            lemma_count_in_seq_bounds(self.powerups@, Powerup::Clubs);
        }
        let n: usize = self.count(&Powerup::Clubs);
        n as i64 * consts::CLUBS_STUN_TIME_MS
    }

    /// One independent roll per spades modifier; each success earns one
    /// damage doubling. With no spades modifiers the answer is zero.
    pub fn spades_damage_mod(&self) -> (doublings: u64)
        requires
            self.wf(),
        ensures
            doublings <= self.spec_count(Powerup::Spades),
            self.spec_count(Powerup::Spades) == 0 ==> doublings == 0,
    {
        proof {
            lemma_count_in_seq_bounds(self.powerups@, Powerup::Spades);
        }
        let n: usize = self.count(&Powerup::Spades);
        let mut doublings: u64 = 0;
        let mut i: usize = 0;
        while i < n
            invariant
                i <= n,
                doublings <= i,
                n <= 1_000_000_000,
            decreases n - i,
        {
            if rng::percent_roll(consts::SPADES_DAMAGE_CHANCE_PERCENT) {
                doublings = doublings + 1;
            }
            i = i + 1;
        }
        doublings
    }

    /// Deterministic linear player-speed multiplier, milli-units.
    pub fn speed_mod_milli(&self) -> (m: u64)
        requires
            self.wf(),
        ensures
            m == 1000 + consts::SPEED_MOD_PER_POWERUP_MILLI * self.powerups@.len(),
    {
        1000 + consts::SPEED_MOD_PER_POWERUP_MILLI * self.powerups.len() as u64
    }

    /// Deterministic mitigation of a weapon movement penalty: each
    /// modifier gives back a fixed slice, capped at full speed.
    pub fn ms_penalty_mod_milli(&self, penalty_milli: i64) -> (m: i64)
        requires
            self.wf(),
            0 <= penalty_milli <= 1000,
        ensures
            m == if penalty_milli + consts::MS_MITIGATION_PER_POWERUP_MILLI * self.powerups@.len()
                <= 1000 {
                penalty_milli + consts::MS_MITIGATION_PER_POWERUP_MILLI * self.powerups@.len()
            } else {
                1000int
            },
            0 <= m <= 1000,
    {
        let bonus: u64 = consts::MS_MITIGATION_PER_POWERUP_MILLI * self.powerups.len() as u64;
        if bonus >= 1000 || penalty_milli + bonus as i64 >= 1000 {
            1000
        } else {
            penalty_milli + bonus as i64
        }
    }
}

} // verus!
