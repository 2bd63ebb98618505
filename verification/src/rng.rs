//! The only door through which randomness enters the simulation.
//!
//! Every probabilistic rule in the crate (heal rolls, damage doubling,
//! spawn variants, shuffles) is verified logic over the output of these
//! few draws, so nothing below says more than the generator's source
//! shows of every possible outcome.

use vstd::prelude::*;

verus! {

/// Relies on `macroquad::rand::gen_range::<u32>`: it scales one
/// generator draw, a value in [0, 2^32), by `n / 2^32` and truncates,
/// so for positive `n` the result always lies below `n`.
#[verifier::external_body]
pub(crate) fn gen_index(n: u32) -> (r: u32)
    requires
        n >= 1,
    ensures
        r < n,
{
    macroquad::rand::gen_range::<u32>(0, n)
}

/// A draw from [lo, hi), built on `gen_index`.
pub(crate) fn gen_between(lo: i64, hi: i64) -> (r: i64)
    requires
        lo < hi,
        hi - lo <= u32::MAX,
    ensures
        lo <= r < hi,
{
    let span: u32 = (hi - lo) as u32;
    let off: u32 = gen_index(span);
    lo + off as i64
}

/// True with probability about `percent` in 100. Nothing can be promised
/// of a single outcome; callers state what holds either way.
pub(crate) fn percent_roll(percent: u32) -> bool {
    gen_index(100) < percent
}

} // verus!
