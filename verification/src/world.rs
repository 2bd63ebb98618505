//! The world's tile palette and its adjacency rule. Laying tiles out
//! and drawing them is presentation work outside this crate; the rule
//! deciding which tiles may neighbour each other is simulation logic.

use vstd::prelude::*;

verus! {

#[derive(Clone, Copy, PartialEq, Eq, Structural, Debug)]
pub enum Tile {
    /// A background tile, by palette index.
    Background(usize),
    Black,
}

/// Two background tiles may sit side by side only when their palette
/// indices differ by at most one; nothing may sit next to black.
pub open spec fn spec_can_place_next_to(a: Tile, b: Tile) -> bool {
    match (a, b) {
        (Tile::Background(i), Tile::Background(j)) => -1 <= i - j <= 1,
        _ => false,
    }
}

impl Tile {
    pub fn can_place_next_to(&self, other: &Tile) -> (r: bool)
        ensures
            r == spec_can_place_next_to(*self, *other),
    {
        match (self, other) {
            (Tile::Background(i), Tile::Background(j)) => {
                let a: i128 = *i as i128;
                let b: i128 = *j as i128;
                -1 <= a - b && a - b <= 1
            },
            _ => false,
        }
    }
}

} // verus!
