//! A sector: the systems generated over a rectangle of hexes.
use vstd::prelude::*;

use crate::rng::Seed;
use crate::system::System;

verus! {

/// The systems of a sector, in row-major order of their hexes, with the
/// seed that produced them. Hexes without a system have no entry.
#[derive(Debug, Clone, PartialEq, Eq)]
pub struct Sector {
    pub seed: Seed,
    pub systems: Vec<System>,
}

} // verus!
