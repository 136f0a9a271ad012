//! The galaxy: a stateless wrapper over one top-level seed, from which
//! sectors and systems are derived on demand.
use vstd::prelude::*;

use crate::coordinate::Coordinate;
use crate::generators::{
    generate_sector, generate_system, hex_seed_value, sector_from_seed, system_from_seed,
};
use crate::rng::{child_seed_bytes, root_seed_bytes, sip_hash_of, Seed};
use crate::sector::Sector;
use crate::system::System;

verus! {

/// Rows and columns of a sector.
pub const SECTOR_ROWS: u32 = 8;

pub const SECTOR_COLS: u32 = 10;

#[derive(Debug, Clone, PartialEq, Eq)]
pub struct Galaxy {
    pub seed: Seed,
}

/// The value of the seed of a sector, from the galaxy's label and value.
pub open spec fn sector_seed_value(label: Seq<char>, galaxy: u64, sector: Coordinate) -> u64 {
    sip_hash_of(child_seed_bytes(label, galaxy, seq![sector]))
}

impl Galaxy {
    /// The galaxy of a label: its seed is the hash of the label alone.
    pub fn new(seed: String) -> (r: Self)
        ensures
            r.seed.top_level_seed@ == seed@,
            r.seed.seed == sip_hash_of(root_seed_bytes(seed@, Seq::empty())),
    {
        let label_inputs: Vec<&str> = Vec::new();
        Self { seed: Seed::new(seed, label_inputs) }
    }

    /// A galaxy of a seed drawn from the environment.
    pub fn random() -> (r: Self)
        ensures
            r.seed.top_level_seed@ == Seq::<char>::empty(),
    {
        Self { seed: Seed::random() }
    }

    /// The sector at a coordinate: 8 rows by 10 columns, generated from the
    /// galaxy seed's subseed for the coordinate.
    pub fn get_sector(&self, coordinate: Coordinate) -> (r: Sector)
        ensures
            r.seed.top_level_seed@ == self.seed.top_level_seed@,
            r.seed.seed == sector_seed_value(
                self.seed.top_level_seed@,
                self.seed.seed,
                coordinate,
            ),
            r.systems@.len() <= SECTOR_ROWS * SECTOR_COLS,
            sector_from_seed(r.systems@, r.seed, SECTOR_ROWS as int, SECTOR_COLS as int),
    {
        let context = vec![coordinate];
        assert(context@ =~= seq![coordinate]);
        let sector_seed = self.seed.subseed(context);
        generate_sector(sector_seed, SECTOR_ROWS, SECTOR_COLS)
    }

    /// The system at a hex of a sector, generated from the subseed of the
    /// hex within the subseed of the sector: the same seed as the system at
    /// that hex in `get_sector`, so the two agree in every attribute (see
    /// `lemma_system_determined`).
    pub fn get_system(&self, sec_coordinate: Coordinate, hex_coordinate: Coordinate) -> (r:
        System)
        ensures
            r.location == hex_coordinate,
            r.wf(),
            system_from_seed(
                &r,
                hex_seed_value(
                    self.seed.top_level_seed@,
                    sector_seed_value(self.seed.top_level_seed@, self.seed.seed, sec_coordinate),
                    hex_coordinate,
                ),
                hex_coordinate,
            ),
    {
        let sector_context = vec![sec_coordinate];
        assert(sector_context@ =~= seq![sec_coordinate]);
        let hex_context = vec![hex_coordinate];
        assert(hex_context@ =~= seq![hex_coordinate]);
        let seed = self.seed.subseed(sector_context).subseed(hex_context);
        generate_system(seed, hex_coordinate)
    }
}

} // verus!
