//! System and sector composition: the fixed order of generation steps for
//! a system, and the presence rolls that place systems in a sector.
use vstd::prelude::*;

use crate::coordinate::Coordinate;
use crate::extensions::{at_least, extensions_of, importance_of, Extensions};
use crate::rng::{child_seed_bytes, flux_of, roll_of, sip_hash_of, stream_of, DiceState, Rollable, Seed};
use crate::sector::Sector;
use crate::stargen::{generate_stars, stars_draws_of, stars_of};
use crate::star::{habitable_zone_table, max_int};
use crate::world::{MainWorldType, TravelZone, World};
use crate::system::System;
use crate::uwp::{generate_mainworld, mainworld_draws_of, profile_of};

verus! {

/// The habitable-zone variance of a flux: -6 gives -2, -5..=-3 gives -1,
/// 3..=5 gives +1, 6 gives +2, anything else 0.
pub open spec fn variance_of(flux: int) -> int {
    if flux == -6 {
        -2
    } else if -5 <= flux <= -3 {
        -1
    } else if 3 <= flux <= 5 {
        1
    } else if flux == 6 {
        2
    } else {
        0
    }
}

/// The number of gas giants of a 2d6 roll: half the roll less two, rounded
/// half away from zero, floored at 0.
pub open spec fn gas_giants_of(roll: int) -> int {
    if roll <= 3 {
        0
    } else {
        (roll - 3) / 2
    }
}

/// Whether a presence roll places a system in its hex.
pub open spec fn occupied(roll: int) -> bool {
    roll > 4
}

/// The hex of the `k`-th presence roll, in row-major order from (1, 1).
pub open spec fn hex_at(k: int, col_count: int) -> Coordinate {
    Coordinate { row: (k / col_count + 1) as i32, col: (k % col_count + 1) as i32 }
}

/// The hexes whose presence roll succeeded, in row-major order.
pub open spec fn occupied_hexes(rolls: Seq<i32>, col_count: int) -> Seq<Coordinate>
    decreases rolls.len(),
{
    if rolls.len() == 0 {
        Seq::empty()
    } else if occupied(rolls.last() as int) {
        occupied_hexes(rolls.drop_last(), col_count).push(hex_at(rolls.len() - 1, col_count))
    } else {
        occupied_hexes(rolls.drop_last(), col_count)
    }
}

/// The system the rules give for a seed at a location: each value comes
/// from the seed's dice stream, drawn in order: stars, habitable-zone
/// variance, mainworld profile and bases, belts (1d6-3, floored at 0), gas
/// giants (from 2d6), world count (2d6 plus one, the gas giants and the
/// belts), extensions. The mainworld is a planet in a green zone at the
/// primary's habitable-zone orbit; name and allegiance are empty.
pub open spec fn system_from_seed(r: &System, seed: u64, location: Coordinate) -> bool {
    let (sd, st1) = stars_draws_of(stream_of(seed));
    let stars = stars_of(sd);
    let (f, st2) = flux_of(st1, 0);
    let hz = variance_of(f);
    let orbit = max_int(
        habitable_zone_table(stars.primary.spec_class(), stars.primary.spec_size()) - hz,
        0,
    );
    let (profile, bases, st3) = mainworld_draws_of(st2);
    let (b, st4) = roll_of(st3, 1, 6, -3);
    let belts = at_least(b, 0);
    let (g, st5) = roll_of(st4, 2, 6, 0);
    let gas_giants = gas_giants_of(g);
    let (worlds, st6) = roll_of(st5, 2, 6, 1 + gas_giants + belts);
    let (extensions, st7) = extensions_of(
        st6,
        importance_of(&r.mainworld),
        profile.population as int,
        profile.tech as int,
        gas_giants + belts,
    );
    &&& r.location == location
    &&& r.stars == stars
    &&& r.mainworld.hz_variance == hz
    &&& r.mainworld.orbit == orbit
    &&& profile_of(&r.mainworld) == profile
    &&& r.mainworld.bases@ == bases
    &&& r.mainworld.mainworld_type == MainWorldType::Planet
    &&& r.mainworld.travel_zone == TravelZone::Green
    &&& r.belts == belts
    &&& r.gas_giants == gas_giants
    &&& r.worlds == worlds
    &&& r.extensions == extensions
    &&& r.name@ == Seq::<char>::empty()
    &&& r.allegiance@ == Seq::<char>::empty()
}

/// Two worlds agree in every attribute.
pub open spec fn same_world(a: &World, b: &World) -> bool {
    &&& a.mainworld_type == b.mainworld_type
    &&& a.hz_variance == b.hz_variance
    &&& a.orbit == b.orbit
    &&& profile_of(a) == profile_of(b)
    &&& a.bases@ == b.bases@
    &&& a.travel_zone == b.travel_zone
}

/// Two systems agree in every attribute.
pub open spec fn same_system(a: &System, b: &System) -> bool {
    &&& a.location == b.location
    &&& a.name@ == b.name@
    &&& a.stars == b.stars
    &&& same_world(&a.mainworld, &b.mainworld)
    &&& a.extensions == b.extensions
    &&& a.worlds == b.worlds
    &&& a.belts == b.belts
    &&& a.gas_giants == b.gas_giants
    &&& a.allegiance@ == b.allegiance@
}

/// Determinism: two systems generated from equal seed values at equal
/// locations agree in every attribute.
pub proof fn lemma_system_determined(a: &System, b: &System, seed: u64, location: Coordinate)
    requires
        system_from_seed(a, seed, location),
        system_from_seed(b, seed, location),
    ensures
        same_system(a, b),
{
    assert(profile_of(&a.mainworld) == profile_of(&b.mainworld));
    assert(a.mainworld.bases@ == b.mainworld.bases@);
    assert(importance_of(&a.mainworld) == importance_of(&b.mainworld));
}

pub fn habitable_zone_variance(flux: i32) -> (r: i32)
    ensures
        r == variance_of(flux as int),
{
    if flux == -6 {
        -2
    } else if -5 <= flux && flux <= -3 {
        -1
    } else if 3 <= flux && flux <= 5 {
        1
    } else if flux == 6 {
        2
    } else {
        0
    }
}

pub fn gas_giants_from_roll(roll: i32) -> (r: i32)
    ensures
        r == gas_giants_of(roll as int),
{
    if roll <= 3 {
        0
    } else {
        (roll - 3) / 2
    }
}

/// Generates the system of a seed at a location. Its steps, in order:
/// stars, habitable-zone variance, mainworld at the primary's
/// habitable-zone orbit, belts, gas giants, world count, extensions.
pub fn generate_system(seed: Seed, location: Coordinate) -> (r: System)
    ensures
        r.location == location,
        r.wf(),
        r.mainworld.orbit == crate::star::max_int(
            crate::star::habitable_zone_table(
                r.stars.primary.spec_class(),
                r.stars.primary.spec_size(),
            ) - r.mainworld.hz_variance,
            0,
        ),
        r.extensions.labor == at_least(r.mainworld.population - 1, 0),
        r.mainworld.population == 0 ==> r.extensions.heterogeneity == 0
            && r.extensions.acceptance == 0 && r.extensions.strangeness == 0
            && r.extensions.symbols == 0,
        r.mainworld.population != 0 ==> r.extensions.acceptance == at_least(
            r.mainworld.population + r.extensions.importance,
            1,
        ),
        r.extensions.importance == importance_of(&r.mainworld),
        r.mainworld.tech > 7 ==> 2 + r.belts + r.gas_giants <= r.extensions.resources <= 12
            + r.belts + r.gas_giants,
        r.mainworld.tech <= 7 ==> 2 <= r.extensions.resources <= 12,
        -5 <= r.extensions.efficiency <= 5,
        system_from_seed(&r, seed.seed, location),
{
    let mut rng = seed.to_rng();
    let stars = generate_stars(&mut rng);
    let f = rng.flux(0);
    let hz_variance = habitable_zone_variance(f);
    assert(hz_variance == variance_of(f as int));
    let orbit = stars.primary.habitable_zone_orbit(hz_variance);
    let mainworld = generate_mainworld(&mut rng, hz_variance, orbit);

    let b = rng.roll(1, 6, -3);
    let belts = if b < 0 {
        0
    } else {
        b
    };
    let g = rng.roll(2, 6, 0);
    let gas_giants = gas_giants_from_roll(g);
    assert(gas_giants == gas_giants_of(g as int));
    let worlds = rng.roll(2, 6, 1 + gas_giants + belts);

    let extensions = Extensions::new(&mut rng, &mainworld, gas_giants + belts);

    System {
        location,
        name: String::new(),
        stars,
        mainworld,
        extensions,
        worlds,
        belts,
        gas_giants,
        allegiance: String::new(),
    }
}

/// The presence rolls (1d6 each) of `n` hexes as drawn from a stream, and
/// the stream after them.
pub open spec fn presence_of(st: DiceState, n: nat) -> (Seq<i32>, DiceState)
    decreases n,
{
    if n == 0 {
        (Seq::empty(), st)
    } else {
        let (prev, st1) = presence_of(st, (n - 1) as nat);
        let (roll, st2) = roll_of(st1, 1, 6, 0);
        (prev.push(roll as i32), st2)
    }
}

/// The value of the seed of the hex `hex` within a sector seed of a label
/// and value.
pub open spec fn hex_seed_value(label: Seq<char>, sector: u64, hex: Coordinate) -> u64 {
    sip_hash_of(child_seed_bytes(label, sector, seq![hex]))
}

/// One 1d6 presence roll for each of `n` hexes, in order.
pub fn presence_rolls<R: Rollable>(rng: &mut R, n: usize) -> (r: Vec<i32>)
    ensures
        r@.len() == n,
        forall|k: int| 0 <= k < n ==> 1 <= #[trigger] r@[k] <= 6,
        (r@, final(rng).state()) == presence_of(old(rng).state(), n as nat),
{
    let mut rolls: Vec<i32> = Vec::new();
    let mut k: usize = 0;
    while k < n
        invariant
            k <= n,
            rolls@.len() == k,
            forall|j: int| 0 <= j < k ==> 1 <= #[trigger] rolls@[j] <= 6,
            (rolls@, rng.state()) == presence_of(old(rng).state(), k as nat),
        decreases n - k,
    {
        let roll = rng.roll(1, 6, 0);
        rolls.push(roll);
        k += 1;
    }
    rolls
}

/// Places a system on each hex whose presence roll exceeds 4, in
/// row-major order, each generated from the sector seed's subseed for its
/// hex.
pub fn place_systems(seed: &Seed, col_count: u32, rolls: &Vec<i32>) -> (r: Vec<System>)
    requires
        col_count >= 1,
        rolls@.len() <= (i32::MAX as int) * (col_count as int),
    ensures
        r@.len() == occupied_hexes(rolls@, col_count as int).len(),
        forall|i: int|
            0 <= i < r@.len() ==> (#[trigger] r@[i]).location == occupied_hexes(
                rolls@,
                col_count as int,
            )[i] && r@[i].wf() && system_from_seed(
                &r@[i],
                hex_seed_value(seed.top_level_seed@, seed.seed, r@[i].location),
                r@[i].location,
            ),
{
    let mut systems: Vec<System> = Vec::new();
    let mut k: usize = 0;
    while k < rolls.len()
        invariant
            col_count >= 1,
            rolls@.len() <= (i32::MAX as int) * (col_count as int),
            k <= rolls@.len(),
            systems@.len() == occupied_hexes(rolls@.take(k as int), col_count as int).len(),
            forall|i: int|
                0 <= i < systems@.len() ==> (#[trigger] systems@[i]).location == occupied_hexes(
                    rolls@.take(k as int),
                    col_count as int,
                )[i] && systems@[i].wf() && system_from_seed(
                    &systems@[i],
                    hex_seed_value(seed.top_level_seed@, seed.seed, systems@[i].location),
                    systems@[i].location,
                ),
        decreases rolls@.len() - k,
    {
        proof {
            assert(rolls@.take(k + 1).drop_last() =~= rolls@.take(k as int));
            if k < rolls@.len() {
                let q = k as int / col_count as int;
                vstd::arithmetic::div_mod::lemma_fundamental_div_mod(k as int, col_count as int);
                assert(q < i32::MAX) by (nonlinear_arith)
                    requires
                        k as int == (col_count as int) * q + (k as int) % (col_count as int),
                        (k as int) % (col_count as int) >= 0,
                        (k as int) < (i32::MAX as int) * (col_count as int),
                        col_count >= 1,
                ;
            }
        }
        if rolls[k] > 4 {
            let row = (k / col_count as usize + 1) as i32;
            let col = (k % col_count as usize + 1) as i32;
            let coordinate = Coordinate::new(row, col);
            let context = vec![coordinate];
            assert(context@ =~= seq![coordinate]);
            let subseed = seed.subseed(context);
            let system = generate_system(subseed, coordinate);
            systems.push(system);
        }
        k += 1;
    }
    assert(rolls@.take(rolls@.len() as int) =~= rolls@);
    systems
}

/// The presence rolls of a sector of `row_count` rows and `col_count`
/// columns, drawn in row-major order from its seed's stream.
pub open spec fn sector_rolls(seed: u64, row_count: int, col_count: int) -> Seq<i32> {
    presence_of(stream_of(seed), (row_count * col_count) as nat).0
}

/// The systems of a sector as its seed gives them: one on each hex whose
/// presence roll exceeds 4, in row-major order, each the system of the
/// seed's subseed for its hex.
pub open spec fn sector_from_seed(
    systems: Seq<System>,
    seed: Seed,
    row_count: int,
    col_count: int,
) -> bool {
    let hexes = occupied_hexes(sector_rolls(seed.seed, row_count, col_count), col_count);
    &&& systems.len() == hexes.len()
    &&& forall|i: int|
        0 <= i < systems.len() ==> (#[trigger] systems[i]).location == hexes[i]
            && systems[i].wf() && system_from_seed(
            &systems[i],
            hex_seed_value(seed.top_level_seed@, seed.seed, hexes[i]),
            hexes[i],
        )
}

/// A sector is a function of its seed and extent: two sectors generated
/// from equal seeds with equal extents hold the same number of systems, and
/// their systems agree one by one in every attribute.
pub proof fn lemma_sector_determined(
    a: Seq<System>,
    b: Seq<System>,
    seed: Seed,
    row_count: int,
    col_count: int,
)
    requires
        sector_from_seed(a, seed, row_count, col_count),
        sector_from_seed(b, seed, row_count, col_count),
    ensures
        a.len() == b.len(),
        forall|i: int| 0 <= i < a.len() ==> same_system(&a[i], &b[i]),
{
    let hexes = occupied_hexes(sector_rolls(seed.seed, row_count, col_count), col_count);
    assert forall|i: int| 0 <= i < a.len() implies same_system(&a[i], &b[i]) by {
        assert(system_from_seed(&a[i], hex_seed_value(seed.top_level_seed@, seed.seed, hexes[i]), hexes[i]));
        assert(system_from_seed(&b[i], hex_seed_value(seed.top_level_seed@, seed.seed, hexes[i]), hexes[i]));
        lemma_system_determined(&a[i], &b[i], hex_seed_value(seed.top_level_seed@, seed.seed, hexes[i]), hexes[i]);
    }
}

/// Generates a sector of `row_count` rows and `col_count` columns: one
/// presence roll per hex from the sector seed's stream, in row-major
/// order, and a system on each hex whose roll exceeds 4.
pub fn generate_sector(seed: Seed, row_count: u32, col_count: u32) -> (r: Sector)
    requires
        row_count <= i32::MAX,
        col_count <= i32::MAX,
        row_count * col_count <= usize::MAX,
    ensures
        r.seed == seed,
        r.systems@.len() <= row_count * col_count,
        sector_from_seed(r.systems@, seed, row_count as int, col_count as int),
{
    let mut rng = seed.to_rng();
    if col_count == 0 || row_count == 0 {
        assert(sector_rolls(seed.seed, row_count as int, col_count as int) =~= Seq::<i32>::empty());
        assert(occupied_hexes(Seq::<i32>::empty(), col_count as int).len() == 0);
        return Sector { seed, systems: Vec::new() };
    }
    let n = (row_count as usize) * (col_count as usize);
    let rolls = presence_rolls(&mut rng, n);
    proof {
        assert(rolls@.len() <= (i32::MAX as int) * (col_count as int)) by (nonlinear_arith)
            requires
                rolls@.len() == (row_count as int) * (col_count as int),
                row_count <= i32::MAX,
                col_count >= 1,
        ;
        lemma_occupied_at_most(rolls@, col_count as int);
    }
    let systems = place_systems(&seed, col_count, &rolls);
    Sector { seed, systems }
}

/// A sector holds no more systems than hexes, and none at all when every
/// presence roll fails.
pub proof fn lemma_occupied_at_most(rolls: Seq<i32>, col_count: int)
    ensures
        occupied_hexes(rolls, col_count).len() <= rolls.len(),
        (forall|k: int| 0 <= k < rolls.len() ==> !occupied(#[trigger] rolls[k] as int))
            ==> occupied_hexes(rolls, col_count).len() == 0,
    decreases rolls.len(),
{
    if rolls.len() > 0 {
        lemma_occupied_at_most(rolls.drop_last(), col_count);
        if forall|k: int| 0 <= k < rolls.len() ==> !occupied(#[trigger] rolls[k] as int) {
            assert(!occupied(rolls[rolls.len() - 1] as int));
            assert forall|k: int| 0 <= k < rolls.drop_last().len() implies !occupied(
                #[trigger] rolls.drop_last()[k] as int,
            ) by {
                assert(rolls.drop_last()[k] == rolls[k]);
            }
        }
    }
}

} // verus!
