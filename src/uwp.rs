//! Mainworld generation: the universal world profile, rolled attribute by
//! attribute, each clamped to its range as it is made; then the bases.
use vstd::prelude::*;

use crate::ehex::{ehex_text, to_ehex};
use crate::rng::{roll_of, flux_of, DiceState, Rollable};
use crate::world::{Base, MainWorldType, Starport, TravelZone, World};

verus! {

/// The eight core attributes of a mainworld, with the raw population roll.
#[derive(Debug, Clone, Copy, PartialEq, Eq, Hash, Structural)]
pub struct Uwp {
    pub port: Starport,
    pub size: i32,
    pub atmosphere: i32,
    pub hydrographics: i32,
    pub population: i32,
    pub population_digit: i32,
    pub government: i32,
    pub law: i32,
    pub tech: i32,
}

/// `v` clamped to `lo..=hi`.
pub open spec fn clamped(v: int, lo: int, hi: int) -> int {
    if v < lo {
        lo
    } else if v > hi {
        hi
    } else {
        v
    }
}

/// The starport of a 2d6-2 roll: A A A B B C C D E E X.
pub open spec fn starport_of(roll: int) -> Starport {
    if roll <= 2 {
        Starport::A
    } else if roll <= 4 {
        Starport::B
    } else if roll <= 6 {
        Starport::C
    } else if roll == 7 {
        Starport::D
    } else if roll <= 9 {
        Starport::E
    } else {
        Starport::X
    }
}

/// The tech modifier of a starport: A +6, B +4, C +2, X -4, else 0.
pub open spec fn port_tech_of(port: Starport) -> int {
    match port {
        Starport::A => 6,
        Starport::B => 4,
        Starport::C => 2,
        Starport::X => -4,
        _ => 0,
    }
}

/// The tech modifier of a size: 0..=1 +2, 2..=4 +1, else 0.
pub open spec fn size_tech_of(size: int) -> int {
    if 0 <= size <= 1 {
        2
    } else if 2 <= size <= 4 {
        1
    } else {
        0
    }
}

/// The tech modifier of an atmosphere: 0..=3 or 10..=15 +1, else 0.
pub open spec fn atmosphere_tech_of(atmosphere: int) -> int {
    if (0 <= atmosphere <= 3) || (10 <= atmosphere <= 15) {
        1
    } else {
        0
    }
}

/// The tech modifier of hydrographics: 9 +1, 10 +2, else 0.
pub open spec fn hydrographics_tech_of(hydrographics: int) -> int {
    if hydrographics == 9 {
        1
    } else if hydrographics == 10 {
        2
    } else {
        0
    }
}

/// The tech modifier of a population: 1..=5 +1, 9 +2, 10..=15 +4, else 0.
pub open spec fn population_tech_of(population: int) -> int {
    if 1 <= population <= 5 {
        1
    } else if population == 9 {
        2
    } else if 10 <= population <= 15 {
        4
    } else {
        0
    }
}

/// The tech modifier of a government: 0 or 5 +1, 14 -2, else 0.
pub open spec fn government_tech_of(government: int) -> int {
    if government == 0 || government == 5 {
        1
    } else if government == 14 {
        -2
    } else {
        0
    }
}

/// The sum of the six tech modifiers.
pub open spec fn tech_mod_of(
    port: Starport,
    size: int,
    atmosphere: int,
    hydrographics: int,
    population: int,
    government: int,
) -> int {
    port_tech_of(port) + size_tech_of(size) + atmosphere_tech_of(atmosphere)
        + hydrographics_tech_of(hydrographics) + population_tech_of(population)
        + government_tech_of(government)
}

/// The modifier of the hydrographics flux: the atmosphere, less 4 for an
/// atmosphere of 0..=2 or 10..=15.
pub open spec fn hydrographics_base_of(atmosphere: int) -> int {
    if (0 <= atmosphere <= 2) || (10 <= atmosphere <= 15) {
        atmosphere - 4
    } else {
        atmosphere
    }
}

/// `v` clamped to `lo..=hi`.
pub fn clamp(v: i32, lo: i32, hi: i32) -> (r: i32)
    requires
        lo <= hi,
    ensures
        r == clamped(v as int, lo as int, hi as int),
{
    if v < lo {
        lo
    } else if v > hi {
        hi
    } else {
        v
    }
}

/// The starport of a 2d6-2 roll.
pub fn starport_from_roll(roll: i32) -> (r: Starport)
    requires
        0 <= roll <= 10,
    ensures
        r == starport_of(roll as int),
{
    if roll <= 2 {
        Starport::A
    } else if roll <= 4 {
        Starport::B
    } else if roll <= 6 {
        Starport::C
    } else if roll == 7 {
        Starport::D
    } else if roll <= 9 {
        Starport::E
    } else {
        Starport::X
    }
}

pub fn port_tech(port: Starport) -> (r: i32)
    ensures
        r == port_tech_of(port),
        port == Starport::X ==> r == -4,
{
    match port {
        Starport::A => 6,
        Starport::B => 4,
        Starport::C => 2,
        Starport::X => -4,
        _ => 0,
    }
}

pub fn size_tech(size: i32) -> (r: i32)
    ensures
        r == size_tech_of(size as int),
{
    if 0 <= size && size <= 1 {
        2
    } else if 2 <= size && size <= 4 {
        1
    } else {
        0
    }
}

pub fn atmosphere_tech(atmosphere: i32) -> (r: i32)
    ensures
        r == atmosphere_tech_of(atmosphere as int),
{
    if (0 <= atmosphere && atmosphere <= 3) || (10 <= atmosphere && atmosphere <= 15) {
        1
    } else {
        0
    }
}

pub fn hydrographics_tech(hydrographics: i32) -> (r: i32)
    ensures
        r == hydrographics_tech_of(hydrographics as int),
{
    if hydrographics == 9 {
        1
    } else if hydrographics == 10 {
        2
    } else {
        0
    }
}

pub fn population_tech(population: i32) -> (r: i32)
    ensures
        r == population_tech_of(population as int),
{
    if 1 <= population && population <= 5 {
        1
    } else if population == 9 {
        2
    } else if 10 <= population && population <= 15 {
        4
    } else {
        0
    }
}

pub fn government_tech(government: i32) -> (r: i32)
    ensures
        r == government_tech_of(government as int),
{
    if government == 0 || government == 5 {
        1
    } else if government == 14 {
        -2
    } else {
        0
    }
}

/// The tech modifier: the sum of the contributions of starport, size,
/// atmosphere, hydrographics, population and government.
pub fn tech_mod(
    port: Starport,
    size: i32,
    atmosphere: i32,
    hydrographics: i32,
    population: i32,
    government: i32,
) -> (r: i32)
    ensures
        r == tech_mod_of(port, size as int, atmosphere as int, hydrographics as int, population as int, government as int),
        -6 <= r <= 16,
{
    port_tech(port) + size_tech(size) + atmosphere_tech(atmosphere) + hydrographics_tech(
        hydrographics,
    ) + population_tech(population) + government_tech(government)
}

/// The modifier of the hydrographics flux for an atmosphere.
pub fn hydrographics_base(atmosphere: i32) -> (r: i32)
    requires
        0 <= atmosphere <= 15,
    ensures
        r == hydrographics_base_of(atmosphere as int),
{
    if atmosphere <= 2 || 10 <= atmosphere {
        atmosphere - 4
    } else {
        atmosphere
    }
}

/// The dice drawn for a mainworld's profile: 2d6 totals, single d6
/// faces, and fluxes (one d6 less another). A value that the rules do not
/// call for (a reroll without a 10, the flux of an attribute that is fixed
/// at 0) is ignored.
#[derive(Debug, Clone, Copy, PartialEq, Eq, Hash, Structural)]
pub struct UwpDraws {
    pub port_roll: i32,
    pub size_roll: i32,
    pub size_reroll: i32,
    pub atmosphere_flux: i32,
    pub hydrographics_flux: i32,
    pub population_roll: i32,
    pub population_reroll: i32,
    pub government_flux: i32,
    pub law_flux: i32,
    pub tech_die: i32,
}

impl UwpDraws {
    /// Every value is one the dice can show.
    pub open spec fn in_range(self) -> bool {
        &&& 2 <= self.port_roll <= 12
        &&& 2 <= self.size_roll <= 12
        &&& 1 <= self.size_reroll <= 6
        &&& -5 <= self.atmosphere_flux <= 5
        &&& -5 <= self.hydrographics_flux <= 5
        &&& 2 <= self.population_roll <= 12
        &&& 2 <= self.population_reroll <= 12
        &&& -5 <= self.government_flux <= 5
        &&& -5 <= self.law_flux <= 5
        &&& 1 <= self.tech_die <= 6
    }
}

/// The profile the rules give for the dice drawn:
/// 1. starport: the 2d6-2 entry of A A A B B C C D E E X;
/// 2. size: 2d6-2, where a 10 is replaced by 1d6+9;
/// 3. atmosphere: 0 for size 0, else the flux plus the size, in 0..=15;
/// 4. hydrographics: 0 for size 0 or 1, else the flux plus the
///    hydrographics base of the atmosphere, in 0..=10;
/// 5. population: 2d6-2 (the population digit), where a 10 is replaced by
///    2d6+3;
/// 6. government: 0 without population, else the flux plus the
///    population, in 0..=15;
/// 7. law: 0 without population, else the flux plus the government, in
///    0..=18;
/// 8. tech level: 1d6 plus the tech modifier, in 0..=33.
pub open spec fn uwp_of(d: UwpDraws) -> Uwp {
    let port = starport_of(d.port_roll - 2);
    let size: int = if d.size_roll == 12 {
        d.size_reroll + 9
    } else {
        d.size_roll - 2
    };
    let atmosphere: int = if size == 0 {
        0
    } else {
        clamped(size + d.atmosphere_flux, 0, 15)
    };
    let hydrographics: int = if size <= 1 {
        0
    } else {
        clamped(hydrographics_base_of(atmosphere) + d.hydrographics_flux, 0, 10)
    };
    let population_digit: int = d.population_roll - 2;
    let population: int = if d.population_roll == 12 {
        d.population_reroll + 3
    } else {
        population_digit
    };
    let government: int = if population == 0 {
        0
    } else {
        clamped(population + d.government_flux, 0, 15)
    };
    let law: int = if population == 0 {
        0
    } else {
        clamped(government + d.law_flux, 0, 18)
    };
    let tech = clamped(
        d.tech_die + tech_mod_of(port, size, atmosphere, hydrographics, population, government),
        0,
        33,
    );
    Uwp {
        port,
        size: size as i32,
        atmosphere: atmosphere as i32,
        hydrographics: hydrographics as i32,
        population: population as i32,
        population_digit: population_digit as i32,
        government: government as i32,
        law: law as i32,
        tech: tech as i32,
    }
}

/// The dice of a mainworld's profile as drawn from a stream, in order,
/// each only where the rules call for it, and the stream after them.
pub open spec fn uwp_draws_of(st: DiceState) -> (UwpDraws, DiceState) {
    let (port_roll, st1) = roll_of(st, 2, 6, 0);
    let (size_roll, st2) = roll_of(st1, 2, 6, 0);
    let (size_reroll, st3) = if size_roll == 12 {
        roll_of(st2, 1, 6, 0)
    } else {
        (1, st2)
    };
    let size = if size_roll == 12 {
        size_reroll + 9
    } else {
        size_roll - 2
    };
    let (atmosphere_flux, st4) = if size != 0 {
        flux_of(st3, 0)
    } else {
        (0, st3)
    };
    let (hydrographics_flux, st5) = if size > 1 {
        flux_of(st4, 0)
    } else {
        (0, st4)
    };
    let (population_roll, st6) = roll_of(st5, 2, 6, 0);
    let (population_reroll, st7) = if population_roll == 12 {
        roll_of(st6, 2, 6, 0)
    } else {
        (2, st6)
    };
    let population = if population_roll == 12 {
        population_reroll + 3
    } else {
        population_roll - 2
    };
    let (government_flux, st8) = if population != 0 {
        flux_of(st7, 0)
    } else {
        (0, st7)
    };
    let (law_flux, st9) = if population != 0 {
        flux_of(st8, 0)
    } else {
        (0, st8)
    };
    let (tech_die, st10) = roll_of(st9, 1, 6, 0);
    (
        UwpDraws {
            port_roll: port_roll as i32,
            size_roll: size_roll as i32,
            size_reroll: size_reroll as i32,
            atmosphere_flux: atmosphere_flux as i32,
            hydrographics_flux: hydrographics_flux as i32,
            population_roll: population_roll as i32,
            population_reroll: population_reroll as i32,
            government_flux: government_flux as i32,
            law_flux: law_flux as i32,
            tech_die: tech_die as i32,
        },
        st10,
    )
}

/// The profile the rules give for the dice drawn.
pub fn uwp_from_draws(d: &UwpDraws) -> (r: Uwp)
    requires
        d.in_range(),
    ensures
        r == uwp_of(*d),
        r.wf(),
{
    let port = starport_from_roll(d.port_roll - 2);
    let size = if d.size_roll == 12 {
        d.size_reroll + 9
    } else {
        d.size_roll - 2
    };
    let atmosphere = if size == 0 {
        0
    } else {
        clamp(size + d.atmosphere_flux, 0, 15)
    };
    let hydrographics = if size <= 1 {
        0
    } else {
        clamp(hydrographics_base(atmosphere) + d.hydrographics_flux, 0, 10)
    };
    let population_digit = d.population_roll - 2;
    let population = if d.population_roll == 12 {
        d.population_reroll + 3
    } else {
        population_digit
    };
    let government = if population == 0 {
        0
    } else {
        clamp(population + d.government_flux, 0, 15)
    };
    let law = if population == 0 {
        0
    } else {
        clamp(government + d.law_flux, 0, 18)
    };
    let modifier = tech_mod(port, size, atmosphere, hydrographics, population, government);
    let tech = clamp(d.tech_die + modifier, 0, 33);
    Uwp {
        port,
        size,
        atmosphere,
        hydrographics,
        population,
        population_digit,
        government,
        law,
        tech,
    }
}

impl Uwp {
    /// Every attribute within its range; an empty world has no atmosphere,
    /// a tiny one no water, an unpopulated one no government nor law.
    pub open spec fn wf(self) -> bool {
        &&& 0 <= self.size <= 15
        &&& 0 <= self.atmosphere <= 15
        &&& 0 <= self.hydrographics <= 10
        &&& 0 <= self.population <= 15
        &&& 0 <= self.population_digit <= 10
        &&& 0 <= self.government <= 15
        &&& 0 <= self.law <= 18
        &&& 0 <= self.tech <= 33
        &&& self.size == 0 ==> self.atmosphere == 0
        &&& self.size <= 1 ==> self.hydrographics == 0
        &&& self.population == 0 ==> self.government == 0 && self.law == 0
        &&& self.population_digit != 10 ==> self.population == self.population_digit
    }

    /// Rolls a mainworld's profile, drawing in order: starport, size (and
    /// its reroll on a 10), atmosphere, hydrographics, population (and its
    /// reroll on a 10), government, law, tech level. A draw that the rules
    /// do not call for is not made. The profile is the one the rules give
    /// for the values drawn.
    pub fn generate_mainworld<R: Rollable>(rng: &mut R) -> (r: Self)
        ensures
            r.wf(),
            ({
                let (d, st) = uwp_draws_of(old(rng).state());
                &&& d.in_range()
                &&& r == uwp_of(d)
                &&& final(rng).state() == st
            }),
    {
        let port_roll = rng.roll(2, 6, 0);
        let size_roll = rng.roll(2, 6, 0);
        let size_reroll = if size_roll == 12 {
            rng.roll(1, 6, 0)
        } else {
            1
        };
        let size = if size_roll == 12 {
            size_reroll + 9
        } else {
            size_roll - 2
        };
        let atmosphere_flux = if size != 0 {
            rng.flux(0)
        } else {
            0
        };
        let hydrographics_flux = if size > 1 {
            rng.flux(0)
        } else {
            0
        };
        let population_roll = rng.roll(2, 6, 0);
        let population_reroll = if population_roll == 12 {
            rng.roll(2, 6, 0)
        } else {
            2
        };
        let population = if population_roll == 12 {
            population_reroll + 3
        } else {
            population_roll - 2
        };
        let government_flux = if population != 0 {
            rng.flux(0)
        } else {
            0
        };
        let law_flux = if population != 0 {
            rng.flux(0)
        } else {
            0
        };
        let tech_die = rng.roll(1, 6, 0);
        let draws = UwpDraws {
            port_roll,
            size_roll,
            size_reroll,
            atmosphere_flux,
            hydrographics_flux,
            population_roll,
            population_reroll,
            government_flux,
            law_flux,
            tech_die,
        };
        uwp_from_draws(&draws)
    }

    /// Renders the profile: starport, six attributes in ehex, a dash, and
    /// the tech level.
    pub fn to_string(&self) -> (r: String)
        ensures
            r@ == self.port.text() + ehex_text(self.size as int) + ehex_text(
                self.atmosphere as int,
            ) + ehex_text(self.hydrographics as int) + ehex_text(self.population as int)
                + ehex_text(self.government as int) + ehex_text(self.law as int) + "-"@
                + ehex_text(self.tech as int),
    {
        let mut s = self.port.to_string();
        let v = to_ehex(self.size);
        s.append(v.as_str());
        let v = to_ehex(self.atmosphere);
        s.append(v.as_str());
        let v = to_ehex(self.hydrographics);
        s.append(v.as_str());
        let v = to_ehex(self.population);
        s.append(v.as_str());
        let v = to_ehex(self.government);
        s.append(v.as_str());
        let v = to_ehex(self.law);
        s.append(v.as_str());
        s.append("-");
        let v = to_ehex(self.tech);
        s.append(v.as_str());
        s
    }
}

/// The highest 2d6 roll that gives a naval base at a starport, if any.
pub open spec fn naval_threshold_of(port: Starport) -> Option<int> {
    match port {
        Starport::A => Some(6),
        Starport::B => Some(5),
        _ => None,
    }
}

/// The highest 2d6 roll that gives a scout base at a starport, if any.
pub open spec fn scout_threshold_of(port: Starport) -> Option<int> {
    match port {
        Starport::A => Some(4),
        Starport::B => Some(5),
        Starport::C => Some(6),
        Starport::D => Some(7),
        _ => None,
    }
}

pub fn naval_threshold(port: Starport) -> (r: Option<i32>)
    ensures
        r matches Some(t) ==> naval_threshold_of(port) == Some(t as int),
        r is None ==> naval_threshold_of(port) is None,
{
    match port {
        Starport::A => Some(6),
        Starport::B => Some(5),
        _ => None,
    }
}

pub fn scout_threshold(port: Starport) -> (r: Option<i32>)
    ensures
        r matches Some(t) ==> scout_threshold_of(port) == Some(t as int),
        r is None ==> scout_threshold_of(port) is None,
{
    match port {
        Starport::A => Some(4),
        Starport::B => Some(5),
        Starport::C => Some(6),
        Starport::D => Some(7),
        _ => None,
    }
}

/// The bases of a starport from the naval and scout rolls made for it.
pub open spec fn bases_of(port: Starport, naval_roll: int, scout_roll: int) -> Seq<Base> {
    let naval = match naval_threshold_of(port) {
        Some(t) => naval_roll <= t,
        None => false,
    };
    let scout = match scout_threshold_of(port) {
        Some(t) => scout_roll <= t,
        None => false,
    };
    if naval && scout {
        seq![Base::Naval, Base::Scout]
    } else if naval {
        seq![Base::Naval]
    } else if scout {
        seq![Base::Scout]
    } else {
        Seq::empty()
    }
}

/// The bases of a starport as rolled from a stream (a naval 2d6 where the
/// starport has a naval threshold, then a scout 2d6 where it has a scout
/// one), and the stream after them.
pub open spec fn bases_draws_of(st: DiceState, port: Starport) -> (Seq<Base>, DiceState) {
    let (naval_roll, st1) = if naval_threshold_of(port) is Some {
        roll_of(st, 2, 6, 0)
    } else {
        (2, st)
    };
    let (scout_roll, st2) = if scout_threshold_of(port) is Some {
        roll_of(st1, 2, 6, 0)
    } else {
        (2, st1)
    };
    (bases_of(port, naval_roll, scout_roll), st2)
}

/// The profile and bases of a mainworld as rolled from a stream, and the
/// stream after them.
pub open spec fn mainworld_draws_of(st: DiceState) -> (Uwp, Seq<Base>, DiceState) {
    let (d, st1) = uwp_draws_of(st);
    let (bases, st2) = bases_draws_of(st1, uwp_of(d).port);
    (uwp_of(d), bases, st2)
}

/// Rolls the bases of a starport: a naval check (2d6) where the starport
/// has a naval threshold, then a scout check where it has a scout one.
/// A starport without a threshold gets no such base.
pub fn generate_bases<R: Rollable>(rng: &mut R, port: Starport) -> (r: Vec<Base>)
    ensures
        (r@, final(rng).state()) == bases_draws_of(old(rng).state(), port),
{
    let naval_roll: i32 = match naval_threshold(port) {
        Some(_) => rng.roll(2, 6, 0),
        None => 2,
    };
    let scout_roll: i32 = match scout_threshold(port) {
        Some(_) => rng.roll(2, 6, 0),
        None => 2,
    };
    let mut bases: Vec<Base> = Vec::new();
    let naval = match naval_threshold(port) {
        Some(t) => naval_roll <= t,
        None => false,
    };
    let scout = match scout_threshold(port) {
        Some(t) => scout_roll <= t,
        None => false,
    };
    if naval {
        bases.push(Base::Naval);
    }
    if scout {
        bases.push(Base::Scout);
    }
    assert(bases@ =~= bases_of(port, naval_roll as int, scout_roll as int));
    bases
}

/// The profile of a world.
pub open spec fn profile_of(w: &World) -> Uwp {
    Uwp {
        port: w.port,
        size: w.size,
        atmosphere: w.atmosphere,
        hydrographics: w.hydrographics,
        population: w.population,
        population_digit: w.population_digit,
        government: w.government,
        law: w.law,
        tech: w.tech,
    }
}

/// Rolls a mainworld: its profile, then its bases. The world is a planet
/// in a green zone, at the given habitable-zone variance and orbit.
pub fn generate_mainworld<R: Rollable>(rng: &mut R, hz_variance: i32, orbit: i32) -> (r: World)
    requires
        -2 <= hz_variance <= 2,
        0 <= orbit,
    ensures
        r.wf(),
        r.hz_variance == hz_variance,
        r.orbit == orbit,
        r.size == 0 ==> r.atmosphere == 0,
        r.size <= 1 ==> r.hydrographics == 0,
        r.population == 0 ==> r.government == 0 && r.law == 0,
        profile_of(&r).wf(),
        r.mainworld_type == MainWorldType::Planet,
        r.travel_zone == TravelZone::Green,
        ({
            let (profile, bases, st) = mainworld_draws_of(old(rng).state());
            &&& profile_of(&r) == profile
            &&& r.bases@ == bases
            &&& final(rng).state() == st
        }),
{
    let uwp = Uwp::generate_mainworld(rng);
    let bases = generate_bases(rng, uwp.port);
    let world = World {
        mainworld_type: MainWorldType::Planet,
        hz_variance,
        orbit,
        port: uwp.port,
        bases,
        size: uwp.size,
        atmosphere: uwp.atmosphere,
        hydrographics: uwp.hydrographics,
        population: uwp.population,
        population_digit: uwp.population_digit,
        government: uwp.government,
        law: uwp.law,
        tech: uwp.tech,
        travel_zone: TravelZone::Green,
    };
    assert(profile_of(&world) == uwp);
    world
}

} // verus!
