//! The mainworld: starport, bases, the universal world profile, and the
//! trade-code predicates over it.
use vstd::prelude::*;

use crate::codes::{join_flagged, joined, selected, table_view};
use crate::ehex::{ehex_text, to_ehex};

verus! {

/// Starport class, best to worst; X is no starport.
#[derive(Debug, Clone, Copy, PartialEq, Eq, Hash, Structural)]
pub enum Starport {
    A,
    B,
    C,
    D,
    E,
    X,
}

impl Starport {
    pub open spec fn text(self) -> Seq<char> {
        match self {
            Starport::A => "A"@,
            Starport::B => "B"@,
            Starport::C => "C"@,
            Starport::D => "D"@,
            Starport::E => "E"@,
            Starport::X => "X"@,
        }
    }

    /// The class's letter.
    pub fn to_string(&self) -> (r: String)
        ensures
            r@ == self.text(),
    {
        let mut s = String::new();
        self.push_to(&mut s);
        s
    }

    fn push_to(&self, s: &mut String)
        ensures
            final(s)@ == old(s)@ + self.text(),
    {
        match self {
            Starport::A => s.append("A"),
            Starport::B => s.append("B"),
            Starport::C => s.append("C"),
            Starport::D => s.append("D"),
            Starport::E => s.append("E"),
            Starport::X => s.append("X"),
        }
    }
}

#[derive(Debug, Clone, Copy, PartialEq, Eq, Hash, Structural)]
pub enum Base {
    Naval,
    Scout,
    WayStation,
    Depot,
}

impl Base {
    pub open spec fn text(self) -> Seq<char> {
        match self {
            Base::Naval => "N"@,
            Base::Scout => "S"@,
            Base::WayStation => "W"@,
            Base::Depot => "D"@,
        }
    }

    /// The base's letter.
    pub fn to_string(&self) -> (r: String)
        ensures
            r@ == self.text(),
    {
        match self {
            Base::Naval => String::from_str("N"),
            Base::Scout => String::from_str("S"),
            Base::WayStation => String::from_str("W"),
            Base::Depot => String::from_str("D"),
        }
    }
}

#[derive(Debug, Clone, Copy, PartialEq, Eq, Hash, Structural)]
pub enum TravelZone {
    Green,
    Amber,
    Red,
}

impl TravelZone {
    pub open spec fn text(self) -> Seq<char> {
        match self {
            TravelZone::Green => " "@,
            TravelZone::Amber => "A"@,
            TravelZone::Red => "R"@,
        }
    }

    /// The zone's code: a blank for green, "A" for amber, "R" for red.
    pub fn to_string(&self) -> (r: String)
        ensures
            r@ == self.text(),
    {
        match self {
            TravelZone::Green => String::from_str(" "),
            TravelZone::Amber => String::from_str("A"),
            TravelZone::Red => String::from_str("R"),
        }
    }
}

pub type Orbit = u8;

#[derive(Debug, Clone, Copy, PartialEq, Eq, Hash, Structural)]
pub enum MainWorldType {
    Planet,
    CloseSatellite(Orbit),
    FarSatellite(Orbit),
}

/// A mainworld.
#[derive(Debug, Clone, PartialEq, Eq)]
pub struct World {
    pub mainworld_type: MainWorldType,
    pub hz_variance: i32,
    pub orbit: i32,
    pub port: Starport,
    pub bases: Vec<Base>,
    pub size: i32,
    pub atmosphere: i32,
    pub hydrographics: i32,
    pub population: i32,
    pub population_digit: i32,
    pub government: i32,
    pub law: i32,
    pub tech: i32,
    pub travel_zone: TravelZone,
}

/// The bases' letters, in order.
pub open spec fn bases_text(bases: Seq<Base>) -> Seq<char>
    decreases bases.len(),
{
    if bases.len() == 0 {
        Seq::empty()
    } else {
        bases_text(bases.drop_last()) + bases.last().text()
    }
}

impl World {
    /// Every attribute within its range.
    pub open spec fn wf(&self) -> bool {
        &&& 0 <= self.size <= 15
        &&& 0 <= self.atmosphere <= 15
        &&& 0 <= self.hydrographics <= 10
        &&& 0 <= self.population <= 15
        &&& 0 <= self.population_digit <= 10
        &&& 0 <= self.government <= 15
        &&& 0 <= self.law <= 18
        &&& 0 <= self.tech <= 33
        &&& -2 <= self.hz_variance <= 2
        &&& 0 <= self.orbit
    }

    /// The universal world profile: starport, six attributes in ehex, a
    /// dash, and the tech level ("A788899-C").
    pub open spec fn uwp_text(&self) -> Seq<char> {
        self.port.text() + ehex_text(self.size as int) + ehex_text(self.atmosphere as int)
            + ehex_text(self.hydrographics as int) + ehex_text(self.population as int) + ehex_text(
            self.government as int,
        ) + ehex_text(self.law as int) + "-"@ + ehex_text(self.tech as int)
    }

    pub fn to_string(&self) -> (r: String)
        ensures
            r@ == self.uwp_text(),
    {
        let mut s = String::new();
        self.port.push_to(&mut s);
        let v = to_ehex(self.size);
        s.append(v.as_str());
        let v = to_ehex(self.atmosphere);
        s.append(v.as_str());
        let v = to_ehex(self.hydrographics);
        s.append(v.as_str());
        let v = to_ehex(self.population);
        s.append(v.as_str());
        let v = to_ehex(self.government);
        s.append(v.as_str());
        let v = to_ehex(self.law);
        s.append(v.as_str());
        s.append("-");
        let v = to_ehex(self.tech);
        s.append(v.as_str());
        assert(s@ =~= self.uwp_text());
        s
    }

    /// The bases' letters, in order ("NS").
    pub fn bases_to_string(&self) -> (r: String)
        ensures
            r@ == bases_text(self.bases@),
    {
        let mut s = String::new();
        let mut i: usize = 0;
        while i < self.bases.len()
            invariant
                i <= self.bases@.len(),
                s@ == bases_text(self.bases@.take(i as int)),
            decreases self.bases@.len() - i,
        {
            let code = self.bases[i].to_string();
            s.append(code.as_str());
            proof {
                assert(self.bases@.take(i + 1).drop_last() =~= self.bases@.take(i as int));
            }
            i += 1;
        }
        assert(self.bases@.take(self.bases@.len() as int) =~= self.bases@);
        s
    }

    fn has_base(&self, base: Base) -> (r: bool)
        ensures
            r == self.bases@.contains(base),
    {
        let mut i: usize = 0;
        while i < self.bases.len()
            invariant
                i <= self.bases@.len(),
                forall|k: int| 0 <= k < i ==> self.bases@[k] != base,
            decreases self.bases@.len() - i,
        {
            if self.bases[i] == base {
                return true;
            }
            i += 1;
        }
        false
    }

    pub fn has_naval_base(&self) -> (r: bool)
        ensures
            r == self.bases@.contains(Base::Naval),
    {
        self.has_base(Base::Naval)
    }

    pub fn has_scout_base(&self) -> (r: bool)
        ensures
            r == self.bases@.contains(Base::Scout),
    {
        self.has_base(Base::Scout)
    }

    pub fn has_way_station(&self) -> (r: bool)
        ensures
            r == self.bases@.contains(Base::WayStation),
    {
        self.has_base(Base::WayStation)
    }

    pub fn has_depot(&self) -> (r: bool)
        ensures
            r == self.bases@.contains(Base::Depot),
    {
        self.has_base(Base::Depot)
    }
}

impl World {
    /// A world of size 0, no atmosphere and no water.
    pub open spec fn spec_is_asteroid_belt(&self) -> bool {
        self.size == 0 && self.atmosphere == 0 && self.hydrographics == 0
    }

    /// A world of size 0, no atmosphere and no water. Trade code "As".
    pub fn is_asteroid_belt(&self) -> (r: bool)
        ensures
            r == self.spec_is_asteroid_belt(),
    {
        self.size == 0 && self.atmosphere == 0 && self.hydrographics == 0
    }

    /// No atmosphere.
    pub open spec fn spec_is_vacuum(&self) -> bool {
        self.atmosphere == 0
    }

    /// No atmosphere. Trade code "Va".
    pub fn is_vacuum(&self) -> (r: bool)
        ensures
            r == self.spec_is_vacuum(),
    {
        self.atmosphere == 0
    }

    /// No water under an atmosphere of 2..=9.
    pub open spec fn spec_is_desert(&self) -> bool {
        self.hydrographics == 0 && (2 <= self.atmosphere && self.atmosphere <= 9)
    }

    /// No water under an atmosphere of 2..=9. Trade code "De".
    pub fn is_desert(&self) -> (r: bool)
        ensures
            r == self.spec_is_desert(),
    {
        self.hydrographics == 0 && (2 <= self.atmosphere && self.atmosphere <= 9)
    }

    /// Water under an exotic atmosphere of 10..=12.
    pub open spec fn spec_is_fluid_oceans(&self) -> bool {
        self.hydrographics != 0 && (10 <= self.atmosphere && self.atmosphere <= 12)
    }

    /// Water under an exotic atmosphere of 10..=12. Trade code "Fl".
    pub fn is_fluid_oceans(&self) -> (r: bool)
        ensures
            r == self.spec_is_fluid_oceans(),
    {
        self.hydrographics != 0 && (10 <= self.atmosphere && self.atmosphere <= 12)
    }

    /// Size 6..=8, atmosphere 5, 6 or 8, hydrographics 5..=7.
    pub open spec fn spec_is_garden(&self) -> bool {
        (self.size == 6 || self.size == 7 || self.size == 8) && (self.atmosphere == 5 || self.atmosphere == 6 || self.atmosphere == 8) && (self.hydrographics == 5 || self.hydrographics == 6 || self.hydrographics == 7)
    }

    /// Size 6..=8, atmosphere 5, 6 or 8, hydrographics 5..=7. Trade code "Ga".
    pub fn is_garden(&self) -> (r: bool)
        ensures
            r == self.spec_is_garden(),
    {
        (self.size == 6 || self.size == 7 || self.size == 8) && (self.atmosphere == 5 || self.atmosphere == 6 || self.atmosphere == 8) && (self.hydrographics == 5 || self.hydrographics == 6 || self.hydrographics == 7)
    }

    /// Size 3..=12, a hostile atmosphere, hydrographics below 3.
    pub open spec fn spec_is_hellworld(&self) -> bool {
        (3 <= self.size && self.size <= 12) && (self.atmosphere == 2 || self.atmosphere == 4 || self.atmosphere == 7 || self.atmosphere == 9 || self.atmosphere == 10 || self.atmosphere == 11 || self.atmosphere == 12) && self.hydrographics < 3
    }

    /// Size 3..=12, a hostile atmosphere, hydrographics below 3. Trade code "He".
    pub fn is_hellworld(&self) -> (r: bool)
        ensures
            r == self.spec_is_hellworld(),
    {
        (3 <= self.size && self.size <= 12) && (self.atmosphere == 2 || self.atmosphere == 4 || self.atmosphere == 7 || self.atmosphere == 9 || self.atmosphere == 10 || self.atmosphere == 11 || self.atmosphere == 12) && self.hydrographics < 3
    }

    /// Water under an atmosphere below 2.
    pub open spec fn spec_is_ice_capped(&self) -> bool {
        self.atmosphere < 2 && self.hydrographics != 0
    }

    /// Water under an atmosphere below 2. Trade code "Ic".
    pub fn is_ice_capped(&self) -> (r: bool)
        ensures
            r == self.spec_is_ice_capped(),
    {
        self.atmosphere < 2 && self.hydrographics != 0
    }

    /// Size above 9 with a breathable-range atmosphere, all water, not fluid oceans.
    pub open spec fn spec_is_ocean_world(&self) -> bool {
        self.size > 9 && self.atmosphere > 2 && self.hydrographics == 10 && !(self.hydrographics != 0 && (10 <= self.atmosphere && self.atmosphere <= 12))
    }

    /// Size above 9 with a breathable-range atmosphere, all water, not fluid oceans. Trade code "Oc".
    pub fn is_ocean_world(&self) -> (r: bool)
        ensures
            r == self.spec_is_ocean_world(),
    {
        self.size > 9 && self.atmosphere > 2 && self.hydrographics == 10 && !(self.hydrographics != 0 && (10 <= self.atmosphere && self.atmosphere <= 12))
    }

    /// Size 3..=9 with atmosphere above 2, all water, not fluid oceans.
    pub open spec fn spec_is_water_world(&self) -> bool {
        self.size > 2 && self.size < 10 && self.atmosphere > 2 && self.hydrographics == 10 && !(self.hydrographics != 0 && (10 <= self.atmosphere && self.atmosphere <= 12))
    }

    /// Size 3..=9 with atmosphere above 2, all water, not fluid oceans. Trade code "Wa".
    pub fn is_water_world(&self) -> (r: bool)
        ensures
            r == self.spec_is_water_world(),
    {
        self.size > 2 && self.size < 10 && self.atmosphere > 2 && self.hydrographics == 10 && !(self.hydrographics != 0 && (10 <= self.atmosphere && self.atmosphere <= 12))
    }

    /// A far satellite.
    pub open spec fn spec_is_satellite(&self) -> bool {
        self.mainworld_type matches MainWorldType::FarSatellite(_)
    }

    /// A far satellite. Trade code "Sa".
    pub fn is_satellite(&self) -> (r: bool)
        ensures
            r == self.spec_is_satellite(),
    {
        self.mainworld_type matches MainWorldType::FarSatellite(_)
    }

    /// A close satellite.
    pub open spec fn spec_is_tidally_locked(&self) -> bool {
        self.mainworld_type matches MainWorldType::CloseSatellite(_)
    }

    /// A close satellite. Trade code "Lk".
    pub fn is_tidally_locked(&self) -> (r: bool)
        ensures
            r == self.spec_is_tidally_locked(),
    {
        self.mainworld_type matches MainWorldType::CloseSatellite(_)
    }

    /// No population but a tech level.
    pub open spec fn spec_is_dieback(&self) -> bool {
        self.population == 0 && self.tech != 0
    }

    /// No population but a tech level. Trade code "Di".
    pub fn is_dieback(&self) -> (r: bool)
        ensures
            r == self.spec_is_dieback(),
    {
        self.population == 0 && self.tech != 0
    }

    /// No population and no tech level.
    pub open spec fn spec_is_barren(&self) -> bool {
        self.population == 0 && self.tech == 0
    }

    /// No population and no tech level. Trade code "Ba".
    pub fn is_barren(&self) -> (r: bool)
        ensures
            r == self.spec_is_barren(),
    {
        self.population == 0 && self.tech == 0
    }

    /// Population 1..=3.
    pub open spec fn spec_is_low_pop(&self) -> bool {
        (1 <= self.population && self.population <= 3)
    }

    /// Population 1..=3. Trade code "Lo".
    pub fn is_low_pop(&self) -> (r: bool)
        ensures
            r == self.spec_is_low_pop(),
    {
        (1 <= self.population && self.population <= 3)
    }

    /// Population 4..=6.
    pub open spec fn spec_is_nonindustrial(&self) -> bool {
        (4 <= self.population && self.population <= 6)
    }

    /// Population 4..=6. Trade code "Ni".
    pub fn is_nonindustrial(&self) -> (r: bool)
        ensures
            r == self.spec_is_nonindustrial(),
    {
        (4 <= self.population && self.population <= 6)
    }

    /// Population 8.
    pub open spec fn spec_is_pre_high_pop(&self) -> bool {
        self.population == 8
    }

    /// Population 8. Trade code "Ph".
    pub fn is_pre_high_pop(&self) -> (r: bool)
        ensures
            r == self.spec_is_pre_high_pop(),
    {
        self.population == 8
    }

    /// Population above 8.
    pub open spec fn spec_is_high_pop(&self) -> bool {
        self.population > 8
    }

    /// Population above 8. Trade code "Hi".
    pub fn is_high_pop(&self) -> (r: bool)
        ensures
            r == self.spec_is_high_pop(),
    {
        self.population > 8
    }

    /// Atmosphere 4..=9, hydrographics 4..=8, population 4 or 8.
    pub open spec fn spec_is_preagricultural(&self) -> bool {
        (4 <= self.atmosphere && self.atmosphere <= 9) && (4 <= self.hydrographics && self.hydrographics <= 8) && (self.population == 4 || self.population == 8)
    }

    /// Atmosphere 4..=9, hydrographics 4..=8, population 4 or 8. Trade code "Pa".
    pub fn is_preagricultural(&self) -> (r: bool)
        ensures
            r == self.spec_is_preagricultural(),
    {
        (4 <= self.atmosphere && self.atmosphere <= 9) && (4 <= self.hydrographics && self.hydrographics <= 8) && (self.population == 4 || self.population == 8)
    }

    /// Atmosphere 4..=9, hydrographics 4..=8, population 5..=7.
    pub open spec fn spec_is_agricultural(&self) -> bool {
        (4 <= self.atmosphere && self.atmosphere <= 9) && (4 <= self.hydrographics && self.hydrographics <= 8) && (5 <= self.population && self.population <= 7)
    }

    /// Atmosphere 4..=9, hydrographics 4..=8, population 5..=7. Trade code "Ag".
    pub fn is_agricultural(&self) -> (r: bool)
        ensures
            r == self.spec_is_agricultural(),
    {
        (4 <= self.atmosphere && self.atmosphere <= 9) && (4 <= self.hydrographics && self.hydrographics <= 8) && (5 <= self.population && self.population <= 7)
    }

    /// Atmosphere 0..=3, hydrographics 0..=3, population above 5.
    pub open spec fn spec_is_nonagricultural(&self) -> bool {
        (0 <= self.atmosphere && self.atmosphere <= 3) && (0 <= self.hydrographics && self.hydrographics <= 3) && self.population > 5
    }

    /// Atmosphere 0..=3, hydrographics 0..=3, population above 5. Trade code "Na".
    pub fn is_nonagricultural(&self) -> (r: bool)
        ensures
            r == self.spec_is_nonagricultural(),
    {
        (0 <= self.atmosphere && self.atmosphere <= 3) && (0 <= self.hydrographics && self.hydrographics <= 3) && self.population > 5
    }

    /// Atmosphere 2, 3, 10 or 11, population 1..=5, law above 5.
    pub open spec fn spec_is_prison(&self) -> bool {
        (self.atmosphere == 2 || self.atmosphere == 3 || self.atmosphere == 10 || self.atmosphere == 11) && (1 <= self.population && self.population <= 5) && self.law > 5
    }

    /// Atmosphere 2, 3, 10 or 11, population 1..=5, law above 5. Trade code "Px".
    pub fn is_prison(&self) -> (r: bool)
        ensures
            r == self.spec_is_prison(),
    {
        (self.atmosphere == 2 || self.atmosphere == 3 || self.atmosphere == 10 || self.atmosphere == 11) && (1 <= self.population && self.population <= 5) && self.law > 5
    }

    /// Atmosphere 0, 1, 2, 4, 7 or 9 and population 7 or 8.
    pub open spec fn spec_is_preindustrial(&self) -> bool {
        (self.atmosphere == 0 || self.atmosphere == 1 || self.atmosphere == 2 || self.atmosphere == 4 || self.atmosphere == 7 || self.atmosphere == 9) && (self.population == 7 || self.population == 8)
    }

    /// Atmosphere 0, 1, 2, 4, 7 or 9 and population 7 or 8. Trade code "Pi".
    pub fn is_preindustrial(&self) -> (r: bool)
        ensures
            r == self.spec_is_preindustrial(),
    {
        (self.atmosphere == 0 || self.atmosphere == 1 || self.atmosphere == 2 || self.atmosphere == 4 || self.atmosphere == 7 || self.atmosphere == 9) && (self.population == 7 || self.population == 8)
    }

    /// Atmosphere 0, 1, 2, 4, 7, 9, 10, 11 or 12 and population above 8.
    pub open spec fn spec_is_industrial(&self) -> bool {
        (self.atmosphere == 0 || self.atmosphere == 1 || self.atmosphere == 2 || self.atmosphere == 4 || self.atmosphere == 7 || self.atmosphere == 9 || self.atmosphere == 10 || self.atmosphere == 11 || self.atmosphere == 12) && self.population > 8
    }

    /// Atmosphere 0, 1, 2, 4, 7, 9, 10, 11 or 12 and population above 8. Trade code "In".
    pub fn is_industrial(&self) -> (r: bool)
        ensures
            r == self.spec_is_industrial(),
    {
        (self.atmosphere == 0 || self.atmosphere == 1 || self.atmosphere == 2 || self.atmosphere == 4 || self.atmosphere == 7 || self.atmosphere == 9 || self.atmosphere == 10 || self.atmosphere == 11 || self.atmosphere == 12) && self.population > 8
    }

    /// Atmosphere 2..=5 and hydrographics below 4.
    pub open spec fn spec_is_poor(&self) -> bool {
        (2 <= self.atmosphere && self.atmosphere <= 5) && self.hydrographics < 4
    }

    /// Atmosphere 2..=5 and hydrographics below 4. Trade code "Po".
    pub fn is_poor(&self) -> (r: bool)
        ensures
            r == self.spec_is_poor(),
    {
        (2 <= self.atmosphere && self.atmosphere <= 5) && self.hydrographics < 4
    }

    /// Atmosphere 6 or 8 and population 5 or 9.
    pub open spec fn spec_is_pre_rich(&self) -> bool {
        (self.atmosphere == 6 || self.atmosphere == 8) && (self.population == 5 || self.population == 9)
    }

    /// Atmosphere 6 or 8 and population 5 or 9. Trade code "Pr".
    pub fn is_pre_rich(&self) -> (r: bool)
        ensures
            r == self.spec_is_pre_rich(),
    {
        (self.atmosphere == 6 || self.atmosphere == 8) && (self.population == 5 || self.population == 9)
    }

    /// Atmosphere 6 or 8 and population 6..=8.
    pub open spec fn spec_is_rich(&self) -> bool {
        (self.atmosphere == 6 || self.atmosphere == 8) && (6 <= self.population && self.population <= 8)
    }

    /// Atmosphere 6 or 8 and population 6..=8. Trade code "Ri".
    pub fn is_rich(&self) -> (r: bool)
        ensures
            r == self.spec_is_rich(),
    {
        (self.atmosphere == 6 || self.atmosphere == 8) && (6 <= self.population && self.population <= 8)
    }

    /// Beyond the habitable zone (variance above 1), size 2..=9, with water.
    pub open spec fn spec_is_frozen(&self) -> bool {
        self.hz_variance > 1 && (2 <= self.size && self.size <= 9) && self.hydrographics != 0
    }

    /// Beyond the habitable zone (variance above 1), size 2..=9, with water. Trade code "Fr".
    pub fn is_frozen(&self) -> (r: bool)
        ensures
            r == self.spec_is_frozen(),
    {
        self.hz_variance > 1 && (2 <= self.size && self.size <= 9) && self.hydrographics != 0
    }

    /// Inside the habitable zone (negative variance).
    pub open spec fn spec_is_hot(&self) -> bool {
        self.hz_variance < 0
    }

    /// Inside the habitable zone (negative variance). Trade code "Ho".
    pub fn is_hot(&self) -> (r: bool)
        ensures
            r == self.spec_is_hot(),
    {
        self.hz_variance < 0
    }

    /// At the outer edge of the habitable zone (variance 1).
    pub open spec fn spec_is_cold(&self) -> bool {
        self.hz_variance == 1
    }

    /// At the outer edge of the habitable zone (variance 1). Trade code "Co".
    pub fn is_cold(&self) -> (r: bool)
        ensures
            r == self.spec_is_cold(),
    {
        self.hz_variance == 1
    }

    /// An orbit below 2.
    pub open spec fn spec_is_twilight_zone(&self) -> bool {
        self.orbit < 2
    }

    /// An orbit below 2. Trade code "Tz".
    pub fn is_twilight_zone(&self) -> (r: bool)
        ensures
            r == self.spec_is_twilight_zone(),
    {
        self.orbit < 2
    }

    /// Hot, size 6..=9, atmosphere 4..=9, hydrographics 3..=7.
    pub open spec fn spec_is_tropic(&self) -> bool {
        self.hz_variance < 0 && (6 <= self.size && self.size <= 9) && (4 <= self.atmosphere && self.atmosphere <= 9) && (3 <= self.hydrographics && self.hydrographics <= 7)
    }

    /// Hot, size 6..=9, atmosphere 4..=9, hydrographics 3..=7. Trade code "Tr".
    pub fn is_tropic(&self) -> (r: bool)
        ensures
            r == self.spec_is_tropic(),
    {
        self.hz_variance < 0 && (6 <= self.size && self.size <= 9) && (4 <= self.atmosphere && self.atmosphere <= 9) && (3 <= self.hydrographics && self.hydrographics <= 7)
    }

    /// Cold, size 6..=9, atmosphere 4..=9, hydrographics 3..=7.
    pub open spec fn spec_is_tundra(&self) -> bool {
        self.hz_variance == 1 && (6 <= self.size && self.size <= 9) && (4 <= self.atmosphere && self.atmosphere <= 9) && (3 <= self.hydrographics && self.hydrographics <= 7)
    }

    /// Cold, size 6..=9, atmosphere 4..=9, hydrographics 3..=7. Trade code "Tu".
    pub fn is_tundra(&self) -> (r: bool)
        ensures
            r == self.spec_is_tundra(),
    {
        self.hz_variance == 1 && (6 <= self.size && self.size <= 9) && (4 <= self.atmosphere && self.atmosphere <= 9) && (3 <= self.hydrographics && self.hydrographics <= 7)
    }

    /// Population below 5, government 6, law 0, 4 or 5.
    pub open spec fn spec_is_reserve(&self) -> bool {
        self.population < 5 && self.government == 6 && (self.law == 0 || self.law == 4 || self.law == 5)
    }

    /// Population below 5, government 6, law 0, 4 or 5. Trade code "Re".
    pub fn is_reserve(&self) -> (r: bool)
        ensures
            r == self.spec_is_reserve(),
    {
        self.population < 5 && self.government == 6 && (self.law == 0 || self.law == 4 || self.law == 5)
    }

    /// Population above 4, government 6, law below 4.
    pub open spec fn spec_is_colony(&self) -> bool {
        self.population > 4 && self.government == 6 && self.law < 4
    }

    /// Population above 4, government 6, law below 4. Trade code "Cy".
    pub fn is_colony(&self) -> (r: bool)
        ensures
            r == self.spec_is_colony(),
    {
        self.population > 4 && self.government == 6 && self.law < 4
    }

    /// A red zone.
    pub open spec fn spec_is_forbiddin(&self) -> bool {
        self.travel_zone == TravelZone::Red
    }

    /// A red zone. Trade code "Fo".
    pub fn is_forbiddin(&self) -> (r: bool)
        ensures
            r == self.spec_is_forbiddin(),
    {
        self.travel_zone == TravelZone::Red
    }

    /// Population above 6 in an amber zone.
    pub open spec fn spec_is_puzzle(&self) -> bool {
        self.population > 6 && self.travel_zone == TravelZone::Amber
    }

    /// Population above 6 in an amber zone. Trade code "Pz".
    pub fn is_puzzle(&self) -> (r: bool)
        ensures
            r == self.spec_is_puzzle(),
    {
        self.population > 6 && self.travel_zone == TravelZone::Amber
    }

    /// Population below 7 in an amber zone.
    pub open spec fn spec_is_dangerous(&self) -> bool {
        self.population < 7 && self.travel_zone == TravelZone::Amber
    }

    /// Population below 7 in an amber zone. Trade code "Da".
    pub fn is_dangerous(&self) -> (r: bool)
        ensures
            r == self.spec_is_dangerous(),
    {
        self.population < 7 && self.travel_zone == TravelZone::Amber
    }

    /// The trade codes, each with whether it applies, in their fixed order.
    pub open spec fn trade_table(&self) -> Seq<(bool, Seq<char>)> {
        seq![
            (self.spec_is_asteroid_belt(), "As"@),
            (self.spec_is_vacuum(), "Va"@),
            (self.spec_is_desert(), "De"@),
            (self.spec_is_fluid_oceans(), "Fl"@),
            (self.spec_is_garden(), "Ga"@),
            (self.spec_is_hellworld(), "He"@),
            (self.spec_is_ice_capped(), "Ic"@),
            (self.spec_is_ocean_world(), "Oc"@),
            (self.spec_is_water_world(), "Wa"@),
            (self.spec_is_satellite(), "Sa"@),
            (self.spec_is_tidally_locked(), "Lk"@),
            (self.spec_is_dieback(), "Di"@),
            (self.spec_is_barren(), "Ba"@),
            (self.spec_is_low_pop(), "Lo"@),
            (self.spec_is_nonindustrial(), "Ni"@),
            (self.spec_is_pre_high_pop(), "Ph"@),
            (self.spec_is_high_pop(), "Hi"@),
            (self.spec_is_preagricultural(), "Pa"@),
            (self.spec_is_agricultural(), "Ag"@),
            (self.spec_is_nonagricultural(), "Na"@),
            (self.spec_is_prison(), "Px"@),
            (self.spec_is_preindustrial(), "Pi"@),
            (self.spec_is_industrial(), "In"@),
            (self.spec_is_poor(), "Po"@),
            (self.spec_is_pre_rich(), "Pr"@),
            (self.spec_is_rich(), "Ri"@),
            (self.spec_is_frozen(), "Fr"@),
            (self.spec_is_hot(), "Ho"@),
            (self.spec_is_cold(), "Co"@),
            (self.spec_is_tundra(), "Tu"@),
            (self.spec_is_tropic(), "Tr"@),
            (self.spec_is_twilight_zone(), "Tz"@),
            (self.spec_is_reserve(), "Re"@),
            (self.spec_is_colony(), "Cy"@),
            (self.spec_is_forbiddin(), "Fo"@),
            (self.spec_is_puzzle(), "Pz"@),
            (self.spec_is_dangerous(), "Da"@),
        ]
    }

    /// The codes that apply, in their fixed order, separated by spaces.
    #[verifier::rlimit(100)]
    pub fn trade_codes(&self) -> (r: String)
        ensures
            r@ == joined(selected(self.trade_table()), " "@),
    {
        let table: Vec<(bool, &str)> = vec![
            (self.is_asteroid_belt(), "As"),
            (self.is_vacuum(), "Va"),
            (self.is_desert(), "De"),
            (self.is_fluid_oceans(), "Fl"),
            (self.is_garden(), "Ga"),
            (self.is_hellworld(), "He"),
            (self.is_ice_capped(), "Ic"),
            (self.is_ocean_world(), "Oc"),
            (self.is_water_world(), "Wa"),
            (self.is_satellite(), "Sa"),
            (self.is_tidally_locked(), "Lk"),
            (self.is_dieback(), "Di"),
            (self.is_barren(), "Ba"),
            (self.is_low_pop(), "Lo"),
            (self.is_nonindustrial(), "Ni"),
            (self.is_pre_high_pop(), "Ph"),
            (self.is_high_pop(), "Hi"),
            (self.is_preagricultural(), "Pa"),
            (self.is_agricultural(), "Ag"),
            (self.is_nonagricultural(), "Na"),
            (self.is_prison(), "Px"),
            (self.is_preindustrial(), "Pi"),
            (self.is_industrial(), "In"),
            (self.is_poor(), "Po"),
            (self.is_pre_rich(), "Pr"),
            (self.is_rich(), "Ri"),
            (self.is_frozen(), "Fr"),
            (self.is_hot(), "Ho"),
            (self.is_cold(), "Co"),
            (self.is_tundra(), "Tu"),
            (self.is_tropic(), "Tr"),
            (self.is_twilight_zone(), "Tz"),
            (self.is_reserve(), "Re"),
            (self.is_colony(), "Cy"),
            (self.is_forbiddin(), "Fo"),
            (self.is_puzzle(), "Pz"),
            (self.is_dangerous(), "Da"),
        ];
        assert(table_view(table@) =~= self.trade_table());
        join_flagged(&table, " ")
    }
}

} // verus!
