//! The extensions of a system: importance, economic and cultural values.
use vstd::prelude::*;

use crate::ehex::{decimal, ehex_text, signed_dec_chars, to_ehex};
use crate::rng::{flux_of, roll_of, DiceState, Rollable};
use crate::world::{Base, Starport, World};

verus! {

/// Importance {Ix}, economic (Ex) and cultural [Cx] extensions.
#[derive(Debug, Clone, Copy, PartialEq, Eq, Hash, Structural)]
pub struct Extensions {
    pub importance: i32,
    pub resources: i32,
    pub labor: i32,
    pub infrastructure: i32,
    pub efficiency: i32,
    pub heterogeneity: i32,
    pub acceptance: i32,
    pub strangeness: i32,
    pub symbols: i32,
}

/// One for a condition that holds, zero otherwise.
pub open spec fn point(b: bool) -> int {
    if b {
        1
    } else {
        0
    }
}

/// The larger of `v` and `floor`.
pub open spec fn at_least(v: int, floor: int) -> int {
    if v < floor {
        floor
    } else {
        v
    }
}

/// Importance: -3 plus one point for each of twelve conditions on the
/// world.
pub open spec fn importance_of(w: &World) -> int {
    -3 + point(w.port == Starport::A || w.port == Starport::B) + point(w.tech > 15) + point(
        w.tech > 9,
    ) + point(w.spec_is_agricultural()) + point(w.spec_is_rich()) + point(w.spec_is_high_pop())
        + point(w.spec_is_industrial()) + point(
        w.bases@.contains(Base::Naval) && w.bases@.contains(Base::Scout),
    ) + point(w.bases@.contains(Base::WayStation)) + point(!(w.tech < 8)) + point(
        !(w.population < 7),
    ) + point(!(w.port == Starport::D || w.port == Starport::E || w.port == Starport::X))
}

fn point_of(b: bool) -> (r: i32)
    ensures
        r == point(b),
{
    if b {
        1
    } else {
        0
    }
}

/// The importance of a world: -3, plus one for each of: starport A or B,
/// tech above 15, tech above 9, agricultural, rich, high population,
/// industrial, both naval and scout bases, a way station, not tech below 8,
/// not population below 7, not starport D, E or X.
pub fn importance_extension(world: &World) -> (r: i32)
    ensures
        r == importance_of(world),
        -3 <= r <= 9,
{
    let port = world.port;
    -3 + point_of(port == Starport::A || port == Starport::B) + point_of(world.tech > 15)
        + point_of(world.tech > 9) + point_of(world.is_agricultural()) + point_of(
        world.is_rich(),
    ) + point_of(world.is_high_pop()) + point_of(world.is_industrial()) + point_of(
        world.has_naval_base() && world.has_scout_base(),
    ) + point_of(world.has_way_station()) + point_of(!(world.tech < 8)) + point_of(
        !(world.population < 7),
    ) + point_of(!(port == Starport::D || port == Starport::E || port == Starport::X))
}

/// The economic values as rolled from a stream, and the stream after
/// them: resources 2d6 (plus the orbital resources where tech is above 7),
/// labor the population less one floored at 0, infrastructure 0 without
/// population else 1d6 (population up to 6) or 2d6 plus the importance
/// floored at 0, efficiency a flux.
pub open spec fn economic_of(
    st: DiceState,
    importance: int,
    population: int,
    tech: int,
    orbital_resources: int,
) -> ((int, int, int, int), DiceState) {
    let bonus = if tech > 7 {
        orbital_resources
    } else {
        0
    };
    let (resources, st1) = roll_of(st, 2, 6, bonus);
    let labor = at_least(population - 1, 0);
    let (infrastructure, st2) = if population == 0 {
        (0, st1)
    } else if population <= 6 {
        let (x, s) = roll_of(st1, 1, 6, importance);
        (at_least(x, 0), s)
    } else {
        let (x, s) = roll_of(st1, 2, 6, importance);
        (at_least(x, 0), s)
    };
    let (efficiency, st3) = flux_of(st2, 0);
    ((resources, labor, infrastructure, efficiency), st3)
}

/// The cultural values as rolled from a stream, and the stream after them:
/// all 0 without population, else heterogeneity a flux on the population,
/// acceptance the population plus the importance, strangeness a flux on 5
/// and symbols a flux on the tech level, each at least 1.
pub open spec fn cultural_of(st: DiceState, importance: int, population: int, tech: int) -> (
    (int, int, int, int),
    DiceState,
) {
    if population == 0 {
        ((0, 0, 0, 0), st)
    } else {
        let (h, st1) = flux_of(st, population);
        let (s, st2) = flux_of(st1, 5);
        let (y, st3) = flux_of(st2, tech);
        (
            (at_least(h, 1), at_least(population + importance, 1), at_least(s, 1), at_least(y, 1)),
            st3,
        )
    }
}

/// The extensions as rolled from a stream, economic values first, and the
/// stream after them.
pub open spec fn extensions_of(
    st: DiceState,
    importance: int,
    population: int,
    tech: int,
    orbital_resources: int,
) -> (Extensions, DiceState) {
    let (e, st1) = economic_of(st, importance, population, tech, orbital_resources);
    let (c, st2) = cultural_of(st1, importance, population, tech);
    (
        Extensions {
            importance: importance as i32,
            resources: e.0 as i32,
            labor: e.1 as i32,
            infrastructure: e.2 as i32,
            efficiency: e.3 as i32,
            heterogeneity: c.0 as i32,
            acceptance: c.1 as i32,
            strangeness: c.2 as i32,
            symbols: c.3 as i32,
        },
        st2,
    )
}

/// Economic extension: resources, labor, infrastructure and efficiency.
/// Resources are 2d6, plus the orbital resources where tech is above 7;
/// labor is the population less one, floored at 0; infrastructure is 0
/// without population, else 1d6 (population up to 6) or 2d6 (above) plus
/// the importance, floored at 0; efficiency is a flux, unclamped.
pub fn economic_extension<R: Rollable>(
    rng: &mut R,
    importance: i32,
    world: &World,
    orbital_resources: i32,
) -> (r: (i32, i32, i32, i32))
    requires
        world.wf(),
        -3 <= importance <= 9,
        orbital_resources <= i32::MAX - 12,
    ensures
        ({
            let (e, st) = economic_of(
                old(rng).state(),
                importance as int,
                world.population as int,
                world.tech as int,
                orbital_resources as int,
            );
            &&& (r.0 as int, r.1 as int, r.2 as int, r.3 as int) == e
            &&& final(rng).state() == st
        }),
        ({
            let (resources, labor, infrastructure, efficiency) = r;
            let bonus = if world.tech > 7 {
                orbital_resources as int
            } else {
                0
            };
            &&& 2 + bonus <= resources <= 12 + bonus
            &&& labor == at_least(world.population - 1, 0)
            &&& world.population == 0 ==> infrastructure == 0
            &&& 1 <= world.population <= 6 ==> at_least(1 + importance, 0) <= infrastructure
                <= at_least(6 + importance, 0)
            &&& world.population > 6 ==> at_least(2 + importance, 0) <= infrastructure
                <= at_least(12 + importance, 0)
            &&& -5 <= efficiency <= 5
        }),
{
    let bonus = if world.tech > 7 {
        orbital_resources
    } else {
        0
    };
    let resources = rng.roll(2, 6, bonus);
    let labor = if world.population - 1 < 0 {
        0
    } else {
        world.population - 1
    };
    let infrastructure = if world.population == 0 {
        0
    } else {
        let roll = if world.population <= 6 {
            rng.roll(1, 6, importance)
        } else {
            rng.roll(2, 6, importance)
        };
        if roll < 0 {
            0
        } else {
            roll
        }
    };
    let efficiency = rng.flux(0);
    (resources, labor, infrastructure, efficiency)
}

/// Cultural extension: heterogeneity, acceptance, strangeness, symbols.
/// All four are 0 without population; else each is at least 1:
/// heterogeneity a flux on the population, acceptance the population plus
/// the importance, strangeness a flux on 5, symbols a flux on the tech
/// level.
pub fn cultural_extensions<R: Rollable>(rng: &mut R, importance: i32, world: &World) -> (r: (
    i32,
    i32,
    i32,
    i32,
))
    requires
        world.wf(),
        -3 <= importance <= 9,
    ensures
        ({
            let (c, st) = cultural_of(
                old(rng).state(),
                importance as int,
                world.population as int,
                world.tech as int,
            );
            &&& (r.0 as int, r.1 as int, r.2 as int, r.3 as int) == c
            &&& final(rng).state() == st
        }),
        world.population == 0 ==> r == (0i32, 0i32, 0i32, 0i32),
        world.population != 0 ==> ({
            let (heterogeneity, acceptance, strangeness, symbols) = r;
            &&& at_least(world.population - 5, 1) <= heterogeneity <= at_least(
                world.population + 5,
                1,
            )
            &&& acceptance == at_least(world.population + importance, 1)
            &&& 1 <= strangeness <= 10
            &&& at_least(world.tech - 5, 1) <= symbols <= at_least(world.tech + 5, 1)
        }),
{
    if world.population == 0 {
        (0, 0, 0, 0)
    } else {
        let f = rng.flux(world.population);
        let heterogeneity = if f < 1 {
            1
        } else {
            f
        };
        let a = world.population + importance;
        let acceptance = if a < 1 {
            1
        } else {
            a
        };
        let f = rng.flux(5);
        let strangeness = if f < 1 {
            1
        } else {
            f
        };
        let f = rng.flux(world.tech);
        let symbols = if f < 1 {
            1
        } else {
            f
        };
        (heterogeneity, acceptance, strangeness, symbols)
    }
}

/// The product of the four economic values, each counted as at least 1.
pub open spec fn resource_units_of(e: Extensions) -> int {
    at_least(e.resources as int, 1) * at_least(e.labor as int, 1) * at_least(
        e.infrastructure as int,
        1,
    ) * at_least(e.efficiency as int, 1)
}

/// The expected daily ship traffic of an importance.
pub open spec fn traffic_of(importance: int) -> int {
    if importance == 5 {
        100
    } else if importance == 4 {
        15
    } else if importance == 3 {
        6
    } else if importance == 2 {
        4
    } else if importance == 1 {
        2
    } else if importance == 0 || importance == -1 {
        1
    } else {
        0
    }
}

/// How the extensions are written: "{+2}(B7A+3)[6A58]".
pub open spec fn extensions_text(e: Extensions) -> Seq<char> {
    "{"@ + (if e.importance < 0 {
        Seq::empty()
    } else {
        "+"@
    }) + signed_dec_chars(e.importance as int) + "}"@ + "("@ + ehex_text(e.resources as int)
        + ehex_text(e.labor as int) + ehex_text(e.infrastructure as int) + (if e.efficiency >= 0 {
        "+"@
    } else {
        Seq::empty()
    }) + signed_dec_chars(e.efficiency as int) + ")"@ + "["@ + ehex_text(e.heterogeneity as int)
        + ehex_text(e.acceptance as int) + ehex_text(e.strangeness as int) + ehex_text(
        e.symbols as int,
    ) + "]"@
}

impl Extensions {
    /// The extensions of a system, from its mainworld and its orbital
    /// resources (belts plus gas giants): importance, then the economic
    /// rolls, then the cultural ones.
    pub fn new<R: Rollable>(rng: &mut R, world: &World, orbital_resources: i32) -> (r: Self)
        requires
            world.wf(),
            orbital_resources <= i32::MAX - 12,
        ensures
            ({
                let (e, st) = extensions_of(
                    old(rng).state(),
                    importance_of(world),
                    world.population as int,
                    world.tech as int,
                    orbital_resources as int,
                );
                &&& r == e
                &&& final(rng).state() == st
            }),
            r.importance == importance_of(world),
            r.labor == at_least(world.population - 1, 0),
            world.population == 0 ==> r.infrastructure == 0 && r.heterogeneity == 0
                && r.acceptance == 0 && r.strangeness == 0 && r.symbols == 0,
            world.population != 0 ==> r.acceptance == at_least(
                world.population + r.importance,
                1,
            ) && r.heterogeneity >= 1 && r.strangeness >= 1 && r.symbols >= 1,
            r.infrastructure >= 0,
            1 <= world.population <= 6 ==> at_least(1 + r.importance, 0) <= r.infrastructure
                <= at_least(6 + r.importance, 0),
            world.population > 6 ==> at_least(2 + r.importance, 0) <= r.infrastructure
                <= at_least(12 + r.importance, 0),
            world.population != 0 ==> at_least(world.population - 5, 1) <= r.heterogeneity
                <= at_least(world.population + 5, 1) && 1 <= r.strangeness <= 10 && at_least(
                world.tech - 5,
                1,
            ) <= r.symbols <= at_least(world.tech + 5, 1),
            -5 <= r.efficiency <= 5,
            world.tech > 7 ==> 2 + orbital_resources <= r.resources <= 12 + orbital_resources,
            world.tech <= 7 ==> 2 <= r.resources <= 12,
    {
        let importance = importance_extension(world);
        let (resources, labor, infrastructure, efficiency) = economic_extension(
            rng,
            importance,
            world,
            orbital_resources,
        );
        let (heterogeneity, acceptance, strangeness, symbols) = cultural_extensions(
            rng,
            importance,
            world,
        );
        Self {
            importance,
            resources,
            labor,
            infrastructure,
            efficiency,
            heterogeneity,
            acceptance,
            strangeness,
            symbols,
        }
    }

    /// Expected daily ship traffic: 100, 15, 6, 4, 2 for importance 5 down
    /// to 1; 1 for importance 0 or -1; 0 otherwise.
    pub fn expected_daily_ship_traffic(&self) -> (r: i32)
        ensures
            r == traffic_of(self.importance as int),
    {
        match self.importance {
            5 => 100,
            4 => 15,
            3 => 6,
            2 => 4,
            1 => 2,
            0 => 1,
            -1 => 1,
            _ => 0,
        }
    }

    /// Resource units: resources times labor times infrastructure times
    /// efficiency, each counted as at least 1.
    pub fn resource_units(&self) -> (r: i32)
        requires
            resource_units_of(*self) <= i32::MAX,
        ensures
            r == resource_units_of(*self),
    {
        let a: i32 = if self.resources < 1 {
            1
        } else {
            self.resources
        };
        let b: i32 = if self.labor < 1 {
            1
        } else {
            self.labor
        };
        let c: i32 = if self.infrastructure < 1 {
            1
        } else {
            self.infrastructure
        };
        let d: i32 = if self.efficiency < 1 {
            1
        } else {
            self.efficiency
        };
        assert(a * b <= a * b * c * d && a * b * c <= a * b * c * d) by (nonlinear_arith)
            requires
                a >= 1,
                b >= 1,
                c >= 1,
                d >= 1,
        ;
        assert(a <= a * b) by (nonlinear_arith)
            requires
                a >= 1,
                b >= 1,
        ;
        a * b * c * d
    }

    pub fn is_important(&self) -> (r: bool)
        ensures
            r == (self.importance > 3),
    {
        self.importance > 3
    }

    pub fn is_unimportant(&self) -> (r: bool)
        ensures
            r == (self.importance < 1),
    {
        self.importance < 1
    }

    /// The extensions written as importance, economic and cultural groups.
    pub fn to_string(&self) -> (r: String)
        ensures
            r@ == extensions_text(*self),
    {
        let mut s = String::new();
        s.append("{");
        if self.importance >= 0 {
            s.append("+");
        }
        let v = decimal(self.importance);
        s.append(v.as_str());
        s.append("}");
        s.append("(");
        let v = to_ehex(self.resources);
        s.append(v.as_str());
        let v = to_ehex(self.labor);
        s.append(v.as_str());
        let v = to_ehex(self.infrastructure);
        s.append(v.as_str());
        if self.efficiency >= 0 {
            s.append("+");
        }
        let v = decimal(self.efficiency);
        s.append(v.as_str());
        s.append(")");
        s.append("[");
        let v = to_ehex(self.heterogeneity);
        s.append(v.as_str());
        let v = to_ehex(self.acceptance);
        s.append(v.as_str());
        let v = to_ehex(self.strangeness);
        s.append(v.as_str());
        let v = to_ehex(self.symbols);
        s.append(v.as_str());
        s.append("]");
        assert(s@ =~= extensions_text(*self));
        s
    }
}

} // verus!
