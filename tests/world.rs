use witchspace::uwp::{port_tech, starport_from_roll, tech_mod, uwp_from_draws, UwpDraws};
use witchspace::{
    generate_mainworld, Base, Extensions, MainWorldType, Seed, Starport, TravelZone, Uwp, World,
};

fn world(size: i32, atmosphere: i32, hydrographics: i32, population: i32) -> World {
    World {
        mainworld_type: MainWorldType::Planet,
        hz_variance: 0,
        orbit: 3,
        port: Starport::C,
        bases: vec![],
        size,
        atmosphere,
        hydrographics,
        population,
        population_digit: population,
        government: 4,
        law: 3,
        tech: 8,
        travel_zone: TravelZone::Green,
    }
}

#[test]
fn starport_x_tech_contribution() {
    assert_eq!(port_tech(Starport::X), -4);
    for (s, a, h, p, g) in [(0, 0, 0, 0, 0), (7, 6, 9, 12, 14), (3, 11, 10, 9, 5)] {
        let with_x = tech_mod(Starport::X, s, a, h, p, g);
        let with_e = tech_mod(Starport::E, s, a, h, p, g);
        assert_eq!(with_x - with_e, -4);
    }
    assert_eq!(tech_mod(Starport::A, 0, 0, 10, 12, 0), 6 + 2 + 1 + 2 + 4 + 1);
    assert_eq!(tech_mod(Starport::C, 6, 6, 5, 7, 14), 2 - 2);
}

#[test]
fn starport_table() {
    let ports: Vec<Starport> = (0..=10).map(starport_from_roll).collect();
    assert_eq!(
        ports,
        vec![
            Starport::A,
            Starport::A,
            Starport::A,
            Starport::B,
            Starport::B,
            Starport::C,
            Starport::C,
            Starport::D,
            Starport::E,
            Starport::E,
            Starport::X
        ]
    );
}

#[test]
fn unpopulated_world_extensions() {
    let w = world(5, 6, 7, 0);
    let mut rng = Seed::new(String::from("empty"), vec![]).to_rng();
    let e = Extensions::new(&mut rng, &w, 3);
    assert_eq!(
        (e.heterogeneity, e.acceptance, e.strangeness, e.symbols),
        (0, 0, 0, 0)
    );
    assert_eq!(e.labor, 0);
    assert_eq!(e.infrastructure, 0);
}

#[test]
fn populated_world_extensions() {
    let w = world(5, 6, 7, 8);
    let mut rng = Seed::new(String::from("busy"), vec![]).to_rng();
    let e = Extensions::new(&mut rng, &w, 3);
    assert_eq!(e.labor, 7);
    // rich (+1), not tech below 8 (+1), not population below 7 (+1),
    // starport C (+1): -3 + 4
    assert_eq!(e.importance, 1);
    assert_eq!(e.acceptance, 9);
    assert!(e.heterogeneity >= 1 && e.strangeness >= 1 && e.symbols >= 1);
    assert!((-5..=5).contains(&e.efficiency));
    assert!((5..=15).contains(&e.resources));
}

#[test]
fn extension_helpers() {
    let e = Extensions {
        importance: 4,
        resources: 3,
        labor: 0,
        infrastructure: 5,
        efficiency: -2,
        heterogeneity: 1,
        acceptance: 11,
        strangeness: 2,
        symbols: 12,
    };
    assert_eq!(e.expected_daily_ship_traffic(), 15);
    assert_eq!(e.resource_units(), 15);
    assert!(e.is_important());
    assert!(!e.is_unimportant());
    assert_eq!(e.to_string(), "{+4}(305-2)[1B2C]");
    let low = Extensions { importance: -2, ..e };
    assert_eq!(low.expected_daily_ship_traffic(), 0);
    assert!(low.is_unimportant());
    assert_eq!(low.to_string(), "{-2}(305-2)[1B2C]");
}

#[test]
fn trade_codes_in_fixed_order() {
    let garden = world(7, 6, 6, 6);
    assert!(garden.is_garden());
    assert!(garden.is_rich());
    assert_eq!(garden.trade_codes(), "Ga Ni Ag Ri");
    let rock = World { tech: 0, orbit: 1, ..world(0, 0, 0, 0) };
    assert_eq!(rock.trade_codes(), "As Va Ba Tz");
    let hot_ocean = World { hz_variance: -1, ..world(11, 7, 10, 9) };
    assert_eq!(hot_ocean.trade_codes(), "Oc Hi In Ho");
    let hell = World { hz_variance: 2, ..world(5, 10, 1, 3) };
    assert_eq!(hell.trade_codes(), "Fl He Lo Fr");
    let amber = World { travel_zone: TravelZone::Amber, ..world(5, 6, 7, 8) };
    assert!(amber.is_puzzle());
    assert!(!amber.is_dangerous());
    let satellite = World { mainworld_type: MainWorldType::FarSatellite(2), ..world(5, 6, 7, 8) };
    assert!(satellite.is_satellite());
    assert!(!satellite.is_tidally_locked());
}

#[test]
fn bases_and_profile_text() {
    let w = World {
        port: Starport::A,
        bases: vec![Base::Naval, Base::Scout],
        tech: 12,
        ..world(7, 8, 10, 6)
    };
    assert!(w.has_naval_base() && w.has_scout_base());
    assert!(!w.has_way_station() && !w.has_depot());
    assert_eq!(w.bases_to_string(), "NS");
    assert_eq!(w.to_string(), "A78A643-C");
    assert_eq!(Starport::X.to_string(), "X");
    assert_eq!(TravelZone::Green.to_string(), " ");
    assert_eq!(TravelZone::Red.to_string(), "R");
}

#[test]
fn generated_worlds_stay_in_range() {
    for i in 0..300 {
        let mut rng = Seed::new(format!("world{}", i), vec![]).to_rng();
        let u = Uwp::generate_mainworld(&mut rng);
        assert!((0..=15).contains(&u.size));
        assert!((0..=15).contains(&u.atmosphere));
        assert!((0..=10).contains(&u.hydrographics));
        assert!((0..=15).contains(&u.population));
        assert!((0..=15).contains(&u.government));
        assert!((0..=18).contains(&u.law));
        assert!((0..=33).contains(&u.tech));
        if u.size == 0 {
            assert_eq!(u.atmosphere, 0);
        }
        if u.population == 0 {
            assert_eq!((u.government, u.law), (0, 0));
        }
        let w = generate_mainworld(&mut rng, 1, 4);
        assert_eq!((w.hz_variance, w.orbit), (1, 4));
        for b in &w.bases {
            assert!(*b == Base::Naval || *b == Base::Scout);
        }
        if w.bases.contains(&Base::Naval) {
            assert!(w.port == Starport::A || w.port == Starport::B);
        }
    }
}

#[test]
fn profile_from_draws() {
    let d = UwpDraws {
        port_roll: 2,
        size_roll: 12,
        size_reroll: 3,
        atmosphere_flux: 5,
        hydrographics_flux: -5,
        population_roll: 7,
        population_reroll: 2,
        government_flux: 0,
        law_flux: 2,
        tech_die: 1,
    };
    let u = uwp_from_draws(&d);
    assert_eq!(u.port, Starport::A);
    assert_eq!((u.size, u.atmosphere, u.hydrographics), (12, 15, 6));
    assert_eq!((u.population, u.population_digit), (5, 5));
    assert_eq!((u.government, u.law, u.tech), (5, 7, 10));
    assert_eq!(u.to_string(), "ACF6557-A");
    let empty = UwpDraws { size_roll: 2, population_roll: 2, port_roll: 12, ..d };
    let e = uwp_from_draws(&empty);
    assert_eq!(e.port, Starport::X);
    assert_eq!((e.size, e.atmosphere, e.hydrographics), (0, 0, 0));
    assert_eq!((e.population, e.government, e.law), (0, 0, 0));
    // tech: 1 + (-4 + 2 + 1 + 0 + 0 + 1)
    assert_eq!(e.tech, 1);
    let high = UwpDraws { population_roll: 12, population_reroll: 12, ..d };
    let h = uwp_from_draws(&high);
    assert_eq!((h.population, h.population_digit), (15, 10));
}
