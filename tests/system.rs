use witchspace::generators::{
    gas_giants_from_roll, habitable_zone_variance, place_systems, presence_rolls,
};
use witchspace::{generate_sector, generate_system, Coordinate, Galaxy, Seed};

#[test]
fn gas_giant_rounding() {
    let counts: Vec<i32> = (2..=12).map(gas_giants_from_roll).collect();
    assert_eq!(counts, vec![0, 0, 0, 1, 1, 2, 2, 3, 3, 4, 4]);
}

#[test]
fn variance_buckets() {
    assert_eq!(habitable_zone_variance(-6), -2);
    assert_eq!(habitable_zone_variance(-4), -1);
    assert_eq!(habitable_zone_variance(0), 0);
    assert_eq!(habitable_zone_variance(4), 1);
    assert_eq!(habitable_zone_variance(6), 2);
}

#[test]
fn systems_are_deterministic() {
    let root = Seed::new(String::from("Aamidal"), vec![]);
    let c = Coordinate::new(2, 3);
    let a = generate_system(root.subseed(vec![c]), c);
    let b = generate_system(root.subseed(vec![c]), c);
    assert_eq!(a, b);
    assert_eq!(a.location, c);
}

#[test]
fn systems_do_not_share_streams() {
    let root = Seed::new(String::from("Aamidal"), vec![]);
    let c1 = Coordinate::new(1, 1);
    let c2 = Coordinate::new(1, 2);
    let alone = generate_system(root.subseed(vec![c1]), c1);
    let _other = generate_system(root.subseed(vec![c2]), c2);
    let after = generate_system(root.subseed(vec![c1]), c1);
    assert_eq!(alone, after);
}

#[test]
fn system_strings() {
    let root = Seed::new(String::from("Aamidal"), vec![]);
    for i in 1..=20 {
        let c = Coordinate::new(i, i);
        let s = generate_system(root.subseed(vec![c]), c);
        assert!(s.nobility().starts_with('B'));
        assert!(s.has_knight());
        assert_eq!(
            s.pbg(),
            format!("{}{}{}", s.mainworld.population_digit, s.belts, s.gas_giants)
        );
        assert_eq!(s.trade_codes(), s.mainworld.trade_codes());
        assert_eq!(s.bases(), s.mainworld.bases_to_string());
        assert_eq!(s.travel_zone(), " ");
        assert_eq!(s.stars(), s.stars.to_string());
        assert!((0..=3).contains(&s.belts));
        assert!((0..=4).contains(&s.gas_giants));
        assert_eq!(s.has_duke(), s.extensions.importance > 3);
    }
}

#[test]
fn sector_population_bound() {
    let seed = Seed::new(String::from("Aamidal"), vec![]);
    let sector = generate_sector(seed.clone(), 8, 10);
    assert!(sector.systems.len() <= 80);
    assert_eq!(sector.seed, seed);
    let empty = generate_sector(seed.clone(), 0, 10);
    assert!(empty.systems.is_empty());
}

#[test]
fn no_systems_when_every_presence_roll_fails() {
    let seed = Seed::new(String::from("Aamidal"), vec![]);
    let rolls = vec![1, 2, 3, 4, 4, 3];
    assert!(place_systems(&seed, 3, &rolls).is_empty());
    let some = vec![5, 1, 1, 1, 6, 2];
    let placed = place_systems(&seed, 3, &some);
    let locations: Vec<Coordinate> = placed.iter().map(|s| s.location).collect();
    assert_eq!(locations, vec![Coordinate::new(1, 1), Coordinate::new(2, 2)]);
    let mut rng = seed.to_rng();
    let rs = presence_rolls(&mut rng, 30);
    assert_eq!(rs.len(), 30);
    assert!(rs.iter().all(|r| (1..=6).contains(r)));
}

#[test]
fn sector_rows_are_row_major() {
    let seed = Seed::new(String::from("Aamidal"), vec![]).subseed(vec![Coordinate::new(0, 0)]);
    let sector = generate_sector(seed, 8, 10);
    let mut last = (0, 0);
    for s in &sector.systems {
        let here = (s.location.row, s.location.col);
        assert!(here > last);
        assert!((1..=8).contains(&here.0) && (1..=10).contains(&here.1));
        last = here;
    }
}

fn sector_rows(g: &Galaxy) -> Vec<String> {
    g.get_sector(Coordinate::new(0, 0))
        .systems
        .iter()
        .map(|s| {
            format!(
                "{} {} {} {} {} {} {}",
                s.location.to_string(),
                s.mainworld.to_string(),
                s.trade_codes(),
                s.extensions.to_string(),
                s.nobility(),
                s.pbg(),
                s.stars()
            )
        })
        .collect()
}

/// The "Aamidal" galaxy's sector (0, 0), captured once as a fixture: hex,
/// profile, trade codes, extensions, nobility, PBG and stars.
#[test]
fn aamidal_sector_golden() {
    let rows = sector_rows(&Galaxy::new(String::from("Aamidal")));
    let expected: Vec<&str> = vec![
        "0104 E664410-6 Ni Pa {-3}(A33+2)[1137] Bc 402 K7 V",
        "0108 C5007AA-8 Va Na Pi {+0}(866-2)[3748] BD 702 G0 V M9 VI M1 VI",
        "0201 C246555-7 Ni Ag Co {-1}(343+1)[3493] BC 521 F3 V K5 VI",
        "0204 C679000-5 Di Co {-2}(600+3)[0000] B 012 A5 IV A0 V",
        "0208 C566142-8 Lo Ho {-1}(600-2)[1149] B 102 K3 IV KD",
        "0302 D220642-7 De Ni Na Po Ho {-3}(350-4)[6373] B 633 G6 V",
        "0304 B9B798B-9 Fl Hi In Ho {+3}(C89+0)[DC16] BE 911 G0 V MD",
        "0305 A336333-D Lo {+1}(926+0)[349F] B 311 F9 V F7 VI G0 VI",
        "0307 C000459-D As Va Ni {+0}(E31-2)[744C] B 422 F2 V F8 VI G5 VI",
        "0309 B110462-9 Ni Ho Tz {+0}(D31+1)[8444] B 431 M3 VI BD",
        "0310 E685577-3 Ga Ni Ag Pr Co Tu {-2}(944+0)[8324] BcC 500 A5 Ib F8 V F1 V",
        "0406 C452433-7 Ni Po Co {-2}(530-3)[2223] B 403 F1 V F9 VI G8 VI",
        "0408 B8A6236-9 Fl Lo Px {+0}(D11-1)[126D] B 203 M0 II M9 V M5 V",
        "0409 C430885-8 De Ph Na Po Co {+0}(A77-1)[882A] Be 822 G6 III M0 V",
        "0410 C645630-8 Ni Ag {+0}(E55+1)[B634] BC 613 F4 V F0 V",
        "0501 B562485-8 Ni {+0}(835+3)[3487] B 431 F3 V F1 V G8 VI K7 VI",
        "0502 C26A364-B Lo Ho Re {+0}(B22+3)[1399] B 303 G1 V M2 VI",
        "0503 CA73000-7 Di Co Tz {-2}(C00-4)[0000] B 032 K8 V",
        "0505 D854569-5 Ni Ag Co Tu {-2}(844+1)[8384] BC 502 F8 V",
        "0507 X69959D-2 Ni {-3}(540+2)[3261] B 503 G7 II M9 V M4 V",
        "0508 A8B8666-8 Fl Ni Ho {+0}(853-1)[3654] B 600 G6 IV",
        "0601 A598311-9 Lo {+0}(A23-3)[432A] B 320 K4 V",
        "0602 D865564-3 Ga Ni Ag Pr Ho Tr {-2}(844-4)[5351] BcC 513 F0 V",
        "0607 B547441-9 Ni Pa {+0}(D34+1)[2479] Bc 403 K3 IV M3 V",
        "0610 D230730-5 De Na Po {-2}(867+0)[B551] B 700 M0 II BD",
        "0701 C100463-C Va Ni {+0}(736+2)[145A] B 400 A4 IV F8 V",
        "0702 C21146B-B Ic Ni {+0}(933+1)[74AA] B 402 G7 V M3 VI MD",
        "0704 E231487-4 Ni Px Po {-3}(730+1)[3173] B 403 K1 V",
        "0706 E56A896-4 Wa Ph Ri Ho {-1}(578-1)[6753] BCe 822 G1 VI",
        "0710 E868564-4 Ni Ag Pr Ho {-2}(442+0)[6382] BcC 511 M3 II",
        "0801 E6A2324-4 Fl He Lo {-3}(720+1)[4162] B 302 G5 V G1 VI",
        "0802 E566211-5 Lo {-3}(610+2)[1187] B 230 A5 II",
        "0803 A534245-9 Lo {+0}(914+0)[22A9] B 201 M3 II BD",
        "0808 C4896AC-6 Ni Ri {-1}(651-1)[A564] BC 610 K2 V K5 VI",
    ];
    assert_eq!(rows, expected);
}

#[test]
fn aamidal_sector_is_reproducible() {
    let render = |g: &Galaxy| -> Vec<String> {
        g.get_sector(Coordinate::new(0, 0))
            .systems
            .iter()
            .map(|s| {
                format!(
                    "{} {} {} {} {} {} {} {}",
                    s.location.to_string(),
                    s.mainworld.to_string(),
                    s.trade_codes(),
                    s.extensions.to_string(),
                    s.nobility(),
                    s.bases(),
                    s.pbg(),
                    s.stars()
                )
            })
            .collect()
    };
    let first = render(&Galaxy::new(String::from("Aamidal")));
    let second = render(&Galaxy::new(String::from("Aamidal")));
    assert_eq!(first, second);
    assert!(first.len() <= 80);
}

#[test]
fn galaxy_system_matches_its_sector() {
    let galaxy = Galaxy::new(String::from("Aamidal"));
    let sector = galaxy.get_sector(Coordinate::new(0, 0));
    for s in &sector.systems {
        let again = galaxy.get_system(Coordinate::new(0, 0), s.location);
        assert_eq!(&again, s);
    }
    let r = Galaxy::random();
    assert_eq!(r.seed.top_level_seed, "");
}
