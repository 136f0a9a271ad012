use witchspace::stargen::{
    class_to_size, companion_from_draws, generate_star, spectral_class, star_present,
    stars_from_draws, CompanionDraws, StarsDraws,
};
use witchspace::{generate_stars, Class, Seed, Size, Star, Stars};

#[test]
fn spectral_class_table() {
    assert_eq!(spectral_class(-6, 4), Class::O);
    assert_eq!(spectral_class(-6, 3), Class::B);
    assert_eq!(spectral_class(-7, 6), Class::O);
    assert_eq!(spectral_class(-5, 1), Class::A);
    assert_eq!(spectral_class(-2, 1), Class::F);
    assert_eq!(spectral_class(0, 1), Class::G);
    assert_eq!(spectral_class(2, 1), Class::K);
    assert_eq!(spectral_class(5, 1), Class::M);
    assert_eq!(spectral_class(6, 1), Class::BD);
}

#[test]
fn size_overrides_for_k_and_f() {
    assert_eq!(class_to_size(&Class::K, 5, -3), Some(Size::V));
    assert_eq!(class_to_size(&Class::K, 4, -3), Some(Size::IV));
    assert_eq!(class_to_size(&Class::F, 4, 4), Some(Size::V));
    assert_eq!(class_to_size(&Class::F, 5, 4), Some(Size::VI));
    assert_eq!(class_to_size(&Class::BD, 0, 0), None);
    assert_eq!(class_to_size(&Class::O, 0, 4), Some(Size::IV));
    assert_eq!(class_to_size(&Class::M, 0, -4), Some(Size::II));
}

#[test]
fn size_d_makes_a_dwarf() {
    assert_eq!(generate_star(0, 1, 3, 5), Star::Dwarf(Class::G));
    assert_eq!(generate_star(4, 1, 3, 5), Star::Dwarf(Class::M));
    assert_eq!(generate_star(7, 1, 3, 0), Star::BrownDwarf);
    assert_eq!(generate_star(0, 1, 2, 0), Star::Star(Class::G, 2, Size::V));
}

#[test]
fn companion_presence_threshold() {
    assert!(!star_present(2));
    assert!(star_present(3));
}

#[test]
fn star_text() {
    assert_eq!(Star::Star(Class::G, 2, Size::V).to_string(), "G2 V");
    assert_eq!(Star::Dwarf(Class::M).to_string(), "MD");
    assert_eq!(Star::BrownDwarf.to_string(), "BD");
    assert_eq!(Class::BD.to_string(), "BD");
    assert_eq!(Size::III.to_string(), "III");
}

#[test]
fn habitable_zones() {
    let g5 = Star::Star(Class::G, 5, Size::V);
    assert_eq!(g5.habitable_zone_orbit(0), 3);
    assert_eq!(g5.habitable_zone_orbit(-2), 5);
    assert_eq!(g5.habitable_zone_orbit(5), 0);
    assert_eq!(Star::Dwarf(Class::O).habitable_zone_orbit(0), 1);
    assert_eq!(Star::BrownDwarf.habitable_zone_orbit(-2), 2);
    assert_eq!(g5.habitable_zone_mod(), 0);
    assert_eq!(Star::Dwarf(Class::M).habitable_zone_mod(), 2);
    assert_eq!(Star::Star(Class::B, 0, Size::Ia).habitable_zone_mod(), -2);
    assert_eq!(g5.class(), Class::G);
    assert_eq!(Star::Dwarf(Class::K).size(), Size::D);
}

#[test]
fn display_order_of_stars() {
    let stars = Stars {
        primary: Star::Star(Class::K, 3, Size::V),
        primary_companion: Some(Star::Dwarf(Class::G)),
        close: None,
        close_companion: Some(Star::Star(Class::G, 2, Size::V)),
        near: Some(Star::Star(Class::G, 7, Size::V)),
        near_companion: None,
        far: Some(Star::Star(Class::G, 1, Size::III)),
        far_companion: Some(Star::BrownDwarf),
    };
    assert_eq!(
        stars.sorted(),
        vec![
            Star::Star(Class::G, 1, Size::III),
            Star::Star(Class::G, 7, Size::V),
            Star::Star(Class::G, 2, Size::V),
            Star::Dwarf(Class::G),
            Star::Star(Class::K, 3, Size::V),
            Star::BrownDwarf,
        ]
    );
    assert_eq!(stars.to_string(), "G1 III G7 V G2 V GD K3 V BD");
    assert_eq!(stars.members().len(), 6);
}

#[test]
fn generated_stars_never_full_size_d() {
    for i in 0..200 {
        let label = format!("stars{}", i);
        let mut rng = Seed::new(label, vec![]).to_rng();
        let stars = generate_stars(&mut rng);
        for s in stars.members() {
            match s {
                Star::Star(class, decimal, size) => {
                    assert!(size != Size::D);
                    assert!(class != Class::BD);
                    assert!(decimal <= 9);
                }
                Star::Dwarf(class) => assert!(class != Class::BD),
                Star::BrownDwarf => {}
            }
        }
    }
}

#[test]
fn companions_from_draws() {
    let absent = CompanionDraws { presence_flux: 2, class_die: 1, aux_die: 1, digit_die: 3, size_die: 1 };
    assert_eq!(companion_from_draws(0, 0, &absent), None);
    let present = CompanionDraws { presence_flux: 3, ..absent };
    assert_eq!(companion_from_draws(0, 0, &present), Some(Star::Star(Class::G, 2, Size::V)));
    let dwarf = CompanionDraws { presence_flux: 5, class_die: 6, aux_die: 2, digit_die: 10, size_die: 3 };
    assert_eq!(companion_from_draws(0, 0, &dwarf), Some(Star::Dwarf(Class::M)));
    let draws = StarsDraws {
        class_flux: -1,
        size_flux: -3,
        aux_die: 4,
        digit_die: 6,
        primary_companion: present,
        close: absent,
        close_companion: absent,
        near: dwarf,
        near_companion: absent,
        far: absent,
        far_companion: absent,
    };
    let stars = stars_from_draws(&draws);
    assert_eq!(stars.primary, Star::Star(Class::G, 5, Size::IV));
    assert_eq!(stars.primary_companion, Some(Star::Star(Class::G, 2, Size::V)));
    assert_eq!(stars.near, Some(Star::Star(Class::M, 9, Size::V)));
    assert_eq!(stars.close, None);
}
