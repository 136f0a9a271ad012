use witchspace::{Coordinate, Dice, Rollable, Seed};

fn setup() -> Dice {
    Seed::new(String::from("test"), vec!["t", "e", "s", "t"]).to_rng()
}

#[test]
fn test_roll_range() {
    let mut rng = setup();
    let rolls = rng.roll_dice(100, 6);
    let min = rolls.iter().min().unwrap();
    let max = rolls.iter().max().unwrap();

    assert_eq!((*min, *max), (1, 6))
}

#[test]
fn test_batch_rolls() {
    let mut rng = setup();
    let rolls = rng.roll_dice(100, 6);
    let mut rng2 = setup();
    let rolls2 = rng2.roll_dice(100, 6);
    assert_eq!(rolls, rolls2)
}

#[test]
fn test_roll() {
    let mut rng = setup();
    let rolls = rng.roll(100, 6, 0);
    let mut rng2 = setup();
    let rolls2 = rng2.roll(100, 6, 0);
    assert_eq!(rolls, rolls2)
}

#[test]
fn test_flux() {
    let mut rng = setup();
    let rolls = rng.flux(0);
    let mut rng2 = setup();
    let rolls2 = rng2.flux(0);
    assert_eq!(rolls, rolls2)
}

#[test]
fn test_flux_range() {
    let mut rng = setup();
    let rolls: Vec<i32> = (0..100).map(|_| rng.flux(0)).collect();
    let min = rolls.iter().min().unwrap();
    let max = rolls.iter().max().unwrap();
    assert_eq!((*min, *max), (-5, 5))
}

#[test]
fn impossible_rolls_give_the_modifier() {
    let mut rng = setup();
    assert_eq!(rng.roll_dice(0, 6), vec![0]);
    assert_eq!(rng.roll_dice(3, 0), vec![0]);
    assert_eq!(rng.roll(0, 6, 5), 5);
    assert_eq!(rng.roll(2, 0, 5), 5);
    assert_eq!(rng.roll(0, 0, -3), -3);
}

#[test]
fn integer_context_seeds() {
    let a = Seed::with_numbers(String::from("Aamidal"), vec![1, 2, 3]);
    let b = Seed::with_numbers(String::from("Aamidal"), vec![1, 2, 3]);
    let c = Seed::with_numbers(String::from("Aamidal"), vec![1, 2, 4]);
    assert_eq!(a, b);
    assert_ne!(a.seed, c.seed);
    assert_ne!(a.seed, Seed::new(String::from("Aamidal"), vec![]).seed);
}

#[test]
fn roll_sum_stays_in_range_with_negative_modifier() {
    let mut rng = setup();
    for _ in 0..200 {
        let r = rng.roll(2, 6, -7);
        assert!((-5..=5).contains(&r));
    }
}

#[test]
fn flux_minus_modifier_within_five() {
    let mut rng = setup();
    for m in [-20, -3, 0, 4, 17] {
        for _ in 0..100 {
            let f = rng.flux(m);
            assert!((-5..=5).contains(&(f - m)));
        }
    }
}

#[test]
fn seeds_are_deterministic_and_context_sensitive() {
    let a = Seed::new(String::from("Aamidal"), vec![]);
    let b = Seed::new(String::from("Aamidal"), vec![]);
    let c = Seed::new(String::from("Aamidam"), vec![]);
    let d = Seed::new(String::from("Aamidal"), vec!["x"]);
    assert_eq!(a, b);
    assert_ne!(a.seed, c.seed);
    assert_ne!(a.seed, d.seed);
    assert_eq!(a.top_level_seed, "Aamidal");
}

#[test]
fn subseeds_depend_on_parent_and_coordinate() {
    let root = Seed::new(String::from("Aamidal"), vec![]);
    let s1 = root.subseed(vec![Coordinate::new(1, 2)]);
    let s1_again = root.subseed(vec![Coordinate::new(1, 2)]);
    let s2 = root.subseed(vec![Coordinate::new(2, 1)]);
    assert_eq!(s1, s1_again);
    assert_ne!(s1.seed, s2.seed);
    assert_ne!(s1.seed, root.seed);
    assert_eq!(s1.top_level_seed, "Aamidal");
}

#[test]
fn equal_seeds_give_equal_streams() {
    let s = Seed::new(String::from("stream"), vec![]);
    let mut a = s.to_rng();
    let mut b = s.to_rng();
    let xs: Vec<i32> = (0..50).map(|_| a.roll(1, 10, 0)).collect();
    let ys: Vec<i32> = (0..50).map(|_| b.roll(1, 10, 0)).collect();
    assert_eq!(xs, ys);
    assert!(xs.iter().all(|x| (1..=10).contains(x)));
}

#[test]
fn random_seeds_have_empty_label() {
    let s = Seed::random();
    assert_eq!(s.top_level_seed, "");
}
