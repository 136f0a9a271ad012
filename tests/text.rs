use witchspace::ehex::{decimal, from_ehex};
use witchspace::{ehex, to_ehex, Coordinate};

#[test]
fn ehex_digits_and_letters() {
    assert_eq!(to_ehex(0), "0");
    assert_eq!(to_ehex(9), "9");
    assert_eq!(to_ehex(10), "A");
    assert_eq!(to_ehex(11), "B");
    assert_eq!(to_ehex(17), "H");
    assert_eq!(to_ehex(18), "J");
    assert_eq!(to_ehex(22), "N");
    assert_eq!(to_ehex(23), "P");
    assert_eq!(to_ehex(33), "Z");
    assert_eq!(ehex(15), "F");
}

#[test]
fn ehex_out_of_table_is_marked() {
    assert_eq!(to_ehex(34), "(34)?");
    assert_eq!(to_ehex(-1), "(-1)?");
    assert_eq!(to_ehex(i32::MIN), "(-2147483648)?");
}

#[test]
fn ehex_round_trips_over_the_table() {
    for v in 0..=33 {
        let s = to_ehex(v);
        assert_eq!(s.chars().count(), 1);
        let c = s.chars().next().unwrap();
        assert!(c != 'I' && c != 'O');
        assert_eq!(from_ehex(c), Some(v));
    }
    assert_eq!(from_ehex('I'), None);
    assert_eq!(from_ehex('O'), None);
    assert_eq!(from_ehex('a'), None);
}

#[test]
fn decimal_rendering() {
    assert_eq!(decimal(0), "0");
    assert_eq!(decimal(42), "42");
    assert_eq!(decimal(-7), "-7");
    assert_eq!(decimal(i32::MAX), "2147483647");
}

#[test]
fn coordinate_label_is_padded() {
    assert_eq!(Coordinate::new(3, 4).to_string(), "0304");
    assert_eq!(Coordinate::new(12, 10).to_string(), "1210");
    let c = Coordinate::new(5, 7);
    assert_eq!((c.row, c.col), (5, 7));
}
