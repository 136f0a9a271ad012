//! Hex coordinates within a sector, and of sectors within the galaxy.
use vstd::prelude::*;

use crate::ehex::{dec_chars, push_decimal, signed_dec_chars};

verus! {

/// A (row, col) pair: a spatial key and a context for seed derivation.
#[derive(Debug, Clone, Copy, PartialEq, Eq, Hash, Structural)]
pub struct Coordinate {
    pub row: i32,
    pub col: i32,
}

/// A value in decimal, padded on the left with '0' to two characters.
pub open spec fn padded_chars(v: int) -> Seq<char> {
    if 0 <= v < 10 {
        seq!['0'] + dec_chars(v as nat)
    } else {
        signed_dec_chars(v)
    }
}

/// What `Coordinate::to_string` renders: row then column, each padded to
/// two characters.
pub open spec fn coordinate_text(c: Coordinate) -> Seq<char> {
    padded_chars(c.row as int) + padded_chars(c.col as int)
}

fn push_padded(s: &mut String, v: i32)
    ensures
        final(s)@ == old(s)@ + padded_chars(v as int),
{
    if 0 <= v && v < 10 {
        s.append("0");
        proof {
            reveal_strlit("0");
        }
        push_decimal(s, v as u32);
        assert(final(s)@ =~= old(s)@ + padded_chars(v as int));
    } else {
        let d = crate::ehex::decimal(v);
        s.append(d.as_str());
    }
}

impl Coordinate {
    pub fn new(row: i32, col: i32) -> (r: Self)
        ensures
            r.row == row,
            r.col == col,
    {
        Self { row, col }
    }

    /// The four-digit label of a hex, "0304" for row 3, column 4.
    pub fn to_string(&self) -> (r: String)
        ensures
            r@ == coordinate_text(*self),
    {
        let mut s = String::new();
        push_padded(&mut s, self.row);
        push_padded(&mut s, self.col);
        assert(s@ =~= coordinate_text(*self));
        s
    }
}

} // verus!
