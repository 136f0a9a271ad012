//! Stars: spectral class, size, the variants a star can take, and the
//! habitable-zone tables.
use vstd::prelude::*;

use crate::ehex::{dec_chars, push_decimal};

verus! {

/// Spectral class, in declaration order O < B < A < F < G < K < M < BD.
#[derive(Debug, Clone, Copy, PartialEq, Eq, Hash, Structural)]
pub enum Class {
    O,
    B,
    A,
    F,
    G,
    K,
    M,
    BD,
}

/// Luminosity size, in declaration order Ia < Ib < II < ... < VI < D.
#[derive(Debug, Clone, Copy, PartialEq, Eq, Hash, Structural)]
pub enum Size {
    Ia,
    Ib,
    II,
    III,
    IV,
    V,
    VI,
    D,
}

/// The luminosity digit of a star, 0..=9 when generated.
pub type Decimal = u8;

/// A star: a full star with class, digit and size; a dwarf of a class; or
/// a brown dwarf.
#[derive(Debug, Clone, Copy, PartialEq, Eq, Hash, Structural)]
pub enum Star {
    Star(Class, Decimal, Size),
    Dwarf(Class),
    BrownDwarf,
}

/// A system's stars: a primary and seven optional companions, at the
/// primary, close, near and far separations, each of the last three with a
/// companion of its own.
#[derive(Debug, Clone, Copy, PartialEq, Eq, Hash, Structural)]
pub struct Stars {
    pub primary: Star,
    pub primary_companion: Option<Star>,
    pub close: Option<Star>,
    pub close_companion: Option<Star>,
    pub near: Option<Star>,
    pub near_companion: Option<Star>,
    pub far: Option<Star>,
    pub far_companion: Option<Star>,
}

impl Class {
    /// The position of the class in declaration order.
    pub open spec fn spec_rank(self) -> int {
        match self {
            Class::O => 0,
            Class::B => 1,
            Class::A => 2,
            Class::F => 3,
            Class::G => 4,
            Class::K => 5,
            Class::M => 6,
            Class::BD => 7,
        }
    }

    pub fn rank(&self) -> (r: u32)
        ensures
            r == self.spec_rank(),
    {
        match self {
            Class::O => 0,
            Class::B => 1,
            Class::A => 2,
            Class::F => 3,
            Class::G => 4,
            Class::K => 5,
            Class::M => 6,
            Class::BD => 7,
        }
    }

    /// The class's symbol.
    pub open spec fn text(self) -> Seq<char> {
        match self {
            Class::O => "O"@,
            Class::B => "B"@,
            Class::A => "A"@,
            Class::F => "F"@,
            Class::G => "G"@,
            Class::K => "K"@,
            Class::M => "M"@,
            Class::BD => "BD"@,
        }
    }

    pub fn to_string(&self) -> (r: String)
        ensures
            r@ == self.text(),
    {
        let mut s = String::new();
        self.push_to(&mut s);
        s
    }

    fn push_to(&self, s: &mut String)
        ensures
            final(s)@ == old(s)@ + self.text(),
    {
        match self {
            Class::O => s.append("O"),
            Class::B => s.append("B"),
            Class::A => s.append("A"),
            Class::F => s.append("F"),
            Class::G => s.append("G"),
            Class::K => s.append("K"),
            Class::M => s.append("M"),
            Class::BD => s.append("BD"),
        }
    }

    fn habitable_zone(&self, size: &Size) -> (r: i32)
        ensures
            r == habitable_zone_table(*self, *size),
    {
        match self {
            Class::O => Self::o_habitable_zones(size),
            Class::B => Self::b_habitable_zones(size),
            Class::A => Self::a_habitable_zones(size),
            Class::F => Self::f_habitable_zones(size),
            Class::G => Self::g_habitable_zones(size),
            Class::K => Self::k_habitable_zones(size),
            Class::M => Self::m_habitable_zones(size),
            Class::BD => 0,
        }
    }

    fn o_habitable_zones(size: &Size) -> (r: i32)
        ensures
            r == habitable_zone_table(Class::O, *size),
    {
        match size {
            Size::Ia | Size::Ib => 15,
            Size::II => 14,
            Size::III => 13,
            Size::IV => 12,
            Size::V => 11,
            Size::D => 1,
            _ => 0,
        }
    }

    fn b_habitable_zones(size: &Size) -> (r: i32)
        ensures
            r == habitable_zone_table(Class::B, *size),
    {
        match size {
            Size::Ia | Size::Ib => 13,
            Size::II => 12,
            Size::III => 11,
            Size::IV => 10,
            Size::V => 9,
            _ => 0,
        }
    }

    fn a_habitable_zones(size: &Size) -> (r: i32)
        ensures
            r == habitable_zone_table(Class::A, *size),
    {
        match size {
            Size::Ia => 12,
            Size::Ib => 11,
            Size::II => 9,
            Size::III | Size::IV | Size::V => 7,
            _ => 0,
        }
    }

    fn f_habitable_zones(size: &Size) -> (r: i32)
        ensures
            r == habitable_zone_table(Class::F, *size),
    {
        match size {
            Size::Ia => 11,
            Size::Ib => 10,
            Size::II => 9,
            Size::III | Size::IV => 6,
            Size::V => 4,
            Size::VI => 3,
            Size::D => 0,
        }
    }

    fn g_habitable_zones(size: &Size) -> (r: i32)
        ensures
            r == habitable_zone_table(Class::G, *size),
    {
        match size {
            Size::Ia => 12,
            Size::Ib => 10,
            Size::II => 9,
            Size::III => 7,
            Size::IV => 5,
            Size::V => 3,
            Size::VI => 2,
            Size::D => 0,
        }
    }

    fn k_habitable_zones(size: &Size) -> (r: i32)
        ensures
            r == habitable_zone_table(Class::K, *size),
    {
        match size {
            Size::Ia => 12,
            Size::Ib => 10,
            Size::II => 9,
            Size::III => 8,
            Size::IV => 5,
            Size::V => 2,
            Size::VI => 1,
            Size::D => 0,
        }
    }

    fn m_habitable_zones(size: &Size) -> (r: i32)
        ensures
            r == habitable_zone_table(Class::M, *size),
    {
        match size {
            Size::Ia => 12,
            Size::Ib => 11,
            Size::II => 10,
            Size::III => 9,
            _ => 0,
        }
    }
}

/// The habitable-zone orbit of a star of a class and size.
pub open spec fn habitable_zone_table(class: Class, size: Size) -> int {
    match class {
        Class::O => match size {
            Size::Ia | Size::Ib => 15,
            Size::II => 14,
            Size::III => 13,
            Size::IV => 12,
            Size::V => 11,
            Size::D => 1,
            Size::VI => 0,
        },
        Class::B => match size {
            Size::Ia | Size::Ib => 13,
            Size::II => 12,
            Size::III => 11,
            Size::IV => 10,
            Size::V => 9,
            _ => 0,
        },
        Class::A => match size {
            Size::Ia => 12,
            Size::Ib => 11,
            Size::II => 9,
            Size::III | Size::IV | Size::V => 7,
            _ => 0,
        },
        Class::F => match size {
            Size::Ia => 11,
            Size::Ib => 10,
            Size::II => 9,
            Size::III | Size::IV => 6,
            Size::V => 4,
            Size::VI => 3,
            Size::D => 0,
        },
        Class::G => match size {
            Size::Ia => 12,
            Size::Ib => 10,
            Size::II => 9,
            Size::III => 7,
            Size::IV => 5,
            Size::V => 3,
            Size::VI => 2,
            Size::D => 0,
        },
        Class::K => match size {
            Size::Ia => 12,
            Size::Ib => 10,
            Size::II => 9,
            Size::III => 8,
            Size::IV => 5,
            Size::V => 2,
            Size::VI => 1,
            Size::D => 0,
        },
        Class::M => match size {
            Size::Ia => 12,
            Size::Ib => 11,
            Size::II => 10,
            Size::III => 9,
            _ => 0,
        },
        Class::BD => 0,
    }
}

impl Size {
    /// The position of the size in declaration order.
    pub open spec fn spec_rank(self) -> int {
        match self {
            Size::Ia => 0,
            Size::Ib => 1,
            Size::II => 2,
            Size::III => 3,
            Size::IV => 4,
            Size::V => 5,
            Size::VI => 6,
            Size::D => 7,
        }
    }

    pub fn rank(&self) -> (r: u32)
        ensures
            r == self.spec_rank(),
    {
        match self {
            Size::Ia => 0,
            Size::Ib => 1,
            Size::II => 2,
            Size::III => 3,
            Size::IV => 4,
            Size::V => 5,
            Size::VI => 6,
            Size::D => 7,
        }
    }

    /// The size's roman numeral.
    pub open spec fn text(self) -> Seq<char> {
        match self {
            Size::Ia => "Ia"@,
            Size::Ib => "Ib"@,
            Size::II => "II"@,
            Size::III => "III"@,
            Size::IV => "IV"@,
            Size::V => "V"@,
            Size::VI => "VI"@,
            Size::D => "D"@,
        }
    }

    pub fn to_string(&self) -> (r: String)
        ensures
            r@ == self.text(),
    {
        let mut s = String::new();
        self.push_to(&mut s);
        s
    }

    fn push_to(&self, s: &mut String)
        ensures
            final(s)@ == old(s)@ + self.text(),
    {
        match self {
            Size::Ia => s.append("Ia"),
            Size::Ib => s.append("Ib"),
            Size::II => s.append("II"),
            Size::III => s.append("III"),
            Size::IV => s.append("IV"),
            Size::V => s.append("V"),
            Size::VI => s.append("VI"),
            Size::D => s.append("D"),
        }
    }
}

impl Star {
    pub open spec fn spec_class(self) -> Class {
        match self {
            Star::BrownDwarf => Class::BD,
            Star::Dwarf(class) => class,
            Star::Star(class, _, _) => class,
        }
    }

    pub open spec fn spec_size(self) -> Size {
        match self {
            Star::BrownDwarf => Size::D,
            Star::Dwarf(_) => Size::D,
            Star::Star(_, _, size) => size,
        }
    }

    /// A star that the tables can produce: a full star is never of size D
    /// nor of class BD, has a digit 0..=9, and is neither a K5-K9 of size
    /// IV nor an F0-F4 of size VI; a dwarf is never of class BD.
    pub open spec fn wf(self) -> bool {
        match self {
            Star::Star(class, decimal, size) => {
                &&& class != Class::BD
                &&& size != Size::D
                &&& decimal <= 9
                &&& !(class == Class::K && size == Size::IV && 5 <= decimal)
                &&& !(class == Class::F && size == Size::VI && decimal <= 4)
            },
            Star::Dwarf(class) => class != Class::BD,
            Star::BrownDwarf => true,
        }
    }

    /// The spectral class; BD for a brown dwarf.
    pub fn class(&self) -> (r: Class)
        ensures
            r == self.spec_class(),
    {
        match self {
            Star::BrownDwarf => Class::BD,
            Star::Dwarf(class) => *class,
            Star::Star(class, _, _) => *class,
        }
    }

    /// The size; D for dwarfs and brown dwarfs.
    pub fn size(&self) -> (r: Size)
        ensures
            r == self.spec_size(),
    {
        match self {
            Star::BrownDwarf => Size::D,
            Star::Dwarf(_) => Size::D,
            Star::Star(_, _, size) => *size,
        }
    }

    /// The habitable-zone modifier of the star's class.
    pub fn habitable_zone_mod(&self) -> (r: i32)
        ensures
            r == (match self.spec_class() {
                Class::M => 2int,
                Class::O | Class::B => -2,
                _ => 0,
            }),
    {
        match self.class() {
            Class::M => 2,
            Class::O | Class::B => -2,
            _ => 0,
        }
    }

    /// The habitable-zone orbit: the class and size table value less the
    /// variance, floored at 0.
    pub fn habitable_zone_orbit(&self, hz_var: i32) -> (r: i32)
        requires
            hz_var >= i32::MIN + 16,
        ensures
            r == max_int(habitable_zone_table(self.spec_class(), self.spec_size()) - hz_var, 0),
    {
        let size = self.size();
        let class = self.class();
        let hz_orbit = class.habitable_zone(&size) - hz_var;
        if hz_orbit < 0 {
            0
        } else {
            hz_orbit
        }
    }

    /// How the star is written: class, digit and size ("G2 V"), class and
    /// D for a dwarf ("MD"), "BD" for a brown dwarf.
    pub open spec fn text(self) -> Seq<char> {
        match self {
            Star::Star(class, decimal, size) => class.text() + dec_chars(decimal as nat) + " "@
                + size.text(),
            Star::Dwarf(class) => class.text() + "D"@,
            Star::BrownDwarf => "BD"@,
        }
    }

    pub fn to_string(&self) -> (r: String)
        ensures
            r@ == self.text(),
    {
        let mut s = String::new();
        self.push_to(&mut s);
        s
    }

    fn push_to(&self, s: &mut String)
        ensures
            final(s)@ == old(s)@ + self.text(),
    {
        match self {
            Star::Star(class, decimal, size) => {
                class.push_to(s);
                push_decimal(s, *decimal as u32);
                s.append(" ");
                size.push_to(s);
                assert(final(s)@ =~= old(s)@ + self.text());
            },
            Star::Dwarf(class) => {
                class.push_to(s);
                s.append("D");
                assert(final(s)@ =~= old(s)@ + self.text());
            },
            Star::BrownDwarf => s.append("BD"),
        }
    }
}

/// The display order of stars: class ascending, then size ascending (a
/// dwarf or brown dwarf counting as size D), then digit descending.
pub open spec fn display_key(s: Star) -> int {
    s.spec_class().spec_rank() * 10000 + s.spec_size().spec_rank() * 1000 + match s {
        Star::Star(_, decimal, _) => 256 - decimal,
        _ => 0,
    }
}

/// Whether a run of stars is in display order.
pub open spec fn in_display_order(ss: Seq<Star>) -> bool {
    forall|i: int, j: int| 0 <= i < j < ss.len() ==> display_key(ss[i]) <= display_key(ss[j])
}

/// An optional star as a run of zero or one stars.
pub open spec fn present(o: Option<Star>) -> Seq<Star> {
    match o {
        Some(s) => seq![s],
        None => Seq::empty(),
    }
}

/// Stars written one after another, separated by single spaces.
pub open spec fn stars_text(ss: Seq<Star>) -> Seq<char>
    decreases ss.len(),
{
    if ss.len() == 0 {
        Seq::empty()
    } else if ss.len() == 1 {
        ss[0].text()
    } else {
        stars_text(ss.drop_last()) + " "@ + ss.last().text()
    }
}

fn push_present(v: &mut Vec<Star>, o: Option<Star>)
    ensures
        final(v)@ == old(v)@ + present(o),
{
    match o {
        Some(s) => {
            v.push(s);
            assert(final(v)@ =~= old(v)@ + present(o));
        },
        None => {
            assert(old(v)@ =~= old(v)@ + present(o));
        },
    }
}

impl Star {
    /// The star's position in display order.
    pub fn display_key(&self) -> (r: u32)
        ensures
            r == display_key(*self),
    {
        let tail: u32 = match self {
            Star::Star(_, decimal, _) => 256 - *decimal as u32,
            _ => 0,
        };
        self.class().rank() * 10000 + self.size().rank() * 1000 + tail
    }
}

impl Stars {
    /// All the stars: the primary, then the companions present, slot by
    /// slot.
    pub open spec fn spec_members(self) -> Seq<Star> {
        seq![self.primary] + present(self.primary_companion) + present(self.close) + present(
            self.close_companion,
        ) + present(self.near) + present(self.near_companion) + present(self.far) + present(
            self.far_companion,
        )
    }

    /// Every star of the system can be produced by the tables.
    pub open spec fn wf(self) -> bool {
        forall|i: int| 0 <= i < self.spec_members().len() ==> (#[trigger] self.spec_members()[i]).wf()
    }

    /// The stars present, primary first, then slot by slot.
    pub fn members(&self) -> (r: Vec<Star>)
        ensures
            r@ == self.spec_members(),
    {
        let mut v: Vec<Star> = Vec::new();
        v.push(self.primary);
        push_present(&mut v, self.primary_companion);
        push_present(&mut v, self.close);
        push_present(&mut v, self.close_companion);
        push_present(&mut v, self.near);
        push_present(&mut v, self.near_companion);
        push_present(&mut v, self.far);
        push_present(&mut v, self.far_companion);
        assert(v@ =~= self.spec_members());
        v
    }

    /// The stars present, in display order.
    pub fn sorted(&self) -> (r: Vec<Star>)
        ensures
            r@.to_multiset() == self.spec_members().to_multiset(),
            in_display_order(r@),
    {
        let stars = self.members();
        sort_for_display(&stars)
    }

    /// The stars in display order, separated by single spaces.
    pub fn to_string(&self) -> (r: String)
        ensures
            exists|ss: Seq<Star>|
                ss.to_multiset() == self.spec_members().to_multiset() && in_display_order(ss)
                    && r@ == stars_text(ss),
    {
        let sorted = self.sorted();
        let r = stars_to_string(&sorted);
        r
    }
}

/// Sorts stars into display order.
pub fn sort_for_display(stars: &Vec<Star>) -> (r: Vec<Star>)
    ensures
        r@.to_multiset() == stars@.to_multiset(),
        in_display_order(r@),
{
    broadcast use vstd::seq_lib::group_to_multiset_ensures;

    let mut out: Vec<Star> = Vec::new();
    let mut i: usize = 0;
    while i < stars.len()
        invariant
            i <= stars@.len(),
            out@.to_multiset() == stars@.take(i as int).to_multiset(),
            in_display_order(out@),
        decreases stars@.len() - i,
    {
        let x = stars[i];
        let kx = x.display_key();
        let mut p: usize = 0;
        while p < out.len() && out[p].display_key() <= kx
            invariant
                p <= out@.len(),
                forall|j: int| 0 <= j < p ==> display_key(#[trigger] out@[j]) <= kx,
            decreases out@.len() - p,
        {
            p += 1;
        }
        let ghost before = out@;
        out.insert(p, x);
        proof {
            vstd::seq_lib::to_multiset_insert(before, p as int, x);
            vstd::seq_lib::to_multiset_build(stars@.take(i as int), x);
            assert(stars@.take(i + 1) =~= stars@.take(i as int).push(x));
            assert forall|a: int, b: int| 0 <= a < b < out@.len() implies display_key(out@[a])
                <= display_key(out@[b]) by {
                if p < before.len() {
                    assert(display_key(before[p as int]) > kx);
                }
                if a < p && b > p {
                    assert(display_key(out@[a]) <= kx);
                    assert(display_key(before[b - 1]) >= display_key(before[p as int]));
                }
            }
        }
        i += 1;
    }
    assert(stars@.take(stars@.len() as int) =~= stars@);
    out
}

/// Stars written one after another, separated by single spaces.
pub fn stars_to_string(stars: &Vec<Star>) -> (r: String)
    ensures
        r@ == stars_text(stars@),
{
    let mut s = String::new();
    let mut i: usize = 0;
    while i < stars.len()
        invariant
            i <= stars@.len(),
            s@ == stars_text(stars@.take(i as int)),
        decreases stars@.len() - i,
    {
        if i > 0 {
            s.append(" ");
        }
        stars[i].push_to(&mut s);
        proof {
            assert(stars@.take(i + 1).drop_last() =~= stars@.take(i as int));
        }
        i += 1;
    }
    assert(stars@.take(stars@.len() as int) =~= stars@);
    s
}

/// The larger of two integers.
pub open spec fn max_int(a: int, b: int) -> int {
    if a >= b {
        a
    } else {
        b
    }
}

} // verus!
