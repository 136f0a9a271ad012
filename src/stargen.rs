//! Star generation: the flux tables for spectral class and size, and the
//! primary and companion stars of a system.
use vstd::prelude::*;

use crate::rng::{flux_of, roll_of, DiceState, Rollable};
use crate::star::{Class, Size, Star, Stars};

verus! {

/// The spectral class of a class flux: at -6 or below an auxiliary d6
/// above 3 gives O, else B; -5..=-4 A; -3..=-2 F; -1..=0 G; 1..=2 K;
/// 3..=5 M; 6 and above BD.
pub open spec fn class_of_flux(flux: int, aux_roll: int) -> Class {
    if flux <= -6 {
        if aux_roll > 3 {
            Class::O
        } else {
            Class::B
        }
    } else if flux <= -4 {
        Class::A
    } else if flux <= -2 {
        Class::F
    } else if flux <= 0 {
        Class::G
    } else if flux <= 2 {
        Class::K
    } else if flux <= 5 {
        Class::M
    } else {
        Class::BD
    }
}

/// The size table of class O.
pub open spec fn o_size_of_flux(f: int) -> Size {
    if f == -6 || f == -5 {
        Size::Ia
    } else if f == -4 {
        Size::Ib
    } else if f == -3 {
        Size::II
    } else if -2 <= f <= 0 {
        Size::III
    } else if 1 <= f <= 3 {
        Size::V
    } else if f == 5 {
        Size::D
    } else {
        Size::IV
    }
}

/// The size table of class B.
pub open spec fn b_size_of_flux(f: int) -> Size {
    if f == -6 || f == -5 {
        Size::Ia
    } else if f == -4 {
        Size::Ib
    } else if f == -3 {
        Size::II
    } else if -2 <= f <= 1 {
        Size::III
    } else if f == 2 || f == 3 {
        Size::V
    } else if f == 5 {
        Size::D
    } else {
        Size::IV
    }
}

/// The size table of class A.
pub open spec fn a_size_of_flux(f: int) -> Size {
    if f == -6 || f == -5 {
        Size::Ia
    } else if f == -4 {
        Size::Ib
    } else if f == -3 {
        Size::II
    } else if f == -2 {
        Size::III
    } else if f == -1 {
        Size::IV
    } else if f == 5 {
        Size::D
    } else {
        Size::V
    }
}

/// The size table shared by classes F, G and K.
pub open spec fn fgk_size_of_flux(f: int) -> Size {
    if f == -6 || f == -5 {
        Size::II
    } else if f == -4 {
        Size::III
    } else if f == -3 {
        Size::IV
    } else if -2 <= f <= 3 {
        Size::V
    } else if f == 5 {
        Size::D
    } else {
        Size::VI
    }
}

/// The size table of class M.
pub open spec fn m_size_of_flux(f: int) -> Size {
    if -6 <= f <= -3 {
        Size::II
    } else if f == -2 {
        Size::III
    } else if -1 <= f <= 3 {
        Size::V
    } else if f == 5 {
        Size::D
    } else {
        Size::VI
    }
}

/// The size of a star of a class, digit and size flux: the class's table,
/// with size V in place of IV for K5-K9 and in place of VI for F0-F4; none
/// for class BD.
pub open spec fn size_of(class: Class, lum: int, flux: int) -> Option<Size> {
    let size = match class {
        Class::O => o_size_of_flux(flux),
        Class::B => b_size_of_flux(flux),
        Class::A => a_size_of_flux(flux),
        Class::F | Class::G | Class::K => fgk_size_of_flux(flux),
        Class::M => m_size_of_flux(flux),
        Class::BD => Size::D,
    };
    if class == Class::BD {
        None
    } else if class == Class::K && size == Size::IV && 5 <= lum <= 9 {
        Some(Size::V)
    } else if class == Class::F && size == Size::VI && 0 <= lum <= 4 {
        Some(Size::V)
    } else {
        Some(size)
    }
}

/// The star of a class flux, auxiliary roll, digit and size flux: a dwarf
/// where the size is D, a brown dwarf for class BD, else a full star.
pub open spec fn star_of(class_flux: int, class_d6: int, decimal: u8, size_flux: int) -> Star {
    let class = class_of_flux(class_flux, class_d6);
    match size_of(class, decimal as int, size_flux) {
        Some(Size::D) => Star::Dwarf(class),
        Some(size) => Star::Star(class, decimal, size),
        None => Star::BrownDwarf,
    }
}

/// The dice drawn for one companion slot: the presence flux, then, only
/// when the companion is present, a class d6, an auxiliary d6, a digit d10
/// and a size d6. Values that are not drawn are ignored.
#[derive(Debug, Clone, Copy, PartialEq, Eq, Hash, Structural)]
pub struct CompanionDraws {
    pub presence_flux: i32,
    pub class_die: i32,
    pub aux_die: i32,
    pub digit_die: i32,
    pub size_die: i32,
}

/// The dice drawn for a system's stars: the primary's class flux and size
/// flux, its auxiliary d6 and digit d10, then the seven companion slots in
/// order.
#[derive(Debug, Clone, Copy, PartialEq, Eq, Hash, Structural)]
pub struct StarsDraws {
    pub class_flux: i32,
    pub size_flux: i32,
    pub aux_die: i32,
    pub digit_die: i32,
    pub primary_companion: CompanionDraws,
    pub close: CompanionDraws,
    pub close_companion: CompanionDraws,
    pub near: CompanionDraws,
    pub near_companion: CompanionDraws,
    pub far: CompanionDraws,
    pub far_companion: CompanionDraws,
}

impl CompanionDraws {
    /// Every value is one the dice can show.
    pub open spec fn in_range(self) -> bool {
        &&& -5 <= self.presence_flux <= 5
        &&& 1 <= self.class_die <= 6
        &&& 1 <= self.aux_die <= 6
        &&& 1 <= self.digit_die <= 10
        &&& 1 <= self.size_die <= 6
    }
}

impl StarsDraws {
    /// Every value is one the dice can show.
    pub open spec fn in_range(self) -> bool {
        &&& -5 <= self.class_flux <= 5
        &&& -5 <= self.size_flux <= 5
        &&& 1 <= self.aux_die <= 6
        &&& 1 <= self.digit_die <= 10
        &&& self.primary_companion.in_range()
        &&& self.close.in_range()
        &&& self.close_companion.in_range()
        &&& self.near.in_range()
        &&& self.near_companion.in_range()
        &&& self.far.in_range()
        &&& self.far_companion.in_range()
    }
}

/// The companion of a slot: present when the presence flux exceeds 2, with
/// a class flux of its d6 plus the primary's class flux less one, and a
/// size flux of its d6 plus the primary's size flux plus two.
pub open spec fn companion_of(class_flux: int, size_flux: int, d: CompanionDraws) -> Option<Star> {
    if d.presence_flux > 2 {
        Some(
            star_of(
                class_flux + d.class_die - 1,
                d.aux_die as int,
                (d.digit_die - 1) as u8,
                size_flux + d.size_die + 2,
            ),
        )
    } else {
        None
    }
}

/// The stars the rules give for the dice drawn.
pub open spec fn stars_of(d: StarsDraws) -> Stars {
    let cf = d.class_flux as int;
    let sf = d.size_flux as int;
    Stars {
        primary: star_of(cf, d.aux_die as int, (d.digit_die - 1) as u8, sf),
        primary_companion: companion_of(cf, sf, d.primary_companion),
        close: companion_of(cf, sf, d.close),
        close_companion: companion_of(cf, sf, d.close_companion),
        near: companion_of(cf, sf, d.near),
        near_companion: companion_of(cf, sf, d.near_companion),
        far: companion_of(cf, sf, d.far),
        far_companion: companion_of(cf, sf, d.far_companion),
    }
}

/// The dice of one companion slot as drawn from a stream, and the stream
/// after them.
pub open spec fn companion_draws_of(st: DiceState) -> (CompanionDraws, DiceState) {
    let (presence, st1) = flux_of(st, 0);
    if presence > 2 {
        let (class_die, st2) = roll_of(st1, 1, 6, 0);
        let (aux_die, st3) = roll_of(st2, 1, 6, 0);
        let (digit_die, st4) = roll_of(st3, 1, 10, 0);
        let (size_die, st5) = roll_of(st4, 1, 6, 0);
        (
            CompanionDraws {
                presence_flux: presence as i32,
                class_die: class_die as i32,
                aux_die: aux_die as i32,
                digit_die: digit_die as i32,
                size_die: size_die as i32,
            },
            st5,
        )
    } else {
        (
            CompanionDraws {
                presence_flux: presence as i32,
                class_die: 1,
                aux_die: 1,
                digit_die: 1,
                size_die: 1,
            },
            st1,
        )
    }
}

/// The dice of a system's stars as drawn from a stream, and the stream
/// after them.
pub open spec fn stars_draws_of(st: DiceState) -> (StarsDraws, DiceState) {
    let (class_flux, st1) = flux_of(st, 0);
    let (size_flux, st2) = flux_of(st1, 0);
    let (aux_die, st3) = roll_of(st2, 1, 6, 0);
    let (digit_die, st4) = roll_of(st3, 1, 10, 0);
    let (primary_companion, st5) = companion_draws_of(st4);
    let (close, st6) = companion_draws_of(st5);
    let (close_companion, st7) = companion_draws_of(st6);
    let (near, st8) = companion_draws_of(st7);
    let (near_companion, st9) = companion_draws_of(st8);
    let (far, st10) = companion_draws_of(st9);
    let (far_companion, st11) = companion_draws_of(st10);
    (
        StarsDraws {
            class_flux: class_flux as i32,
            size_flux: size_flux as i32,
            aux_die: aux_die as i32,
            digit_die: digit_die as i32,
            primary_companion,
            close,
            close_companion,
            near,
            near_companion,
            far,
            far_companion,
        },
        st11,
    )
}

/// No full star has size D, and a size of D always makes a dwarf of the
/// class.
pub proof fn lemma_size_d_makes_dwarf(class_flux: int, class_d6: int, decimal: u8, size_flux: int)
    ensures
        !(star_of(class_flux, class_d6, decimal, size_flux) matches Star::Star(_, _, Size::D)),
        size_of(class_of_flux(class_flux, class_d6), decimal as int, size_flux) == Some(Size::D)
            ==> star_of(class_flux, class_d6, decimal, size_flux) == Star::Dwarf(
            class_of_flux(class_flux, class_d6),
        ),
{
}

/// Whether a companion is present for a presence flux.
pub fn star_present(flux: i32) -> (r: bool)
    ensures
        r == (flux > 2),
{
    flux > 2
}

/// The spectral class of a class flux and an auxiliary d6.
pub fn spectral_class(flux: i32, aux_roll: i32) -> (r: Class)
    ensures
        r == class_of_flux(flux as int, aux_roll as int),
{
    if flux <= -6 {
        if aux_roll > 3 {
            Class::O
        } else {
            Class::B
        }
    } else if flux <= -4 {
        Class::A
    } else if flux <= -2 {
        Class::F
    } else if flux <= 0 {
        Class::G
    } else if flux <= 2 {
        Class::K
    } else if flux <= 5 {
        Class::M
    } else {
        Class::BD
    }
}

fn o_class_sizes(f: i32) -> (r: Size)
    ensures
        r == o_size_of_flux(f as int),
{
    if f == -6 || f == -5 {
        Size::Ia
    } else if f == -4 {
        Size::Ib
    } else if f == -3 {
        Size::II
    } else if -2 <= f && f <= 0 {
        Size::III
    } else if 1 <= f && f <= 3 {
        Size::V
    } else if f == 5 {
        Size::D
    } else {
        Size::IV
    }
}

fn b_class_sizes(f: i32) -> (r: Size)
    ensures
        r == b_size_of_flux(f as int),
{
    if f == -6 || f == -5 {
        Size::Ia
    } else if f == -4 {
        Size::Ib
    } else if f == -3 {
        Size::II
    } else if -2 <= f && f <= 1 {
        Size::III
    } else if f == 2 || f == 3 {
        Size::V
    } else if f == 5 {
        Size::D
    } else {
        Size::IV
    }
}

fn a_class_sizes(f: i32) -> (r: Size)
    ensures
        r == a_size_of_flux(f as int),
{
    if f == -6 || f == -5 {
        Size::Ia
    } else if f == -4 {
        Size::Ib
    } else if f == -3 {
        Size::II
    } else if f == -2 {
        Size::III
    } else if f == -1 {
        Size::IV
    } else if f == 5 {
        Size::D
    } else {
        Size::V
    }
}

fn fgk_class_sizes(f: i32) -> (r: Size)
    ensures
        r == fgk_size_of_flux(f as int),
{
    if f == -6 || f == -5 {
        Size::II
    } else if f == -4 {
        Size::III
    } else if f == -3 {
        Size::IV
    } else if -2 <= f && f <= 3 {
        Size::V
    } else if f == 5 {
        Size::D
    } else {
        Size::VI
    }
}

fn m_class_sizes(f: i32) -> (r: Size)
    ensures
        r == m_size_of_flux(f as int),
{
    if -6 <= f && f <= -3 {
        Size::II
    } else if f == -2 {
        Size::III
    } else if -1 <= f && f <= 3 {
        Size::V
    } else if f == 5 {
        Size::D
    } else {
        Size::VI
    }
}

/// The size of a star of a class, digit and size flux; `None` for class BD.
pub fn class_to_size(class: &Class, lum: u8, flux: i32) -> (r: Option<Size>)
    ensures
        r == size_of(*class, lum as int, flux as int),
{
    let size = match class {
        Class::O => o_class_sizes(flux),
        Class::B => b_class_sizes(flux),
        Class::A => a_class_sizes(flux),
        Class::F | Class::G | Class::K => fgk_class_sizes(flux),
        Class::M => m_class_sizes(flux),
        Class::BD => {
            return None;
        },
    };
    if *class == Class::K && size == Size::IV && 5 <= lum && lum <= 9 {
        Some(Size::V)
    } else if *class == Class::F && size == Size::VI && lum <= 4 {
        Some(Size::V)
    } else {
        Some(size)
    }
}

/// A star from its four rolls. No full star has size D: a size of D
/// always makes a dwarf of the class.
pub fn generate_star(class_flux: i32, class_d6: i32, decimal: u8, size_flux: i32) -> (r: Star)
    ensures
        r == star_of(class_flux as int, class_d6 as int, decimal, size_flux as int),
        r matches Star::Star(_, _, size) ==> size != Size::D,
        size_of(class_of_flux(class_flux as int, class_d6 as int), decimal as int, size_flux as int)
            == Some(Size::D) ==> r == Star::Dwarf(class_of_flux(class_flux as int, class_d6 as int)),
        decimal <= 9 ==> r.wf(),
{
    let class = spectral_class(class_flux, class_d6);
    let size = class_to_size(&class, decimal, size_flux);
    match size {
        Some(Size::D) => Star::Dwarf(class),
        Some(size) => Star::Star(class, decimal, size),
        None => Star::BrownDwarf,
    }
}

/// The companion of a slot for the dice drawn.
pub fn companion_from_draws(
    primary_spectral_flux: i32,
    primary_size_flux: i32,
    d: &CompanionDraws,
) -> (r: Option<Star>)
    requires
        d.in_range(),
        i32::MIN + 1 <= primary_spectral_flux <= i32::MAX - 5,
        i32::MIN + 1 <= primary_size_flux <= i32::MAX - 8,
    ensures
        r == companion_of(primary_spectral_flux as int, primary_size_flux as int, *d),
        r matches Some(s) ==> s.wf(),
{
    if star_present(d.presence_flux) {
        Some(
            generate_star(
                primary_spectral_flux + (d.class_die - 1),
                d.aux_die,
                (d.digit_die - 1) as u8,
                primary_size_flux + (d.size_die + 2),
            ),
        )
    } else {
        None
    }
}

/// The stars the rules give for the dice drawn; every one can be produced
/// by the tables.
#[verifier::rlimit(60)]
pub fn stars_from_draws(d: &StarsDraws) -> (r: Stars)
    requires
        d.in_range(),
    ensures
        r == stars_of(*d),
        r.wf(),
{
    let cf = d.class_flux;
    let sf = d.size_flux;
    let primary = generate_star(cf, d.aux_die, (d.digit_die - 1) as u8, sf);
    let primary_companion = companion_from_draws(cf, sf, &d.primary_companion);
    let close = companion_from_draws(cf, sf, &d.close);
    let close_companion = companion_from_draws(cf, sf, &d.close_companion);
    let near = companion_from_draws(cf, sf, &d.near);
    let near_companion = companion_from_draws(cf, sf, &d.near_companion);
    let far = companion_from_draws(cf, sf, &d.far);
    let far_companion = companion_from_draws(cf, sf, &d.far_companion);
    let stars = Stars {
        primary,
        primary_companion,
        close,
        close_companion,
        near,
        near_companion,
        far,
        far_companion,
    };
    assert(stars.wf()) by {
        assert forall|i: int| 0 <= i < stars.spec_members().len() implies (
        #[trigger] stars.spec_members()[i]).wf() by {
            let m = stars.spec_members();
            assert(m.contains(m[i]));
        }
    }
    stars
}

/// Draws the dice of one companion slot: the presence flux, then, when it
/// exceeds 2, the class d6, the auxiliary d6, the digit d10 and the size
/// d6.
pub fn draw_companion<R: Rollable>(rng: &mut R) -> (r: CompanionDraws)
    ensures
        r.in_range(),
        (r, final(rng).state()) == companion_draws_of(old(rng).state()),
{
    let presence_flux = rng.flux(0);
    if star_present(presence_flux) {
        let class_die = rng.roll(1, 6, 0);
        let aux_die = rng.roll(1, 6, 0);
        let digit_die = rng.roll(1, 10, 0);
        let size_die = rng.roll(1, 6, 0);
        CompanionDraws { presence_flux, class_die, aux_die, digit_die, size_die }
    } else {
        CompanionDraws { presence_flux, class_die: 1, aux_die: 1, digit_die: 1, size_die: 1 }
    }
}

/// A companion star, present when a flux exceeds 2; it reuses the
/// primary's class flux less one and size flux plus two as bases for its
/// own d6 rolls.
pub fn generate_companion<R: Rollable>(
    primary_spectral_flux: i32,
    primary_size_flux: i32,
    rng: &mut R,
) -> (r: Option<Star>)
    requires
        i32::MIN + 1 <= primary_spectral_flux <= i32::MAX - 5,
        i32::MIN + 1 <= primary_size_flux <= i32::MAX - 8,
    ensures
        r matches Some(s) ==> s.wf(),
        ({
            let (d, st) = companion_draws_of(old(rng).state());
            &&& d.in_range()
            &&& r == companion_of(primary_spectral_flux as int, primary_size_flux as int, d)
            &&& final(rng).state() == st
        }),
{
    let d = draw_companion(rng);
    companion_from_draws(primary_spectral_flux, primary_size_flux, &d)
}

/// The stars of a system: the primary's class flux, size flux, auxiliary
/// d6 and digit d10, then the seven companion slots in order. The stars are
/// the ones the rules give for the dice drawn, and every one can be
/// produced by the tables.
pub fn generate_stars<R: Rollable>(rng: &mut R) -> (r: Stars)
    ensures
        r.wf(),
        ({
            let (d, st) = stars_draws_of(old(rng).state());
            &&& d.in_range()
            &&& r == stars_of(d)
            &&& final(rng).state() == st
        }),
{
    let class_flux = rng.flux(0);
    let size_flux = rng.flux(0);
    let aux_die = rng.roll(1, 6, 0);
    let digit_die = rng.roll(1, 10, 0);
    let primary_companion = draw_companion(rng);
    let close = draw_companion(rng);
    let close_companion = draw_companion(rng);
    let near = draw_companion(rng);
    let near_companion = draw_companion(rng);
    let far = draw_companion(rng);
    let far_companion = draw_companion(rng);
    let draws = StarsDraws {
        class_flux,
        size_flux,
        aux_die,
        digit_die,
        primary_companion,
        close,
        close_companion,
        near,
        near_companion,
        far,
        far_companion,
    };
    stars_from_draws(&draws)
}

} // verus!
