//! Seeds, their hierarchical derivation, and the dice streams built on them.
use rand::Rng;
use rand_seeder::{Seeder, SipHasher, SipRng};
use std::hash::Hasher;
use vstd::prelude::*;
use vstd::arithmetic::div_mod::{lemma_div_denominator, lemma_fundamental_div_mod};
use vstd::utf8::encode_utf8;

use crate::coordinate::Coordinate;

verus! {

#[verifier::external_type_specification]
#[verifier::external_body]
pub struct ExSipRng(SipRng);

/// The SipHash-2-4 digest (keys zero) of a byte string.
pub uninterp spec fn sip_hash_of(bytes: Seq<u8>) -> u64;

/// Relies on `rand_seeder::SipHasher` (`new`, `write`, `finish`): the
/// SipHash-2-4 digest, under zero keys, of the bytes written.
#[verifier::external_body]
fn sip_digest(bytes: &Vec<u8>) -> (r: u64)
    ensures
        r == sip_hash_of(bytes@),
{
    let mut hasher = SipHasher::new();
    hasher.write(bytes.as_slice());
    hasher.finish()
}

/// Relies on `rand_seeder::Seeder::from(u64).make_rng()`: a generator
/// seeded from the value alone.
#[verifier::external_body]
fn sip_rng(seed: u64) -> SipRng {
    Seeder::from(seed).make_rng()
}

/// The face that a `SipRng` made by `sip_rng(seed)` shows on a draw of
/// `rand::Rng::gen_range(1..=sides)`, after draws of `sides_so_far` (the
/// sides of each earlier draw, in order). The generator is deterministic
/// and portable, so the face depends on these values alone.
pub uninterp spec fn die_of(seed: u64, sides_so_far: Seq<i32>, sides: i32) -> i32;

/// Relies on `rand::Rng::gen_range` over an inclusive range on the dice's
/// `SipRng`: a value in `1..=sides` (the range is not empty), fixed by the
/// seed the generator was made from and the draws made on it before, which
/// the dice record; the draw is added to that record.
#[verifier::external_body]
fn draw_die(dice: &mut Dice, sides: i32) -> (r: i32)
    requires
        sides >= 1,
    ensures
        1 <= r <= sides,
        r == die_of(old(dice).seed@, old(dice).sides@, sides),
        final(dice).seed@ == old(dice).seed@,
        final(dice).sides@ == old(dice).sides@.push(sides),
{
    dice.rng.gen_range(1..=sides)
}

/// Relies on `rand::random::<u64>`: a value drawn from the thread's
/// entropy-seeded generator. Nothing is known of it.
#[verifier::external_body]
fn entropy_u64() -> u64 {
    rand::random::<u64>()
}

/// The little-endian bytes of a 32-bit value given in `0..2^32`.
pub open spec fn le_bytes_u32(u: int) -> Seq<u8> {
    seq![
        (u % 256) as u8,
        (u / 256 % 256) as u8,
        (u / 65536 % 256) as u8,
        (u / 16777216 % 256) as u8,
    ]
}

/// The little-endian two's-complement bytes of a signed 32-bit value.
pub open spec fn i32_bytes(v: i32) -> Seq<u8> {
    if v < 0 {
        le_bytes_u32(v + 4294967296)
    } else {
        le_bytes_u32(v as int)
    }
}

/// The little-endian bytes of an unsigned 64-bit value.
pub open spec fn u64_bytes(v: u64) -> Seq<u8> {
    le_bytes_u32(v as int % 4294967296) + le_bytes_u32(v as int / 4294967296)
}

/// A string as it is fed to the hash: its UTF-8 bytes and a 0xff marker.
pub open spec fn str_bytes(s: Seq<char>) -> Seq<u8> {
    encode_utf8(s).push(0xffu8)
}

/// A run of strings fed to the hash one after another.
pub open spec fn strs_bytes(ss: Seq<&str>) -> Seq<u8>
    decreases ss.len(),
{
    if ss.len() == 0 {
        Seq::empty()
    } else {
        strs_bytes(ss.drop_last()) + str_bytes(ss.last()@)
    }
}

/// A coordinate as it is fed to the hash: row, then column.
pub open spec fn coordinate_bytes(c: Coordinate) -> Seq<u8> {
    i32_bytes(c.row) + i32_bytes(c.col)
}

/// A run of coordinates fed to the hash one after another.
pub open spec fn coordinates_bytes(cs: Seq<Coordinate>) -> Seq<u8>
    decreases cs.len(),
{
    if cs.len() == 0 {
        Seq::empty()
    } else {
        coordinates_bytes(cs.drop_last()) + coordinate_bytes(cs.last())
    }
}

/// A run of integers fed to the hash one after another.
pub open spec fn ints_bytes(vs: Seq<i32>) -> Seq<u8>
    decreases vs.len(),
{
    if vs.len() == 0 {
        Seq::empty()
    } else {
        ints_bytes(vs.drop_last()) + i32_bytes(vs.last())
    }
}

/// The bytes hashed for a top-level seed with integer context: the label,
/// then the integers.
pub open spec fn root_seed_int_bytes(label: Seq<char>, inputs: Seq<i32>) -> Seq<u8> {
    str_bytes(label) + ints_bytes(inputs)
}

/// The bytes hashed for a top-level seed: the label, then the context.
pub open spec fn root_seed_bytes(label: Seq<char>, inputs: Seq<&str>) -> Seq<u8> {
    str_bytes(label) + strs_bytes(inputs)
}

/// The bytes hashed for a child seed: the parent (label and value), then
/// the context.
pub open spec fn child_seed_bytes(label: Seq<char>, parent: u64, inputs: Seq<Coordinate>) -> Seq<u8> {
    str_bytes(label) + u64_bytes(parent) + coordinates_bytes(inputs)
}

proof fn lemma_le_bytes_u32_determine(u: int)
    requires
        0 <= u < 4294967296,
    ensures
        u == (u % 256) + 256 * ((u / 256) % 256) + 65536 * ((u / 65536) % 256) + 16777216 * ((u
            / 16777216) % 256),
{
    lemma_fundamental_div_mod(u, 256);
    lemma_fundamental_div_mod(u / 256, 256);
    lemma_fundamental_div_mod(u / 65536, 256);
    lemma_div_denominator(u, 256, 256);
    lemma_div_denominator(u, 65536, 256);
    assert(u / 16777216 < 256);
}

proof fn lemma_le_bytes_u32_injective(u1: int, u2: int)
    requires
        0 <= u1 < 4294967296,
        0 <= u2 < 4294967296,
        le_bytes_u32(u1) == le_bytes_u32(u2),
    ensures
        u1 == u2,
{
    lemma_le_bytes_u32_determine(u1);
    lemma_le_bytes_u32_determine(u2);
    assert(le_bytes_u32(u1)[0] == le_bytes_u32(u2)[0]);
    assert(le_bytes_u32(u1)[1] == le_bytes_u32(u2)[1]);
    assert(le_bytes_u32(u1)[2] == le_bytes_u32(u2)[2]);
    assert(le_bytes_u32(u1)[3] == le_bytes_u32(u2)[3]);
}

proof fn lemma_i32_bytes_injective(a: i32, b: i32)
    requires
        i32_bytes(a) == i32_bytes(b),
    ensures
        a == b,
{
    let ua: int = if a < 0 {
        a + 4294967296
    } else {
        a as int
    };
    let ub: int = if b < 0 {
        b + 4294967296
    } else {
        b as int
    };
    lemma_le_bytes_u32_injective(ua, ub);
}

proof fn lemma_single_coordinate_bytes(c: Coordinate)
    ensures
        coordinates_bytes(seq![c]) == coordinate_bytes(c),
{
    let one = seq![c];
    assert(one.drop_last() =~= Seq::<Coordinate>::empty());
    assert(coordinates_bytes(one.drop_last()) == Seq::<u8>::empty());
    assert(one.last() == c);
    assert(coordinates_bytes(one) == coordinates_bytes(one.drop_last()) + coordinate_bytes(c));
    assert(Seq::<u8>::empty() + coordinate_bytes(c) =~= coordinate_bytes(c));
}

/// Two different coordinates, as the context of one parent seed, put
/// different bytes into the hash: sibling seeds are hashes of distinct
/// inputs, and no coordinate's seed is derived from another's.
pub proof fn lemma_sibling_inputs_distinct(
    label: Seq<char>,
    parent: u64,
    c1: Coordinate,
    c2: Coordinate,
)
    requires
        c1 != c2,
    ensures
        child_seed_bytes(label, parent, seq![c1]) != child_seed_bytes(label, parent, seq![c2]),
{
    let p = str_bytes(label) + u64_bytes(parent);
    lemma_single_coordinate_bytes(c1);
    lemma_single_coordinate_bytes(c2);
    if child_seed_bytes(label, parent, seq![c1]) == child_seed_bytes(label, parent, seq![c2]) {
        let s1 = child_seed_bytes(label, parent, seq![c1]);
        let s2 = child_seed_bytes(label, parent, seq![c2]);
        let n = p.len() as int;
        assert(s1 =~= p + coordinate_bytes(c1));
        assert(s2 =~= p + coordinate_bytes(c2));
        assert(s1.subrange(n, n + 4) =~= i32_bytes(c1.row));
        assert(s2.subrange(n, n + 4) =~= i32_bytes(c2.row));
        assert(s1.subrange(n + 4, n + 8) =~= i32_bytes(c1.col));
        assert(s2.subrange(n + 4, n + 8) =~= i32_bytes(c2.col));
        lemma_i32_bytes_injective(c1.row, c2.row);
        lemma_i32_bytes_injective(c1.col, c2.col);
    }
}

/// A hashable, hierarchical seed: a human-readable top-level label and a
/// derived 64-bit value.
#[derive(Debug, Clone, PartialEq, Eq, Hash)]
pub struct Seed {
    pub top_level_seed: String,
    pub seed: u64,
}

/// A dice stream: a pseudorandom generator materialised from one seed.
pub struct Dice {
    rng: SipRng,
    seed: Ghost<u64>,
    sides: Ghost<Seq<i32>>,
}

/// Where a dice stream stands: the seed it was made from and the sides of
/// every draw made so far.
pub struct DiceState {
    pub seed: u64,
    pub sides: Seq<i32>,
}

/// The next face of a stream for a die of `sides` sides.
pub open spec fn face(st: DiceState, sides: i32) -> i32 {
    die_of(st.seed, st.sides, sides)
}

/// The stream after a draw of `sides` sides.
pub open spec fn after(st: DiceState, sides: i32) -> DiceState {
    DiceState { seed: st.seed, sides: st.sides.push(sides) }
}

/// The faces of `n` draws of `sides` sides, and the stream after them.
pub open spec fn dice_drawn(st: DiceState, n: nat, sides: i32) -> (Seq<i32>, DiceState)
    decreases n,
{
    if n == 0 {
        (Seq::empty(), st)
    } else {
        let (prev, st1) = dice_drawn(st, (n - 1) as nat, sides);
        (prev.push(face(st1, sides)), after(st1, sides))
    }
}

/// A roll of `num` dice plus `modifier`, and the stream after it; an
/// impossible roll draws nothing and gives the modifier.
pub open spec fn roll_of(st: DiceState, num: int, sides: i32, modifier: int) -> (int, DiceState) {
    if !possible_roll(num, sides as int) {
        (modifier, st)
    } else {
        let (faces, st1) = dice_drawn(st, num as nat, sides);
        (dice_sum(faces) + modifier, st1)
    }
}

/// A flux (one d6 less the next) plus `modifier`, and the stream after it.
pub open spec fn flux_of(st: DiceState, modifier: int) -> (int, DiceState) {
    let a = face(st, 6);
    let st1 = after(st, 6);
    let b = face(st1, 6);
    (a - b + modifier, after(st1, 6))
}

/// The stream a seed starts: no draw made yet.
pub open spec fn stream_of(seed: u64) -> DiceState {
    DiceState { seed, sides: Seq::empty() }
}

fn push_bytes_u32(v: &mut Vec<u8>, u: u32)
    ensures
        final(v)@ == old(v)@ + le_bytes_u32(u as int),
{
    v.push((u % 256) as u8);
    v.push((u / 256 % 256) as u8);
    v.push((u / 65536 % 256) as u8);
    v.push((u / 16777216 % 256) as u8);
    assert(final(v)@ =~= old(v)@ + le_bytes_u32(u as int));
}

fn push_bytes_i32(v: &mut Vec<u8>, x: i32)
    ensures
        final(v)@ == old(v)@ + i32_bytes(x),
{
    let u: u32 = if x < 0 {
        (x as i64 + 4294967296i64) as u32
    } else {
        x as u32
    };
    push_bytes_u32(v, u);
}

fn push_bytes_u64(v: &mut Vec<u8>, x: u64)
    ensures
        final(v)@ == old(v)@ + u64_bytes(x),
{
    push_bytes_u32(v, (x % 4294967296) as u32);
    push_bytes_u32(v, (x / 4294967296) as u32);
    assert(final(v)@ =~= old(v)@ + u64_bytes(x));
}

fn push_str_bytes(v: &mut Vec<u8>, s: &str)
    ensures
        final(v)@ == old(v)@ + str_bytes(s@),
{
    let b = s.as_bytes();
    let mut i: usize = 0;
    while i < b.len()
        invariant
            b@ == encode_utf8(s@),
            i <= b@.len(),
            v@ == old(v)@ + b@.take(i as int),
        decreases b@.len() - i,
    {
        v.push(b[i]);
        i += 1;
        assert(v@ =~= old(v)@ + b@.take(i as int));
    }
    v.push(0xffu8);
    assert(b@.take(b@.len() as int) =~= b@);
    assert(v@ =~= old(v)@ + str_bytes(s@));
}

impl Seed {
    /// A top-level seed: the hash of the label followed by the context
    /// values.
    pub fn new(top_level_seed: String, inputs: Vec<&str>) -> (r: Self)
        ensures
            r.top_level_seed@ == top_level_seed@,
            r.seed == sip_hash_of(root_seed_bytes(top_level_seed@, inputs@)),
    {
        let mut bytes: Vec<u8> = Vec::new();
        push_str_bytes(&mut bytes, top_level_seed.as_str());
        let mut i: usize = 0;
        while i < inputs.len()
            invariant
                i <= inputs@.len(),
                bytes@ == str_bytes(top_level_seed@) + strs_bytes(inputs@.take(i as int)),
            decreases inputs@.len() - i,
        {
            push_str_bytes(&mut bytes, inputs[i]);
            proof {
                assert(inputs@.take(i + 1).drop_last() =~= inputs@.take(i as int));
            }
            i += 1;
            assert(bytes@ =~= str_bytes(top_level_seed@) + strs_bytes(inputs@.take(i as int)));
        }
        assert(inputs@.take(inputs@.len() as int) =~= inputs@);
        let seed = sip_digest(&bytes);
        Self { top_level_seed, seed }
    }

    /// A top-level seed with integer context: the hash of the label
    /// followed by the integers.
    pub fn with_numbers(top_level_seed: String, inputs: Vec<i32>) -> (r: Self)
        ensures
            r.top_level_seed@ == top_level_seed@,
            r.seed == sip_hash_of(root_seed_int_bytes(top_level_seed@, inputs@)),
    {
        let mut bytes: Vec<u8> = Vec::new();
        push_str_bytes(&mut bytes, top_level_seed.as_str());
        let mut i: usize = 0;
        while i < inputs.len()
            invariant
                i <= inputs@.len(),
                bytes@ == str_bytes(top_level_seed@) + ints_bytes(inputs@.take(i as int)),
            decreases inputs@.len() - i,
        {
            push_bytes_i32(&mut bytes, inputs[i]);
            proof {
                assert(inputs@.take(i + 1).drop_last() =~= inputs@.take(i as int));
            }
            i += 1;
            assert(bytes@ =~= str_bytes(top_level_seed@) + ints_bytes(inputs@.take(i as int)));
        }
        assert(inputs@.take(inputs@.len() as int) =~= inputs@);
        let seed = sip_digest(&bytes);
        Self { top_level_seed, seed }
    }

    /// A seed drawn from the environment's entropy, with an empty label.
    pub fn random() -> (r: Self)
        ensures
            r.top_level_seed@ == Seq::<char>::empty(),
    {
        Self { top_level_seed: String::new(), seed: entropy_u64() }
    }

    /// A child seed: the hash of this seed (label and value) followed by
    /// the context coordinates. The label is kept.
    pub fn subseed(&self, inputs: Vec<Coordinate>) -> (r: Self)
        ensures
            r.top_level_seed@ == self.top_level_seed@,
            r.seed == sip_hash_of(
                child_seed_bytes(self.top_level_seed@, self.seed, inputs@),
            ),
    {
        let mut bytes: Vec<u8> = Vec::new();
        push_str_bytes(&mut bytes, self.top_level_seed.as_str());
        push_bytes_u64(&mut bytes, self.seed);
        let mut i: usize = 0;
        while i < inputs.len()
            invariant
                i <= inputs@.len(),
                bytes@ == str_bytes(self.top_level_seed@) + u64_bytes(self.seed)
                    + coordinates_bytes(inputs@.take(i as int)),
            decreases inputs@.len() - i,
        {
            push_bytes_i32(&mut bytes, inputs[i].row);
            push_bytes_i32(&mut bytes, inputs[i].col);
            proof {
                assert(inputs@.take(i + 1).drop_last() =~= inputs@.take(i as int));
            }
            i += 1;
            assert(bytes@ =~= str_bytes(self.top_level_seed@) + u64_bytes(self.seed)
                + coordinates_bytes(inputs@.take(i as int)));
        }
        assert(inputs@.take(inputs@.len() as int) =~= inputs@);
        let seed = sip_digest(&bytes);
        Self { top_level_seed: self.top_level_seed.clone(), seed }
    }

    /// The dice stream of this seed; equal seeds give identical streams,
    /// as every face is fixed by the seed and the draws before it.
    pub fn to_rng(&self) -> (r: Dice)
        ensures
            r.state() == stream_of(self.seed),
    {
        Dice { rng: sip_rng(self.seed), seed: Ghost(self.seed), sides: Ghost(Seq::empty()) }
    }
}

/// The sum of a run of dice.
pub open spec fn dice_sum(d: Seq<i32>) -> int
    decreases d.len(),
{
    if d.len() == 0 {
        0
    } else {
        dice_sum(d.drop_last()) + d.last()
    }
}

/// Whether a roll of `num` dice of `sides` sides is a possible one.
pub open spec fn possible_roll(num: int, sides: int) -> bool {
    num >= 1 && sides >= 1
}

/// Whether a possible roll, with its modifier, stays within `i32`.
pub open spec fn roll_fits(num: int, sides: int, modifier: int) -> bool {
    possible_roll(num, sides) ==> (i32::MIN <= num + modifier && num * sides + modifier
        <= i32::MAX)
}

/// The dice primitives of the ruleset, consumed in order from one stream.
pub trait Rollable {
    /// Where the stream stands.
    spec fn state(&self) -> DiceState;

    /// `num` faces in `1..=sides`, the next ones of the stream; an
    /// impossible roll draws nothing and gives one zero.
    fn roll_dice(&mut self, num: usize, sides: i32) -> (r: Vec<i32>)
        ensures
            !possible_roll(num as int, sides as int) ==> r@ == seq![0i32] && final(self).state()
                == old(self).state(),
            possible_roll(num as int, sides as int) ==> (r@, final(self).state()) == dice_drawn(
                old(self).state(),
                num as nat,
                sides,
            ),
            possible_roll(num as int, sides as int) ==> r@.len() == num && forall|i: int|
                0 <= i < r@.len() ==> 1 <= #[trigger] r@[i] <= sides,
    ;

    /// The sum of `num` dice plus `modifier`, not clamped; an impossible
    /// roll draws nothing and gives the modifier.
    fn roll(&mut self, num: usize, sides: i32, modifier: i32) -> (r: i32)
        requires
            roll_fits(num as int, sides as int, modifier as int),
        ensures
            (r as int, final(self).state()) == roll_of(
                old(self).state(),
                num as int,
                sides,
                modifier as int,
            ),
            !possible_roll(num as int, sides as int) ==> r == modifier,
            possible_roll(num as int, sides as int) ==> num + modifier <= r <= num * sides
                + modifier,
    ;

    /// One d6 less the next, plus `modifier`.
    fn flux(&mut self, modifier: i32) -> (r: i32)
        requires
            i32::MIN + 5 <= modifier <= i32::MAX - 5,
        ensures
            (r as int, final(self).state()) == flux_of(old(self).state(), modifier as int),
            -5 <= r - modifier <= 5,
    ;
}

impl Rollable for Dice {
    closed spec fn state(&self) -> DiceState {
        DiceState { seed: self.seed@, sides: self.sides@ }
    }

    fn roll_dice(&mut self, num: usize, sides: i32) -> (r: Vec<i32>) {
        if sides < 1 || num < 1 {
            return vec![0];
        }
        let mut faces: Vec<i32> = Vec::new();
        let mut i: usize = 0;
        while i < num
            invariant
                sides >= 1,
                i <= num,
                (faces@, self.state()) == dice_drawn(old(self).state(), i as nat, sides),
                forall|k: int| 0 <= k < faces@.len() ==> 1 <= #[trigger] faces@[k] <= sides,
            decreases num - i,
        {
            let ghost before = self.state();
            let face = draw_die(self, sides);
            faces.push(face);
            i += 1;
            proof {
                let (prev, st1) = dice_drawn(old(self).state(), (i - 1) as nat, sides);
                assert(st1 == before);
            }
        }
        proof {
            lemma_dice_drawn_len(old(self).state(), num as nat, sides);
        }
        faces
    }

    fn roll(&mut self, num: usize, sides: i32, modifier: i32) -> (r: i32) {
        if sides < 1 || num < 1 {
            return modifier;
        }
        let faces = self.roll_dice(num, sides);
        let mut total: i64 = 0;
        let mut i: usize = 0;
        while i < faces.len()
            invariant
                faces@.len() == num,
                num >= 1,
                sides >= 1,
                roll_fits(num as int, sides as int, modifier as int),
                forall|k: int| 0 <= k < faces@.len() ==> 1 <= #[trigger] faces@[k] <= sides,
                i <= faces@.len(),
                i <= total <= i * sides,
                total == dice_sum(faces@.take(i as int)),
            decreases faces@.len() - i,
        {
            proof {
                assert(i * sides + sides <= num * sides) by (nonlinear_arith)
                    requires
                        i < num,
                        sides >= 1,
                ;
                assert(num <= num * sides) by (nonlinear_arith)
                    requires
                        sides >= 1,
                        num >= 1,
                ;
                assert(faces@.take(i + 1).drop_last() =~= faces@.take(i as int));
            }
            total = total + faces[i] as i64;
            i += 1;
            assert(total <= i * sides) by (nonlinear_arith)
                requires
                    total <= (i - 1) * sides + sides,
            ;
        }
        assert(faces@.take(num as int) =~= faces@);
        assert(num <= num * sides) by (nonlinear_arith)
            requires
                sides >= 1,
                num >= 1,
        ;
        (total + modifier as i64) as i32
    }

    fn flux(&mut self, modifier: i32) -> (r: i32) {
        let a = draw_die(self, 6);
        let b = draw_die(self, 6);
        a - b + modifier
    }
}

proof fn lemma_dice_drawn_len(st: DiceState, n: nat, sides: i32)
    ensures
        dice_drawn(st, n, sides).0.len() == n,
    decreases n,
{
    if n > 0 {
        lemma_dice_drawn_len(st, (n - 1) as nat, sides);
    }
}

} // verus!
