//! Text encodings of small numbers: decimal and "ehex" (extended hex).
use vstd::prelude::*;

verus! {

/// The character for a single decimal digit.
pub open spec fn digit_char(d: int) -> char {
    ((48 + d) as u8) as char
}

/// The decimal rendering of a natural number, most significant digit first.
pub open spec fn dec_chars(n: nat) -> Seq<char>
    decreases n,
{
    if n < 10 {
        seq![digit_char(n as int)]
    } else {
        dec_chars(n / 10).push(digit_char((n % 10) as int))
    }
}

/// The decimal rendering of an integer, with a leading '-' when negative.
pub open spec fn signed_dec_chars(v: int) -> Seq<char> {
    if v < 0 {
        seq!['-'] + dec_chars((-v) as nat)
    } else {
        dec_chars(v as nat)
    }
}

/// The ehex symbol of a value in 0..=33: the digits, then the capital
/// letters without 'I' and 'O'.
pub open spec fn ehex_char(v: int) -> char {
    if v < 10 {
        digit_char(v)
    } else if v < 18 {
        ((65 + v - 10) as u8) as char
    } else if v < 23 {
        ((65 + v - 9) as u8) as char
    } else {
        ((65 + v - 8) as u8) as char
    }
}

/// What `to_ehex` renders: one symbol inside the table, else the value in
/// parentheses followed by a question mark.
pub open spec fn ehex_text(v: int) -> Seq<char> {
    if 0 <= v <= 33 {
        seq![ehex_char(v)]
    } else {
        seq!['('] + signed_dec_chars(v) + seq![')', '?']
    }
}

/// The value that an ehex symbol stands for, if it is one.
pub open spec fn ehex_value(c: char) -> Option<int> {
    let n = c as int;
    if 48 <= n <= 57 {
        Some(n - 48)
    } else if 65 <= n <= 72 {
        Some(n - 65 + 10)
    } else if 74 <= n <= 78 {
        Some(n - 65 + 9)
    } else if 80 <= n <= 90 {
        Some(n - 65 + 8)
    } else {
        None
    }
}

/// Relies on `String::from(char)`: a string of exactly that character.
#[verifier::external_body]
fn char_string(c: char) -> (r: String)
    ensures
        r@ == seq![c],
{
    String::from(c)
}

fn digit_string(d: u32) -> (r: String)
    requires
        d < 10,
    ensures
        r@ == seq![digit_char(d as int)],
{
    char_string(((48 + d) as u8) as char)
}

/// Appends the decimal digits of `n`.
pub fn push_decimal(s: &mut String, n: u32)
    ensures
        final(s)@ == old(s)@ + dec_chars(n as nat),
    decreases n,
{
    if n >= 10 {
        push_decimal(s, n / 10);
        let d = digit_string(n % 10);
        s.append(d.as_str());
        assert(final(s)@ =~= old(s)@ + dec_chars(n as nat));
    } else {
        let d = digit_string(n);
        s.append(d.as_str());
    }
}

/// The decimal rendering of `v`.
pub fn decimal(v: i32) -> (r: String)
    ensures
        r@ == signed_dec_chars(v as int),
{
    let mut s = String::new();
    if v < 0 {
        let minus = char_string('-');
        s.append(minus.as_str());
        let m: u32 = if v == i32::MIN {
            2147483648u32
        } else {
            (-v) as u32
        };
        push_decimal(&mut s, m);
    } else {
        push_decimal(&mut s, v as u32);
    }
    assert(s@ =~= signed_dec_chars(v as int));
    s
}

/// The symbol of a value in 10..=33.
pub fn ehex(value: i32) -> (r: String)
    requires
        10 <= value <= 33,
    ensures
        r@ == seq![ehex_char(value as int)],
{
    let offset: i32 = if value < 18 {
        0
    } else if value < 23 {
        1
    } else {
        2
    };
    char_string(((65 + value - 10 + offset) as u8) as char)
}

/// The ehex rendering of a value: digits for 0..=9, letters (skipping 'I'
/// and 'O') for 10..=33, and a visible marker `(value)?` for anything else.
pub fn to_ehex(value: i32) -> (r: String)
    ensures
        r@ == ehex_text(value as int),
{
    if 0 <= value && value <= 9 {
        digit_string(value as u32)
    } else if 10 <= value && value <= 33 {
        ehex(value)
    } else {
        let mut s = char_string('(');
        let d = decimal(value);
        s.append(d.as_str());
        let tail = char_string(')');
        s.append(tail.as_str());
        let q = char_string('?');
        s.append(q.as_str());
        assert(s@ =~= ehex_text(value as int));
        s
    }
}

/// The value of an ehex symbol, or `None` for a character outside the table.
pub fn from_ehex(c: char) -> (r: Option<i32>)
    ensures
        r.is_some() == ehex_value(c).is_some(),
        r.is_some() ==> r.unwrap() as int == ehex_value(c).unwrap(),
{
    let n = c as u32;
    if 48 <= n && n <= 57 {
        Some((n - 48) as i32)
    } else if 65 <= n && n <= 72 {
        Some((n - 55) as i32)
    } else if 74 <= n && n <= 78 {
        Some((n - 56) as i32)
    } else if 80 <= n && n <= 90 {
        Some((n - 57) as i32)
    } else {
        None
    }
}

/// Every value of the table renders as one symbol that reads back as the
/// same value, and distinct values render differently.
pub proof fn lemma_ehex_round_trip(v: int)
    requires
        0 <= v <= 33,
    ensures
        ehex_text(v) == seq![ehex_char(v)],
        ehex_value(ehex_char(v)) == Some(v),
{
}

} // verus!
