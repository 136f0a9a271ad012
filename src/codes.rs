//! Flagged codes joined into one string, in a fixed order.
use vstd::prelude::*;

verus! {

/// The codes whose flag is set, in order.
pub open spec fn selected(table: Seq<(bool, Seq<char>)>) -> Seq<Seq<char>>
    decreases table.len(),
{
    if table.len() == 0 {
        Seq::empty()
    } else if table.last().0 {
        selected(table.drop_last()).push(table.last().1)
    } else {
        selected(table.drop_last())
    }
}

/// Codes written one after another with a separator between them.
pub open spec fn joined(codes: Seq<Seq<char>>, sep: Seq<char>) -> Seq<char>
    decreases codes.len(),
{
    if codes.len() == 0 {
        Seq::empty()
    } else if codes.len() == 1 {
        codes[0]
    } else {
        joined(codes.drop_last(), sep) + sep + codes.last()
    }
}

/// The view of a table of flags and code literals.
pub open spec fn table_view(table: Seq<(bool, &str)>) -> Seq<(bool, Seq<char>)> {
    table.map_values(|e: (bool, &str)| (e.0, e.1@))
}

/// The codes of a table whose flag is set, in order, joined by `sep`.
pub fn join_flagged(table: &Vec<(bool, &str)>, sep: &str) -> (r: String)
    ensures
        r@ == joined(selected(table_view(table@)), sep@),
{
    let mut s = String::new();
    let mut n: usize = 0;
    let mut i: usize = 0;
    while i < table.len()
        invariant
            i <= table@.len(),
            s@ == joined(selected(table_view(table@.take(i as int))), sep@),
            n == selected(table_view(table@.take(i as int))).len(),
            n <= i,
        decreases table@.len() - i,
    {
        let (flag, code) = table[i];
        let ghost before = table_view(table@.take(i as int));
        proof {
            assert(table_view(table@.take(i + 1)).drop_last() =~= before);
            assert(table_view(table@.take(i + 1)).last() == (flag, code@));
        }
        if flag {
            if n > 0 {
                s.append(sep);
            }
            s.append(code);
            n += 1;
            proof {
                let sel = selected(before).push(code@);
                assert(sel.drop_last() =~= selected(before));
                if sel.len() == 1 {
                    assert(selected(before).len() == 0);
                    assert(s@ =~= joined(sel, sep@));
                }
            }
        }
        i += 1;
    }
    assert(table@.take(table@.len() as int) =~= table@);
    s
}

} // verus!
