//! A star system: its location, stars, mainworld, extensions and counts.
use vstd::prelude::*;

use crate::codes::{join_flagged, joined, selected, table_view};
use crate::coordinate::Coordinate;
use crate::ehex::{decimal, signed_dec_chars};
use crate::extensions::Extensions;
use crate::star::{in_display_order, stars_text, Stars};
use crate::world::{bases_text, World};

verus! {

#[derive(Debug, Clone, PartialEq, Eq)]
pub struct System {
    pub location: Coordinate,
    pub name: String,
    pub stars: Stars,
    pub mainworld: World,
    pub extensions: Extensions,
    pub worlds: i32,
    pub belts: i32,
    pub gas_giants: i32,
    pub allegiance: String,
}

impl System {
    /// A generated system: stars and mainworld within their ranges, up to
    /// three belts and four gas giants.
    pub open spec fn wf(&self) -> bool {
        &&& self.stars.wf()
        &&& self.mainworld.wf()
        &&& 0 <= self.belts <= 3
        &&& 0 <= self.gas_giants <= 4
        &&& 3 + self.gas_giants + self.belts <= self.worlds <= 13 + self.gas_giants + self.belts
    }

    /// The nobles of the system, each with whether it is present, in order:
    /// knight B, baronet c, baron C, marquis D, viscount e, count E, duke f.
    pub open spec fn nobility_table(&self) -> Seq<(bool, Seq<char>)> {
        let w = &self.mainworld;
        seq![
            (true, "B"@),
            (w.spec_is_pre_rich() || w.spec_is_preagricultural(), "c"@),
            (w.spec_is_rich() || w.spec_is_agricultural(), "C"@),
            (w.spec_is_preindustrial(), "D"@),
            (w.spec_is_pre_high_pop(), "e"@),
            (w.spec_is_industrial() || w.spec_is_high_pop(), "E"@),
            (self.extensions.importance > 3, "f"@),
        ]
    }

    /// Every system has a knight.
    pub fn has_knight(&self) -> (r: bool)
        ensures
            r,
    {
        true
    }

    pub fn has_baronet(&self) -> (r: bool)
        ensures
            r == (self.mainworld.spec_is_pre_rich() || self.mainworld.spec_is_preagricultural()),
    {
        self.mainworld.is_pre_rich() || self.mainworld.is_preagricultural()
    }

    pub fn has_baron(&self) -> (r: bool)
        ensures
            r == (self.mainworld.spec_is_rich() || self.mainworld.spec_is_agricultural()),
    {
        self.mainworld.is_rich() || self.mainworld.is_agricultural()
    }

    pub fn has_marquis(&self) -> (r: bool)
        ensures
            r == self.mainworld.spec_is_preindustrial(),
    {
        self.mainworld.is_preindustrial()
    }

    pub fn has_viscount(&self) -> (r: bool)
        ensures
            r == self.mainworld.spec_is_pre_high_pop(),
    {
        self.mainworld.is_pre_high_pop()
    }

    pub fn has_count(&self) -> (r: bool)
        ensures
            r == (self.mainworld.spec_is_industrial() || self.mainworld.spec_is_high_pop()),
    {
        self.mainworld.is_industrial() || self.mainworld.is_high_pop()
    }

    pub fn has_duke(&self) -> (r: bool)
        ensures
            r == (self.extensions.importance > 3),
    {
        self.extensions.importance > 3
    }

    /// The mainworld's bases' letters.
    pub fn bases(&self) -> (r: String)
        ensures
            r@ == bases_text(self.mainworld.bases@),
    {
        self.mainworld.bases_to_string()
    }

    /// The mainworld's travel-zone code.
    pub fn travel_zone(&self) -> (r: String)
        ensures
            r@ == self.mainworld.travel_zone.text(),
    {
        self.mainworld.travel_zone.to_string()
    }

    /// Population digit, belts and gas giants, in decimal one after another.
    pub fn pbg(&self) -> (r: String)
        ensures
            r@ == signed_dec_chars(self.mainworld.population_digit as int) + signed_dec_chars(
                self.belts as int,
            ) + signed_dec_chars(self.gas_giants as int),
    {
        let mut s = decimal(self.mainworld.population_digit);
        let b = decimal(self.belts);
        s.append(b.as_str());
        let g = decimal(self.gas_giants);
        s.append(g.as_str());
        s
    }

    /// The stars in display order, separated by spaces.
    pub fn stars(&self) -> (r: String)
        ensures
            exists|ss: Seq<crate::star::Star>|
                ss.to_multiset() == self.stars.spec_members().to_multiset() && in_display_order(
                    ss,
                ) && r@ == stars_text(ss),
    {
        self.stars.to_string()
    }

    /// The mainworld's trade codes.
    pub fn trade_codes(&self) -> (r: String)
        ensures
            r@ == joined(selected(self.mainworld.trade_table()), " "@),
    {
        self.mainworld.trade_codes()
    }

    /// The letters of the nobles present, in order.
    pub fn nobility(&self) -> (r: String)
        ensures
            r@ == joined(selected(self.nobility_table()), ""@),
    {
        let table: Vec<(bool, &str)> = vec![
            (self.has_knight(), "B"),
            (self.has_baronet(), "c"),
            (self.has_baron(), "C"),
            (self.has_marquis(), "D"),
            (self.has_viscount(), "e"),
            (self.has_count(), "E"),
            (self.has_duke(), "f"),
        ];
        assert(table_view(table@) =~= self.nobility_table());
        join_flagged(&table, "")
    }
}

} // verus!
