//! Bond offerings and what each wallet has bought of them.

use vstd::prelude::*;
use crate::address::Address;
use crate::edition::marker_of;

verus! {

/// One bond offering. Its terms are fixed when it is sold; only the numbering moves.
#[derive(Clone, Copy, Debug, PartialEq, Eq, Structural)]
pub struct Bond {
    /// When the bond can be converted, in seconds.
    pub maturity: u64,
    /// Price of one token at conversion, at `SCALE`.
    pub strike_price: u64,
    /// Number of units on offer.
    pub supply: u64,
    /// Price of one unit in base currency.
    pub price: u64,
    /// The most units that one wallet may buy.
    pub max_mint_per_wallet: u64,
    /// When the sale starts, in seconds.
    pub start_time: u64,
    /// When the sale ends, in seconds.
    pub end_time: u64,
    /// Number that the next unit is expected to get.
    pub next_edition_number: u64,
    /// Bucket that the next unit's number falls into.
    pub next_edition_marker: u64,
}

impl Bond {
    /// Numbers start at one, and the marker is the bucket of the next number.
    pub open spec fn wf(self) -> bool {
        &&& self.next_edition_number >= 1
        &&& self.next_edition_marker == marker_of(self.next_edition_number)
    }
}

/// What one wallet has bought of one bond offering.
#[derive(Clone, Copy, Debug, PartialEq, Eq)]
pub struct BondRecord {
    /// The offering.
    pub collection: Address,
    /// The wallet.
    pub user: Address,
    /// Units bought so far.
    pub minted: u64,
}

impl BondRecord {
    /// The wallet has bought no more units than the offering lets one wallet buy.
    pub open spec fn within_cap(self, bond: Bond) -> bool {
        self.minted <= bond.max_mint_per_wallet
    }
}

} // verus!
