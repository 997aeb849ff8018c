//! Whitelist offerings, what each wallet has bought of them, and which numbered
//! units have been converted.

use vstd::prelude::*;
use crate::address::Address;
use crate::edition::marker_of;

verus! {

/// One whitelist offering. Its terms are fixed when it is sold; only the numbering
/// moves.
#[derive(Clone, Copy, Debug, PartialEq, Eq, Structural)]
pub struct Whitelist {
    /// When a pass can be converted, in seconds.
    pub maturity: u64,
    /// The last moment at which a pass can be converted, in seconds.
    pub expiration: u64,
    /// Price of one pass in base currency, and the tokens it converts into.
    pub price: u64,
    /// The most passes that one wallet may buy.
    pub max_mint_per_wallet: u64,
    /// When the sale starts, in seconds.
    pub start_time: u64,
    /// When the sale ends, in seconds.
    pub end_time: u64,
    /// Number that the next pass is expected to get.
    pub next_edition_number: u64,
    /// Bucket that the next pass's number falls into.
    pub next_edition_marker: u64,
}

impl Whitelist {
    /// Numbers start at one, and the marker is the bucket of the next number.
    pub open spec fn wf(self) -> bool {
        &&& self.next_edition_number >= 1
        &&& self.next_edition_marker == marker_of(self.next_edition_number)
    }
}

/// What one wallet has bought of one whitelist offering.
#[derive(Clone, Copy, Debug, PartialEq, Eq)]
pub struct WhitelistRecord {
    /// The offering.
    pub collection: Address,
    /// The wallet.
    pub user: Address,
    /// Passes bought so far.
    pub minted: u64,
}

impl WhitelistRecord {
    /// The wallet has bought no more passes than the offering lets one wallet buy.
    pub open spec fn within_cap(self, whitelist: Whitelist) -> bool {
        self.minted <= whitelist.max_mint_per_wallet
    }
}

/// Whether one numbered pass has been converted. A pass converts once.
#[derive(Clone, Copy, Debug, PartialEq, Eq, Structural)]
pub struct WhitelistNFTRecord {
    /// True once the pass has been converted.
    pub converted: bool,
}

} // verus!
