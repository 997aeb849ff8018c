//! The parameters that the protocol starts with.

use vstd::prelude::*;

verus! {

/// Decimal places of the fungible token, the same as those of the base currency.
pub const SOLXR_DECIMAL: u8 = 9;

/// One whole unit at the fixed-point scale that every ratio uses (10^9).
pub const SCALE: u64 = 1_000_000_000;

/// Bytes of the only identity that may initialize the protocol.
pub const GOVERNANCE_AUTHORITY: [u8; 32] = [
    181, 221, 192, 89, 115, 71, 163, 47, 48, 210, 176, 13, 239, 226, 174, 131,
    230, 139, 23, 169, 129, 245, 158, 178, 69, 70, 228, 77, 2, 55, 221, 207,
];

/// Bytes of the identity that receives the platform's fees.
pub const PLATFORM_ADDRESS: [u8; 32] = [
    181, 221, 192, 89, 115, 71, 163, 47, 48, 210, 176, 13, 239, 226, 174, 131,
    230, 139, 23, 169, 129, 245, 158, 178, 69, 70, 228, 77, 2, 55, 221, 207,
];

/// Fee on every purchase in a round: 3% of the amount.
pub const PLATFORM_MINT_FEE: u64 = 30_000_000;

/// The most that one purchase pays in fees: half a unit of the base currency.
pub const MAX_PLATFORM_MINT_FEE: u64 = 500_000_000;

/// The most that one wallet may contribute to a round: 10 units.
pub const MAX_MINT_PER_WALLET: u64 = 10_000_000_000;

/// The least premium over the net asset value at which a round may open: 50%.
pub const MIN_PREMIUM_NAV_RATIO: u64 = 500_000_000;

/// The growth of the net asset value that a round aims at: 10%.
pub const NAV_GROWTH_RATE: u64 = 100_000_000;

/// Number of rounds planned.
pub const MINTING_ROUNDS: u64 = 24;

/// Seconds that a round stays open: six hours.
pub const DURATION: u64 = 21600;

/// Price of one bond: one unit of the base currency.
pub const BOND_PRICE: u64 = 1_000_000_000;

/// Seconds until a bond matures: about six months.
pub const BOND_MATURITY: u64 = 15_552_000;

/// Numbered units per bucket of the registry's edition markers.
pub const EDITION_MARKER_SIZE: u64 = 248;

} // verus!
