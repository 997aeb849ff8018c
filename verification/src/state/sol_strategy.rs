//! The protocol's one global record of configuration and accounting.

use vstd::prelude::*;
use crate::address::Address;

verus! {

/// Global configuration and accounting. Every operation reads it, and those that
/// move currency or a counter write it.
#[derive(Clone, Copy, Debug, PartialEq, Eq)]
pub struct SolStrategy {
    /// The most that the treasury may hold from deposits.
    pub initial_pool_cap: u64,
    /// The most that one address may hold from deposits.
    pub individual_address_cap: u64,
    /// Base currency in the treasury.
    pub sol_in_treasury: u64,
    /// Base currency taken in for bonds that are not yet redeemed.
    pub sol_from_bond: u64,
    /// The identity that runs the governance operations.
    pub governance_authority: Address,
    /// The identity that receives the fees.
    pub platform_address: Address,
    /// Whether a round is open.
    pub allow_new_mint: bool,
    /// Fee on a purchase, as a fraction of `SCALE`.
    pub platform_mint_fee: u64,
    /// The most that one purchase pays in fees.
    pub max_platform_mint_fee: u64,
    /// The most that one wallet may contribute to a round.
    pub max_mint_per_wallet: u64,
    /// The least premium over the net asset value at which a round opens, as a
    /// fraction of `SCALE`.
    pub min_premium_nav_ratio: u64,
    /// The growth of the net asset value that a round aims at, as a fraction of
    /// `SCALE`.
    pub nav_growth_rate: u64,
    /// Number of rounds planned.
    pub minting_rounds: u64,
    /// Id of the round that is open, or of the next to open.
    pub next_minting_rounds: u64,
    /// Seconds that a round stays open.
    pub mint_duration: u64,
    /// Id of the next bond offering.
    pub next_bond_id: u64,
    /// Id of the next whitelist offering.
    pub next_whitelist_id: u64,
}

impl SolStrategy {
    /// The round counter is consistent: while a round is open its id is one of the
    /// planned rounds, and once the last one is closed the counter stands one past
    /// the plan.
    pub open spec fn wf(self) -> bool {
        &&& self.next_minting_rounds <= self.minting_rounds + 1
        &&& self.allow_new_mint ==> self.next_minting_rounds <= self.minting_rounds
    }
}

} // verus!
