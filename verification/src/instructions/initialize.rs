//! Setting the protocol up, once.

use vstd::prelude::*;
use crate::address::Address;
use crate::errors::Error;
use crate::state::sol_strategy::SolStrategy;

verus! {

/// The record that setting the protocol up touches.
#[derive(Clone, Copy, Debug, PartialEq, Eq)]
pub struct Initialize {
    /// The global record: none until the protocol is set up.
    pub sol_strategy: Option<SolStrategy>,
}

/// The authorities, fees and round parameters that the protocol is set up with.
#[derive(Clone, Copy, Debug, PartialEq, Eq)]
pub struct Parameters {
    /// The identity that runs the governance operations.
    pub governance_authority: Address,
    /// The identity that receives the fees.
    pub platform_address: Address,
    /// Fee on a purchase, as a fraction of `SCALE`.
    pub platform_mint_fee: u64,
    /// The most that one purchase pays in fees.
    pub max_platform_mint_fee: u64,
    /// The most that one wallet may contribute to a round.
    pub max_mint_per_wallet: u64,
    /// The least premium over the net asset value at which a round opens.
    pub min_premium_nav_ratio: u64,
    /// The growth of the net asset value that a round aims at.
    pub nav_growth_rate: u64,
    /// Number of rounds planned.
    pub minting_rounds: u64,
    /// Seconds that a round stays open.
    pub mint_duration: u64,
}

/// The global record of a protocol that has just been set up: nothing in the
/// treasury, no round open, and every series at its first id.
pub open spec fn initial_strategy(
    initial_pool_cap: u64,
    individual_address_cap: u64,
    parameters: Parameters,
) -> SolStrategy {
    SolStrategy {
        initial_pool_cap,
        individual_address_cap,
        sol_in_treasury: 0,
        sol_from_bond: 0,
        governance_authority: parameters.governance_authority,
        platform_address: parameters.platform_address,
        allow_new_mint: false,
        platform_mint_fee: parameters.platform_mint_fee,
        max_platform_mint_fee: parameters.max_platform_mint_fee,
        max_mint_per_wallet: parameters.max_mint_per_wallet,
        min_premium_nav_ratio: parameters.min_premium_nav_ratio,
        nav_growth_rate: parameters.nav_growth_rate,
        minting_rounds: parameters.minting_rounds,
        next_minting_rounds: 1,
        mint_duration: parameters.mint_duration,
        next_bond_id: 1,
        next_whitelist_id: 1,
    }
}

/// Sets the protocol up with the given caps and parameters. It can be done once:
/// where the global record exists, the call is refused.
pub fn initialize_handler(
    ctx: &mut Initialize,
    initial_pool_cap: u64,
    individual_address_cap: u64,
    parameters: Parameters,
) -> (result: Result<(), Error>)
    ensures
        old(ctx).sol_strategy is Some ==> result == Err::<(), Error>(Error::AlreadyInitialized)
            && *final(ctx) == *old(ctx),
        old(ctx).sol_strategy is None ==> result == Ok::<(), Error>(())
            && final(ctx).sol_strategy == Some(
            initial_strategy(initial_pool_cap, individual_address_cap, parameters),
        ),
        result is Ok ==> final(ctx).sol_strategy->0.wf(),
{
    if ctx.sol_strategy.is_some() {
        return Err(Error::AlreadyInitialized);
    }
    ctx.sol_strategy = Some(
        SolStrategy {
            initial_pool_cap,
            individual_address_cap,
            sol_in_treasury: 0,
            sol_from_bond: 0,
            governance_authority: parameters.governance_authority,
            platform_address: parameters.platform_address,
            allow_new_mint: false,
            platform_mint_fee: parameters.platform_mint_fee,
            max_platform_mint_fee: parameters.max_platform_mint_fee,
            max_mint_per_wallet: parameters.max_mint_per_wallet,
            min_premium_nav_ratio: parameters.min_premium_nav_ratio,
            nav_growth_rate: parameters.nav_growth_rate,
            minting_rounds: parameters.minting_rounds,
            next_minting_rounds: 1,
            mint_duration: parameters.mint_duration,
            next_bond_id: 1,
            next_whitelist_id: 1,
        },
    );
    Ok(())
}

} // verus!
