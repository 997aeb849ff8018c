//! Setting the protocol up with the parameters it starts with.

use vstd::prelude::*;
use crate::address::Address;
use crate::constants::{
    DURATION, GOVERNANCE_AUTHORITY, MAX_MINT_PER_WALLET, MAX_PLATFORM_MINT_FEE, MINTING_ROUNDS,
    MIN_PREMIUM_NAV_RATIO, NAV_GROWTH_RATE, PLATFORM_ADDRESS, PLATFORM_MINT_FEE,
};
use crate::errors::Error;
use crate::instructions::initialize::{initial_strategy, initialize_handler, Initialize, Parameters};
use crate::state::sol_strategy::SolStrategy;

verus! {

/// The records that the protocol's own set-up touches.
#[derive(Clone, Copy, Debug, PartialEq, Eq)]
pub struct InitializeToken {
    /// The caller.
    pub governance_authority: Address,
    /// The global record: none until the protocol is set up.
    pub sol_strategy: Option<SolStrategy>,
}

/// The parameters that the protocol starts with, under the given governance
/// authority.
pub open spec fn protocol_parameters(governance_authority: Address) -> Parameters {
    Parameters {
        governance_authority,
        platform_address: Address { bytes: PLATFORM_ADDRESS },
        platform_mint_fee: PLATFORM_MINT_FEE,
        max_platform_mint_fee: MAX_PLATFORM_MINT_FEE,
        max_mint_per_wallet: MAX_MINT_PER_WALLET,
        min_premium_nav_ratio: MIN_PREMIUM_NAV_RATIO,
        nav_growth_rate: NAV_GROWTH_RATE,
        minting_rounds: MINTING_ROUNDS,
        mint_duration: DURATION,
    }
}

impl InitializeToken {
    /// Why the set-up is refused, if it is: only the appointed governance
    /// authority sets the protocol up, and only once.
    pub open spec fn refusal(self) -> Option<Error> {
        if self.governance_authority.bytes != GOVERNANCE_AUTHORITY {
            Some(Error::UnauthorizedGovernanceAuthority)
        } else if self.sol_strategy is Some {
            Some(Error::AlreadyInitialized)
        } else {
            None
        }
    }

    /// Sets the protocol up with the given caps, the caller as governance
    /// authority, and the parameters it starts with.
    pub fn handler(&mut self, initial_pool_cap: u64, individual_address_cap: u64) -> (result: Result<
        (),
        Error,
    >)
        ensures
            match old(self).refusal() {
                Some(e) => result == Err::<(), Error>(e) && *final(self) == *old(self),
                None => {
                    &&& result == Ok::<(), Error>(())
                    &&& final(self).governance_authority == old(self).governance_authority
                    &&& final(self).sol_strategy == Some(
                        initial_strategy(
                            initial_pool_cap,
                            individual_address_cap,
                            protocol_parameters(old(self).governance_authority),
                        ),
                    )
                },
            },
            result is Ok ==> final(self).sol_strategy->0.wf(),
    {
        if self.governance_authority != Address::new(GOVERNANCE_AUTHORITY) {
            return Err(Error::UnauthorizedGovernanceAuthority);
        }
        let parameters = Parameters {
            governance_authority: self.governance_authority,
            platform_address: Address::new(PLATFORM_ADDRESS),
            platform_mint_fee: PLATFORM_MINT_FEE,
            max_platform_mint_fee: MAX_PLATFORM_MINT_FEE,
            max_mint_per_wallet: MAX_MINT_PER_WALLET,
            min_premium_nav_ratio: MIN_PREMIUM_NAV_RATIO,
            nav_growth_rate: NAV_GROWTH_RATE,
            minting_rounds: MINTING_ROUNDS,
            mint_duration: DURATION,
        };
        let mut ctx = Initialize { sol_strategy: self.sol_strategy };
        match initialize_handler(&mut ctx, initial_pool_cap, individual_address_cap, parameters) {
            Ok(()) => {
                self.sol_strategy = ctx.sol_strategy;
                Ok(())
            },
            Err(e) => Err(e),
        }
    }
}

} // verus!
