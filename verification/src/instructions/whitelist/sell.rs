//! Putting a whitelist offering on sale.

use vstd::prelude::*;
use crate::address::Address;
use crate::edition::{marker_of, MasterRegistration};
use crate::errors::Error;
use crate::state::sol_strategy::SolStrategy;
use crate::state::whitelists::Whitelist;

verus! {

/// The records that the sale of a new whitelist offering touches.
#[derive(Clone, Copy, Debug, PartialEq, Eq)]
pub struct SellWhitelist {
    /// The caller.
    pub governance_authority: Address,
    /// The global record.
    pub sol_strategy: SolStrategy,
    /// The record that the new offering is written to.
    pub whitelist: Whitelist,
}

impl SellWhitelist {
    /// Why the sale is refused, if it is: only the governance authority sells, and
    /// the series of offerings must have a next id.
    pub open spec fn refusal(self) -> Option<Error> {
        if self.governance_authority != self.sol_strategy.governance_authority {
            Some(Error::UnauthorizedGovernanceAuthority)
        } else if self.sol_strategy.next_whitelist_id == u64::MAX {
            Some(Error::ArithmeticOverflow)
        } else {
            None
        }
    }

    /// A new offering with the given terms: its first pass gets number one.
    pub open spec fn offering(
        price: u64,
        maturity: u64,
        expiration: u64,
        max_mint_per_wallet: u64,
        start_time: u64,
        end_time: u64,
    ) -> Whitelist {
        Whitelist {
            maturity,
            expiration,
            price,
            max_mint_per_wallet,
            start_time,
            end_time,
            next_edition_number: 1,
            next_edition_marker: marker_of(1),
        }
    }

    /// The records after the sale of `whitelist`.
    pub open spec fn sold(self, whitelist: Whitelist) -> SellWhitelist {
        SellWhitelist {
            sol_strategy: SolStrategy {
                next_whitelist_id: (self.sol_strategy.next_whitelist_id + 1) as u64,
                ..self.sol_strategy
            },
            whitelist,
            ..self
        }
    }

    /// Puts an offering with the given terms on sale. The result tells the
    /// registry which master edition to set up: one without a limit on its copies.
    pub fn handler(
        &mut self,
        name: String,
        symbol: String,
        uri: String,
        price: u64,
        maturity: u64,
        expiration: u64,
        max_mint_per_wallet: u64,
        start_time: u64,
        end_time: u64,
    ) -> (result: Result<MasterRegistration, Error>)
        ensures
            match old(self).refusal() {
                Some(e) => {
                    &&& result == Err::<MasterRegistration, Error>(e)
                    &&& *final(self) == *old(self)
                },
                None => {
                    &&& result == Ok::<MasterRegistration, Error>(
                        MasterRegistration { name, symbol, uri, max_supply: None },
                    )
                    &&& *final(self) == old(self).sold(
                        Self::offering(
                            price,
                            maturity,
                            expiration,
                            max_mint_per_wallet,
                            start_time,
                            end_time,
                        ),
                    )
                },
            },
            result is Ok ==> final(self).whitelist.wf(),
            old(self).sol_strategy.wf() ==> final(self).sol_strategy.wf(),
    {
        if self.governance_authority != self.sol_strategy.governance_authority {
            return Err(Error::UnauthorizedGovernanceAuthority);
        }
        let next_id: u64 = match self.sol_strategy.next_whitelist_id.checked_add(1) {
            Some(id) => id,
            None => {
                return Err(Error::ArithmeticOverflow);
            },
        };
        self.whitelist = Whitelist {
            maturity,
            expiration,
            price,
            max_mint_per_wallet,
            start_time,
            end_time,
            next_edition_number: 1,
            next_edition_marker: 0,
        };
        self.sol_strategy.next_whitelist_id = next_id;
        Ok(MasterRegistration { name, symbol, uri, max_supply: None })
    }
}

} // verus!
