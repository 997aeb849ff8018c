//! Putting a bond offering on sale.

use vstd::prelude::*;
use crate::address::Address;
use crate::edition::{marker_of, MasterRegistration};
use crate::errors::Error;
use crate::state::bonds::Bond;
use crate::state::sol_strategy::SolStrategy;

verus! {

/// The records that the sale of a new bond offering touches.
#[derive(Clone, Copy, Debug, PartialEq, Eq)]
pub struct SellBond {
    /// The caller.
    pub governance_authority: Address,
    /// The global record.
    pub sol_strategy: SolStrategy,
    /// The record that the new offering is written to.
    pub bond: Bond,
}

impl SellBond {
    /// Why the sale is refused, if it is: only the governance authority sells, and
    /// the series of offerings must have a next id.
    pub open spec fn refusal(self) -> Option<Error> {
        if self.governance_authority != self.sol_strategy.governance_authority {
            Some(Error::UnauthorizedGovernanceAuthority)
        } else if self.sol_strategy.next_bond_id == u64::MAX {
            Some(Error::ArithmeticOverflow)
        } else {
            None
        }
    }

    /// A new offering with the given terms: its first unit gets number one.
    pub open spec fn offering(
        maturity: u64,
        strike_price: u64,
        supply: u64,
        price: u64,
        max_mint_per_wallet: u64,
        start_time: u64,
        end_time: u64,
    ) -> Bond {
        Bond {
            maturity,
            strike_price,
            supply,
            price,
            max_mint_per_wallet,
            start_time,
            end_time,
            next_edition_number: 1,
            next_edition_marker: marker_of(1),
        }
    }

    /// The records after the sale of `bond`.
    pub open spec fn sold(self, bond: Bond) -> SellBond {
        SellBond {
            sol_strategy: SolStrategy {
                next_bond_id: (self.sol_strategy.next_bond_id + 1) as u64,
                ..self.sol_strategy
            },
            bond,
            ..self
        }
    }

    /// Puts an offering with the given terms on sale. The result tells the
    /// registry which master edition to set up: one that issues at most `supply`
    /// copies.
    pub fn handler(
        &mut self,
        name: String,
        symbol: String,
        uri: String,
        maturity: u64,
        strike_price: u64,
        supply: u64,
        price: u64,
        max_mint_per_wallet: u64,
        start_time: u64,
        end_time: u64,
    ) -> (result: Result<MasterRegistration, Error>)
        ensures
            match old(self).refusal() {
                Some(e) => {
                    &&& result == Err::<MasterRegistration, Error>(e)
                    &&& *final(self) == *old(self)
                },
                None => {
                    &&& result == Ok::<MasterRegistration, Error>(
                        MasterRegistration { name, symbol, uri, max_supply: Some(supply) },
                    )
                    &&& *final(self) == old(self).sold(
                        Self::offering(
                            maturity,
                            strike_price,
                            supply,
                            price,
                            max_mint_per_wallet,
                            start_time,
                            end_time,
                        ),
                    )
                },
            },
            result is Ok ==> final(self).bond.wf(),
            old(self).sol_strategy.wf() ==> final(self).sol_strategy.wf(),
    {
        if self.governance_authority != self.sol_strategy.governance_authority {
            return Err(Error::UnauthorizedGovernanceAuthority);
        }
        let next_id: u64 = match self.sol_strategy.next_bond_id.checked_add(1) {
            Some(id) => id,
            None => {
                return Err(Error::ArithmeticOverflow);
            },
        };
        self.bond = Bond {
            maturity,
            strike_price,
            supply,
            price,
            max_mint_per_wallet,
            start_time,
            end_time,
            next_edition_number: 1,
            next_edition_marker: 0,
        };
        self.sol_strategy.next_bond_id = next_id;
        Ok(MasterRegistration { name, symbol, uri, max_supply: Some(supply) })
    }
}

} // verus!
