//! Depositing base currency for tokens, one for one.

use vstd::prelude::*;
use crate::errors::Error;
use crate::state::sol_strategy::SolStrategy;

verus! {

/// The records that a deposit touches.
#[derive(Clone, Copy, Debug, PartialEq, Eq)]
pub struct Invest {
    /// The global record.
    pub sol_strategy: SolStrategy,
    /// Tokens that the investor's account holds.
    pub token_balance: u64,
}

impl Invest {
    /// Why a deposit of `amount` is refused, if it is: the treasury stays within
    /// the pool cap, and the investor's balance within the cap per address.
    pub open spec fn refusal(self, amount: u64) -> Option<Error> {
        if amount + self.sol_strategy.sol_in_treasury > self.sol_strategy.initial_pool_cap {
            Some(Error::InitialSolCapError)
        } else if amount + self.token_balance > self.sol_strategy.individual_address_cap {
            Some(Error::ATACapError)
        } else {
            None
        }
    }

    /// The records after a deposit of `amount`: the amount is in the treasury, and
    /// the investor holds as many tokens more.
    pub open spec fn invested(self, amount: u64) -> Invest {
        Invest {
            sol_strategy: SolStrategy {
                sol_in_treasury: (self.sol_strategy.sol_in_treasury + amount) as u64,
                ..self.sol_strategy
            },
            token_balance: (self.token_balance + amount) as u64,
        }
    }

    /// Deposits `amount` of base currency and returns the tokens to mint to the
    /// investor, which are as many.
    pub fn handler(&mut self, amount: u64) -> (result: Result<u64, Error>)
        ensures
            match old(self).refusal(amount) {
                Some(e) => result == Err::<u64, Error>(e) && *final(self) == *old(self),
                None => result == Ok::<u64, Error>(amount) && *final(self) == old(self).invested(
                    amount,
                ),
            },
            result is Ok ==> final(self).sol_strategy.sol_in_treasury
                <= final(self).sol_strategy.initial_pool_cap,
            result is Ok ==> final(self).token_balance
                <= final(self).sol_strategy.individual_address_cap,
            old(self).sol_strategy.wf() ==> final(self).sol_strategy.wf(),
    {
        if amount as u128 + self.sol_strategy.sol_in_treasury as u128
            > self.sol_strategy.initial_pool_cap as u128 {
            return Err(Error::InitialSolCapError);
        }
        if amount as u128 + self.token_balance as u128
            > self.sol_strategy.individual_address_cap as u128 {
            return Err(Error::ATACapError);
        }
        self.sol_strategy.sol_in_treasury = self.sol_strategy.sol_in_treasury + amount;
        self.token_balance = self.token_balance + amount;
        Ok(amount)
    }
}

} // verus!
