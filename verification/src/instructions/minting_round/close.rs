//! Closing the open minting round.

use vstd::prelude::*;
use crate::address::Address;
use crate::errors::Error;
use crate::state::sol_strategy::SolStrategy;

verus! {

/// The records that closing a round touches.
#[derive(Clone, Copy, Debug, PartialEq, Eq)]
pub struct CloseMintingRound {
    /// The caller.
    pub governance_authority: Address,
    /// The global record.
    pub sol_strategy: SolStrategy,
}

impl CloseMintingRound {
    /// Why closing is refused, if it is: only the governance authority closes, a
    /// round must be open, and the round counter must have a next value.
    pub open spec fn refusal(self) -> Option<Error> {
        if self.governance_authority != self.sol_strategy.governance_authority {
            Some(Error::UnauthorizedGovernanceAuthority)
        } else if !self.sol_strategy.allow_new_mint {
            Some(Error::MintingAlreadyClosed)
        } else if self.sol_strategy.next_minting_rounds == u64::MAX {
            Some(Error::ArithmeticOverflow)
        } else {
            None
        }
    }

    /// The records after the round is closed: no round is open, and the round
    /// counter stands at the next round.
    pub open spec fn closed(self) -> CloseMintingRound {
        CloseMintingRound {
            sol_strategy: SolStrategy {
                allow_new_mint: false,
                next_minting_rounds: (self.sol_strategy.next_minting_rounds + 1) as u64,
                ..self.sol_strategy
            },
            ..self
        }
    }

    /// Closes the open round.
    pub fn handler(&mut self) -> (result: Result<(), Error>)
        ensures
            match old(self).refusal() {
                Some(e) => result == Err::<(), Error>(e) && *final(self) == *old(self),
                None => result == Ok::<(), Error>(()) && *final(self) == old(self).closed(),
            },
            old(self).sol_strategy.wf() ==> final(self).sol_strategy.wf(),
    {
        if self.governance_authority != self.sol_strategy.governance_authority {
            return Err(Error::UnauthorizedGovernanceAuthority);
        }
        if !self.sol_strategy.allow_new_mint {
            return Err(Error::MintingAlreadyClosed);
        }
        let next_round: u64 = match self.sol_strategy.next_minting_rounds.checked_add(1) {
            Some(id) => id,
            None => {
                return Err(Error::ArithmeticOverflow);
            },
        };
        self.sol_strategy.allow_new_mint = false;
        self.sol_strategy.next_minting_rounds = next_round;
        Ok(())
    }
}

} // verus!
