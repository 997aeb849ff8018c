//! Redeeming one matured bond, for tokens or for its price.

use vstd::prelude::*;
use crate::errors::Error;
use crate::fixed_point::{tokens_at, tokens_at_price};
use crate::state::bonds::Bond;
use crate::state::sol_strategy::SolStrategy;

verus! {

/// The records that the redemption of a bond touches.
#[derive(Clone, Copy, Debug, PartialEq, Eq)]
pub struct ConvertBond {
    /// The global record.
    pub sol_strategy: SolStrategy,
    /// The offering that the presented bond belongs to.
    pub bond: Bond,
    /// Units in the holder's account for the presented numbered bond: one while
    /// the holder owns the bond, none once it is burned.
    pub unit_balance: u64,
}

/// What the holder of a redeemed bond receives. Either way the bond is burned.
#[derive(Clone, Copy, Debug, PartialEq, Eq, Structural)]
pub enum Redemption {
    /// This many tokens are minted to the holder.
    Tokens(u64),
    /// This much base currency goes from the treasury to the holder.
    Refund(u64),
}

impl ConvertBond {
    /// What redeeming at `now` comes to: what the holder receives, or the refusal.
    /// The holder must own the bond, the bond must have matured, and its price
    /// must be among the bond money. Redeemed as tokens, the price buys tokens at
    /// the strike price and goes to the treasury.
    pub open spec fn redemption(self, convert: bool, now: u64) -> Result<Redemption, Error> {
        if self.unit_balance != 1 {
            Err(Error::InvalidTokenAmount)
        } else if now < self.bond.maturity {
            Err(Error::BondNotMatured)
        } else if self.sol_strategy.sol_from_bond < self.bond.price {
            Err(Error::ArithmeticOverflow)
        } else if !convert {
            Ok(Redemption::Refund(self.bond.price))
        } else if self.bond.strike_price == 0 {
            Err(Error::DivisionByZero)
        } else if tokens_at(self.bond.price, self.bond.strike_price) > u64::MAX {
            Err(Error::ArithmeticOverflow)
        } else if self.sol_strategy.sol_in_treasury + self.bond.price > u64::MAX {
            Err(Error::ArithmeticOverflow)
        } else {
            Ok(Redemption::Tokens(tokens_at(self.bond.price, self.bond.strike_price) as u64))
        }
    }

    /// The records after a redemption: the bond is burned and its price is no
    /// longer bond money; redeemed as tokens, the price is in the treasury.
    pub open spec fn redeemed(self, convert: bool) -> ConvertBond {
        ConvertBond {
            sol_strategy: SolStrategy {
                sol_from_bond: (self.sol_strategy.sol_from_bond - self.bond.price) as u64,
                sol_in_treasury: if convert {
                    (self.sol_strategy.sol_in_treasury + self.bond.price) as u64
                } else {
                    self.sol_strategy.sol_in_treasury
                },
                ..self.sol_strategy
            },
            unit_balance: 0,
            ..self
        }
    }

    /// Redeems the presented bond at `now`: as tokens where `convert` is set, else
    /// for its price.
    pub fn handler(&mut self, convert: bool, now: u64) -> (result: Result<Redemption, Error>)
        ensures
            result == old(self).redemption(convert, now),
            result is Ok ==> *final(self) == old(self).redeemed(convert),
            result is Err ==> *final(self) == *old(self),
            old(self).sol_strategy.wf() ==> final(self).sol_strategy.wf(),
    {
        if self.unit_balance != 1 {
            return Err(Error::InvalidTokenAmount);
        }
        if now < self.bond.maturity {
            return Err(Error::BondNotMatured);
        }
        let bond_money: u64 = match self.sol_strategy.sol_from_bond.checked_sub(self.bond.price) {
            Some(rest) => rest,
            None => {
                return Err(Error::ArithmeticOverflow);
            },
        };
        if !convert {
            self.sol_strategy.sol_from_bond = bond_money;
            self.unit_balance = 0;
            return Ok(Redemption::Refund(self.bond.price));
        }
        if self.bond.strike_price == 0 {
            return Err(Error::DivisionByZero);
        }
        let tokens: u64 = match tokens_at_price(self.bond.price, self.bond.strike_price) {
            Some(t) => t,
            None => {
                return Err(Error::ArithmeticOverflow);
            },
        };
        let treasury: u64 = match self.sol_strategy.sol_in_treasury.checked_add(self.bond.price) {
            Some(total) => total,
            None => {
                return Err(Error::ArithmeticOverflow);
            },
        };
        self.sol_strategy.sol_from_bond = bond_money;
        self.sol_strategy.sol_in_treasury = treasury;
        self.unit_balance = 0;
        Ok(Redemption::Tokens(tokens))
    }
}

} // verus!
