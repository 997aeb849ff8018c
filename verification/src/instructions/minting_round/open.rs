//! Opening a minting round: the premium test and the round's quota.
//!
//! The net asset value of a token is the treasury divided by the supply. A round
//! opens at a market value that lies at least the least premium above the net asset
//! value. Its quota is the number of new tokens that, sold at the market value,
//! raise the net asset value by the growth rate: with `ratio` the market value
//! divided by the net asset value,
//! `quota = growth * supply / (ratio - 1 - growth)`, all at `SCALE`.

use vstd::prelude::*;
use crate::address::Address;
use crate::constants::SCALE;
use crate::errors::Error;
use crate::fixed_point::lemma_product_fits;
use crate::state::mint_round::MintRound;
use crate::state::sol_strategy::SolStrategy;

verus! {

/// The records that opening a round touches.
#[derive(Clone, Copy, Debug, PartialEq, Eq)]
pub struct OpenMintingRound {
    /// The caller.
    pub governance_authority: Address,
    /// The global record.
    pub sol_strategy: SolStrategy,
    /// The record that the new round is written to.
    pub mint_round: MintRound,
    /// Tokens in supply.
    pub token_supply: u64,
}

/// The net asset value of one token at `SCALE`, rounded down. Meant for a
/// supply above zero.
pub open spec fn nav(sol_in_treasury: u64, supply: u64) -> int {
    (sol_in_treasury * SCALE) / (supply as int)
}

/// The least market value at which a round opens: the net asset value raised by
/// the least premium, rounded down.
pub open spec fn min_market_value(min_premium_nav_ratio: u64, nav: int) -> int {
    ((min_premium_nav_ratio + SCALE) * nav) / (SCALE as int)
}

/// The market value as a multiple of the net asset value, at `SCALE`, rounded
/// down. Meant for a net asset value above zero.
pub open spec fn market_value_ratio(market_value: u64, nav: int) -> int {
    (market_value * SCALE) / nav
}

/// What the market value has above the net asset value that the round aims at:
/// the ratio less one whole and less the growth rate.
pub open spec fn growth_room(market_value: u64, nav: int, nav_growth_rate: u64) -> int {
    market_value_ratio(market_value, nav) - SCALE - nav_growth_rate
}

/// The quota from the formula, before it is narrowed to 64 bits. Meant for room
/// above zero.
pub open spec fn quota_at(nav_growth_rate: u64, supply: u64, room: int) -> int {
    (nav_growth_rate * supply) / room
}

/// Whether the market value meets the least premium, or the refusal where there
/// is no supply to value.
pub open spec fn meets_min_premium(
    market_value: u64,
    min_premium_nav_ratio: u64,
    sol_in_treasury: u64,
    token_supply: u64,
) -> Result<bool, Error> {
    if token_supply == 0 {
        Err(Error::TokenSupplyIsZero)
    } else {
        Ok(
            market_value >= min_market_value(
                min_premium_nav_ratio,
                nav(sol_in_treasury, token_supply),
            ),
        )
    }
}

/// The quota of a round, or why there is none: no supply, a net asset value of
/// zero, a market value with no room above the target, or a quota that does not
/// fit 64 bits.
pub open spec fn quota(
    nav_growth_rate: u64,
    solxr_supply: u64,
    market_value: u64,
    sol_in_treasury: u64,
) -> Result<u64, Error> {
    let nav = nav(sol_in_treasury, solxr_supply);
    let room = growth_room(market_value, nav, nav_growth_rate);
    if solxr_supply == 0 {
        Err(Error::TokenSupplyIsZero)
    } else if nav == 0 {
        Err(Error::NavIsZero)
    } else if room <= 0 {
        Err(Error::MarketValueAtTargetNav)
    } else if quota_at(nav_growth_rate, solxr_supply, room) > u64::MAX {
        Err(Error::CalculatedMintableOverflow)
    } else {
        Ok(quota_at(nav_growth_rate, solxr_supply, room) as u64)
    }
}

impl OpenMintingRound {
    /// What opening round `id` at `market_value` comes to: the round's quota, or
    /// the refusal. The caller, the state of the rounds and the supply are tested
    /// first, then the net asset value, the premium, and the formula.
    pub open spec fn opening(self, id: u64, market_value: u64) -> Result<u64, Error> {
        let strategy = self.sol_strategy;
        if self.governance_authority != strategy.governance_authority {
            Err(Error::UnauthorizedGovernanceAuthority)
        } else if strategy.allow_new_mint {
            Err(Error::MintingAlreadyAllowed)
        } else if strategy.next_minting_rounds != id {
            Err(Error::IncorrectRoundId)
        } else if strategy.next_minting_rounds > strategy.minting_rounds {
            Err(Error::AllMintRoundsCompleted)
        } else if self.token_supply == 0 {
            Err(Error::TokenSupplyIsZero)
        } else if nav(strategy.sol_in_treasury, self.token_supply) == 0 {
            Err(Error::NavIsZero)
        } else if market_value < min_market_value(
            strategy.min_premium_nav_ratio,
            nav(strategy.sol_in_treasury, self.token_supply),
        ) {
            Err(Error::MarketValueBelowMinPremium)
        } else {
            quota(
                strategy.nav_growth_rate,
                self.token_supply,
                market_value,
                strategy.sol_in_treasury,
            )
        }
    }

    /// The records after a round with the given quota is opened at `now`: a round
    /// is open, and the round's record holds the premium, the limit per wallet as
    /// it stands, nothing sold, the quota and the opening time.
    pub open spec fn opened(self, market_value: u64, quota: u64, now: u64) -> OpenMintingRound {
        OpenMintingRound {
            sol_strategy: SolStrategy { allow_new_mint: true, ..self.sol_strategy },
            mint_round: MintRound {
                premium: market_value,
                max_mint_per_wallet: self.sol_strategy.max_mint_per_wallet,
                solxr_minted: 0,
                solxr_available: quota,
                start: now,
            },
            ..self
        }
    }

    /// Tests whether `market_value` lies at least the least premium above the net
    /// asset value.
    pub fn check_mint_value_requirement(
        market_value: u64,
        min_premium_nav_ratio: u64,
        sol_in_treasury_lamports: u64,
        token_supply: u64,
    ) -> (result: Result<bool, Error>)
        ensures
            result == meets_min_premium(
                market_value,
                min_premium_nav_ratio,
                sol_in_treasury_lamports,
                token_supply,
            ),
    {
        if token_supply == 0 {
            return Err(Error::TokenSupplyIsZero);
        }
        proof {
            lemma_product_fits(sol_in_treasury_lamports, SCALE);
        }
        let nav: u128 = (sol_in_treasury_lamports as u128) * (SCALE as u128)
            / (token_supply as u128);
        let factor: u128 = min_premium_nav_ratio as u128 + SCALE as u128;
        match factor.checked_mul(nav) {
            Some(product) => {
                let min_required_value: u128 = product / (SCALE as u128);
                Ok(market_value as u128 >= min_required_value)
            },
            None => {
                // The product is beyond 128 bits, so the least market value is
                // beyond 64 bits.
                Ok(false)
            },
        }
    }

    /// Computes the quota of a round from the formula.
    pub fn calculate_solxr_to_mint(
        nav_growth_rate: u64,
        solxr_supply: u64,
        market_value: u64,
        sol_in_treasury_lamports: u64,
    ) -> (result: Result<u64, Error>)
        ensures
            result == quota(nav_growth_rate, solxr_supply, market_value, sol_in_treasury_lamports),
    {
        if solxr_supply == 0 {
            return Err(Error::TokenSupplyIsZero);
        }
        proof {
            lemma_product_fits(sol_in_treasury_lamports, SCALE);
            lemma_product_fits(market_value, SCALE);
            lemma_product_fits(nav_growth_rate, solxr_supply);
        }
        let nav: u128 = (sol_in_treasury_lamports as u128) * (SCALE as u128)
            / (solxr_supply as u128);
        if nav == 0 {
            return Err(Error::NavIsZero);
        }
        let market_value_ratio: u128 = (market_value as u128) * (SCALE as u128) / nav;
        let target: u128 = SCALE as u128 + nav_growth_rate as u128;
        if market_value_ratio <= target {
            return Err(Error::MarketValueAtTargetNav);
        }
        let denominator: u128 = market_value_ratio - target;
        let numerator: u128 = (nav_growth_rate as u128) * (solxr_supply as u128);
        let result: u128 = numerator / denominator;
        if result > u64::MAX as u128 {
            return Err(Error::CalculatedMintableOverflow);
        }
        Ok(result as u64)
    }

    /// Opens round `id` at `market_value`; `now` becomes the round's start.
    pub fn handler(&mut self, id: u64, market_value: u64, now: u64) -> (result: Result<(), Error>)
        ensures
            match old(self).opening(id, market_value) {
                Ok(quota) => {
                    &&& result == Ok::<(), Error>(())
                    &&& *final(self) == old(self).opened(market_value, quota, now)
                },
                Err(e) => result == Err::<(), Error>(e) && *final(self) == *old(self),
            },
            result is Ok ==> final(self).mint_round.wf(),
            old(self).sol_strategy.wf() ==> final(self).sol_strategy.wf(),
    {
        if self.governance_authority != self.sol_strategy.governance_authority {
            return Err(Error::UnauthorizedGovernanceAuthority);
        }
        if self.sol_strategy.allow_new_mint {
            return Err(Error::MintingAlreadyAllowed);
        }
        if self.sol_strategy.next_minting_rounds != id {
            return Err(Error::IncorrectRoundId);
        }
        if self.sol_strategy.next_minting_rounds > self.sol_strategy.minting_rounds {
            return Err(Error::AllMintRoundsCompleted);
        }
        let pass_mint_value_requirement: bool = match Self::check_mint_value_requirement(
            market_value,
            self.sol_strategy.min_premium_nav_ratio,
            self.sol_strategy.sol_in_treasury,
            self.token_supply,
        ) {
            Ok(pass) => pass,
            Err(e) => {
                return Err(e);
            },
        };
        if !pass_mint_value_requirement {
            proof {
                // A net asset value of zero asks for no market value at all, so the
                // test fails only above it.
                let factor = self.sol_strategy.min_premium_nav_ratio + SCALE;
                assert(factor * 0 == 0) by (nonlinear_arith);
            }
            return Err(Error::MarketValueBelowMinPremium);
        }
        let solxr_available: u64 = match Self::calculate_solxr_to_mint(
            self.sol_strategy.nav_growth_rate,
            self.token_supply,
            market_value,
            self.sol_strategy.sol_in_treasury,
        ) {
            Ok(quota) => quota,
            Err(e) => {
                return Err(e);
            },
        };
        self.sol_strategy.allow_new_mint = true;
        self.mint_round = MintRound {
            premium: market_value,
            max_mint_per_wallet: self.sol_strategy.max_mint_per_wallet,
            solxr_minted: 0,
            solxr_available,
            start: now,
        };
        Ok(())
    }
}

} // verus!
