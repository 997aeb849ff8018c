//! Buying tokens in the open minting round.

use vstd::prelude::*;
use crate::address::Address;
use crate::errors::Error;
use crate::constants::SCALE;
use crate::fixed_point::{capped_share_of, lemma_product_fits, tokens_at, tokens_at_price};
use crate::state::mint_round::{AssociatedRoundAccount, MintRound};
use crate::state::sol_strategy::SolStrategy;

verus! {

/// The records that a purchase in a round touches.
#[derive(Clone, Copy, Debug, PartialEq, Eq)]
pub struct BuySolxr {
    /// The global record.
    pub sol_strategy: SolStrategy,
    /// The round that is bought into.
    pub mint_round: MintRound,
    /// What the buyer has contributed to the round so far.
    pub associated_round_account: AssociatedRoundAccount,
    /// The account that is presented to receive the fee.
    pub platform_address: Address,
}

/// Where the amount of a purchase goes, and what it buys.
#[derive(Clone, Copy, Debug, PartialEq, Eq, Structural)]
pub struct RoundPurchase {
    /// Base currency that goes to the platform.
    pub platform_fee: u64,
    /// Base currency that goes to the treasury.
    pub treasury_credit: u64,
    /// Tokens minted to the buyer.
    pub solxr_minted: u64,
}

impl BuySolxr {
    /// The fee on a purchase of `amount`: the platform's share of it, capped at the
    /// most that one purchase pays.
    pub open spec fn platform_fee(self, amount: u64) -> int {
        capped_share_of(
            self.sol_strategy.platform_mint_fee,
            self.sol_strategy.max_platform_mint_fee,
            amount,
        )
    }

    /// The tokens that a purchase of `amount` mints: what is left of the amount
    /// after the fee, at the round's premium, rounded down.
    pub open spec fn tokens(self, amount: u64) -> int {
        tokens_at((amount - self.platform_fee(amount)) as u64, self.mint_round.premium)
    }

    /// What a purchase of `amount` in round `id` at `now` comes to: the split of
    /// the amount and the tokens minted, or the refusal.
    pub open spec fn purchase(self, id: u64, amount: u64, now: u64) -> Result<
        RoundPurchase,
        Error,
    > {
        if !self.sol_strategy.allow_new_mint {
            Err(Error::MintingNotAllowed)
        } else if self.sol_strategy.next_minting_rounds != id {
            Err(Error::InvalidMintingRound)
        } else if self.platform_fee(amount) > amount {
            Err(Error::ArithmeticOverflow)
        } else if self.mint_round.premium == 0 {
            Err(Error::DivisionByZero)
        } else if self.tokens(amount) + self.mint_round.solxr_minted
            > self.mint_round.solxr_available {
            Err(Error::ExceedsAvailableSolxr)
        } else if amount + self.associated_round_account.amount_minted
            > self.mint_round.max_mint_per_wallet {
            Err(Error::ExceedsMaxMintPerWallet)
        } else if now - self.mint_round.start > self.sol_strategy.mint_duration {
            Err(Error::MintingDurationEnded)
        } else if self.platform_address != self.sol_strategy.platform_address {
            Err(Error::InvalidPlatformAccount)
        } else {
            Ok(
                RoundPurchase {
                    platform_fee: self.platform_fee(amount) as u64,
                    treasury_credit: (amount - self.platform_fee(amount)) as u64,
                    solxr_minted: self.tokens(amount) as u64,
                },
            )
        }
    }

    /// The records after a purchase of `amount` that minted `tokens`.
    pub open spec fn bought(self, amount: u64, tokens: u64) -> BuySolxr {
        BuySolxr {
            mint_round: MintRound {
                solxr_minted: (self.mint_round.solxr_minted + tokens) as u64,
                ..self.mint_round
            },
            associated_round_account: AssociatedRoundAccount {
                amount_minted: (self.associated_round_account.amount_minted + amount) as u64,
            },
            ..self
        }
    }

    /// The fee on a purchase of `amount` at the rate `platform_mint_fee`, capped at
    /// `max_platform_mint_fee`.
    pub fn calculate_platform_fee(
        platform_mint_fee: u64,
        max_platform_mint_fee: u64,
        amount: u64,
    ) -> (fee: u64)
        ensures
            fee == capped_share_of(platform_mint_fee, max_platform_mint_fee, amount),
            fee <= max_platform_mint_fee,
    {
        proof {
            lemma_product_fits(platform_mint_fee, amount);
        }
        let product: u128 = (platform_mint_fee as u128) * (amount as u128);
        let fee: u128 = product / (SCALE as u128);
        if fee > max_platform_mint_fee as u128 {
            max_platform_mint_fee
        } else {
            fee as u64
        }
    }

    /// Buys tokens for `amount` of base currency in round `id` at `now`.
    pub fn handler(&mut self, id: u64, amount: u64, now: u64) -> (result: Result<
        RoundPurchase,
        Error,
    >)
        ensures
            result == old(self).purchase(id, amount, now),
            result matches Ok(p) ==> *final(self) == old(self).bought(amount, p.solxr_minted),
            result is Err ==> *final(self) == *old(self),
            result matches Ok(p) ==> p.platform_fee <= old(self).sol_strategy.max_platform_mint_fee
                && p.platform_fee + p.treasury_credit == amount,
            old(self).mint_round.wf() ==> final(self).mint_round.wf(),
            old(self).associated_round_account.within_cap(old(self).mint_round)
                ==> final(self).associated_round_account.within_cap(final(self).mint_round),
            result is Ok ==> final(self).mint_round.wf(),
            result is Ok
                ==> final(self).associated_round_account.within_cap(final(self).mint_round),
    {
        if !self.sol_strategy.allow_new_mint {
            return Err(Error::MintingNotAllowed);
        }
        if self.sol_strategy.next_minting_rounds != id {
            return Err(Error::InvalidMintingRound);
        }
        let platform_fee: u64 = Self::calculate_platform_fee(
            self.sol_strategy.platform_mint_fee,
            self.sol_strategy.max_platform_mint_fee,
            amount,
        );
        if platform_fee > amount {
            return Err(Error::ArithmeticOverflow);
        }
        let treasury_credit: u64 = amount - platform_fee;
        if self.mint_round.premium == 0 {
            return Err(Error::DivisionByZero);
        }
        let solxr_to_mint: u64 = match tokens_at_price(treasury_credit, self.mint_round.premium) {
            Some(tokens) => tokens,
            None => {
                return Err(Error::ExceedsAvailableSolxr);
            },
        };
        if solxr_to_mint as u128 + self.mint_round.solxr_minted as u128
            > self.mint_round.solxr_available as u128 {
            return Err(Error::ExceedsAvailableSolxr);
        }
        if amount as u128 + self.associated_round_account.amount_minted as u128
            > self.mint_round.max_mint_per_wallet as u128 {
            return Err(Error::ExceedsMaxMintPerWallet);
        }
        if now >= self.mint_round.start && now - self.mint_round.start
            > self.sol_strategy.mint_duration {
            return Err(Error::MintingDurationEnded);
        }
        if self.platform_address != self.sol_strategy.platform_address {
            return Err(Error::InvalidPlatformAccount);
        }
        self.mint_round.solxr_minted = self.mint_round.solxr_minted + solxr_to_mint;
        self.associated_round_account.amount_minted = self.associated_round_account.amount_minted
            + amount;
        Ok(RoundPurchase { platform_fee, treasury_credit, solxr_minted: solxr_to_mint })
    }
}

} // verus!
