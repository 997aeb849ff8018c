//! Buying one numbered whitelist pass.

use vstd::prelude::*;
use crate::address::Address;
use crate::edition::{
    check_sale, edition_marker, marker_of, master_supply, master_supply_of, next_edition,
    next_edition_of, sale_refusal, EditionPurchase, MasterSupply,
};
use crate::errors::Error;
use crate::state::sol_strategy::SolStrategy;
use crate::state::whitelists::{Whitelist, WhitelistRecord};

verus! {

/// The records that a purchase of a whitelist pass touches.
#[derive(Clone, Copy, Debug, PartialEq, Eq)]
pub struct BuyWhitelist {
    /// The wallet that buys.
    pub buyer: Address,
    /// The address under which the offering is kept.
    pub collection: Address,
    /// The global record.
    pub sol_strategy: SolStrategy,
    /// The offering.
    pub whitelist: Whitelist,
    /// What the buyer has bought of the offering so far.
    pub whitelist_record: WhitelistRecord,
}

impl BuyWhitelist {
    /// What a purchase at `now` comes to, given the state of the offering's master
    /// edition: the pass to mint and its price, or the refusal. The sale's window
    /// and the wallet's limit are tested first, then the master, then the
    /// treasury's room for the price.
    pub open spec fn purchase(self, now: u64, master: Option<MasterSupply>) -> Result<
        EditionPurchase,
        Error,
    > {
        let refusal = sale_refusal(
            now,
            self.whitelist.start_time,
            self.whitelist.end_time,
            self.whitelist_record.minted,
            self.whitelist.max_mint_per_wallet,
        );
        if refusal is Some {
            Err(refusal->0)
        } else {
            match next_edition_of(master) {
                Err(e) => Err(e),
                Ok(edition) => {
                    if self.sol_strategy.sol_in_treasury + self.whitelist.price > u64::MAX {
                        Err(Error::ArithmeticOverflow)
                    } else {
                        Ok(EditionPurchase { price: self.whitelist.price, edition })
                    }
                },
            }
        }
    }

    /// The records after the pass numbered `edition` is bought: the price is in the
    /// treasury, the offering expects the number after `edition`, and the buyer's
    /// record counts one more pass.
    pub open spec fn bought(self, edition: u64) -> BuyWhitelist {
        BuyWhitelist {
            sol_strategy: SolStrategy {
                sol_in_treasury: (self.sol_strategy.sol_in_treasury + self.whitelist.price) as u64,
                ..self.sol_strategy
            },
            whitelist: Whitelist {
                next_edition_number: (edition + 1) as u64,
                next_edition_marker: marker_of((edition + 1) as u64),
                ..self.whitelist
            },
            whitelist_record: WhitelistRecord {
                collection: self.collection,
                user: self.buyer,
                minted: (self.whitelist_record.minted + 1) as u64,
            },
            ..self
        }
    }

    /// Buys one pass at `now`, given the state of the offering's master edition.
    pub fn buy_edition(&mut self, now: u64, master: Option<MasterSupply>) -> (result: Result<
        EditionPurchase,
        Error,
    >)
        ensures
            result == old(self).purchase(now, master),
            result matches Ok(p) ==> *final(self) == old(self).bought(p.edition),
            result is Err ==> *final(self) == *old(self),
            result is Ok ==> final(self).whitelist.wf(),
            result is Ok ==> final(self).whitelist_record.within_cap(final(self).whitelist),
            old(self).sol_strategy.wf() ==> final(self).sol_strategy.wf(),
    {
        match check_sale(
            now,
            self.whitelist.start_time,
            self.whitelist.end_time,
            self.whitelist_record.minted,
            self.whitelist.max_mint_per_wallet,
        ) {
            Some(e) => {
                return Err(e);
            },
            None => {},
        }
        let edition: u64 = match next_edition(master) {
            Ok(n) => n,
            Err(e) => {
                return Err(e);
            },
        };
        let treasury: u64 = match self.sol_strategy.sol_in_treasury.checked_add(
            self.whitelist.price,
        ) {
            Some(t) => t,
            None => {
                return Err(Error::ArithmeticOverflow);
            },
        };
        self.whitelist_record = WhitelistRecord {
            collection: self.collection,
            user: self.buyer,
            minted: self.whitelist_record.minted + 1,
        };
        self.whitelist.next_edition_number = edition + 1;
        self.whitelist.next_edition_marker = edition_marker(edition + 1);
        self.sol_strategy.sol_in_treasury = treasury;
        Ok(EditionPurchase { price: self.whitelist.price, edition })
    }

    /// Buys one pass at `now`. `master_edition` holds the stored bytes of the
    /// offering's master edition, from which the copies issued so far are read.
    pub fn handler(&mut self, now: u64, master_edition: &[u8]) -> (result: Result<
        EditionPurchase,
        Error,
    >)
        ensures
            result == old(self).purchase(now, master_supply_of(master_edition@)),
            result matches Ok(p) ==> *final(self) == old(self).bought(p.edition),
            result is Err ==> *final(self) == *old(self),
            result is Ok ==> final(self).whitelist.wf(),
            result is Ok ==> final(self).whitelist_record.within_cap(final(self).whitelist),
            old(self).sol_strategy.wf() ==> final(self).sol_strategy.wf(),
    {
        let master = master_supply(master_edition);
        self.buy_edition(now, master)
    }
}

} // verus!
