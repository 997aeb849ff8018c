//! Buying one numbered bond.

use vstd::prelude::*;
use crate::address::Address;
use crate::edition::{
    check_sale, edition_marker, marker_of, master_supply, master_supply_of, next_edition,
    next_edition_of, sale_refusal, EditionPurchase, MasterSupply,
};
use crate::errors::Error;
use crate::state::bonds::{Bond, BondRecord};
use crate::state::sol_strategy::SolStrategy;

verus! {

/// The records that a purchase of a bond touches.
#[derive(Clone, Copy, Debug, PartialEq, Eq)]
pub struct BuyBond {
    /// The wallet that buys.
    pub buyer: Address,
    /// The address under which the offering is kept.
    pub collection: Address,
    /// The global record.
    pub sol_strategy: SolStrategy,
    /// The offering.
    pub bond: Bond,
    /// What the buyer has bought of the offering so far.
    pub bond_record: BondRecord,
}

impl BuyBond {
    /// What a purchase at `now` comes to, given the state of the offering's master
    /// edition: the bond to mint and its price, or the refusal. The sale's window
    /// and the wallet's limit are tested first, then the master, then the room
    /// that the account of bond money has for the price.
    pub open spec fn purchase(self, now: u64, master: Option<MasterSupply>) -> Result<
        EditionPurchase,
        Error,
    > {
        let refusal = sale_refusal(
            now,
            self.bond.start_time,
            self.bond.end_time,
            self.bond_record.minted,
            self.bond.max_mint_per_wallet,
        );
        if refusal is Some {
            Err(refusal->0)
        } else {
            match next_edition_of(master) {
                Err(e) => Err(e),
                Ok(edition) => {
                    if self.sol_strategy.sol_from_bond + self.bond.price > u64::MAX {
                        Err(Error::ArithmeticOverflow)
                    } else {
                        Ok(EditionPurchase { price: self.bond.price, edition })
                    }
                },
            }
        }
    }

    /// The records after the bond numbered `edition` is bought: the price is
    /// counted as bond money, the offering expects the number after `edition`, and
    /// the buyer's record counts one more bond.
    pub open spec fn bought(self, edition: u64) -> BuyBond {
        BuyBond {
            sol_strategy: SolStrategy {
                sol_from_bond: (self.sol_strategy.sol_from_bond + self.bond.price) as u64,
                ..self.sol_strategy
            },
            bond: Bond {
                next_edition_number: (edition + 1) as u64,
                next_edition_marker: marker_of((edition + 1) as u64),
                ..self.bond
            },
            bond_record: BondRecord {
                collection: self.collection,
                user: self.buyer,
                minted: (self.bond_record.minted + 1) as u64,
            },
            ..self
        }
    }

    /// Buys one bond at `now`, given the state of the offering's master edition.
    pub fn buy_edition(&mut self, now: u64, master: Option<MasterSupply>) -> (result: Result<
        EditionPurchase,
        Error,
    >)
        ensures
            result == old(self).purchase(now, master),
            result matches Ok(p) ==> *final(self) == old(self).bought(p.edition),
            result is Err ==> *final(self) == *old(self),
            result is Ok ==> final(self).bond.wf(),
            result is Ok ==> final(self).bond_record.within_cap(final(self).bond),
            old(self).sol_strategy.wf() ==> final(self).sol_strategy.wf(),
    {
        match check_sale(
            now,
            self.bond.start_time,
            self.bond.end_time,
            self.bond_record.minted,
            self.bond.max_mint_per_wallet,
        ) {
            Some(e) => {
                return Err(e);
            },
            None => {},
        }
        let edition: u64 = match next_edition(master) {
            Ok(n) => n,
            Err(e) => {
                return Err(e);
            },
        };
        let bond_money: u64 = match self.sol_strategy.sol_from_bond.checked_add(self.bond.price) {
            Some(total) => total,
            None => {
                return Err(Error::ArithmeticOverflow);
            },
        };
        self.bond_record = BondRecord {
            collection: self.collection,
            user: self.buyer,
            minted: self.bond_record.minted + 1,
        };
        self.bond.next_edition_number = edition + 1;
        self.bond.next_edition_marker = edition_marker(edition + 1);
        self.sol_strategy.sol_from_bond = bond_money;
        Ok(EditionPurchase { price: self.bond.price, edition })
    }

    /// Buys one bond at `now`. `master_edition` holds the stored bytes of the
    /// offering's master edition, from which the copies issued so far are read.
    pub fn handler(&mut self, now: u64, master_edition: &[u8]) -> (result: Result<
        EditionPurchase,
        Error,
    >)
        ensures
            result == old(self).purchase(now, master_supply_of(master_edition@)),
            result matches Ok(p) ==> *final(self) == old(self).bought(p.edition),
            result is Err ==> *final(self) == *old(self),
            result is Ok ==> final(self).bond.wf(),
            result is Ok ==> final(self).bond_record.within_cap(final(self).bond),
            old(self).sol_strategy.wf() ==> final(self).sol_strategy.wf(),
    {
        let master = master_supply(master_edition);
        self.buy_edition(now, master)
    }
}

} // verus!
