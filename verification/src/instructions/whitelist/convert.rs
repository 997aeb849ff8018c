//! Converting one matured whitelist pass into tokens.

use vstd::prelude::*;
use crate::errors::Error;
use crate::state::whitelists::{Whitelist, WhitelistNFTRecord};

verus! {

/// The records that the conversion of a whitelist pass touches.
#[derive(Clone, Copy, Debug, PartialEq, Eq, Structural)]
pub struct ConvertWhitelist {
    /// The offering that the presented pass belongs to.
    pub whitelist: Whitelist,
    /// Whether the presented numbered pass has been converted.
    pub whitelist_edition_record: WhitelistNFTRecord,
    /// Units in the holder's account for the presented numbered pass. The holder
    /// keeps the pass when it is converted.
    pub unit_balance: u64,
}

impl ConvertWhitelist {
    /// What converting at `now` comes to: the tokens minted to the holder, which
    /// are as many as the price of the pass, or the refusal. The holder must own
    /// the pass, the pass must not have been converted before, and `now` must lie
    /// between maturity and expiration, both included.
    pub open spec fn conversion(self, now: u64) -> Result<u64, Error> {
        if self.unit_balance != 1 {
            Err(Error::InvalidTokenAmount)
        } else if self.whitelist_edition_record.converted {
            Err(Error::WhitelistClaimed)
        } else if now < self.whitelist.maturity {
            Err(Error::WhitelistNotMatured)
        } else if now > self.whitelist.expiration {
            Err(Error::WhitelistExpired)
        } else {
            Ok(self.whitelist.price)
        }
    }

    /// The records after a conversion: the pass is marked as converted.
    pub open spec fn converted(self) -> ConvertWhitelist {
        ConvertWhitelist {
            whitelist_edition_record: WhitelistNFTRecord { converted: true },
            ..self
        }
    }

    /// Converts the presented pass at `now` and returns the tokens to mint to the
    /// holder.
    pub fn handler(&mut self, now: u64) -> (result: Result<u64, Error>)
        ensures
            result == old(self).conversion(now),
            result is Ok ==> *final(self) == old(self).converted(),
            result is Err ==> *final(self) == *old(self),
    {
        if self.unit_balance != 1 {
            return Err(Error::InvalidTokenAmount);
        }
        if self.whitelist_edition_record.converted {
            return Err(Error::WhitelistClaimed);
        }
        if now < self.whitelist.maturity {
            return Err(Error::WhitelistNotMatured);
        }
        if now > self.whitelist.expiration {
            return Err(Error::WhitelistExpired);
        }
        self.whitelist_edition_record.converted = true;
        Ok(self.whitelist.price)
    }
}

} // verus!
