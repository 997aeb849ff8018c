//! Numbering of the units that are minted from a master edition.
//!
//! Every offering has one master edition in the registry. A unit that is bought is
//! a numbered copy of it: its number is one more than the count of copies that the
//! master has issued. The registry keeps its copies in buckets of
//! `EDITION_MARKER_SIZE` numbers, and an offering records the bucket of its next
//! number as its marker.

use vstd::prelude::*;
use anchor_spl::metadata::mpl_token_metadata::accounts::MasterEdition;
use crate::constants::EDITION_MARKER_SIZE;
use crate::errors::Error;

verus! {

/// What a master edition says of its copies.
#[derive(Clone, Copy, Debug, PartialEq, Eq)]
pub struct MasterSupply {
    /// Copies issued so far.
    pub supply: u64,
    /// The most copies that may be issued, where the master declares a limit.
    pub max_supply: Option<u64>,
}

/// What the registry's decoder reads from the stored bytes of a master edition:
/// the copies issued and the declared limit, or nothing where the bytes do not
/// decode as a master edition.
pub uninterp spec fn master_edition_supply(data: Seq<u8>) -> Option<(u64, Option<u64>)>;

/// Decodes the stored bytes of a master edition with
/// `mpl_token_metadata::accounts::MasterEdition::from_bytes`, and hands out the
/// fields `supply` and `max_supply` of what it decoded, or nothing where it reports
/// an error. Nothing is proved of the decoder: the contract only gives its result
/// the name `master_edition_supply`, since it depends on the bytes alone.
#[verifier::external_body]
fn read_master_edition(data: &[u8]) -> (record: Option<(u64, Option<u64>)>)
    ensures
        record == master_edition_supply(data@),
{
    match MasterEdition::from_bytes(data) {
        Ok(master) => Some((master.supply, master.max_supply)),
        Err(_) => None,
    }
}

/// The state of a master edition as a value of this library.
pub open spec fn master_supply_of(data: Seq<u8>) -> Option<MasterSupply> {
    match master_edition_supply(data) {
        Some((supply, max_supply)) => Some(MasterSupply { supply, max_supply }),
        None => None,
    }
}

/// Reads the state of a master edition from its stored bytes.
pub fn master_supply(data: &[u8]) -> (master: Option<MasterSupply>)
    ensures
        master == master_supply_of(data@),
{
    match read_master_edition(data) {
        Some((supply, max_supply)) => Some(MasterSupply { supply, max_supply }),
        None => None,
    }
}

/// What buying one numbered unit asks of the ledger and of the registry.
#[derive(Clone, Copy, Debug, PartialEq, Eq, Structural)]
pub struct EditionPurchase {
    /// Base currency that moves from the buyer to the treasury.
    pub price: u64,
    /// Number of the copy that is minted from the master for the buyer.
    pub edition: u64,
}

/// What selling a new offering asks of the registry: a master edition with this
/// description, and this limit on its copies.
#[derive(Debug, PartialEq, Eq)]
pub struct MasterRegistration {
    /// Name of the offering.
    pub name: String,
    /// Its short symbol.
    pub symbol: String,
    /// Where its description is found.
    pub uri: String,
    /// The most copies that the master may issue, or no limit.
    pub max_supply: Option<u64>,
}

/// Why a sale refuses a wallet at a moment, if it does: the sale runs from
/// `start_time` to `end_time`, both included, and a wallet that has bought
/// `max_mint_per_wallet` units buys no more.
pub open spec fn sale_refusal(
    now: u64,
    start_time: u64,
    end_time: u64,
    minted: u64,
    max_mint_per_wallet: u64,
) -> Option<Error> {
    if now < start_time {
        Some(Error::MintingNotStarted)
    } else if now > end_time {
        Some(Error::MintingEnded)
    } else if minted >= max_mint_per_wallet {
        Some(Error::MaxMintPerWalletReached)
    } else {
        None
    }
}

/// Tests whether a sale is open to a wallet at a moment.
pub fn check_sale(
    now: u64,
    start_time: u64,
    end_time: u64,
    minted: u64,
    max_mint_per_wallet: u64,
) -> (refusal: Option<Error>)
    ensures
        refusal == sale_refusal(now, start_time, end_time, minted, max_mint_per_wallet),
{
    if now < start_time {
        Some(Error::MintingNotStarted)
    } else if now > end_time {
        Some(Error::MintingEnded)
    } else if minted >= max_mint_per_wallet {
        Some(Error::MaxMintPerWalletReached)
    } else {
        None
    }
}

/// The bucket that an edition number falls into.
pub open spec fn marker_of(edition: u64) -> u64 {
    edition / EDITION_MARKER_SIZE
}

/// The bucket that an edition number falls into.
pub fn edition_marker(edition: u64) -> (marker: u64)
    ensures
        marker == marker_of(edition),
{
    edition / EDITION_MARKER_SIZE
}

/// The number that the next copy of a master gets: one more than the copies
/// issued. There is none where the record is no master edition, where the declared
/// limit is reached, or where the number after it would not fit 64 bits.
pub open spec fn next_edition_of(master: Option<MasterSupply>) -> Result<u64, Error> {
    match master {
        None => Err(Error::AccountNotMasterEdition),
        Some(m) => {
            if m.supply + 2 > u64::MAX {
                Err(Error::EditionOverflow)
            } else if m.max_supply is Some && m.supply >= m.max_supply->0 {
                Err(Error::EditionOverflow)
            } else {
                Ok((m.supply + 1) as u64)
            }
        },
    }
}

/// The number that the next copy of a master gets.
pub fn next_edition(master: Option<MasterSupply>) -> (edition: Result<u64, Error>)
    ensures
        edition == next_edition_of(master),
        edition matches Ok(n) ==> 1 <= n < u64::MAX,
{
    match master {
        None => Err(Error::AccountNotMasterEdition),
        Some(m) => {
            if m.supply >= u64::MAX - 1 {
                return Err(Error::EditionOverflow);
            }
            match m.max_supply {
                Some(max) => {
                    if m.supply >= max {
                        return Err(Error::EditionOverflow);
                    }
                },
                None => {},
            }
            Ok(m.supply + 1)
        },
    }
}

} // verus!
