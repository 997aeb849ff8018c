//! The economic core of a tokenized treasury: deposits, minting rounds whose quota
//! follows from the net asset value, and numbered bonds and whitelist passes that
//! are sold, bought and redeemed.
//!
//! Every operation is a record of the state it touches with a `handler` that
//! either applies the operation or refuses it and changes nothing. What the
//! ledger and the registry have to do for an applied operation is returned as
//! plain values.

pub mod address;
pub mod constants;
pub mod edition;
pub mod errors;
pub mod fixed_point;
pub mod instructions;
pub mod invariants;
pub mod laws;
pub mod state;

pub use address::Address;
pub use constants::{
    BOND_MATURITY, BOND_PRICE, DURATION, EDITION_MARKER_SIZE, GOVERNANCE_AUTHORITY,
    MAX_MINT_PER_WALLET, MAX_PLATFORM_MINT_FEE, MINTING_ROUNDS, MIN_PREMIUM_NAV_RATIO,
    NAV_GROWTH_RATE, PLATFORM_ADDRESS, PLATFORM_MINT_FEE, SCALE, SOLXR_DECIMAL,
};
pub use edition::{EditionPurchase, MasterRegistration, MasterSupply};
pub use errors::Error;
pub use instructions::bond::buy::BuyBond;
pub use instructions::bond::convert::{ConvertBond, Redemption};
pub use instructions::bond::sell::SellBond;
pub use instructions::initialize::{initialize_handler, Initialize, Parameters};
pub use instructions::initialize_token::InitializeToken;
pub use instructions::invest::Invest;
pub use instructions::minting_round::buy::{BuySolxr, RoundPurchase};
pub use instructions::minting_round::close::CloseMintingRound;
pub use instructions::minting_round::open::OpenMintingRound;
pub use instructions::whitelist::buy::BuyWhitelist;
pub use instructions::whitelist::convert::ConvertWhitelist;
pub use instructions::whitelist::sell::SellWhitelist;
pub use state::bonds::{Bond, BondRecord};
pub use state::mint_round::{AssociatedRoundAccount, MintRound};
pub use state::sol_strategy::SolStrategy;
pub use state::whitelists::{Whitelist, WhitelistNFTRecord, WhitelistRecord};
