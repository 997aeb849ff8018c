//! The protocol's operations, one record of the touched state each.

pub mod bond;
pub mod initialize;
pub mod initialize_token;
pub mod invest;
pub mod minting_round;
pub mod whitelist;
