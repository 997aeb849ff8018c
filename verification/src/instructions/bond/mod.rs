//! Bonds: sold by governance, bought as numbered units, and redeemed at maturity
//! for tokens or for the price.

pub mod buy;
pub mod convert;
pub mod sell;
