//! Whitelist passes: sold by governance, bought as numbered units, converted once.

pub mod buy;
pub mod convert;
pub mod sell;
