//! The records that the protocol keeps.

pub mod bonds;
pub mod mint_round;
pub mod sol_strategy;
pub mod whitelists;
