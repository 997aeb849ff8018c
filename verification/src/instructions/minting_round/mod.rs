//! Minting rounds: opened by governance with a quota that follows from the net
//! asset value, bought into by wallets, and closed by governance.

pub mod buy;
pub mod close;
pub mod open;
