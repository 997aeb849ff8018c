//! A minting round and what each wallet has put into it.

use vstd::prelude::*;

verus! {

/// One round: the premium it sells at, its quota, and how much of it is sold.
#[derive(Clone, Copy, Debug, PartialEq, Eq, Structural)]
pub struct MintRound {
    /// Price of one token in base currency, at `SCALE`.
    pub premium: u64,
    /// The most that one wallet may contribute, as it stood when the round opened.
    pub max_mint_per_wallet: u64,
    /// Tokens sold in the round.
    pub solxr_minted: u64,
    /// Tokens that the round may sell.
    pub solxr_available: u64,
    /// When the round opened, in seconds.
    pub start: u64,
}

impl MintRound {
    /// The round has sold no more than its quota.
    pub open spec fn wf(self) -> bool {
        self.solxr_minted <= self.solxr_available
    }
}

/// What one wallet has contributed to one round.
#[derive(Clone, Copy, Debug, PartialEq, Eq, Structural)]
pub struct AssociatedRoundAccount {
    /// Base currency contributed so far.
    pub amount_minted: u64,
}

impl AssociatedRoundAccount {
    /// The wallet has contributed no more than the round lets one wallet contribute.
    pub open spec fn within_cap(self, round: MintRound) -> bool {
        self.amount_minted <= round.max_mint_per_wallet
    }
}

} // verus!
