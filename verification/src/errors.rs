//! Every way in which an operation can be refused.

use vstd::prelude::*;

verus! {

/// Why an operation was refused. A refused operation changes nothing.
#[derive(Clone, Copy, Debug, PartialEq, Eq, Structural)]
pub enum Error {
    /// The caller is not the governance authority that the operation asks for.
    UnauthorizedGovernanceAuthority,
    /// The protocol state exists already.
    AlreadyInitialized,
    /// The deposit would take the holder's balance over the cap per address.
    ATACapError,
    /// The deposit would take the treasury over the initial pool cap.
    InitialSolCapError,
    /// A round cannot open while another is open.
    MintingAlreadyAllowed,
    /// The round id is not the next round's.
    IncorrectRoundId,
    /// Every planned round has been opened.
    AllMintRoundsCompleted,
    /// The market value is below the least premium over the net asset value.
    MarketValueBelowMinPremium,
    /// The net asset value per token is zero.
    NavIsZero,
    /// No token is in supply, so there is no net asset value.
    TokenSupplyIsZero,
    /// The market value leaves no room above the target net asset value.
    MarketValueAtTargetNav,
    /// The quota of a round does not fit the stored width.
    CalculatedMintableOverflow,
    /// No round is open, so none can be closed.
    MintingAlreadyClosed,
    /// The account that is to receive the fee is not the platform's.
    InvalidPlatformAccount,
    /// No round is open, so nothing can be bought.
    MintingNotAllowed,
    /// The round id is not the open round's.
    InvalidMintingRound,
    /// The wallet would contribute more to the round than one wallet may.
    ExceedsMaxMintPerWallet,
    /// The round has not that many tokens left.
    ExceedsAvailableSolxr,
    /// The round's duration is over.
    MintingDurationEnded,
    /// The bond has not matured.
    BondNotMatured,
    /// The holder's account does not hold exactly one unit.
    InvalidTokenAmount,
    /// The sale has not started.
    MintingNotStarted,
    /// The sale is over.
    MintingEnded,
    /// The wallet has bought as many units as one wallet may.
    MaxMintPerWalletReached,
    /// The presented record is not a master edition.
    AccountNotMasterEdition,
    /// No further edition can be numbered: the numbers or the supply are used up.
    EditionOverflow,
    /// The numbered unit has been converted before.
    WhitelistClaimed,
    /// The whitelist pass has not matured.
    WhitelistNotMatured,
    /// The whitelist pass has expired.
    WhitelistExpired,
    /// A counter or a balance would leave the range of the stored width.
    ArithmeticOverflow,
    /// A price that divides an amount is zero.
    DivisionByZero,
}

} // verus!
