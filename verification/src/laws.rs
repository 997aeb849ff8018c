//! What holds across several operations.

use vstd::prelude::*;
use crate::constants::SCALE;
use crate::errors::Error;
use crate::instructions::bond::convert::{ConvertBond, Redemption};
use crate::instructions::minting_round::close::CloseMintingRound;
use crate::fixed_point::tokens_at;
use crate::instructions::minting_round::open::{
    growth_room, min_market_value, nav, quota_at, OpenMintingRound,
};
use crate::instructions::whitelist::convert::ConvertWhitelist;

verus! {

/// A whitelist pass converts once: after a conversion, converting the same pass
/// again is refused as claimed, at whatever time it is tried.
pub proof fn lemma_whitelist_converts_once(ctx: ConvertWhitelist, now: u64, later: u64)
    requires
        ctx.conversion(now) is Ok,
    ensures
        ctx.converted().conversion(later) == Err::<u64, Error>(Error::WhitelistClaimed),
{
}

/// A bond is redeemed once: the redemption burns it, so redeeming the same bond
/// again is refused for want of the unit, whichever way and at whatever time it
/// is tried.
pub proof fn lemma_bond_converts_once(
    ctx: ConvertBond,
    convert: bool,
    now: u64,
    convert_again: bool,
    later: u64,
)
    requires
        ctx.redemption(convert, now) is Ok,
    ensures
        ctx.redeemed(convert).unit_balance == 0,
        ctx.redeemed(convert).redemption(convert_again, later) == Err::<Redemption, Error>(
            Error::InvalidTokenAmount,
        ),
{
}

/// Closing twice in a row: where the first call closes the round, the second is
/// refused because no round is open, and the round counter has moved by one.
pub proof fn lemma_close_twice(ctx: CloseMintingRound)
    requires
        ctx.refusal() is None,
    ensures
        ctx.closed().refusal() == Some(Error::MintingAlreadyClosed),
        ctx.closed().sol_strategy.next_minting_rounds == ctx.sol_strategy.next_minting_rounds
            + 1,
        !ctx.closed().sol_strategy.allow_new_mint,
{
}

/// A market value below the least premium over the net asset value opens no
/// round: where the caller, the rounds and the supply would let round `id` open,
/// the call is refused for the premium. A refused call changes nothing, so no
/// round is open after it.
pub proof fn lemma_low_market_value_refused(ctx: OpenMintingRound, id: u64, market_value: u64)
    requires
        ctx.governance_authority == ctx.sol_strategy.governance_authority,
        !ctx.sol_strategy.allow_new_mint,
        ctx.sol_strategy.next_minting_rounds == id,
        ctx.sol_strategy.next_minting_rounds <= ctx.sol_strategy.minting_rounds,
        ctx.token_supply > 0,
        market_value < min_market_value(
            ctx.sol_strategy.min_premium_nav_ratio,
            nav(ctx.sol_strategy.sol_in_treasury, ctx.token_supply),
        ),
    ensures
        ctx.opening(id, market_value) == Err::<u64, Error>(Error::MarketValueBelowMinPremium),
{
    let factor = ctx.sol_strategy.min_premium_nav_ratio + SCALE;
    assert(factor * 0 == 0) by (nonlinear_arith);
}

/// Tokens are rounded down, and by less than one: at the price, the tokens that
/// an amount buys are worth no more than the amount, and one token more would be
/// worth more than the amount.
pub proof fn lemma_tokens_round_down(amount: u64, price: u64)
    requires
        price > 0,
    ensures
        0 <= tokens_at(amount, price),
        tokens_at(amount, price) * price <= amount * SCALE,
        amount * SCALE < (tokens_at(amount, price) + 1) * price,
{
    let scaled = amount * SCALE;
    let divisor = price as int;
    assert(0 <= scaled / divisor && (scaled / divisor) * divisor <= scaled && scaled < (scaled
        / divisor + 1) * divisor) by (nonlinear_arith)
        requires
            0 <= scaled,
            0 < divisor,
    ;
}

/// The quota is the formula rounded down: where the market value leaves room
/// above the target, the quota times the room is no more than the growth rate
/// times the supply, and a quota of one more would exceed it.
pub proof fn lemma_quota_rounds_down(
    nav_growth_rate: u64,
    supply: u64,
    market_value: u64,
    sol_in_treasury: u64,
)
    requires
        growth_room(market_value, nav(sol_in_treasury, supply), nav_growth_rate) > 0,
    ensures
        ({
            let room = growth_room(market_value, nav(sol_in_treasury, supply), nav_growth_rate);
            let quota = quota_at(nav_growth_rate, supply, room);
            &&& 0 <= quota
            &&& quota * room <= nav_growth_rate * supply
            &&& nav_growth_rate * supply < (quota + 1) * room
        }),
{
    let room = growth_room(market_value, nav(sol_in_treasury, supply), nav_growth_rate);
    let product = nav_growth_rate * supply;
    assert(0 <= product) by (nonlinear_arith)
        requires
            0 <= nav_growth_rate,
            0 <= supply,
            product == nav_growth_rate * supply,
    ;
    assert(0 <= product / room && (product / room) * room <= product && product < (product / room
        + 1) * room) by (nonlinear_arith)
        requires
            0 <= product,
            0 < room,
    ;
}

} // verus!
