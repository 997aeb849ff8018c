//! Amounts and prices at the fixed-point scale.
//!
//! A price says how much base currency one whole token costs, with `SCALE`
//! standing for one whole unit. Products are formed in 128 bits and narrowed to
//! 64 bits only after a test that they fit.

use vstd::prelude::*;
use crate::constants::SCALE;

verus! {

/// The tokens that `amount` of base currency buys at `price`: the amount times
/// `SCALE`, divided by the price and rounded down. Meant for a price above zero.
pub open spec fn tokens_at(amount: u64, price: u64) -> int {
    (amount * SCALE) / (price as int)
}

/// The tokens that `amount` of base currency buys at `price`, where the price is
/// not zero and the tokens fit 64 bits.
pub fn tokens_at_price(amount: u64, price: u64) -> (tokens: Option<u64>)
    ensures
        tokens is Some <==> price > 0 && tokens_at(amount, price) <= u64::MAX,
        tokens matches Some(t) ==> t == tokens_at(amount, price),
{
    if price == 0 {
        return None;
    }
    proof {
        lemma_product_fits(amount, SCALE);
    }
    let scaled: u128 = (amount as u128) * (SCALE as u128);
    let quotient: u128 = scaled / (price as u128);
    if quotient > u64::MAX as u128 {
        None
    } else {
        Some(quotient as u64)
    }
}

/// The share of `amount` that the rate `rate` takes, rounded down: `rate` is a
/// fraction of `SCALE`.
pub open spec fn share_of(rate: u64, amount: u64) -> int {
    (rate * amount) / (SCALE as int)
}

/// The product of two 64-bit numbers fits 128 bits.
pub proof fn lemma_product_fits(a: u64, b: u64)
    ensures
        0 <= a * b <= u128::MAX,
{
    assert(0 <= a * b <= 0xffff_ffff_ffff_ffff * 0xffff_ffff_ffff_ffff) by (nonlinear_arith)
        requires
            0 <= a <= 0xffff_ffff_ffff_ffff,
            0 <= b <= 0xffff_ffff_ffff_ffff,
    ;
}

/// The share of `amount` that the rate `rate` takes, capped at `cap`.
pub open spec fn capped_share_of(rate: u64, cap: u64, amount: u64) -> int {
    if share_of(rate, amount) > cap {
        cap as int
    } else {
        share_of(rate, amount)
    }
}

} // verus!
