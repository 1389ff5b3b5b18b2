//! The fee engine: trading fee, protocol fee, and the inverse computation
//! that reconstructs a gross amount from a post-fee amount.
//!
//! Rates are parts-per-unit over a fixed denominator of one million.  The
//! trading fee rounds up so the pool is never under-compensated; the
//! protocol fee rounds down so the remainder of the already-collected
//! trading fee stays with the liquidity providers.  Every operation reports
//! overflow, underflow, or a zero divisor as `None` instead of wrapping or
//! panicking.

use vstd::prelude::*;
use vstd::arithmetic::div_mod::{
    lemma_div_is_ordered, lemma_div_multiples_vanish, lemma_fundamental_div_mod_converse,
};
use vstd::arithmetic::mul::lemma_mul_nonnegative;
use crate::arith::{
    div_round_up, lemma_div_round_up_bounds, lemma_div_round_up_converse,
    lemma_div_round_up_ordered, lemma_div_round_up_shift,
};

verus! {

/// Fee rates are interpreted as parts-per-unit over this denominator
/// (a rate of 10_000 is 1%).
pub const FEE_RATE_DENOMINATOR_VALUE: u64 = 1_000_000;

/// Namespace for the fee computations.
pub struct Fees {}

/// `trading_fee` succeeds exactly when its shifted ceiling division stays
/// within `u128`.
pub open spec fn trading_fee_fits(amount: int, rate: int) -> bool {
    amount * rate + FEE_RATE_DENOMINATOR_VALUE <= u128::MAX
}

/// The trading fee: the traded amount times the rate over the denominator,
/// rounded up.
pub open spec fn spec_trading_fee(amount: int, rate: int) -> int {
    div_round_up(amount * rate, FEE_RATE_DENOMINATOR_VALUE as int)
}

/// `protocol_fee` succeeds exactly when the rate multiplication stays
/// within `u128`.
pub open spec fn protocol_fee_fits(amount: int, rate: int) -> bool {
    amount * rate <= u128::MAX
}

/// The protocol fee: the trading fee times the protocol rate over the
/// denominator, rounded down.
pub open spec fn spec_protocol_fee(amount: int, rate: int) -> int {
    amount * rate / (FEE_RATE_DENOMINATOR_VALUE as int)
}

/// `calculate_pre_fee_amount` succeeds exactly when the rate is zero, or is
/// below the denominator with the shifted ceiling division within `u128`.
pub open spec fn pre_fee_amount_fits(post_fee_amount: int, rate: int) -> bool {
    rate == 0 || (rate < FEE_RATE_DENOMINATOR_VALUE && post_fee_amount
        * FEE_RATE_DENOMINATOR_VALUE + (FEE_RATE_DENOMINATOR_VALUE - rate) <= u128::MAX)
}

/// The gross amount that leaves exactly `post_fee_amount` behind once the
/// trading fee is withheld: `ceil(post * DEN / (DEN - rate))`, or the amount
/// unchanged in a no-fee regime.
pub open spec fn spec_pre_fee_amount(post_fee_amount: int, rate: int) -> int {
    if rate == 0 {
        post_fee_amount
    } else {
        div_round_up(
            post_fee_amount * FEE_RATE_DENOMINATOR_VALUE,
            FEE_RATE_DENOMINATOR_VALUE - rate,
        )
    }
}

/// Ceiling division of `token_amount * fee_numerator` by `fee_denominator`,
/// computed as `(product + denominator - 1) / denominator`; `None` on any
/// overflow, underflow, or zero divisor.
fn ceil_div(token_amount: u128, fee_numerator: u128, fee_denominator: u128) -> (r: Option<u128>)
    ensures
        match r {
            Some(v) => fee_denominator >= 1 && token_amount * fee_numerator + fee_denominator
                <= u128::MAX && v == div_round_up(
                token_amount * fee_numerator,
                fee_denominator as int,
            ),
            None => !(fee_denominator >= 1 && token_amount * fee_numerator + fee_denominator
                <= u128::MAX),
        },
{
    let shifted = token_amount.checked_mul(fee_numerator)?.checked_add(fee_denominator)?
        .checked_sub(1)?;
    proof {
        if fee_denominator >= 1 {
            lemma_div_round_up_shift((token_amount * fee_numerator) as int, fee_denominator as int);
        }
    }
    shifted.checked_div(fee_denominator)
}

/// Floor division of `token_amount * fee_numerator` by `fee_denominator`;
/// `None` on multiplication overflow or a zero divisor.
pub fn floor_div(token_amount: u128, fee_numerator: u128, fee_denominator: u128) -> (r: Option<
    u128,
>)
    ensures
        match r {
            Some(v) => fee_denominator >= 1 && token_amount * fee_numerator <= u128::MAX && v
                == token_amount * fee_numerator / (fee_denominator as int),
            None => !(fee_denominator >= 1 && token_amount * fee_numerator <= u128::MAX),
        },
{
    token_amount.checked_mul(fee_numerator)?.checked_div(fee_denominator)
}

impl Fees {
    /// The trading fee withheld from a swap, rounded up in the pool's favor.
    pub fn trading_fee(amount: u128, trade_fee_rate: u64) -> (r: Option<u128>)
        ensures
            match r {
                Some(v) => trading_fee_fits(amount as int, trade_fee_rate as int) && v
                    == spec_trading_fee(amount as int, trade_fee_rate as int),
                None => !trading_fee_fits(amount as int, trade_fee_rate as int),
            },
    {
        ceil_div(amount, trade_fee_rate as u128, FEE_RATE_DENOMINATOR_VALUE as u128)
    }

    /// The portion of an already-collected trading fee that goes to the
    /// protocol treasury, rounded down.
    pub fn protocol_fee(amount: u128, protocol_fee_rate: u64) -> (r: Option<u128>)
        ensures
            match r {
                Some(v) => protocol_fee_fits(amount as int, protocol_fee_rate as int) && v
                    == spec_protocol_fee(amount as int, protocol_fee_rate as int),
                None => !protocol_fee_fits(amount as int, protocol_fee_rate as int),
            },
    {
        floor_div(amount, protocol_fee_rate as u128, FEE_RATE_DENOMINATOR_VALUE as u128)
    }

    /// The gross amount a trader must supply so that, after the trading fee
    /// is withheld, exactly `post_fee_amount` remains.
    pub fn calculate_pre_fee_amount(post_fee_amount: u128, trade_fee_rate: u64) -> (r: Option<
        u128,
    >)
        ensures
            match r {
                Some(v) => pre_fee_amount_fits(post_fee_amount as int, trade_fee_rate as int) && v
                    == spec_pre_fee_amount(post_fee_amount as int, trade_fee_rate as int),
                None => !pre_fee_amount_fits(post_fee_amount as int, trade_fee_rate as int),
            },
    {
        if trade_fee_rate == 0 {
            Some(post_fee_amount)
        } else {
            let numerator = post_fee_amount.checked_mul(FEE_RATE_DENOMINATOR_VALUE as u128)?;
            let denominator = (FEE_RATE_DENOMINATOR_VALUE as u128).checked_sub(
                trade_fee_rate as u128,
            )?;
            proof {
                if denominator >= 1 {
                    lemma_div_round_up_shift(numerator as int, denominator as int);
                }
            }
            numerator.checked_add(denominator)?.checked_sub(1)?.checked_div(denominator)
        }
    }
}

/// Law: the trading fee is non-decreasing in both the traded amount and the
/// fee rate.
pub proof fn lemma_trading_fee_monotonic(amount1: u128, rate1: u64, amount2: u128, rate2: u64)
    requires
        amount1 <= amount2,
        rate1 <= rate2,
    ensures
        spec_trading_fee(amount1 as int, rate1 as int) <= spec_trading_fee(
            amount2 as int,
            rate2 as int,
        ),
{
    assert(amount1 * rate1 <= amount2 * rate2) by (nonlinear_arith)
        requires
            0 <= amount1 <= amount2,
            0 <= rate1 <= rate2,
    ;
    lemma_mul_nonnegative(amount1 as int, rate1 as int);
    lemma_div_round_up_ordered(
        amount1 * rate1,
        amount2 * rate2,
        FEE_RATE_DENOMINATOR_VALUE as int,
    );
}

/// Law: the protocol fee never exceeds the trading fee it is carved from,
/// for any rate within the supported range.
pub proof fn lemma_protocol_fee_bounded(fee_amount: u128, rate: u64)
    requires
        rate <= FEE_RATE_DENOMINATOR_VALUE,
    ensures
        spec_protocol_fee(fee_amount as int, rate as int) <= fee_amount,
{
    let den = FEE_RATE_DENOMINATOR_VALUE as int;
    assert(fee_amount * rate <= den * (fee_amount as int)) by (nonlinear_arith)
        requires
            0 <= rate <= den,
            0 <= fee_amount,
    ;
    lemma_div_is_ordered(fee_amount * rate, den * (fee_amount as int), den);
    lemma_div_multiples_vanish(fee_amount as int, den);
}

/// Law: reconstructing the gross amount for a post-fee amount and then
/// deducting the trading fee from it gives back exactly the post-fee
/// amount, for every rate below the denominator.
pub proof fn lemma_pre_fee_amount_round_trip(post_fee_amount: u128, trade_fee_rate: u64)
    requires
        trade_fee_rate < FEE_RATE_DENOMINATOR_VALUE,
    ensures
        ({
            let pre = spec_pre_fee_amount(post_fee_amount as int, trade_fee_rate as int);
            pre - spec_trading_fee(pre, trade_fee_rate as int) == post_fee_amount
        }),
{
    let p = post_fee_amount as int;
    let rate = trade_fee_rate as int;
    let den = FEE_RATE_DENOMINATOR_VALUE as int;
    if rate == 0 {
        lemma_fundamental_div_mod_converse(0, den, 0, 0);
    } else {
        let d = den - rate;
        let q = spec_pre_fee_amount(p, rate);
        lemma_mul_nonnegative(p, den);
        lemma_div_round_up_bounds(p * den, d);
        assert(q >= p) by (nonlinear_arith)
            requires
                d * q >= p * den,
                1 <= d <= den,
                p >= 0,
                q >= 0,
        ;
        assert(den * (q - p) >= q * rate && den * (q - p) < q * rate + den) by (nonlinear_arith)
            requires
                d == den - rate,
                d * q >= p * den,
                d * q < p * den + d,
                1 <= d <= den,
        ;
        lemma_mul_nonnegative(q, rate);
        lemma_div_round_up_converse(q * rate, den, q - p);
    }
}

/// A reconstructed gross amount is never less than the post-fee amount it
/// was derived from.
pub proof fn lemma_pre_fee_amount_lower_bound(post_fee_amount: int, rate: int)
    requires
        post_fee_amount >= 0,
        0 <= rate < FEE_RATE_DENOMINATOR_VALUE,
    ensures
        spec_pre_fee_amount(post_fee_amount, rate) >= post_fee_amount,
{
    if rate != 0 {
        let den = FEE_RATE_DENOMINATOR_VALUE as int;
        let d = den - rate;
        let q = spec_pre_fee_amount(post_fee_amount, rate);
        lemma_mul_nonnegative(post_fee_amount, den);
        lemma_div_round_up_bounds(post_fee_amount * den, d);
        assert(q >= post_fee_amount) by (nonlinear_arith)
            requires
                d * q >= post_fee_amount * den,
                1 <= d <= den,
                post_fee_amount >= 0,
                q >= 0,
        ;
    }
}

} // verus!
