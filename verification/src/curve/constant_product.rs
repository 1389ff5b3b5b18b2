//! The constant-product curve: fee-free swaps in both directions under the
//! invariant `x * y = k`, and the pro-rata conversion between
//! liquidity-share tokens and the two underlying reserve tokens.
//!
//! Swap outputs round down and swap inputs round up, so the trader never
//! receives more, and is never charged less, than the exact mathematical
//! quotient: the pool's invariant product can only grow.

use vstd::prelude::*;
use vstd::arithmetic::div_mod::{
    lemma_div_pos_is_pos, lemma_fundamental_div_mod, lemma_mod_bound,
};
use vstd::arithmetic::mul::{lemma_mul_inequality, lemma_mul_nonnegative};
use crate::arith::{div_round_up, lemma_div_round_up_bounds};
use crate::curve::calculator::{RoundDirection, TradingTokenResult};

verus! {

/// Namespace for the constant-product curve computations.
#[derive(Clone, Debug, Default, PartialEq)]
pub struct ConstantProductCurve;

/// `swap_base_input_without_fees` succeeds exactly when the cross-product
/// fits in `u128` and the grown source side is a usable divisor.
pub open spec fn swap_output_fits(
    source_amount: int,
    swap_source_amount: int,
    swap_destination_amount: int,
) -> bool {
    source_amount * swap_destination_amount <= u128::MAX && 1 <= swap_source_amount
        + source_amount <= u128::MAX
}

/// The fee-free exact-input swap output:
/// `floor(source * destination_reserve / (source_reserve + source))`.
pub open spec fn spec_swap_output(
    source_amount: int,
    swap_source_amount: int,
    swap_destination_amount: int,
) -> int {
    source_amount * swap_destination_amount / (swap_source_amount + source_amount)
}

/// `swap_base_output_without_fees` succeeds exactly when the cross-product
/// fits in `u128` and the request leaves the destination reserve positive.
pub open spec fn swap_input_fits(
    destination_amount: int,
    swap_source_amount: int,
    swap_destination_amount: int,
) -> bool {
    swap_source_amount * destination_amount <= u128::MAX && destination_amount
        < swap_destination_amount
}

/// The fee-free exact-output swap input:
/// `ceil(source_reserve * destination / (destination_reserve - destination))`.
pub open spec fn spec_swap_input(
    destination_amount: int,
    swap_source_amount: int,
    swap_destination_amount: int,
) -> int {
    div_round_up(
        swap_source_amount * destination_amount,
        swap_destination_amount - destination_amount,
    )
}

/// One side of the share-to-token conversion, rounded down.
pub open spec fn spec_lp_token_amount_floor(
    lp_token_amount: int,
    lp_token_supply: int,
    reserve: int,
) -> int {
    lp_token_amount * reserve / lp_token_supply
}

/// One side of the share-to-token conversion, rounded up on any remainder,
/// except that a floored amount of zero is never rounded up: a vanishingly
/// small share must not manufacture a whole token out of nothing.
pub open spec fn spec_lp_token_amount_ceiling(
    lp_token_amount: int,
    lp_token_supply: int,
    reserve: int,
) -> int {
    let base = lp_token_amount * reserve / lp_token_supply;
    if lp_token_amount * reserve % lp_token_supply > 0 && base > 0 {
        base + 1
    } else {
        base
    }
}

/// One side of the share-to-token conversion under a chosen rounding
/// direction.
pub open spec fn spec_lp_token_amount(
    lp_token_amount: int,
    lp_token_supply: int,
    reserve: int,
    round_direction: RoundDirection,
) -> int {
    match round_direction {
        RoundDirection::Floor => spec_lp_token_amount_floor(
            lp_token_amount,
            lp_token_supply,
            reserve,
        ),
        RoundDirection::Ceiling => spec_lp_token_amount_ceiling(
            lp_token_amount,
            lp_token_supply,
            reserve,
        ),
    }
}

/// `lp_tokens_to_trading_tokens` succeeds exactly when both cross-products
/// fit in `u128` and the share supply is a usable divisor.
pub open spec fn lp_tokens_fit(
    lp_token_amount: int,
    lp_token_supply: int,
    swap_token_0_amount: int,
    swap_token_1_amount: int,
) -> bool {
    lp_token_amount * swap_token_0_amount <= u128::MAX && lp_token_amount * swap_token_1_amount
        <= u128::MAX && lp_token_supply >= 1
}

/// A floored quotient of a `u128` product leaves room for one increment.
proof fn lemma_quotient_increment_fits(x: int, d: int)
    requires
        0 <= x <= u128::MAX,
        d >= 1,
        x % d > 0,
    ensures
        x / d + 1 <= u128::MAX,
{
    let q = x / d;
    lemma_fundamental_div_mod(x, d);
    lemma_div_pos_is_pos(x, d);
    assert(q < x) by (nonlinear_arith)
        requires
            q >= 0,
            d >= 1,
            x == d * q + x % d,
            x % d > 0,
    ;
}

/// Law: the fee-free exact-input swap never decreases the pool's invariant
/// product: `(source_reserve + source) * (destination_reserve - output)`
/// is at least `source_reserve * destination_reserve`, and the output never
/// exceeds the destination reserve.
pub proof fn lemma_swap_output_preserves_value(
    source_amount: int,
    swap_source_amount: int,
    swap_destination_amount: int,
)
    requires
        source_amount >= 0,
        swap_source_amount >= 0,
        swap_destination_amount >= 0,
        swap_source_amount + source_amount >= 1,
    ensures
        0 <= spec_swap_output(source_amount, swap_source_amount, swap_destination_amount)
            <= swap_destination_amount,
        (swap_source_amount + source_amount) * (swap_destination_amount - spec_swap_output(
            source_amount,
            swap_source_amount,
            swap_destination_amount,
        )) >= swap_source_amount * swap_destination_amount,
{
    let s = source_amount;
    let x = swap_source_amount;
    let y = swap_destination_amount;
    let n = x + s;
    let out = spec_swap_output(s, x, y);
    lemma_mul_nonnegative(s, y);
    lemma_fundamental_div_mod(s * y, n);
    lemma_mod_bound(s * y, n);
    lemma_div_pos_is_pos(s * y, n);
    lemma_mul_inequality(s, n, y);
    assert(out <= y) by (nonlinear_arith)
        requires
            n >= 1,
            out >= 0,
            n * out <= s * y,
            s * y <= n * y,
    ;
    assert(n * (y - out) >= x * y) by (nonlinear_arith)
        requires
            n == x + s,
            n * out <= s * y,
    ;
}

/// Law: the fee-free exact-output swap charges enough to cover the pool's
/// invariant product: `(source_reserve + input) * (destination_reserve -
/// destination)` is at least `source_reserve * destination_reserve`.
pub proof fn lemma_swap_input_covers_value(
    destination_amount: int,
    swap_source_amount: int,
    swap_destination_amount: int,
)
    requires
        swap_source_amount >= 0,
        0 <= destination_amount < swap_destination_amount,
    ensures
        spec_swap_input(destination_amount, swap_source_amount, swap_destination_amount) >= 0,
        (swap_source_amount + spec_swap_input(
            destination_amount,
            swap_source_amount,
            swap_destination_amount,
        )) * (swap_destination_amount - destination_amount) >= swap_source_amount
            * swap_destination_amount,
{
    let dst = destination_amount;
    let x = swap_source_amount;
    let y = swap_destination_amount;
    let d = y - dst;
    let q = spec_swap_input(dst, x, y);
    lemma_mul_nonnegative(x, dst);
    lemma_div_round_up_bounds(x * dst, d);
    assert((x + q) * d >= x * y) by (nonlinear_arith)
        requires
            d == y - dst,
            d * q >= x * dst,
            x >= 0,
    ;
}

impl ConstantProductCurve {
    /// The amount of destination tokens received for `source_amount` source
    /// tokens, fees excluded, rounded down in the pool's favor.
    pub fn swap_base_input_without_fees(
        source_amount: u128,
        swap_source_amount: u128,
        swap_destination_amount: u128,
    ) -> (r: Option<u128>)
        ensures
            match r {
                Some(v) => swap_output_fits(
                    source_amount as int,
                    swap_source_amount as int,
                    swap_destination_amount as int,
                ) && v == spec_swap_output(
                    source_amount as int,
                    swap_source_amount as int,
                    swap_destination_amount as int,
                ) && v <= swap_destination_amount && (swap_source_amount + source_amount) * (
                swap_destination_amount - v) >= swap_source_amount * swap_destination_amount,
                None => !swap_output_fits(
                    source_amount as int,
                    swap_source_amount as int,
                    swap_destination_amount as int,
                ),
            },
    {
        let numerator = source_amount.checked_mul(swap_destination_amount)?;
        let denominator = swap_source_amount.checked_add(source_amount)?;
        let destination_amount_swapped = numerator.checked_div(denominator)?;
        proof {
            lemma_swap_output_preserves_value(
                source_amount as int,
                swap_source_amount as int,
                swap_destination_amount as int,
            );
        }
        Some(destination_amount_swapped)
    }

    /// The amount of source tokens required to receive `destination_amount`
    /// destination tokens, fees excluded, rounded up in the pool's favor.
    pub fn swap_base_output_without_fees(
        destination_amount: u128,
        swap_source_amount: u128,
        swap_destination_amount: u128,
    ) -> (r: Option<u128>)
        ensures
            match r {
                Some(v) => swap_input_fits(
                    destination_amount as int,
                    swap_source_amount as int,
                    swap_destination_amount as int,
                ) && v == spec_swap_input(
                    destination_amount as int,
                    swap_source_amount as int,
                    swap_destination_amount as int,
                ) && (swap_source_amount + v) * (swap_destination_amount - destination_amount)
                    >= swap_source_amount * swap_destination_amount,
                None => !swap_input_fits(
                    destination_amount as int,
                    swap_source_amount as int,
                    swap_destination_amount as int,
                ),
            },
    {
        let numerator = swap_source_amount.checked_mul(destination_amount)?;
        let denominator = swap_destination_amount.checked_sub(destination_amount)?;
        if denominator == 0 {
            return None;
        }
        let quotient = numerator / denominator;
        let remainder = numerator % denominator;
        let source_amount_swapped = if remainder > 0 {
            proof {
                lemma_quotient_increment_fits(numerator as int, denominator as int);
            }
            quotient + 1
        } else {
            quotient
        };
        proof {
            lemma_swap_input_covers_value(
                destination_amount as int,
                swap_source_amount as int,
                swap_destination_amount as int,
            );
        }
        Some(source_amount_swapped)
    }

    /// The amount of trading tokens on each side corresponding to
    /// `lp_token_amount` pool tokens, as a pro-rata share of the reserves
    /// under the chosen rounding direction.
    pub fn lp_tokens_to_trading_tokens(
        lp_token_amount: u128,
        lp_token_supply: u128,
        swap_token_0_amount: u128,
        swap_token_1_amount: u128,
        round_direction: RoundDirection,
    ) -> (r: Option<TradingTokenResult>)
        ensures
            match r {
                Some(res) => lp_tokens_fit(
                    lp_token_amount as int,
                    lp_token_supply as int,
                    swap_token_0_amount as int,
                    swap_token_1_amount as int,
                ) && res.token_0_amount == spec_lp_token_amount(
                    lp_token_amount as int,
                    lp_token_supply as int,
                    swap_token_0_amount as int,
                    round_direction,
                ) && res.token_1_amount == spec_lp_token_amount(
                    lp_token_amount as int,
                    lp_token_supply as int,
                    swap_token_1_amount as int,
                    round_direction,
                ),
                None => !lp_tokens_fit(
                    lp_token_amount as int,
                    lp_token_supply as int,
                    swap_token_0_amount as int,
                    swap_token_1_amount as int,
                ),
            },
    {
        let mut token_0_amount = lp_token_amount.checked_mul(swap_token_0_amount)?.checked_div(
            lp_token_supply,
        )?;
        let mut token_1_amount = lp_token_amount.checked_mul(swap_token_1_amount)?.checked_div(
            lp_token_supply,
        )?;
        match round_direction {
            RoundDirection::Floor => {},
            RoundDirection::Ceiling => {
                let token_0_remainder = lp_token_amount.checked_mul(swap_token_0_amount)?
                    .checked_rem(lp_token_supply)?;
                // A zero floored amount stays zero: tiny share amounts must be
                // rejected downstream rather than rounded up to a whole token.
                if token_0_remainder > 0 && token_0_amount > 0 {
                    proof {
                        lemma_quotient_increment_fits(
                            (lp_token_amount * swap_token_0_amount) as int,
                            lp_token_supply as int,
                        );
                    }
                    token_0_amount += 1;
                }
                let token_1_remainder = lp_token_amount.checked_mul(swap_token_1_amount)?
                    .checked_rem(lp_token_supply)?;
                if token_1_remainder > 0 && token_1_amount > 0 {
                    proof {
                        lemma_quotient_increment_fits(
                            (lp_token_amount * swap_token_1_amount) as int,
                            lp_token_supply as int,
                        );
                    }
                    token_1_amount += 1;
                }
            },
        }
        Some(TradingTokenResult { token_0_amount, token_1_amount })
    }
}

/// Law: for a share amount within the supply, the Ceiling-rounded
/// conversion is at least the Floor-rounded one on each side, and exceeds
/// it by at most one.
pub proof fn lemma_lp_conversion_rounding(
    lp_token_amount: u128,
    lp_token_supply: u128,
    swap_token_0_amount: u128,
    swap_token_1_amount: u128,
)
    requires
        lp_token_amount <= lp_token_supply,
    ensures
        spec_lp_token_amount_floor(
            lp_token_amount as int,
            lp_token_supply as int,
            swap_token_0_amount as int,
        ) <= spec_lp_token_amount_ceiling(
            lp_token_amount as int,
            lp_token_supply as int,
            swap_token_0_amount as int,
        ) <= spec_lp_token_amount_floor(
            lp_token_amount as int,
            lp_token_supply as int,
            swap_token_0_amount as int,
        ) + 1,
        spec_lp_token_amount_floor(
            lp_token_amount as int,
            lp_token_supply as int,
            swap_token_1_amount as int,
        ) <= spec_lp_token_amount_ceiling(
            lp_token_amount as int,
            lp_token_supply as int,
            swap_token_1_amount as int,
        ) <= spec_lp_token_amount_floor(
            lp_token_amount as int,
            lp_token_supply as int,
            swap_token_1_amount as int,
        ) + 1,
{
}

/// One side of the dilution argument: the Ceiling-rounded token amount,
/// scaled by the old supply, covers the old reserve scaled by the new
/// supply.
proof fn lemma_deposit_side(lp_token_amount: int, lp_token_supply: int, reserve: int)
    requires
        lp_token_amount >= 0,
        reserve >= 0,
        lp_token_supply >= 1,
        lp_token_amount * reserve % lp_token_supply == 0 || lp_token_amount * reserve
            / lp_token_supply >= 1,
    ensures
        (reserve + spec_lp_token_amount_ceiling(lp_token_amount, lp_token_supply, reserve))
            * lp_token_supply >= reserve * (lp_token_supply + lp_token_amount),
{
    let x = lp_token_amount * reserve;
    let q = x / lp_token_supply;
    let c = spec_lp_token_amount_ceiling(lp_token_amount, lp_token_supply, reserve);
    lemma_mul_nonnegative(lp_token_amount, reserve);
    lemma_fundamental_div_mod(x, lp_token_supply);
    lemma_mod_bound(x, lp_token_supply);
    if x % lp_token_supply == 0 {
        assert(c * lp_token_supply >= x) by (nonlinear_arith)
            requires
                x == lp_token_supply * q + x % lp_token_supply,
                x % lp_token_supply == 0,
                c == q,
        ;
    } else {
        assert(c * lp_token_supply >= x) by (nonlinear_arith)
            requires
                x == lp_token_supply * q + x % lp_token_supply,
                x % lp_token_supply < lp_token_supply,
                c == q + 1,
        ;
    }
    assert((reserve + c) * lp_token_supply >= reserve * (lp_token_supply + lp_token_amount))
        by (nonlinear_arith)
        requires
            c * lp_token_supply >= lp_token_amount * reserve,
    ;
}

/// Law: adding the Ceiling-rounded trading tokens for a share mint never
/// dilutes existing shares: on each side, the new reserve scaled by the old
/// share supply is at least the old reserve scaled by the new share supply.
/// Inputs on which a side's floored amount is zero with a non-zero
/// remainder are excluded: there the guarded ceiling deliberately returns
/// zero, for the caller to reject downstream.
pub proof fn lemma_deposit_preserves_pool_value(
    lp_token_amount: u128,
    lp_token_supply: u128,
    swap_token_0_amount: u128,
    swap_token_1_amount: u128,
)
    requires
        lp_token_supply >= 1,
        (lp_token_amount * swap_token_0_amount) % (lp_token_supply as int) == 0 || (
        lp_token_amount * swap_token_0_amount) / (lp_token_supply as int) >= 1,
        (lp_token_amount * swap_token_1_amount) % (lp_token_supply as int) == 0 || (
        lp_token_amount * swap_token_1_amount) / (lp_token_supply as int) >= 1,
    ensures
        (swap_token_0_amount + spec_lp_token_amount_ceiling(
            lp_token_amount as int,
            lp_token_supply as int,
            swap_token_0_amount as int,
        )) * lp_token_supply >= swap_token_0_amount * (lp_token_supply + lp_token_amount),
        (swap_token_1_amount + spec_lp_token_amount_ceiling(
            lp_token_amount as int,
            lp_token_supply as int,
            swap_token_1_amount as int,
        )) * lp_token_supply >= swap_token_1_amount * (lp_token_supply + lp_token_amount),
{
    lemma_deposit_side(lp_token_amount as int, lp_token_supply as int, swap_token_0_amount as int);
    lemma_deposit_side(lp_token_amount as int, lp_token_supply as int, swap_token_1_amount as int);
}

} // verus!
