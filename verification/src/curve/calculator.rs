//! The swap orchestrator: composes the fee engine with the fee-free curve
//! to produce a complete swap result for both call shapes ("supply exactly
//! this much" and "receive exactly this much"), plus the direction and
//! rounding metadata shared across the crate.

use vstd::prelude::*;
use crate::curve::constant_product::{
    spec_lp_token_amount, spec_swap_input, spec_swap_output, swap_input_fits, swap_output_fits,
    lp_tokens_fit, ConstantProductCurve,
};
use crate::curve::fees::{
    lemma_pre_fee_amount_lower_bound, pre_fee_amount_fits, protocol_fee_fits, spec_pre_fee_amount,
    spec_protocol_fee, spec_trading_fee, trading_fee_fits, Fees,
};

verus! {

/// The direction of a trade between the pool's two concrete sides.
#[derive(Clone, Copy, Debug, PartialEq, Eq, Structural)]
pub enum TradeDirection {
    /// Token 0 is the input, token 1 the output.
    ZeroForOne,
    /// Token 1 is the input, token 0 the output.
    OneForZero,
}

/// The direction to round in pool-token to trading-token conversions, so
/// that no deposit or withdrawal loses value for the pool.
#[derive(Clone, Copy, Debug, PartialEq, Eq, Structural)]
pub enum RoundDirection {
    /// Truncate toward zero.
    Floor,
    /// Round up on any remainder.
    Ceiling,
}

/// The two reserve-token amounts corresponding to a quantity of
/// liquidity-share tokens, under a chosen rounding direction.
#[derive(Debug, PartialEq, Eq, Structural)]
pub struct TradingTokenResult {
    /// Amount of token 0.
    pub token_0_amount: u128,
    /// Amount of token 1.
    pub token_1_amount: u128,
}

/// Everything a completed swap moves: the new reserves, the amounts
/// exchanged, and the fees withheld.
#[derive(Debug, PartialEq, Eq, Structural)]
pub struct SwapResult {
    /// New amount of source token held by the pool.
    pub new_swap_source_amount: u128,
    /// New amount of destination token held by the pool.
    pub new_swap_destination_amount: u128,
    /// Amount of source token swapped, fees included.
    pub source_amount_swapped: u128,
    /// Amount of destination token delivered.
    pub destination_amount_swapped: u128,
    /// Amount of source tokens going to the pool's liquidity providers.
    pub trade_fee: u128,
    /// Amount of source tokens going to the protocol treasury.
    pub protocol_fee: u128,
}

/// Namespace for the swap orchestration entry points.
#[derive(Clone, Debug, Default, PartialEq)]
pub struct CurveCalculator {}

/// `swap_base_input` succeeds exactly when the fee computations fit, the
/// fee does not exceed the supplied amount, the fee-free swap on the
/// remainder fits, and the grown source reserve fits in `u128`.
pub open spec fn swap_base_input_fits(
    source_amount: int,
    swap_source_amount: int,
    swap_destination_amount: int,
    trade_fee_rate: int,
    protocol_fee_rate: int,
) -> bool {
    let trade_fee = spec_trading_fee(source_amount, trade_fee_rate);
    trading_fee_fits(source_amount, trade_fee_rate) && protocol_fee_fits(
        trade_fee,
        protocol_fee_rate,
    ) && trade_fee <= source_amount && swap_output_fits(
        source_amount - trade_fee,
        swap_source_amount,
        swap_destination_amount,
    ) && swap_source_amount + source_amount <= u128::MAX
}

/// `swap_base_output` succeeds exactly when the fee-free swap fits, the
/// gross amount reconstruction and both fee computations on it fit, and
/// the grown source reserve fits in `u128`.
pub open spec fn swap_base_output_fits(
    destination_amount: int,
    swap_source_amount: int,
    swap_destination_amount: int,
    trade_fee_rate: int,
    protocol_fee_rate: int,
) -> bool {
    let source_before_fees = spec_swap_input(
        destination_amount,
        swap_source_amount,
        swap_destination_amount,
    );
    let source_amount = spec_pre_fee_amount(source_before_fees, trade_fee_rate);
    swap_input_fits(destination_amount, swap_source_amount, swap_destination_amount)
        && pre_fee_amount_fits(source_before_fees, trade_fee_rate) && trading_fee_fits(
        source_amount,
        trade_fee_rate,
    ) && protocol_fee_fits(spec_trading_fee(source_amount, trade_fee_rate), protocol_fee_rate)
        && swap_source_amount + source_amount <= u128::MAX
}

impl CurveCalculator {
    /// Exact-input swap: debit the trading fee from `source_amount`, run
    /// the remainder through the fee-free curve, and keep the whole input
    /// (fee included) in the source reserve, so the invariant product of
    /// the reserves never decreases.
    pub fn swap_base_input(
        source_amount: u128,
        swap_source_amount: u128,
        swap_destination_amount: u128,
        trade_fee_rate: u64,
        protocol_fee_rate: u64,
    ) -> (r: Option<SwapResult>)
        ensures
            match r {
                Some(res) => ({
                    let trade_fee = spec_trading_fee(source_amount as int, trade_fee_rate as int);
                    let out = spec_swap_output(
                        source_amount - trade_fee,
                        swap_source_amount as int,
                        swap_destination_amount as int,
                    );
                    &&& swap_base_input_fits(
                        source_amount as int,
                        swap_source_amount as int,
                        swap_destination_amount as int,
                        trade_fee_rate as int,
                        protocol_fee_rate as int,
                    )
                    &&& res.trade_fee == trade_fee
                    &&& res.protocol_fee == spec_protocol_fee(trade_fee, protocol_fee_rate as int)
                    &&& res.source_amount_swapped == source_amount
                    &&& res.destination_amount_swapped == out
                    &&& res.new_swap_source_amount == swap_source_amount + source_amount
                    &&& res.new_swap_destination_amount == swap_destination_amount - out
                    &&& res.new_swap_source_amount * res.new_swap_destination_amount
                        >= swap_source_amount * swap_destination_amount
                }),
                None => !swap_base_input_fits(
                    source_amount as int,
                    swap_source_amount as int,
                    swap_destination_amount as int,
                    trade_fee_rate as int,
                    protocol_fee_rate as int,
                ),
            },
    {
        let trade_fee = Fees::trading_fee(source_amount, trade_fee_rate)?;
        let protocol_fee = Fees::protocol_fee(trade_fee, protocol_fee_rate)?;
        let source_amount_less_fees = source_amount.checked_sub(trade_fee)?;
        let destination_amount_swapped = ConstantProductCurve::swap_base_input_without_fees(
            source_amount_less_fees,
            swap_source_amount,
            swap_destination_amount,
        )?;
        let new_swap_source_amount = swap_source_amount.checked_add(source_amount)?;
        let new_swap_destination_amount = swap_destination_amount.checked_sub(
            destination_amount_swapped,
        )?;
        proof {
            assert((swap_source_amount + source_amount) * (swap_destination_amount
                - destination_amount_swapped) >= (swap_source_amount + source_amount_less_fees) * (
            swap_destination_amount - destination_amount_swapped)) by (nonlinear_arith)
                requires
                    source_amount >= source_amount_less_fees,
                    swap_destination_amount >= destination_amount_swapped,
                    swap_source_amount >= 0,
                    source_amount_less_fees >= 0,
            ;
        }
        Some(
            SwapResult {
                new_swap_source_amount,
                new_swap_destination_amount,
                source_amount_swapped: source_amount,
                destination_amount_swapped,
                trade_fee,
                protocol_fee,
            },
        )
    }

    /// Exact-output swap: compute the fee-free source requirement for the
    /// desired output, gross it up so the trading fee leaves exactly that
    /// requirement, and keep the whole gross amount in the source reserve,
    /// so the invariant product of the reserves never decreases.
    pub fn swap_base_output(
        destination_amount: u128,
        swap_source_amount: u128,
        swap_destination_amount: u128,
        trade_fee_rate: u64,
        protocol_fee_rate: u64,
    ) -> (r: Option<SwapResult>)
        ensures
            match r {
                Some(res) => ({
                    let source_before_fees = spec_swap_input(
                        destination_amount as int,
                        swap_source_amount as int,
                        swap_destination_amount as int,
                    );
                    let gross = spec_pre_fee_amount(source_before_fees, trade_fee_rate as int);
                    let trade_fee = spec_trading_fee(gross, trade_fee_rate as int);
                    &&& swap_base_output_fits(
                        destination_amount as int,
                        swap_source_amount as int,
                        swap_destination_amount as int,
                        trade_fee_rate as int,
                        protocol_fee_rate as int,
                    )
                    &&& res.trade_fee == trade_fee
                    &&& res.protocol_fee == spec_protocol_fee(trade_fee, protocol_fee_rate as int)
                    &&& res.source_amount_swapped == gross
                    &&& res.destination_amount_swapped == destination_amount
                    &&& res.new_swap_source_amount == swap_source_amount + gross
                    &&& res.new_swap_destination_amount == swap_destination_amount
                        - destination_amount
                    &&& res.new_swap_source_amount * res.new_swap_destination_amount
                        >= swap_source_amount * swap_destination_amount
                }),
                None => !swap_base_output_fits(
                    destination_amount as int,
                    swap_source_amount as int,
                    swap_destination_amount as int,
                    trade_fee_rate as int,
                    protocol_fee_rate as int,
                ),
            },
    {
        let source_amount_swapped = ConstantProductCurve::swap_base_output_without_fees(
            destination_amount,
            swap_source_amount,
            swap_destination_amount,
        )?;
        let source_amount = Fees::calculate_pre_fee_amount(source_amount_swapped, trade_fee_rate)?;
        let trade_fee = Fees::trading_fee(source_amount, trade_fee_rate)?;
        let protocol_fee = Fees::protocol_fee(trade_fee, protocol_fee_rate)?;
        let new_swap_source_amount = swap_source_amount.checked_add(source_amount)?;
        let new_swap_destination_amount = swap_destination_amount.checked_sub(destination_amount)?;
        proof {
            if trade_fee_rate != 0 {
                lemma_pre_fee_amount_lower_bound(
                    source_amount_swapped as int,
                    trade_fee_rate as int,
                );
            }
            assert((swap_source_amount + source_amount) * (swap_destination_amount
                - destination_amount) >= (swap_source_amount + source_amount_swapped) * (
            swap_destination_amount - destination_amount)) by (nonlinear_arith)
                requires
                    source_amount >= source_amount_swapped,
                    swap_destination_amount >= destination_amount,
                    swap_source_amount >= 0,
                    source_amount_swapped >= 0,
            ;
        }
        Some(
            SwapResult {
                new_swap_source_amount,
                new_swap_destination_amount,
                source_amount_swapped: source_amount,
                destination_amount_swapped: destination_amount,
                trade_fee,
                protocol_fee,
            },
        )
    }

    /// The amount of trading tokens on each side for the given amount of
    /// pool tokens, given the pool-token supply and the two reserves.
    pub fn lp_tokens_to_trading_tokens(
        lp_token_amount: u128,
        lp_token_supply: u128,
        swap_token_0_amount: u128,
        swap_token_1_amount: u128,
        round_direction: RoundDirection,
    ) -> (r: Option<TradingTokenResult>)
        ensures
            match r {
                Some(res) => lp_tokens_fit(
                    lp_token_amount as int,
                    lp_token_supply as int,
                    swap_token_0_amount as int,
                    swap_token_1_amount as int,
                ) && res.token_0_amount == spec_lp_token_amount(
                    lp_token_amount as int,
                    lp_token_supply as int,
                    swap_token_0_amount as int,
                    round_direction,
                ) && res.token_1_amount == spec_lp_token_amount(
                    lp_token_amount as int,
                    lp_token_supply as int,
                    swap_token_1_amount as int,
                    round_direction,
                ),
                None => !lp_tokens_fit(
                    lp_token_amount as int,
                    lp_token_supply as int,
                    swap_token_0_amount as int,
                    swap_token_1_amount as int,
                ),
            },
    {
        ConstantProductCurve::lp_tokens_to_trading_tokens(
            lp_token_amount,
            lp_token_supply,
            swap_token_0_amount,
            swap_token_1_amount,
            round_direction,
        )
    }
}

} // verus!
