use amm_curve::curve::calculator::{CurveCalculator, RoundDirection, TradeDirection};
use amm_curve::curve::constant_product::ConstantProductCurve;

#[test]
fn swap_base_input_complete_result() {
    // 1% trading fee, half of it to the protocol: fee 1, 99 reach the
    // curve, 196 come out, and the whole 100 stays in the source reserve.
    let result = CurveCalculator::swap_base_input(100, 10_000, 20_000, 10_000, 500_000).unwrap();
    assert_eq!(result.source_amount_swapped, 100);
    assert_eq!(result.destination_amount_swapped, 196);
    assert_eq!(result.trade_fee, 1);
    assert_eq!(result.protocol_fee, 0);
    assert_eq!(result.new_swap_source_amount, 10_100);
    assert_eq!(result.new_swap_destination_amount, 19_804);
    assert!(
        result.new_swap_source_amount * result.new_swap_destination_amount
            >= 10_000u128 * 20_000u128
    );
}

#[test]
fn swap_base_input_fee_free() {
    let result = CurveCalculator::swap_base_input(10, 4_000_000, 70_000_000_000, 0, 0).unwrap();
    assert_eq!(result.destination_amount_swapped, 174_999);
    assert_eq!(result.trade_fee, 0);
    assert_eq!(result.protocol_fee, 0);
    assert_eq!(result.new_swap_source_amount, 4_000_010);
    assert_eq!(result.new_swap_destination_amount, 69_999_825_001);
}

#[test]
fn swap_base_input_fee_exceeding_amount_fails() {
    // A rate above the denominator makes the fee larger than the amount.
    let result = CurveCalculator::swap_base_input(10, 100, 100, 2_000_000, 0);
    assert!(result.is_none());
}

#[test]
fn swap_base_input_overflow_fails() {
    let result = CurveCalculator::swap_base_input(u128::MAX, 1, 1, 0, 0);
    assert!(result.is_none());
}

#[test]
fn swap_base_output_complete_result() {
    // The mirror image of the exact-input swap: asking for the 196 that
    // swap yields reconstructs the same gross 100 and the same fee.
    let result = CurveCalculator::swap_base_output(196, 10_000, 20_000, 10_000, 500_000).unwrap();
    assert_eq!(result.source_amount_swapped, 100);
    assert_eq!(result.destination_amount_swapped, 196);
    assert_eq!(result.trade_fee, 1);
    assert_eq!(result.protocol_fee, 0);
    assert_eq!(result.new_swap_source_amount, 10_100);
    assert_eq!(result.new_swap_destination_amount, 19_804);
    assert!(
        result.new_swap_source_amount * result.new_swap_destination_amount
            >= 10_000u128 * 20_000u128
    );
}

#[test]
fn swap_base_output_draining_pool_fails() {
    let result = CurveCalculator::swap_base_output(100, 100, 100, 0, 0);
    assert!(result.is_none());
}

#[test]
fn lp_tokens_to_trading_tokens_floor() {
    // Half the supply of reserves (2, 49): floored to (1, 24).
    let result =
        CurveCalculator::lp_tokens_to_trading_tokens(5, 10, 2, 49, RoundDirection::Floor).unwrap();
    assert_eq!(result.token_0_amount, 1);
    assert_eq!(result.token_1_amount, 24);
}

#[test]
fn curve_value_does_not_decrease_in_either_direction() {
    // The caller picks which physical side is the source; in both
    // directions the fee-free swap leaves the product of the reserves at
    // least where it was.
    let swap_token_0_amount: u128 = 1_000_000;
    let swap_token_1_amount: u128 = 5_000_000;
    let source_token_amount: u128 = 377;
    for trade_direction in [TradeDirection::ZeroForOne, TradeDirection::OneForZero] {
        let (swap_source_amount, swap_destination_amount) = match trade_direction {
            TradeDirection::ZeroForOne => (swap_token_0_amount, swap_token_1_amount),
            TradeDirection::OneForZero => (swap_token_1_amount, swap_token_0_amount),
        };
        let destination_amount_swapped = ConstantProductCurve::swap_base_input_without_fees(
            source_token_amount,
            swap_source_amount,
            swap_destination_amount,
        )
        .unwrap();
        let previous_value = swap_source_amount * swap_destination_amount;
        let new_value = (swap_source_amount + source_token_amount)
            * (swap_destination_amount - destination_amount_swapped);
        assert!(new_value >= previous_value);
    }
}

#[test]
fn lp_tokens_to_trading_tokens_ceiling() {
    let result = CurveCalculator::lp_tokens_to_trading_tokens(5, 10, 2, 49, RoundDirection::Ceiling)
        .unwrap();
    assert_eq!(result.token_0_amount, 1);
    assert_eq!(result.token_1_amount, 25);
}
