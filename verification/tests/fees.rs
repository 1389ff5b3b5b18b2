use amm_curve::curve::fees::{floor_div, Fees, FEE_RATE_DENOMINATOR_VALUE};

#[test]
fn trading_fee_rounds_up() {
    // 1% of 1,000,000 is exactly 10,000.
    assert_eq!(Fees::trading_fee(1_000_000, 10_000), Some(10_000));
    // 1% of 3 is 0.03, charged as 1.
    assert_eq!(Fees::trading_fee(3, 10_000), Some(1));
    // No amount, no fee: the ceiling must not round 0 up.
    assert_eq!(Fees::trading_fee(0, 10_000), Some(0));
    // No rate, no fee.
    assert_eq!(Fees::trading_fee(1_000_000, 0), Some(0));
}

#[test]
fn trading_fee_overflow_fails() {
    assert_eq!(Fees::trading_fee(u128::MAX, 2), None);
}

#[test]
fn trading_fee_monotonic_in_amount_and_rate() {
    let small = Fees::trading_fee(100, 10_000).unwrap();
    let larger_amount = Fees::trading_fee(200, 10_000).unwrap();
    let larger_rate = Fees::trading_fee(200, 20_000).unwrap();
    assert!(small <= larger_amount);
    assert!(larger_amount <= larger_rate);
}

#[test]
fn protocol_fee_rounds_down() {
    // 1% of 3 is 0.03, floored to 0.
    assert_eq!(Fees::protocol_fee(3, 10_000), Some(0));
    // 25% of 1,000 is exactly 250.
    assert_eq!(Fees::protocol_fee(1_000, 250_000), Some(250));
}

#[test]
fn protocol_fee_never_exceeds_trading_fee() {
    // Even at the full rate the carved-out portion is the whole fee, not
    // more.
    assert_eq!(Fees::protocol_fee(77, FEE_RATE_DENOMINATOR_VALUE), Some(77));
    let fee: u128 = 12_345;
    let carved = Fees::protocol_fee(fee, 999_999).unwrap();
    assert!(carved <= fee);
}

#[test]
fn floor_div_truncates() {
    // 7 * 3 / 2 = 10.5, floored to 10.
    assert_eq!(floor_div(7, 3, 2), Some(10));
    assert_eq!(floor_div(1, 1, 0), None);
    assert_eq!(floor_div(u128::MAX, 2, 10), None);
}

#[test]
fn pre_fee_amount_inverts_trading_fee() {
    // 0.25% rate: 9,975 post-fee needs exactly 10,000 gross.
    assert_eq!(Fees::calculate_pre_fee_amount(9_975, 2_500), Some(10_000));
    let fee = Fees::trading_fee(10_000, 2_500).unwrap();
    assert_eq!(10_000 - fee, 9_975);
    // A zero rate leaves the amount unchanged.
    assert_eq!(Fees::calculate_pre_fee_amount(9_975, 0), Some(9_975));
}

#[test]
fn pre_fee_amount_round_trip_with_remainder() {
    // 0.3% rate: the reconstruction rounds up, and deducting the fee from
    // it still lands exactly on the post-fee amount.
    let pre = Fees::calculate_pre_fee_amount(999, 3_000).unwrap();
    assert_eq!(pre, 1_003);
    let fee = Fees::trading_fee(pre, 3_000).unwrap();
    assert_eq!(pre - fee, 999);
}

#[test]
fn pre_fee_amount_full_rate_fails() {
    assert_eq!(Fees::calculate_pre_fee_amount(1, FEE_RATE_DENOMINATOR_VALUE), None);
    assert_eq!(Fees::calculate_pre_fee_amount(1, 2_000_000), None);
}

#[test]
fn pre_fee_amount_overflow_fails() {
    assert_eq!(Fees::calculate_pre_fee_amount(u128::MAX, 2_500), None);
}
