use polkadot_logic::cleanup::{AllParachainCleanup, ParaModule, ParachainCleanup};
use polkadot_logic::currency::CurrencyToVoteHandler;
use polkadot_logic::fee::{TargetedFeeAdjustment, FIXED_ACCURACY, PERQUINTILL_ACCURACY, V_INNER, V_SQUARED_HALF_INNER};

const MAX_WEIGHT: u64 = 1_000_000;
const QUARTER: u64 = PERQUINTILL_ACCURACY / 4;

#[test]
fn full_block_raises_multiplier() {
    // diff = 0.75, v * diff = 0.00003, (v * diff)^2 / 2 = 0.00000000045
    let next = TargetedFeeAdjustment::convert(0, MAX_WEIGHT, MAX_WEIGHT, QUARTER);
    assert_eq!(next, 30_000_000_000_000 + 450_000_000);
}

#[test]
fn overweight_block_counts_as_full() {
    assert_eq!(
        TargetedFeeAdjustment::convert(5, 10 * MAX_WEIGHT, MAX_WEIGHT, QUARTER),
        TargetedFeeAdjustment::convert(5, MAX_WEIGHT, MAX_WEIGHT, QUARTER)
    );
}

#[test]
fn empty_block_lowers_multiplier() {
    // diff = 0.25, v * diff = 0.00001, (v * diff)^2 / 2 = 0.00000000005
    let next = TargetedFeeAdjustment::convert(0, 0, MAX_WEIGHT, QUARTER);
    assert_eq!(next, -(10_000_000_000_000 - 50_000_000));
}

#[test]
fn block_at_target_keeps_multiplier() {
    let m = 123_456_789;
    assert_eq!(TargetedFeeAdjustment::convert(m, MAX_WEIGHT / 4, MAX_WEIGHT, QUARTER), m);
}

#[test]
fn multiplier_stops_at_minus_one() {
    assert_eq!(TargetedFeeAdjustment::convert(-FIXED_ACCURACY, 0, MAX_WEIGHT, QUARTER), -FIXED_ACCURACY);
    assert_eq!(TargetedFeeAdjustment::convert(i128::MIN, 0, MAX_WEIGHT, QUARTER), -FIXED_ACCURACY);
}

#[test]
fn multiplier_saturates_at_maximum() {
    assert_eq!(TargetedFeeAdjustment::convert(i128::MAX, MAX_WEIGHT, MAX_WEIGHT, QUARTER), i128::MAX);
}

#[test]
fn zero_maximum_weight_keeps_multiplier() {
    assert_eq!(TargetedFeeAdjustment::convert(77, 0, 0, QUARTER), 77);
}

#[test]
fn target_above_a_whole_is_a_whole() {
    // a target of more than all of the block is the whole block: a full block is at target
    assert_eq!(TargetedFeeAdjustment::convert(9, MAX_WEIGHT, MAX_WEIGHT, u64::MAX), 9);
}

#[test]
fn vote_factor_values() {
    assert_eq!(CurrencyToVoteHandler::factor(0), 1);
    assert_eq!(CurrencyToVoteHandler::factor(u64::MAX as u128), 1);
    assert_eq!(CurrencyToVoteHandler::factor(3 * u64::MAX as u128), 3);
    assert_eq!(CurrencyToVoteHandler::factor(3 * u64::MAX as u128 + 5), 3);
}

#[test]
fn votes_and_back() {
    let issuance = 3 * u64::MAX as u128;
    assert_eq!(CurrencyToVoteHandler::convert_to_vote(31, issuance), 10);
    assert_eq!(CurrencyToVoteHandler::convert_to_currency(10, issuance), 30);
    assert_eq!(CurrencyToVoteHandler::convert_to_vote(1_000, 1_000), 1_000);
    assert_eq!(CurrencyToVoteHandler::convert_to_currency(1_000, 1_000), 1_000);
}

#[test]
fn votes_truncate_to_low_bits() {
    let issuance = 2 * u64::MAX as u128 - 1;
    assert_eq!(CurrencyToVoteHandler::convert_to_vote(issuance, issuance), u64::MAX - 2);
}

#[test]
fn cleanup_order() {
    assert_eq!(
        AllParachainCleanup::schedule_para_cleanup(2000),
        vec![
            (ParaModule::Paras, 2000),
            (ParaModule::Dmp, 2000),
            (ParaModule::Ump, 2000),
            (ParaModule::Hrmp, 2000),
        ]
    );
}

#[test]
fn cleanup_tuples_keep_member_order() {
    let steps = <(AllParachainCleanup, (), AllParachainCleanup) as ParachainCleanup>::schedule_para_cleanup(7);
    assert_eq!(steps.len(), 8);
    assert_eq!(steps[0], (ParaModule::Paras, 7));
    assert_eq!(steps[3], (ParaModule::Hrmp, 7));
    assert_eq!(steps[4], (ParaModule::Paras, 7));
    assert!(<() as ParachainCleanup>::schedule_para_cleanup(7).is_empty());
}

#[test]
fn adjust_on_given_terms() {
    // congested: both terms are added
    assert_eq!(TargetedFeeAdjustment::adjust(10, true, 5, 2), 17);
    // not congested: their difference is taken off
    assert_eq!(TargetedFeeAdjustment::adjust(10, false, 5, 2), 7);
    // but never below -1
    assert_eq!(TargetedFeeAdjustment::adjust(-FIXED_ACCURACY + 1, false, 5, 2), -FIXED_ACCURACY);
    // a larger second term raises the multiplier even below target
    assert_eq!(TargetedFeeAdjustment::adjust(10, false, 2, 5), 13);
    // saturation at the bounds
    assert_eq!(TargetedFeeAdjustment::adjust(i128::MAX - 1, true, 5, 2), i128::MAX);
}

#[test]
fn one_step_is_bounded() {
    let m = 1_000;
    let up = TargetedFeeAdjustment::convert(m, MAX_WEIGHT, MAX_WEIGHT, 0);
    assert_eq!(up, m + V_INNER + V_SQUARED_HALF_INNER);
    let down = TargetedFeeAdjustment::convert(m, 0, MAX_WEIGHT, PERQUINTILL_ACCURACY);
    assert_eq!(down, m - (V_INNER - V_SQUARED_HALF_INNER));
}

#[test]
fn votes_round_trip_values() {
    let issuance = 5 * u64::MAX as u128;
    for y in [0u128, 1, 17, u64::MAX as u128] {
        let balance = CurrencyToVoteHandler::convert_to_currency(y, issuance);
        assert_eq!(CurrencyToVoteHandler::convert_to_vote(balance, issuance), y as u64);
    }
    for x in [0u128, 4, 5, 99, issuance] {
        let back = CurrencyToVoteHandler::convert_to_currency(
            CurrencyToVoteHandler::convert_to_vote(x, issuance) as u128,
            issuance,
        );
        assert!(back <= x && x - back < 5);
    }
}
