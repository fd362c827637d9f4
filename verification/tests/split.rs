use fee_split::split::{compute_split, SplitResult, FEE_DENOMINATOR, FEE_NUMERATOR};

#[test]
fn fee_rate_is_two_hundredths() {
    assert_eq!(FEE_NUMERATOR, 2);
    assert_eq!(FEE_DENOMINATOR, 100);
}

#[test]
fn one_hundred_splits_into_two_and_ninety_eight() {
    assert_eq!(compute_split(100), Some(SplitResult { fee_amount: 2, net_amount: 98 }));
}

#[test]
fn zero_splits_into_zero_and_zero() {
    assert_eq!(compute_split(0), Some(SplitResult { fee_amount: 0, net_amount: 0 }));
}

#[test]
fn ninety_nine_rounds_the_fee_down_and_leaves_the_rest_in_the_net_amount() {
    assert_eq!(compute_split(99), Some(SplitResult { fee_amount: 1, net_amount: 98 }));
}

#[test]
fn amounts_below_fifty_pay_no_fee() {
    assert_eq!(compute_split(1), Some(SplitResult { fee_amount: 0, net_amount: 1 }));
    assert_eq!(compute_split(49), Some(SplitResult { fee_amount: 0, net_amount: 49 }));
    assert_eq!(compute_split(50), Some(SplitResult { fee_amount: 1, net_amount: 49 }));
}

#[test]
fn fee_steps_up_at_every_fiftieth_unit() {
    assert_eq!(compute_split(149), Some(SplitResult { fee_amount: 2, net_amount: 147 }));
    assert_eq!(compute_split(150), Some(SplitResult { fee_amount: 3, net_amount: 147 }));
    assert_eq!(compute_split(1_000_000), Some(SplitResult { fee_amount: 20_000, net_amount: 980_000 }));
    assert_eq!(compute_split(12_345), Some(SplitResult { fee_amount: 246, net_amount: 12_099 }));
}

#[test]
fn largest_amount_overflows() {
    assert_eq!(compute_split(u64::MAX), None);
    assert_eq!(compute_split(u64::MAX - 1), None);
}

#[test]
fn overflow_starts_at_two_to_the_sixty_third() {
    assert_eq!(compute_split(1u64 << 63), None);
    assert_eq!(
        compute_split((1u64 << 63) - 1),
        Some(SplitResult {
            fee_amount: 184_467_440_737_095_516,
            net_amount: 9_038_904_596_117_680_291,
        })
    );
}

#[test]
fn fee_and_net_amount_add_up_to_the_amount() {
    let mut amounts: Vec<u64> = (0..=1_000).collect();
    amounts.extend([4_999, 5_000, 5_001, u32::MAX as u64, 1 << 40, (1 << 62) + 17, (1 << 63) - 1]);
    for amount in amounts {
        let split = compute_split(amount).unwrap();
        assert_eq!(split.fee_amount as u128 + split.net_amount as u128, amount as u128);
    }
}

#[test]
fn fee_is_the_floor_of_two_hundredths() {
    let mut amounts: Vec<u64> = (0..=1_000).collect();
    amounts.extend([4_999, 5_000, 5_001, u32::MAX as u64, 1 << 40, (1 << 62) + 17, (1 << 63) - 1]);
    for amount in amounts {
        let split = compute_split(amount).unwrap();
        assert_eq!(split.fee_amount as u128, amount as u128 * 2 / 100);
        assert_eq!(split.net_amount, amount - split.fee_amount);
        assert!(split.fee_amount <= amount);
    }
}
