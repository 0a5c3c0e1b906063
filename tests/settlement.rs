use mitama::error::MitamaError;
use mitama::settlement::{calculate_refund_from_quality, split_settlement};

#[test]
fn settlement_table_examples() {
    assert_eq!(calculate_refund_from_quality(40), 100);
    assert_eq!(calculate_refund_from_quality(60), 75);
    assert_eq!(calculate_refund_from_quality(70), 35);
    assert_eq!(calculate_refund_from_quality(95), 0);
}

#[test]
fn settlement_table_boundaries() {
    assert_eq!(calculate_refund_from_quality(0), 100);
    assert_eq!(calculate_refund_from_quality(49), 100);
    assert_eq!(calculate_refund_from_quality(50), 75);
    assert_eq!(calculate_refund_from_quality(64), 75);
    assert_eq!(calculate_refund_from_quality(65), 35);
    assert_eq!(calculate_refund_from_quality(79), 35);
    assert_eq!(calculate_refund_from_quality(80), 0);
    assert_eq!(calculate_refund_from_quality(100), 0);
}

#[test]
fn split_rounds_the_refund_down() {
    assert_eq!(split_settlement(1000, 35), Ok((350, 650)));
    assert_eq!(split_settlement(999, 33), Ok((329, 670)));
    assert_eq!(split_settlement(1, 99), Ok((0, 1)));
}

#[test]
fn split_at_the_extremes() {
    assert_eq!(split_settlement(u64::MAX, 100), Ok((u64::MAX, 0)));
    assert_eq!(split_settlement(u64::MAX, 0), Ok((0, u64::MAX)));
    assert_eq!(split_settlement(u64::MAX, 50), Ok((u64::MAX / 2, u64::MAX - u64::MAX / 2)));
}

#[test]
fn split_rejects_percentages_over_one_hundred() {
    assert_eq!(split_settlement(1000, 101), Err(MitamaError::InvalidRefundPercentage));
}

#[test]
fn split_conserves_value() {
    let amounts: [u64; 6] = [1, 7, 99, 1_000_001, 123_456_789_012, u64::MAX];
    for amount in amounts {
        for pct in 0u8..=100 {
            let (refund, payment) = split_settlement(amount, pct).unwrap();
            assert_eq!(refund as u128 + payment as u128, amount as u128);
            assert_eq!(refund as u128, amount as u128 * pct as u128 / 100);
        }
    }
}
