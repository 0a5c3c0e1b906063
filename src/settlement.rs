use vstd::prelude::*;
use crate::error::MitamaError;

verus! {

/// Refund percentage owed to the payer for a consensus quality score.
pub open spec fn refund_tier(quality_score: int) -> int {
    if quality_score < 50 {
        100
    } else if quality_score < 65 {
        75
    } else if quality_score < 80 {
        35
    } else {
        0
    }
}

/// Maps a quality score to the refund percentage of the tiered settlement table.
pub fn calculate_refund_from_quality(quality_score: u8) -> (r: u8)
    ensures
        r as int == refund_tier(quality_score as int),
        r <= 100,
{
    if quality_score <= 49 {
        100
    } else if quality_score <= 64 {
        75
    } else if quality_score <= 79 {
        35
    } else {
        0
    }
}

/// The refund share of an amount: rounded down.
pub open spec fn refund_share(amount: int, refund_percentage: int) -> int {
    amount * refund_percentage / 100
}

/// Splits an amount into the refund to the payer and the payment to the payee.
/// Fails with `InvalidRefundPercentage` when the percentage exceeds 100.
pub fn split_settlement(amount: u64, refund_percentage: u8) -> (r: Result<(u64, u64), MitamaError>)
    ensures
        refund_percentage <= 100 <==> r is Ok,
        refund_percentage > 100 ==> r == Err::<(u64, u64), MitamaError>(
            MitamaError::InvalidRefundPercentage,
        ),
        r matches Ok((refund, payment)) ==> refund as int == refund_share(
            amount as int,
            refund_percentage as int,
        ) && refund as int + payment as int == amount as int,
{
    if refund_percentage > 100 {
        return Err(MitamaError::InvalidRefundPercentage);
    }
    proof {
        assert((amount as int) * (refund_percentage as int) <= 0xffff_ffff_ffff_ffff * 100)
            by (nonlinear_arith)
            requires
                amount <= 0xffff_ffff_ffff_ffffu64,
                refund_percentage <= 100,
        ;
    }
    let wide: u128 = (amount as u128) * (refund_percentage as u128);
    let refund_wide: u128 = wide / 100;
    proof {
        assert(wide <= amount * 100) by (nonlinear_arith)
            requires
                wide == amount * refund_percentage,
                refund_percentage <= 100,
                amount >= 0,
        ;
    }
    let refund: u64 = refund_wide as u64;
    let payment: u64 = amount - refund;
    Ok((refund, payment))
}

/// No value is created or destroyed by a settlement: for every amount and every
/// refund percentage from 0 to 100 the refund and the payment add up to the amount,
/// and neither exceeds it.
pub proof fn lemma_settlement_conserves_value(amount: u64, refund_percentage: u8)
    requires
        refund_percentage <= 100,
    ensures
        0 <= refund_share(amount as int, refund_percentage as int) <= amount,
        refund_share(amount as int, refund_percentage as int) + (amount - refund_share(
            amount as int,
            refund_percentage as int,
        )) == amount as int,
{
    let a = amount as int;
    let p = refund_percentage as int;
    assert(0 <= a * p <= a * 100) by (nonlinear_arith)
        requires
            0 <= p <= 100,
            0 <= a,
    ;
    assert(0 <= a * p / 100 <= a) by (nonlinear_arith)
        requires
            0 <= a * p <= a * 100,
    ;
}

} // verus!
