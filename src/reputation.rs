use vstd::prelude::*;
use crate::address::Address;

verus! {

/// Fee unit for opening a dispute, in the smallest denomination.
pub const BASE_DISPUTE_COST: u64 = 1_000_000;

/// Score of an entity that has no resolved agreement yet.
pub const INITIAL_REPUTATION_SCORE: u16 = 500;

/// The role an entity plays in agreements.
#[derive(Clone, Copy, Debug, PartialEq, Eq, Structural)]
pub enum EntityType {
    Agent,
    Provider,
}

/// Coarse verification tier of a participant.
#[derive(Clone, Copy, Debug, PartialEq, Eq, Structural)]
pub enum VerificationLevel {
    Basic,
    Staked,
    Social,
    KYC,
}

/// Rolling trust metrics of one entity.
#[derive(Clone, Copy, Debug)]
pub struct EntityReputation {
    pub entity: Address,
    pub entity_type: EntityType,
    pub total_transactions: u64,
    pub disputes_filed: u64,
    pub disputes_won: u64,
    pub disputes_partial: u64,
    pub disputes_lost: u64,
    pub average_quality_received: u8,
    pub reputation_score: u16,
    pub created_at: i64,
    pub last_updated: i64,
}

impl EntityReputation {
    /// The running mean stays a percentage and the composite stays in range.
    pub open spec fn wf(&self) -> bool {
        self.average_quality_received <= 100 && self.reputation_score <= 1000
    }
}

pub open spec fn min_int(a: int, b: int) -> int {
    if a < b {
        a
    } else {
        b
    }
}

pub open spec fn saturating_inc(n: u64) -> u64 {
    if n == u64::MAX {
        n
    } else {
        (n + 1) as u64
    }
}

/// Share of transactions, in whole percent, for which the entity filed a dispute.
pub open spec fn dispute_rate(total_transactions: int, disputes_filed: int) -> int {
    if total_transactions == 0 {
        0
    } else {
        disputes_filed * 100 / total_transactions
    }
}

pub open spec fn dispute_multiplier(rate: int) -> int {
    if rate <= 20 {
        1
    } else if rate <= 40 {
        2
    } else if rate <= 60 {
        5
    } else {
        10
    }
}

/// Fee owed to open a dispute, scaled by the filer's history.
pub open spec fn dispute_cost(total_transactions: int, disputes_filed: int) -> int {
    BASE_DISPUTE_COST * dispute_multiplier(dispute_rate(total_transactions, disputes_filed))
}

/// Composite trust score: activity, dispute record and delivered quality.
pub open spec fn composite_score(
    total_transactions: int,
    disputes_filed: int,
    disputes_won: int,
    average_quality: int,
) -> int {
    if total_transactions == 0 {
        INITIAL_REPUTATION_SCORE as int
    } else {
        let activity = min_int(total_transactions, 100) * 5;
        let disputes = if disputes_filed > 0 {
            min_int(disputes_won * 100 / disputes_filed * 3, 300)
        } else {
            150
        };
        let quality = min_int(average_quality * 2, 200);
        min_int(activity + disputes + quality, 1000)
    }
}

/// Running mean over `count` values, of which the first `count - 1` averaged `mean`.
pub open spec fn running_mean(mean: int, count: int, value: int) -> int {
    (mean * (count - 1) + value) / count
}

/// `f` is ledger `o` after one resolution in which its owner was the requesting party.
pub open spec fn requester_updated(
    o: EntityReputation,
    f: EntityReputation,
    quality_score: u8,
    refund_percentage: u8,
    now: i64,
) -> bool {
    let n = saturating_inc(o.total_transactions);
    &&& f.entity == o.entity
    &&& f.entity_type == o.entity_type
    &&& f.created_at == o.created_at
    &&& f.disputes_filed == o.disputes_filed
    &&& f.total_transactions == n
    &&& f.average_quality_received as int == running_mean(
        o.average_quality_received as int,
        n as int,
        quality_score as int,
    )
    &&& f.disputes_won == if refund_percentage >= 75 {
        saturating_inc(o.disputes_won)
    } else {
        o.disputes_won
    }
    &&& f.disputes_partial == if 25 <= refund_percentage < 75 {
        saturating_inc(o.disputes_partial)
    } else {
        o.disputes_partial
    }
    &&& f.disputes_lost == if refund_percentage < 25 {
        saturating_inc(o.disputes_lost)
    } else {
        o.disputes_lost
    }
    &&& f.reputation_score as int == composite_score(
        f.total_transactions as int,
        f.disputes_filed as int,
        f.disputes_won as int,
        f.average_quality_received as int,
    )
    &&& f.last_updated == now
}

/// `f` is ledger `o` after one resolution in which its owner was the serving party.
pub open spec fn provider_updated(
    o: EntityReputation,
    f: EntityReputation,
    refund_percentage: u8,
    now: i64,
) -> bool {
    let n = saturating_inc(o.total_transactions);
    let delivered = if refund_percentage <= 100 {
        100 - refund_percentage
    } else {
        0
    };
    &&& f.entity == o.entity
    &&& f.entity_type == o.entity_type
    &&& f.created_at == o.created_at
    &&& f.disputes_filed == o.disputes_filed
    &&& f.total_transactions == n
    &&& f.average_quality_received as int == running_mean(
        o.average_quality_received as int,
        n as int,
        delivered,
    )
    &&& f.disputes_won == if refund_percentage <= 25 {
        saturating_inc(o.disputes_won)
    } else {
        o.disputes_won
    }
    &&& f.disputes_partial == if 25 < refund_percentage <= 75 {
        saturating_inc(o.disputes_partial)
    } else {
        o.disputes_partial
    }
    &&& f.disputes_lost == if refund_percentage > 75 {
        saturating_inc(o.disputes_lost)
    } else {
        o.disputes_lost
    }
    &&& f.reputation_score as int == composite_score(
        f.total_transactions as int,
        f.disputes_filed as int,
        f.disputes_won as int,
        f.average_quality_received as int,
    )
    &&& f.last_updated == now
}

/// Returns the dispute fee of an entity: the base cost times 1, 2, 5 or 10 as its
/// dispute rate is at most 20, 40, 60 or above 60 percent.
pub fn calculate_dispute_cost(reputation: &EntityReputation) -> (r: u64)
    ensures
        r as int == dispute_cost(
            reputation.total_transactions as int,
            reputation.disputes_filed as int,
        ),
{
    if reputation.total_transactions == 0 {
        return BASE_DISPUTE_COST;
    }
    let rate: u128 = (reputation.disputes_filed as u128) * 100 / (reputation.total_transactions as u128);
    let multiplier: u64 = if rate <= 20 {
        1
    } else if rate <= 40 {
        2
    } else if rate <= 60 {
        5
    } else {
        10
    };
    BASE_DISPUTE_COST * multiplier
}

/// Returns the composite score of an entity, which always lies in `[0, 1000]`.
pub fn calculate_reputation_score(reputation: &EntityReputation) -> (r: u16)
    ensures
        r as int == composite_score(
            reputation.total_transactions as int,
            reputation.disputes_filed as int,
            reputation.disputes_won as int,
            reputation.average_quality_received as int,
        ),
        r <= 1000,
{
    if reputation.total_transactions == 0 {
        return INITIAL_REPUTATION_SCORE;
    }
    let activity: u16 = if reputation.total_transactions < 100 {
        reputation.total_transactions as u16 * 5
    } else {
        500
    };
    let disputes: u16 = if reputation.disputes_filed > 0 {
        let win_rate: u128 = (reputation.disputes_won as u128) * 100
            / (reputation.disputes_filed as u128);
        proof {
            let w = reputation.disputes_won as int;
            let d = reputation.disputes_filed as int;
            assert(w * 100 / d <= w * 100) by (nonlinear_arith)
                requires
                    d >= 1,
                    w >= 0,
            ;
        }
        if win_rate * 3 < 300 {
            (win_rate * 3) as u16
        } else {
            300
        }
    } else {
        150
    };
    let quality: u16 = if (reputation.average_quality_received as u16) * 2 < 200 {
        (reputation.average_quality_received as u16) * 2
    } else {
        200
    };
    let sum: u16 = activity + disputes + quality;
    if sum < 1000 {
        sum
    } else {
        1000
    }
}

/// The running mean after one more value, computed without overflow.
fn fold_quality(mean: u8, count: u64, value: u8) -> (r: u8)
    requires
        count >= 1,
    ensures
        r as int == running_mean(mean as int, count as int, value as int),
        mean <= 100 && value <= 100 ==> r <= 100,
{
    proof {
        assert((mean as int) * ((count - 1) as int) <= 255 * 0xffff_ffff_ffff_ffff)
            by (nonlinear_arith)
            requires
                0 <= mean <= 255,
                0 <= count - 1 <= 0xffff_ffff_ffff_ffff,
        ;
    }
    let total: u128 = (mean as u128) * ((count - 1) as u128) + (value as u128);
    let avg: u128 = total / (count as u128);
    proof {
        let m = mean as int;
        let c = count as int;
        let v = value as int;
        assert(m * (c - 1) + v <= 255 * c) by (nonlinear_arith)
            requires
                0 <= m <= 255,
                0 <= v <= 255,
                c >= 1,
        ;
        assert((m * (c - 1) + v) / c <= 255) by (nonlinear_arith)
            requires
                0 <= m * (c - 1) + v <= 255 * c,
                c >= 1,
        ;
        if m <= 100 && v <= 100 {
            assert(m * (c - 1) + v <= 100 * c) by (nonlinear_arith)
                requires
                    0 <= m <= 100,
                    0 <= v <= 100,
                    c >= 1,
            ;
            assert((m * (c - 1) + v) / c <= 100) by (nonlinear_arith)
                requires
                    0 <= m * (c - 1) + v <= 100 * c,
                    c >= 1,
            ;
        }
    }
    avg as u8
}

/// A new ledger entry for an entity, at the neutral score.
pub fn init_reputation(entity: Address, entity_type: EntityType, now: i64) -> (r: EntityReputation)
    ensures
        r.entity == entity,
        r.entity_type == entity_type,
        r.total_transactions == 0,
        r.disputes_filed == 0,
        r.disputes_won == 0,
        r.disputes_partial == 0,
        r.disputes_lost == 0,
        r.average_quality_received == 0,
        r.reputation_score == INITIAL_REPUTATION_SCORE,
        r.created_at == now,
        r.last_updated == now,
        r.wf(),
{
    EntityReputation {
        entity,
        entity_type,
        total_transactions: 0,
        disputes_filed: 0,
        disputes_won: 0,
        disputes_partial: 0,
        disputes_lost: 0,
        average_quality_received: 0,
        reputation_score: INITIAL_REPUTATION_SCORE,
        created_at: now,
        last_updated: now,
    }
}

/// Records one filed dispute.
pub fn record_dispute_filed(reputation: &mut EntityReputation)
    ensures
        *final(reputation) == (EntityReputation {
            disputes_filed: saturating_inc(old(reputation).disputes_filed),
            ..*old(reputation)
        }),
{
    reputation.disputes_filed = reputation.disputes_filed.saturating_add(1);
}

/// Folds one resolution into the ledger of the requesting party: the quality score
/// joins the running mean, and the refund percentage decides the outcome (at least 75
/// won, at least 25 partial, else lost). The composite score is then recomputed.
pub fn update_agent_reputation(
    reputation: &mut EntityReputation,
    quality_score: u8,
    refund_percentage: u8,
    now: i64,
)
    ensures
        requester_updated(*old(reputation), *final(reputation), quality_score, refund_percentage, now),
        old(reputation).wf() && quality_score <= 100 ==> final(reputation).wf(),
{
    reputation.total_transactions = reputation.total_transactions.saturating_add(1);
    reputation.average_quality_received = fold_quality(
        reputation.average_quality_received,
        reputation.total_transactions,
        quality_score,
    );
    if refund_percentage >= 75 {
        reputation.disputes_won = reputation.disputes_won.saturating_add(1);
    } else if refund_percentage >= 25 {
        reputation.disputes_partial = reputation.disputes_partial.saturating_add(1);
    } else {
        reputation.disputes_lost = reputation.disputes_lost.saturating_add(1);
    }
    reputation.reputation_score = calculate_reputation_score(reputation);
    reputation.last_updated = now;
}

/// Folds one resolution into the ledger of the serving party: the delivered quality
/// (100 minus the refund percentage) joins the running mean, and the outcome thresholds
/// are inverted (at most 25 won, at most 75 partial, else lost). The composite score is
/// then recomputed.
pub fn update_api_reputation(reputation: &mut EntityReputation, refund_percentage: u8, now: i64)
    ensures
        provider_updated(*old(reputation), *final(reputation), refund_percentage, now),
        old(reputation).wf() ==> final(reputation).wf(),
{
    reputation.total_transactions = reputation.total_transactions.saturating_add(1);
    let quality_delivered: u8 = 100u8.saturating_sub(refund_percentage);
    reputation.average_quality_received = fold_quality(
        reputation.average_quality_received,
        reputation.total_transactions,
        quality_delivered,
    );
    if refund_percentage <= 25 {
        reputation.disputes_won = reputation.disputes_won.saturating_add(1);
    } else if refund_percentage <= 75 {
        reputation.disputes_partial = reputation.disputes_partial.saturating_add(1);
    } else {
        reputation.disputes_lost = reputation.disputes_lost.saturating_add(1);
    }
    reputation.reputation_score = calculate_reputation_score(reputation);
    reputation.last_updated = now;
}

/// Per-tier rate limits: (per minute, per hour, concurrent).
pub fn get_rate_limits(verification: VerificationLevel) -> (r: (u16, u16, u16))
    ensures
        r == (match verification {
            VerificationLevel::Basic => (1u16, 10u16, 3u16),
            VerificationLevel::Staked => (10u16, 100u16, 10u16),
            VerificationLevel::Social => (50u16, 500u16, 50u16),
            VerificationLevel::KYC => (1000u16, 10000u16, 1000u16),
        }),
{
    match verification {
        VerificationLevel::Basic => (1, 10, 3),
        VerificationLevel::Staked => (10, 100, 10),
        VerificationLevel::Social => (50, 500, 50),
        VerificationLevel::KYC => (1000, 10000, 1000),
    }
}

/// The composite score lies in `[0, 1000]` for every combination of counters.
pub proof fn lemma_reputation_score_in_range(
    total_transactions: u64,
    disputes_filed: u64,
    disputes_won: u64,
    average_quality: u8,
)
    ensures
        0 <= composite_score(
            total_transactions as int,
            disputes_filed as int,
            disputes_won as int,
            average_quality as int,
        ) <= 1000,
{
    if total_transactions > 0 && disputes_filed > 0 {
        let w = disputes_won as int;
        let d = disputes_filed as int;
        assert(w * 100 / d >= 0) by (nonlinear_arith)
            requires
                w >= 0,
                d >= 1,
        ;
    }
}

/// A resolution never lowers a counter: the transaction count and the three outcome
/// counters of either party only grow (or stay at their maximum), the filed-dispute
/// count is untouched, and together the outcome counters grow by at most one.
pub proof fn lemma_ledger_counters_never_decrease(
    o: EntityReputation,
    requester: EntityReputation,
    provider: EntityReputation,
    quality_score: u8,
    refund_percentage: u8,
    now: i64,
)
    requires
        requester_updated(o, requester, quality_score, refund_percentage, now),
        provider_updated(o, provider, refund_percentage, now),
    ensures
        requester.total_transactions >= o.total_transactions,
        requester.disputes_filed == o.disputes_filed,
        requester.disputes_won >= o.disputes_won,
        requester.disputes_partial >= o.disputes_partial,
        requester.disputes_lost >= o.disputes_lost,
        requester.disputes_won + requester.disputes_partial + requester.disputes_lost <= o.disputes_won
            + o.disputes_partial + o.disputes_lost + 1,
        provider.total_transactions >= o.total_transactions,
        provider.disputes_filed == o.disputes_filed,
        provider.disputes_won >= o.disputes_won,
        provider.disputes_partial >= o.disputes_partial,
        provider.disputes_lost >= o.disputes_lost,
        provider.disputes_won + provider.disputes_partial + provider.disputes_lost <= o.disputes_won
            + o.disputes_partial + o.disputes_lost + 1,
{
}

} // verus!
