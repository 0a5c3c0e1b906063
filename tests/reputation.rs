use mitama::address::Address;
use mitama::reputation::{
    calculate_dispute_cost, calculate_reputation_score, get_rate_limits, init_reputation,
    record_dispute_filed, update_agent_reputation, update_api_reputation, EntityReputation,
    EntityType, VerificationLevel, BASE_DISPUTE_COST,
};

fn ledger(total: u64, filed: u64) -> EntityReputation {
    let mut r = init_reputation(Address::new([7; 32]), EntityType::Agent, 100);
    r.total_transactions = total;
    r.disputes_filed = filed;
    r
}

#[test]
fn dispute_cost_at_twenty_percent_is_the_base() {
    assert_eq!(calculate_dispute_cost(&ledger(10, 2)), BASE_DISPUTE_COST);
}

#[test]
fn dispute_cost_at_fifty_percent_is_five_times_the_base() {
    assert_eq!(calculate_dispute_cost(&ledger(10, 5)), 5 * BASE_DISPUTE_COST);
}

#[test]
fn dispute_cost_tiers() {
    assert_eq!(calculate_dispute_cost(&ledger(0, 0)), BASE_DISPUTE_COST);
    assert_eq!(calculate_dispute_cost(&ledger(0, 9)), BASE_DISPUTE_COST);
    assert_eq!(calculate_dispute_cost(&ledger(100, 21)), 2 * BASE_DISPUTE_COST);
    assert_eq!(calculate_dispute_cost(&ledger(100, 40)), 2 * BASE_DISPUTE_COST);
    assert_eq!(calculate_dispute_cost(&ledger(100, 60)), 5 * BASE_DISPUTE_COST);
    assert_eq!(calculate_dispute_cost(&ledger(100, 61)), 10 * BASE_DISPUTE_COST);
    assert_eq!(calculate_dispute_cost(&ledger(1, u64::MAX)), 10 * BASE_DISPUTE_COST);
}

#[test]
fn new_ledger_is_neutral() {
    let r = init_reputation(Address::new([1; 32]), EntityType::Provider, 42);
    assert_eq!(r.reputation_score, 500);
    assert_eq!(r.total_transactions, 0);
    assert_eq!(r.average_quality_received, 0);
    assert_eq!(r.created_at, 42);
    assert_eq!(r.last_updated, 42);
    assert_eq!(r.entity_type, EntityType::Provider);
    assert_eq!(calculate_reputation_score(&r), 500);
}

#[test]
fn composite_score_formula() {
    let mut r = ledger(10, 4);
    r.disputes_won = 2;
    r.average_quality_received = 80;
    // 10*5 + min(50*3, 300) + min(160, 200)
    assert_eq!(calculate_reputation_score(&r), 50 + 150 + 160);
    let mut r = ledger(10, 0);
    r.average_quality_received = 100;
    assert_eq!(calculate_reputation_score(&r), 50 + 150 + 200);
    let mut r = ledger(500, 1);
    r.disputes_won = 1;
    r.average_quality_received = 100;
    assert_eq!(calculate_reputation_score(&r), 1000);
}

#[test]
fn reputation_score_stays_in_range_over_many_counters() {
    let mut seed: u64 = 0x9e37_79b9_7f4a_7c15;
    let picks: [u64; 8] = [0, 1, 2, 99, 100, 101, u64::MAX - 1, u64::MAX];
    for _ in 0..5000 {
        seed ^= seed << 13;
        seed ^= seed >> 7;
        seed ^= seed << 17;
        let mut r = ledger(picks[(seed % 8) as usize], picks[((seed >> 3) % 8) as usize]);
        r.disputes_won = if seed & 1 == 0 { seed } else { picks[((seed >> 6) % 8) as usize] };
        r.average_quality_received = (seed >> 9) as u8;
        let score = calculate_reputation_score(&r);
        assert!(score <= 1000);
    }
}

#[test]
fn requester_buckets_by_refund() {
    let mut r = ledger(0, 0);
    update_agent_reputation(&mut r, 40, 100, 5);
    assert_eq!((r.disputes_won, r.disputes_partial, r.disputes_lost), (1, 0, 0));
    update_agent_reputation(&mut r, 60, 75, 6);
    assert_eq!((r.disputes_won, r.disputes_partial, r.disputes_lost), (2, 0, 0));
    update_agent_reputation(&mut r, 70, 35, 7);
    assert_eq!((r.disputes_won, r.disputes_partial, r.disputes_lost), (2, 1, 0));
    update_agent_reputation(&mut r, 70, 25, 7);
    assert_eq!((r.disputes_won, r.disputes_partial, r.disputes_lost), (2, 2, 0));
    update_agent_reputation(&mut r, 95, 0, 8);
    assert_eq!((r.disputes_won, r.disputes_partial, r.disputes_lost), (2, 2, 1));
    assert_eq!(r.total_transactions, 5);
    assert_eq!(r.last_updated, 8);
}

#[test]
fn requester_running_mean_and_score() {
    let mut r = ledger(0, 0);
    update_agent_reputation(&mut r, 90, 0, 1);
    assert_eq!(r.average_quality_received, 90);
    update_agent_reputation(&mut r, 61, 75, 2);
    // (90*1 + 61) / 2
    assert_eq!(r.average_quality_received, 75);
    // 2*5 + 150 + 150
    assert_eq!(r.reputation_score, 310);
}

#[test]
fn provider_folds_delivered_quality_with_inverted_buckets() {
    let mut r = ledger(0, 0);
    update_api_reputation(&mut r, 0, 3);
    assert_eq!(r.average_quality_received, 100);
    assert_eq!((r.disputes_won, r.disputes_partial, r.disputes_lost), (1, 0, 0));
    update_api_reputation(&mut r, 25, 3);
    assert_eq!((r.disputes_won, r.disputes_partial, r.disputes_lost), (2, 0, 0));
    update_api_reputation(&mut r, 26, 3);
    assert_eq!((r.disputes_won, r.disputes_partial, r.disputes_lost), (2, 1, 0));
    update_api_reputation(&mut r, 75, 3);
    assert_eq!((r.disputes_won, r.disputes_partial, r.disputes_lost), (2, 2, 0));
    update_api_reputation(&mut r, 100, 3);
    assert_eq!((r.disputes_won, r.disputes_partial, r.disputes_lost), (2, 2, 1));
    // running means 100, 87, 82, 67, 53, each rounded down
    assert_eq!(r.total_transactions, 5);
    assert_eq!(r.average_quality_received, 53);
}

#[test]
fn counters_saturate() {
    let mut r = ledger(u64::MAX, u64::MAX);
    r.disputes_won = u64::MAX;
    r.average_quality_received = 100;
    update_agent_reputation(&mut r, 100, 100, 9);
    assert_eq!(r.total_transactions, u64::MAX);
    assert_eq!(r.disputes_won, u64::MAX);
    assert_eq!(r.average_quality_received, 100);
    record_dispute_filed(&mut r);
    assert_eq!(r.disputes_filed, u64::MAX);
}

#[test]
fn rate_limits_by_tier() {
    assert_eq!(get_rate_limits(VerificationLevel::Basic), (1, 10, 3));
    assert_eq!(get_rate_limits(VerificationLevel::Staked), (10, 100, 10));
    assert_eq!(get_rate_limits(VerificationLevel::Social), (50, 500, 50));
    assert_eq!(get_rate_limits(VerificationLevel::KYC), (1000, 10000, 1000));
}
