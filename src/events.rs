use vstd::prelude::*;
use crate::address::Address;

verus! {

/// Published when an agent registers.
#[derive(Clone, Debug)]
pub struct AgentCreated {
    pub agent_pda: Address,
    pub owner: Address,
    pub name: String,
    pub agent_type: u8,
    pub stake_amount: u64,
}

/// Published when an agent retires and its stake goes back to the owner.
#[derive(Clone, Copy, Debug)]
pub struct AgentDeactivated {
    pub agent_pda: Address,
    pub owner: Address,
    pub refunded_stake: u64,
}

/// Published when an agent's reputation is adjusted.
#[derive(Clone, Copy, Debug)]
pub struct AgentReputationUpdated {
    pub agent_pda: Address,
    pub old_reputation: u64,
    pub new_reputation: u64,
    pub delta: i64,
}

/// Published when an agreement is opened.
#[derive(Clone, Debug)]
pub struct EscrowInitialized {
    pub escrow: Address,
    pub agent: Address,
    pub api: Address,
    pub amount: u64,
    pub expires_at: i64,
    pub transaction_id: String,
    pub is_token: bool,
    pub token_mint: Option<Address>,
}

/// Published when the payer disputes an agreement.
#[derive(Clone, Debug)]
pub struct DisputeMarked {
    pub escrow: Address,
    pub agent: Address,
    pub transaction_id: String,
    pub timestamp: i64,
}

/// Published when an agreement is settled by quality.
#[derive(Clone, Debug)]
pub struct DisputeResolved {
    pub escrow: Address,
    pub transaction_id: String,
    pub quality_score: u8,
    pub refund_percentage: u8,
    pub refund_amount: u64,
    pub payment_amount: u64,
    pub verifier: Address,
}

/// Published when the full amount goes to the payee.
#[derive(Clone, Debug)]
pub struct FundsReleased {
    pub escrow: Address,
    pub transaction_id: String,
    pub amount: u64,
    pub api: Address,
    pub timestamp: i64,
}

/// Published when a registry is created.
#[derive(Clone, Copy, Debug)]
pub struct OracleRegistryInitialized {
    pub registry: Address,
    pub admin: Address,
    pub min_consensus: u8,
    pub max_score_deviation: u8,
}

/// Published when an oracle joins a registry.
#[derive(Clone, Copy, Debug)]
pub struct OracleAdded {
    pub registry: Address,
    pub oracle: Address,
    pub oracle_type_index: u8,
    pub weight: u16,
}

/// Published when an oracle leaves a registry.
#[derive(Clone, Copy, Debug)]
pub struct OracleRemoved {
    pub registry: Address,
    pub oracle: Address,
}

/// Published when an agreement is settled from several oracles' scores.
#[derive(Clone, Debug)]
pub struct MultiOracleDisputeResolved {
    pub escrow: Address,
    pub transaction_id: String,
    pub oracle_count: u8,
    pub individual_scores: Vec<u8>,
    pub oracles: Vec<Address>,
    pub consensus_score: u8,
    pub refund_percentage: u8,
    pub refund_amount: u64,
    pub payment_amount: u64,
}

} // verus!
