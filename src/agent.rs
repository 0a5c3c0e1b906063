use vstd::prelude::*;
use vstd::utf8::encode_utf8;
use crate::address::Address;
use crate::error::MitamaError;
use crate::events::{AgentCreated, AgentDeactivated, AgentReputationUpdated};

verus! {

/// Smallest stake an agent may lock, in the smallest denomination.
pub const MIN_STAKE_AMOUNT: u64 = 100_000_000;

/// Longest agent name, in bytes.
pub const MAX_AGENT_NAME_LENGTH: usize = 32;

/// Reputation of a newly registered agent.
pub const INITIAL_AGENT_REPUTATION: u64 = 500;

/// Highest agent reputation.
pub const MAX_AGENT_REPUTATION: u64 = 1000;

/// Category of an agent.
#[derive(Clone, Copy, Debug, PartialEq, Eq, Structural)]
pub enum AgentType {
    Trading,
    Service,
    Oracle,
    Custom,
}

/// A staked, named participant.
#[derive(Clone, Debug)]
pub struct AgentIdentity {
    pub owner: Address,
    pub name: String,
    pub agent_type: AgentType,
    pub reputation: u64,
    pub stake_amount: u64,
    pub is_active: bool,
    pub created_at: i64,
    pub last_active: i64,
    pub total_escrows: u64,
    pub successful_escrows: u64,
    pub disputed_escrows: u64,
}

impl AgentIdentity {
    /// Reputation in range; an active agent holds at least the minimum stake and a
    /// retired one holds none.
    pub open spec fn wf(&self) -> bool {
        &&& self.reputation <= MAX_AGENT_REPUTATION
        &&& self.is_active ==> self.stake_amount >= MIN_STAKE_AMOUNT
        &&& !self.is_active ==> self.stake_amount == 0
    }
}

/// The position of an agent type in its declaration, as published in events.
pub open spec fn agent_type_code(agent_type: AgentType) -> u8 {
    match agent_type {
        AgentType::Trading => 0u8,
        AgentType::Service => 1u8,
        AgentType::Oracle => 2u8,
        AgentType::Custom => 3u8,
    }
}

pub fn agent_type_index(agent_type: AgentType) -> (r: u8)
    ensures
        r == agent_type_code(agent_type),
{
    match agent_type {
        AgentType::Trading => 0,
        AgentType::Service => 1,
        AgentType::Oracle => 2,
        AgentType::Custom => 3,
    }
}

/// A name is one to 32 bytes long.
pub open spec fn valid_agent_name(name: Seq<char>) -> bool {
    0 < encode_utf8(name).len() <= MAX_AGENT_NAME_LENGTH
}

/// `old` reputation moved by `delta`, kept within `[0, 1000]`.
pub open spec fn adjusted_reputation(old: int, delta: int) -> int {
    let moved = old + delta;
    if moved < 0 {
        0
    } else if moved > MAX_AGENT_REPUTATION {
        MAX_AGENT_REPUTATION as int
    } else {
        moved
    }
}

/// Registers an agent with a locked stake. Fails with `InvalidAgentName` for an empty
/// name or one over 32 bytes, then with `InsufficientStake` below the minimum stake.
pub fn create_agent(
    agent_key: Address,
    owner: Address,
    name: String,
    agent_type: AgentType,
    stake_amount: u64,
    now: i64,
) -> (r: Result<(AgentIdentity, AgentCreated), MitamaError>)
    ensures
        !valid_agent_name(name@) ==> r == Err::<(AgentIdentity, AgentCreated), MitamaError>(
            MitamaError::InvalidAgentName,
        ),
        valid_agent_name(name@) && stake_amount < MIN_STAKE_AMOUNT ==> r == Err::<
            (AgentIdentity, AgentCreated),
            MitamaError,
        >(MitamaError::InsufficientStake),
        valid_agent_name(name@) && stake_amount >= MIN_STAKE_AMOUNT ==> r is Ok,
        r matches Ok((agent, event)) ==> {
            &&& agent.wf()
            &&& agent.owner == owner
            &&& agent.name@ == name@
            &&& agent.agent_type == agent_type
            &&& agent.reputation == INITIAL_AGENT_REPUTATION
            &&& agent.stake_amount == stake_amount
            &&& agent.is_active
            &&& agent.created_at == now
            &&& agent.last_active == now
            &&& agent.total_escrows == 0
            &&& agent.successful_escrows == 0
            &&& agent.disputed_escrows == 0
            &&& event.agent_pda == agent_key
            &&& event.owner == owner
            &&& event.name@ == name@
            &&& event.agent_type == agent_type_code(agent_type)
            &&& event.stake_amount == stake_amount
        },
{
    let name_len = name.as_str().as_bytes().len();
    if name_len == 0 || name_len > MAX_AGENT_NAME_LENGTH {
        return Err(MitamaError::InvalidAgentName);
    }
    if stake_amount < MIN_STAKE_AMOUNT {
        return Err(MitamaError::InsufficientStake);
    }
    let event = AgentCreated {
        agent_pda: agent_key,
        owner,
        name: name.clone(),
        agent_type: agent_type_index(agent_type),
        stake_amount,
    };
    let agent = AgentIdentity {
        owner,
        name,
        agent_type,
        reputation: INITIAL_AGENT_REPUTATION,
        stake_amount,
        is_active: true,
        created_at: now,
        last_active: now,
        total_escrows: 0,
        successful_escrows: 0,
        disputed_escrows: 0,
    };
    Ok((agent, event))
}

/// Retires an agent: the whole stake goes back to the owner. Only the owner may, and
/// only once (`AgentNotActive` after that).
pub fn deactivate_agent(agent_key: Address, agent: &mut AgentIdentity, caller: Address) -> (r:
    Result<AgentDeactivated, MitamaError>)
    ensures
        caller@ != old(agent).owner@ ==> r == Err::<AgentDeactivated, MitamaError>(
            MitamaError::Unauthorized,
        ),
        caller@ == old(agent).owner@ && !old(agent).is_active ==> r == Err::<
            AgentDeactivated,
            MitamaError,
        >(MitamaError::AgentNotActive),
        caller@ == old(agent).owner@ && old(agent).is_active ==> r is Ok,
        r is Err ==> *final(agent) == *old(agent),
        r matches Ok(event) ==> {
            &&& *final(agent) == (AgentIdentity {
                is_active: false,
                stake_amount: 0,
                ..*old(agent)
            })
            &&& event == (AgentDeactivated {
                agent_pda: agent_key,
                owner: old(agent).owner,
                refunded_stake: old(agent).stake_amount,
            })
        },
        old(agent).wf() ==> final(agent).wf(),
{
    if !caller.same_as(&agent.owner) {
        return Err(MitamaError::Unauthorized);
    }
    if !agent.is_active {
        return Err(MitamaError::AgentNotActive);
    }
    let stake_to_return = agent.stake_amount;
    agent.is_active = false;
    agent.stake_amount = 0;
    Ok(AgentDeactivated { agent_pda: agent_key, owner: agent.owner, refunded_stake: stake_to_return })
}

/// Moves an agent's reputation by `delta`, kept within `[0, 1000]`.
pub fn update_agent_rep(agent_key: Address, agent: &mut AgentIdentity, delta: i64, now: i64) -> (r:
    AgentReputationUpdated)
    ensures
        final(agent).reputation as int == adjusted_reputation(
            old(agent).reputation as int,
            delta as int,
        ),
        *final(agent) == (AgentIdentity {
            reputation: final(agent).reputation,
            last_active: now,
            ..*old(agent)
        }),
        r == (AgentReputationUpdated {
            agent_pda: agent_key,
            old_reputation: old(agent).reputation,
            new_reputation: final(agent).reputation,
            delta,
        }),
        old(agent).wf() ==> final(agent).wf(),
{
    let old_rep = agent.reputation;
    let moved: u64 = if delta >= 0 {
        old_rep.saturating_add(delta as u64)
    } else {
        old_rep.saturating_sub((0i128 - delta as i128) as u64)
    };
    agent.reputation = if moved > MAX_AGENT_REPUTATION {
        MAX_AGENT_REPUTATION
    } else {
        moved
    };
    agent.last_active = now;
    AgentReputationUpdated {
        agent_pda: agent_key,
        old_reputation: old_rep,
        new_reputation: agent.reputation,
        delta,
    }
}

} // verus!
