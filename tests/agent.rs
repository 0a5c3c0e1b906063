use mitama::address::Address;
use mitama::agent::{agent_type_index, create_agent, deactivate_agent, update_agent_rep, AgentType, MIN_STAKE_AMOUNT};
use mitama::error::MitamaError;

fn key(b: u8) -> Address {
    Address::new([b; 32])
}

#[test]
fn agent_registration() {
    let (agent, ev) =
        create_agent(key(100), key(1), "trader-one".to_string(), AgentType::Trading, MIN_STAKE_AMOUNT, 50).unwrap();
    assert_eq!(agent.reputation, 500);
    assert!(agent.is_active);
    assert_eq!(agent.stake_amount, MIN_STAKE_AMOUNT);
    assert_eq!(agent.name, "trader-one");
    assert_eq!((agent.created_at, agent.last_active), (50, 50));
    assert_eq!((agent.total_escrows, agent.successful_escrows, agent.disputed_escrows), (0, 0, 0));
    assert!(ev.agent_pda == key(100) && ev.owner == key(1));
    assert_eq!(ev.agent_type, 0);
    assert_eq!(ev.name, "trader-one");
}

#[test]
fn agent_name_and_stake_are_checked() {
    assert_eq!(
        create_agent(key(100), key(1), String::new(), AgentType::Service, MIN_STAKE_AMOUNT, 0).err(),
        Some(MitamaError::InvalidAgentName)
    );
    let long = "x".repeat(33);
    assert_eq!(
        create_agent(key(100), key(1), long, AgentType::Service, MIN_STAKE_AMOUNT, 0).err(),
        Some(MitamaError::InvalidAgentName)
    );
    assert!(create_agent(key(100), key(1), "y".repeat(32), AgentType::Service, MIN_STAKE_AMOUNT, 0).is_ok());
    // eleven three-byte characters exceed 32 bytes
    assert_eq!(
        create_agent(key(100), key(1), "魂".repeat(11), AgentType::Oracle, MIN_STAKE_AMOUNT, 0).err(),
        Some(MitamaError::InvalidAgentName)
    );
    assert_eq!(
        create_agent(key(100), key(1), "ok".to_string(), AgentType::Custom, MIN_STAKE_AMOUNT - 1, 0).err(),
        Some(MitamaError::InsufficientStake)
    );
}

#[test]
fn deactivation_returns_the_whole_stake_once() {
    let (mut agent, _) =
        create_agent(key(100), key(1), "svc".to_string(), AgentType::Service, 250_000_000, 0).unwrap();
    assert_eq!(deactivate_agent(key(100), &mut agent, key(2)).err(), Some(MitamaError::Unauthorized));
    assert!(agent.is_active);
    let ev = deactivate_agent(key(100), &mut agent, key(1)).unwrap();
    assert_eq!(ev.refunded_stake, 250_000_000);
    assert!(!agent.is_active);
    assert_eq!(agent.stake_amount, 0);
    assert_eq!(deactivate_agent(key(100), &mut agent, key(1)).err(), Some(MitamaError::AgentNotActive));
}

#[test]
fn agent_reputation_is_clamped() {
    let (mut agent, _) =
        create_agent(key(100), key(1), "o".to_string(), AgentType::Oracle, MIN_STAKE_AMOUNT, 0).unwrap();
    let ev = update_agent_rep(key(100), &mut agent, 120, 5);
    assert_eq!((ev.old_reputation, ev.new_reputation, ev.delta), (500, 620, 120));
    assert_eq!(agent.last_active, 5);
    update_agent_rep(key(100), &mut agent, 10_000, 6);
    assert_eq!(agent.reputation, 1000);
    update_agent_rep(key(100), &mut agent, -300, 7);
    assert_eq!(agent.reputation, 700);
    update_agent_rep(key(100), &mut agent, i64::MIN, 8);
    assert_eq!(agent.reputation, 0);
    update_agent_rep(key(100), &mut agent, i64::MAX, 9);
    assert_eq!(agent.reputation, 1000);
}

#[test]
fn agent_type_indices() {
    assert_eq!(agent_type_index(AgentType::Trading), 0);
    assert_eq!(agent_type_index(AgentType::Service), 1);
    assert_eq!(agent_type_index(AgentType::Oracle), 2);
    assert_eq!(agent_type_index(AgentType::Custom), 3);
}
