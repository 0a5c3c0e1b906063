use mitama::address::Address;
use mitama::error::MitamaError;
use mitama::registry::{
    add_oracle, contains_oracle, initialize_oracle_registry, oracle_type_index, remove_oracle,
    OracleRegistry, OracleType,
};

fn key(b: u8) -> Address {
    Address::new([b; 32])
}

fn fresh() -> OracleRegistry {
    initialize_oracle_registry(key(200), key(1), 2, 15, 10).unwrap().0
}

#[test]
fn registry_initialisation_checks_parameters() {
    let (reg, ev) = initialize_oracle_registry(key(200), key(1), 3, 50, 10).unwrap();
    assert!(reg.oracles.is_empty());
    assert_eq!(reg.min_consensus, 3);
    assert_eq!(reg.max_score_deviation, 50);
    assert_eq!((reg.created_at, reg.updated_at), (10, 10));
    assert!(ev.registry == key(200) && ev.admin == key(1));
    assert_eq!(
        initialize_oracle_registry(key(200), key(1), 1, 15, 10).err(),
        Some(MitamaError::InsufficientOracleConsensus)
    );
    assert_eq!(
        initialize_oracle_registry(key(200), key(1), 2, 51, 10).err(),
        Some(MitamaError::InvalidQualityScore)
    );
}

#[test]
fn sixth_oracle_is_refused() {
    let mut reg = fresh();
    for i in 0..5u8 {
        assert!(add_oracle(key(200), &mut reg, key(1), key(10 + i), OracleType::Ed25519, 1, 20).is_ok());
    }
    assert_eq!(reg.oracles.len(), 5);
    assert_eq!(
        add_oracle(key(200), &mut reg, key(1), key(99), OracleType::Custom, 1, 21).err(),
        Some(MitamaError::MaxOraclesReached)
    );
    assert_eq!(reg.oracles.len(), 5);
    assert_eq!(reg.updated_at, 20);
}

#[test]
fn duplicate_oracle_is_refused() {
    let mut reg = fresh();
    add_oracle(key(200), &mut reg, key(1), key(10), OracleType::Switchboard, 3, 20).unwrap();
    assert_eq!(
        add_oracle(key(200), &mut reg, key(1), key(10), OracleType::Ed25519, 1, 21).err(),
        Some(MitamaError::DuplicateOracleSubmission)
    );
    assert_eq!(reg.oracles.len(), 1);
}

#[test]
fn zero_weight_and_strangers_are_refused() {
    let mut reg = fresh();
    assert_eq!(
        add_oracle(key(200), &mut reg, key(1), key(10), OracleType::Ed25519, 0, 20).err(),
        Some(MitamaError::InvalidOracleWeight)
    );
    assert_eq!(
        add_oracle(key(200), &mut reg, key(2), key(10), OracleType::Ed25519, 1, 20).err(),
        Some(MitamaError::Unauthorized)
    );
    assert!(reg.oracles.is_empty());
}

#[test]
fn added_oracle_is_recorded_and_announced() {
    let mut reg = fresh();
    let ev = add_oracle(key(200), &mut reg, key(1), key(10), OracleType::Switchboard, 7, 30).unwrap();
    assert!(ev.registry == key(200) && ev.oracle == key(10));
    assert_eq!(ev.oracle_type_index, 1);
    assert_eq!(ev.weight, 7);
    assert!(reg.oracles[0].pubkey == key(10));
    assert_eq!(reg.oracles[0].oracle_type, OracleType::Switchboard);
    assert_eq!(reg.updated_at, 30);
    assert!(contains_oracle(&reg.oracles, &key(10)));
    assert!(!contains_oracle(&reg.oracles, &key(11)));
}

#[test]
fn removing_a_non_member_is_refused() {
    let mut reg = fresh();
    add_oracle(key(200), &mut reg, key(1), key(10), OracleType::Ed25519, 1, 20).unwrap();
    assert_eq!(
        remove_oracle(key(200), &mut reg, key(1), key(11), 21).err(),
        Some(MitamaError::OracleNotFound)
    );
    assert_eq!(reg.oracles.len(), 1);
    assert_eq!(reg.updated_at, 20);
}

#[test]
fn removing_a_member_keeps_the_others_in_order() {
    let mut reg = fresh();
    for i in 0..3u8 {
        add_oracle(key(200), &mut reg, key(1), key(10 + i), OracleType::Custom, 1, 20).unwrap();
    }
    assert_eq!(
        remove_oracle(key(200), &mut reg, key(2), key(11), 21).err(),
        Some(MitamaError::Unauthorized)
    );
    let ev = remove_oracle(key(200), &mut reg, key(1), key(11), 22).unwrap();
    assert!(ev.oracle == key(11));
    assert_eq!(reg.oracles.len(), 2);
    assert!(reg.oracles[0].pubkey == key(10) && reg.oracles[1].pubkey == key(12));
    assert_eq!(reg.updated_at, 22);
    assert!(add_oracle(key(200), &mut reg, key(1), key(11), OracleType::Ed25519, 1, 23).is_ok());
}

#[test]
fn oracle_type_indices() {
    assert_eq!(oracle_type_index(OracleType::Ed25519), 0);
    assert_eq!(oracle_type_index(OracleType::Switchboard), 1);
    assert_eq!(oracle_type_index(OracleType::Custom), 2);
}
