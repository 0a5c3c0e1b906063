use vstd::prelude::*;
use crate::address::Address;
use crate::error::MitamaError;
use crate::events::{OracleAdded, OracleRegistryInitialized, OracleRemoved};

verus! {

/// Largest number of oracles a registry holds.
pub const MAX_ORACLES: usize = 5;

/// Smallest number of agreeing oracles a registry may ask for.
pub const MIN_CONSENSUS_ORACLES: u8 = 2;

/// Largest score deviation a registry may tolerate.
pub const MAX_ALLOWED_DEVIATION: u8 = 50;

/// How an oracle delivers its assertion.
#[derive(Clone, Copy, Debug, PartialEq, Eq, Structural)]
pub enum OracleType {
    Ed25519,
    Switchboard,
    Custom,
}

/// One trusted scorer.
#[derive(Clone, Copy, Debug)]
pub struct OracleConfig {
    pub pubkey: Address,
    pub oracle_type: OracleType,
    pub weight: u16,
}

/// Admin-curated set of trusted scorers and consensus parameters.
#[derive(Clone, Debug)]
pub struct OracleRegistry {
    pub admin: Address,
    pub oracles: Vec<OracleConfig>,
    pub min_consensus: u8,
    pub max_score_deviation: u8,
    pub created_at: i64,
    pub updated_at: i64,
}

/// Some oracle of `oracles` has identity `key`.
pub open spec fn has_oracle(oracles: Seq<OracleConfig>, key: Seq<u8>) -> bool {
    exists|i: int| 0 <= i < oracles.len() && #[trigger] oracles[i].pubkey@ == key
}

/// `oracles`, in order, without those of identity `key`.
pub open spec fn oracles_without(oracles: Seq<OracleConfig>, key: Seq<u8>) -> Seq<OracleConfig>
    decreases oracles.len(),
{
    if oracles.len() == 0 {
        Seq::<OracleConfig>::empty()
    } else {
        let rest = oracles_without(oracles.drop_last(), key);
        if oracles.last().pubkey@ == key {
            rest
        } else {
            rest.push(oracles.last())
        }
    }
}

pub open spec fn oracles_wf(oracles: Seq<OracleConfig>) -> bool {
    &&& oracles.len() <= MAX_ORACLES
    &&& forall|i: int| 0 <= i < oracles.len() ==> #[trigger] oracles[i].weight > 0
    &&& forall|i: int, j: int|
        0 <= i < j < oracles.len() ==> #[trigger] oracles[i].pubkey@ != #[trigger] oracles[j].pubkey@
}

impl OracleRegistry {
    /// At most five oracles, unique identities, positive weights, sane parameters.
    pub open spec fn wf(&self) -> bool {
        &&& oracles_wf(self.oracles@)
        &&& self.min_consensus >= MIN_CONSENSUS_ORACLES
        &&& self.max_score_deviation <= MAX_ALLOWED_DEVIATION
    }
}

/// Why an addition is refused, if it is.
pub open spec fn add_oracle_error(
    registry: OracleRegistry,
    caller: Address,
    oracle_pubkey: Address,
    weight: u16,
) -> Option<MitamaError> {
    if caller@ != registry.admin@ {
        Some(MitamaError::Unauthorized)
    } else if registry.oracles@.len() >= MAX_ORACLES {
        Some(MitamaError::MaxOraclesReached)
    } else if weight == 0 {
        Some(MitamaError::InvalidOracleWeight)
    } else if has_oracle(registry.oracles@, oracle_pubkey@) {
        Some(MitamaError::DuplicateOracleSubmission)
    } else {
        None
    }
}

/// Why a removal is refused, if it is.
pub open spec fn remove_oracle_error(
    registry: OracleRegistry,
    caller: Address,
    oracle_pubkey: Address,
) -> Option<MitamaError> {
    if caller@ != registry.admin@ {
        Some(MitamaError::Unauthorized)
    } else if !has_oracle(registry.oracles@, oracle_pubkey@) {
        Some(MitamaError::OracleNotFound)
    } else {
        None
    }
}

/// The position of an oracle type in its declaration, as published in events.
pub open spec fn type_index(oracle_type: OracleType) -> u8 {
    match oracle_type {
        OracleType::Ed25519 => 0u8,
        OracleType::Switchboard => 1u8,
        OracleType::Custom => 2u8,
    }
}

pub fn oracle_type_index(oracle_type: OracleType) -> (r: u8)
    ensures
        r == type_index(oracle_type),
{
    match oracle_type {
        OracleType::Ed25519 => 0,
        OracleType::Switchboard => 1,
        OracleType::Custom => 2,
    }
}

/// Creates an empty registry owned by `admin`. Fails with `InsufficientOracleConsensus`
/// when `min_consensus` is below two, and with `InvalidQualityScore` when the
/// tolerated deviation exceeds 50.
pub fn initialize_oracle_registry(
    registry_key: Address,
    admin: Address,
    min_consensus: u8,
    max_score_deviation: u8,
    now: i64,
) -> (r: Result<(OracleRegistry, OracleRegistryInitialized), MitamaError>)
    ensures
        min_consensus < MIN_CONSENSUS_ORACLES ==> r == Err::<
            (OracleRegistry, OracleRegistryInitialized),
            MitamaError,
        >(MitamaError::InsufficientOracleConsensus),
        min_consensus >= MIN_CONSENSUS_ORACLES && max_score_deviation > MAX_ALLOWED_DEVIATION
            ==> r == Err::<(OracleRegistry, OracleRegistryInitialized), MitamaError>(
            MitamaError::InvalidQualityScore,
        ),
        min_consensus >= MIN_CONSENSUS_ORACLES && max_score_deviation <= MAX_ALLOWED_DEVIATION
            ==> r is Ok,
        r matches Ok((reg, ev)) ==> {
            &&& reg.wf()
            &&& reg.admin == admin
            &&& reg.oracles@.len() == 0
            &&& reg.min_consensus == min_consensus
            &&& reg.max_score_deviation == max_score_deviation
            &&& reg.created_at == now
            &&& reg.updated_at == now
            &&& ev == (OracleRegistryInitialized {
                registry: registry_key,
                admin,
                min_consensus,
                max_score_deviation,
            })
        },
{
    if min_consensus < MIN_CONSENSUS_ORACLES {
        return Err(MitamaError::InsufficientOracleConsensus);
    }
    if max_score_deviation > MAX_ALLOWED_DEVIATION {
        return Err(MitamaError::InvalidQualityScore);
    }
    let registry = OracleRegistry {
        admin,
        oracles: Vec::new(),
        min_consensus,
        max_score_deviation,
        created_at: now,
        updated_at: now,
    };
    let event = OracleRegistryInitialized {
        registry: registry_key,
        admin,
        min_consensus,
        max_score_deviation,
    };
    Ok((registry, event))
}

/// Whether some oracle of `oracles` has identity `key`.
pub fn contains_oracle(oracles: &Vec<OracleConfig>, key: &Address) -> (r: bool)
    ensures
        r == has_oracle(oracles@, key@),
{
    let mut i: usize = 0;
    while i < oracles.len()
        invariant
            0 <= i <= oracles.len(),
            forall|j: int| 0 <= j < i ==> oracles@[j].pubkey@ != key@,
        decreases oracles.len() - i,
    {
        if oracles[i].pubkey.same_as(key) {
            return true;
        }
        i = i + 1;
    }
    false
}

/// Adds an oracle. Only the admin may; a full registry, a zero weight and an identity
/// already present are refused. A refused call changes nothing.
pub fn add_oracle(
    registry_key: Address,
    registry: &mut OracleRegistry,
    caller: Address,
    oracle_pubkey: Address,
    oracle_type: OracleType,
    weight: u16,
    now: i64,
) -> (r: Result<OracleAdded, MitamaError>)
    ensures
        match add_oracle_error(*old(registry), caller, oracle_pubkey, weight) {
            Some(e) => r == Err::<OracleAdded, MitamaError>(e) && *final(registry) == *old(
                registry,
            ),
            None => {
                &&& final(registry).oracles@ == old(registry).oracles@.push(
                    OracleConfig { pubkey: oracle_pubkey, oracle_type, weight },
                )
                &&& final(registry).admin == old(registry).admin
                &&& final(registry).min_consensus == old(registry).min_consensus
                &&& final(registry).max_score_deviation == old(registry).max_score_deviation
                &&& final(registry).created_at == old(registry).created_at
                &&& final(registry).updated_at == now
                &&& r == Ok::<OracleAdded, MitamaError>(
                    OracleAdded {
                        registry: registry_key,
                        oracle: oracle_pubkey,
                        oracle_type_index: type_index(oracle_type),
                        weight,
                    },
                )
            },
        },
        old(registry).wf() ==> final(registry).wf(),
{
    if !caller.same_as(&registry.admin) {
        return Err(MitamaError::Unauthorized);
    }
    if registry.oracles.len() >= MAX_ORACLES {
        return Err(MitamaError::MaxOraclesReached);
    }
    if weight == 0 {
        return Err(MitamaError::InvalidOracleWeight);
    }
    if contains_oracle(&registry.oracles, &oracle_pubkey) {
        return Err(MitamaError::DuplicateOracleSubmission);
    }
    registry.oracles.push(OracleConfig { pubkey: oracle_pubkey, oracle_type, weight });
    registry.updated_at = now;
    proof {
        let s = registry.oracles@;
        let o = old(registry).oracles@;
        if old(registry).wf() {
            assert forall|i: int, j: int| 0 <= i < j < s.len() implies s[i].pubkey@
                != s[j].pubkey@ by {
                assert(o[i] == s[i]);
                if j == s.len() - 1 {
                    assert(s[j].pubkey@ == oracle_pubkey@);
                    if o[i].pubkey@ == oracle_pubkey@ {
                        assert(has_oracle(o, oracle_pubkey@));
                    }
                } else {
                    assert(o[j] == s[j]);
                }
            }
            assert forall|i: int| 0 <= i < s.len() implies #[trigger] s[i].weight > 0 by {
                if i < s.len() - 1 {
                    assert(o[i] == s[i]);
                }
            }
        }
    }
    Ok(
        OracleAdded {
            registry: registry_key,
            oracle: oracle_pubkey,
            oracle_type_index: oracle_type_index(oracle_type),
            weight,
        },
    )
}

proof fn lemma_oracles_without_wf(oracles: Seq<OracleConfig>, key: Seq<u8>)
    requires
        oracles_wf(oracles),
    ensures
        oracles_wf(oracles_without(oracles, key)),
        oracles_without(oracles, key).len() <= oracles.len(),
        forall|i: int|
            0 <= i < oracles_without(oracles, key).len() ==> has_oracle(
                oracles,
                #[trigger] oracles_without(oracles, key)[i].pubkey@,
            ),
        has_oracle(oracles, key) ==> oracles_without(oracles, key).len() < oracles.len(),
    decreases oracles.len(),
{
    if oracles.len() > 0 {
        let prefix = oracles.drop_last();
        assert(oracles_wf(prefix)) by {
            assert forall|i: int, j: int| 0 <= i < j < prefix.len() implies prefix[i].pubkey@
                != prefix[j].pubkey@ by {
                assert(prefix[i] == oracles[i] && prefix[j] == oracles[j]);
            }
            assert forall|i: int| 0 <= i < prefix.len() implies #[trigger] prefix[i].weight > 0 by {
                assert(prefix[i] == oracles[i]);
            }
        }
        lemma_oracles_without_wf(prefix, key);
        let rest = oracles_without(prefix, key);
        let last = oracles.last();
        assert forall|i: int| 0 <= i < rest.len() implies has_oracle(
            oracles,
            #[trigger] rest[i].pubkey@,
        ) by {
            let k = choose|k: int| 0 <= k < prefix.len() && #[trigger] prefix[k].pubkey@
                == rest[i].pubkey@;
            assert(oracles[k] == prefix[k]);
        }
        if has_oracle(oracles, key) && !has_oracle(prefix, key) {
            let k = choose|k: int| 0 <= k < oracles.len() && #[trigger] oracles[k].pubkey@ == key;
            if k < prefix.len() {
                assert(prefix[k] == oracles[k]);
            }
        }
        if last.pubkey@ != key {
            let out = rest.push(last);
            assert forall|i: int, j: int| 0 <= i < j < out.len() implies out[i].pubkey@
                != out[j].pubkey@ by {
                if j == out.len() - 1 {
                    assert(out[i] == rest[i]);
                    let k = choose|k: int| 0 <= k < prefix.len() && #[trigger] prefix[k].pubkey@
                        == rest[i].pubkey@;
                    assert(oracles[k] == prefix[k]);
                    assert(oracles[oracles.len() - 1] == last);
                } else {
                    assert(out[i] == rest[i] && out[j] == rest[j]);
                }
            }
            assert forall|i: int| 0 <= i < out.len() implies has_oracle(
                oracles,
                #[trigger] out[i].pubkey@,
            ) by {
                if i == out.len() - 1 {
                    assert(oracles[oracles.len() - 1].pubkey@ == out[i].pubkey@);
                } else {
                    assert(out[i] == rest[i]);
                }
            }
            assert forall|i: int| 0 <= i < out.len() implies #[trigger] out[i].weight > 0 by {
                if i < out.len() - 1 {
                    assert(out[i] == rest[i]);
                }
            }
        }
    }
}

/// Removes the oracle of identity `oracle_pubkey`. Only the admin may; an identity
/// that is not registered is refused. A refused call changes nothing.
pub fn remove_oracle(
    registry_key: Address,
    registry: &mut OracleRegistry,
    caller: Address,
    oracle_pubkey: Address,
    now: i64,
) -> (r: Result<OracleRemoved, MitamaError>)
    ensures
        match remove_oracle_error(*old(registry), caller, oracle_pubkey) {
            Some(e) => r == Err::<OracleRemoved, MitamaError>(e) && *final(registry) == *old(
                registry,
            ),
            None => {
                &&& final(registry).oracles@ == oracles_without(
                    old(registry).oracles@,
                    oracle_pubkey@,
                )
                &&& final(registry).admin == old(registry).admin
                &&& final(registry).min_consensus == old(registry).min_consensus
                &&& final(registry).max_score_deviation == old(registry).max_score_deviation
                &&& final(registry).created_at == old(registry).created_at
                &&& final(registry).updated_at == now
                &&& r == Ok::<OracleRemoved, MitamaError>(
                    OracleRemoved { registry: registry_key, oracle: oracle_pubkey },
                )
            },
        },
        old(registry).wf() ==> final(registry).wf(),
{
    if !caller.same_as(&registry.admin) {
        return Err(MitamaError::Unauthorized);
    }
    let mut kept: Vec<OracleConfig> = Vec::new();
    let mut found = false;
    let mut i: usize = 0;
    while i < registry.oracles.len()
        invariant
            0 <= i <= registry.oracles.len(),
            kept@ == oracles_without(registry.oracles@.take(i as int), oracle_pubkey@),
            found == has_oracle(registry.oracles@.take(i as int), oracle_pubkey@),
        decreases registry.oracles.len() - i,
    {
        let o = registry.oracles[i];
        let prefix = Ghost(registry.oracles@.take(i as int));
        let next = Ghost(registry.oracles@.take(i + 1));
        proof {
            assert(next@.drop_last() =~= prefix@);
            assert(next@.last() == o);
        }
        if o.pubkey.same_as(&oracle_pubkey) {
            found = true;
            proof {
                assert(next@[i as int] == o);
            }
        } else {
            kept.push(o);
            proof {
                if found {
                    let k = choose|k: int| 0 <= k < prefix@.len() && #[trigger] prefix@[k].pubkey@
                        == oracle_pubkey@;
                    assert(next@[k] == prefix@[k]);
                }
            }
        }
        proof {
            if has_oracle(next@, oracle_pubkey@) && !has_oracle(prefix@, oracle_pubkey@) {
                let k = choose|k: int| 0 <= k < next@.len() && #[trigger] next@[k].pubkey@
                    == oracle_pubkey@;
                if k < prefix@.len() {
                    assert(prefix@[k] == next@[k]);
                }
            }
            if has_oracle(prefix@, oracle_pubkey@) {
                let k = choose|k: int| 0 <= k < prefix@.len() && #[trigger] prefix@[k].pubkey@
                    == oracle_pubkey@;
                assert(next@[k] == prefix@[k]);
            }
        }
        i = i + 1;
    }
    assert(registry.oracles@.take(registry.oracles.len() as int) =~= registry.oracles@);
    if !found {
        return Err(MitamaError::OracleNotFound);
    }
    proof {
        if old(registry).wf() {
            lemma_oracles_without_wf(old(registry).oracles@, oracle_pubkey@);
        }
    }
    registry.oracles = kept;
    registry.updated_at = now;
    Ok(OracleRemoved { registry: registry_key, oracle: oracle_pubkey })
}

/// For the admin, a registry that already holds five oracles refuses every addition
/// with `MaxOraclesReached`; one with room refuses an identity it already holds with
/// `DuplicateOracleSubmission`; and a removal of an identity it does not hold is refused
/// with `OracleNotFound`.
pub proof fn lemma_registry_refusals(
    registry: OracleRegistry,
    oracle_pubkey: Address,
    weight: u16,
)
    ensures
        registry.oracles@.len() >= MAX_ORACLES ==> add_oracle_error(
            registry,
            registry.admin,
            oracle_pubkey,
            weight,
        ) == Some(MitamaError::MaxOraclesReached),
        registry.oracles@.len() < MAX_ORACLES && weight > 0 && has_oracle(
            registry.oracles@,
            oracle_pubkey@,
        ) ==> add_oracle_error(registry, registry.admin, oracle_pubkey, weight) == Some(
            MitamaError::DuplicateOracleSubmission,
        ),
        !has_oracle(registry.oracles@, oracle_pubkey@) ==> remove_oracle_error(
            registry,
            registry.admin,
            oracle_pubkey,
        ) == Some(MitamaError::OracleNotFound),
{
}

} // verus!
