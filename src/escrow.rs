use vstd::prelude::*;
use vstd::utf8::encode_utf8;
use crate::address::Address;
use crate::error::MitamaError;
use crate::events::{DisputeMarked, DisputeResolved, EscrowInitialized, FundsReleased};
use crate::registry::MAX_ORACLES;
use crate::reputation::{
    calculate_dispute_cost,
    dispute_cost,
    provider_updated,
    record_dispute_filed,
    requester_updated,
    saturating_inc,
    update_agent_reputation,
    update_api_reputation,
    EntityReputation,
};
use crate::settlement::{refund_share, split_settlement};
use crate::signature::{
    ed25519_instruction_matches,
    resolution_message,
    resolution_statement,
    verify_ed25519_signature,
    SignatureInstruction,
};

verus! {

/// Shortest lock window: one hour, in seconds.
pub const MIN_TIME_LOCK: i64 = 3600;

/// Longest lock window: thirty days, in seconds.
pub const MAX_TIME_LOCK: i64 = 2_592_000;

/// Longest transaction identifier, in bytes.
pub const MAX_TRANSACTION_ID_LENGTH: usize = 64;

/// Decimal precision of the native asset.
pub const NATIVE_DECIMALS: u8 = 9;

/// Lifecycle of an agreement. `Released` and `Resolved` are terminal.
#[derive(Clone, Copy, Debug, PartialEq, Eq, Structural)]
pub enum EscrowStatus {
    Active,
    Released,
    Disputed,
    Resolved,
}

/// One oracle's quality score for an agreement.
#[derive(Clone, Copy, Debug)]
pub struct OracleSubmission {
    pub oracle: Address,
    pub quality_score: u8,
    pub submitted_at: i64,
}

/// The token accounts of an agreement funded in a fungible token: the mint, its
/// precision, the agreement's own token account and the mints that the agreement's and
/// the payer's token accounts are for.
#[derive(Clone, Copy, Debug)]
pub struct TokenDeposit {
    pub mint: Address,
    pub decimals: u8,
    pub escrow_token_account: Address,
    pub escrow_account_mint: Address,
    pub agent_account_mint: Address,
}

/// A time-locked payment agreement between a payer (`agent`) and a payee (`api`).
#[derive(Clone, Debug)]
pub struct Escrow {
    pub agent: Address,
    pub api: Address,
    pub amount: u64,
    pub status: EscrowStatus,
    pub created_at: i64,
    pub expires_at: i64,
    pub transaction_id: String,
    pub quality_score: Option<u8>,
    pub refund_percentage: Option<u8>,
    pub oracle_submissions: Vec<OracleSubmission>,
    pub token_mint: Option<Address>,
    pub escrow_token_account: Option<Address>,
    pub token_decimals: u8,
}

impl Escrow {
    /// A positive amount, a lock window in range, at most five submissions, and a
    /// settlement recorded exactly when the agreement is resolved.
    pub open spec fn wf(&self) -> bool {
        &&& self.amount > 0
        &&& MIN_TIME_LOCK <= self.expires_at - self.created_at <= MAX_TIME_LOCK
        &&& self.oracle_submissions@.len() <= MAX_ORACLES
        &&& (self.status == EscrowStatus::Resolved) == (self.quality_score is Some)
        &&& (self.status == EscrowStatus::Resolved) == (self.refund_percentage is Some)
        &&& self.quality_score matches Some(q) ==> q <= 100
        &&& self.refund_percentage matches Some(p) ==> p <= 100
    }
}

/// An identifier is one to 64 bytes long.
pub open spec fn valid_transaction_id(transaction_id: Seq<char>) -> bool {
    0 < encode_utf8(transaction_id).len() <= MAX_TRANSACTION_ID_LENGTH
}

pub open spec fn token_mismatch(token: Option<TokenDeposit>) -> bool {
    match token {
        Some(t) => t.escrow_account_mint@ != t.mint@ || t.agent_account_mint@ != t.mint@,
        None => false,
    }
}

/// Why opening an agreement is refused, if it is.
pub open spec fn open_error(
    amount: u64,
    time_lock: i64,
    transaction_id: Seq<char>,
    token: Option<TokenDeposit>,
    now: i64,
) -> Option<MitamaError> {
    if amount == 0 {
        Some(MitamaError::InvalidAmount)
    } else if time_lock < MIN_TIME_LOCK || time_lock > MAX_TIME_LOCK {
        Some(MitamaError::InvalidTimeLock)
    } else if !valid_transaction_id(transaction_id) {
        Some(MitamaError::InvalidTransactionId)
    } else if token_mismatch(token) {
        Some(MitamaError::TokenMintMismatch)
    } else if now + time_lock > i64::MAX {
        Some(MitamaError::ArithmeticOverflow)
    } else {
        None
    }
}

/// `e` is the agreement that opening with these arguments creates.
pub open spec fn opened(
    e: Escrow,
    agent: Address,
    api: Address,
    amount: u64,
    time_lock: i64,
    transaction_id: Seq<char>,
    token: Option<TokenDeposit>,
    now: i64,
) -> bool {
    &&& e.agent == agent
    &&& e.api == api
    &&& e.amount == amount
    &&& e.status == EscrowStatus::Active
    &&& e.created_at == now
    &&& e.expires_at == now + time_lock
    &&& e.transaction_id@ == transaction_id
    &&& e.quality_score is None
    &&& e.refund_percentage is None
    &&& e.oracle_submissions@.len() == 0
    &&& match token {
        Some(t) => e.token_mint == Some(t.mint) && e.escrow_token_account == Some(
            t.escrow_token_account,
        ) && e.token_decimals == t.decimals,
        None => e.token_mint is None && e.escrow_token_account is None && e.token_decimals
            == NATIVE_DECIMALS,
    }
}

/// Why a release is refused, if it is: only an active agreement is released, by the
/// payer at any time and by anyone once the window has elapsed.
pub open spec fn release_error(e: Escrow, caller: Address, now: i64) -> Option<MitamaError> {
    if e.status != EscrowStatus::Active {
        Some(MitamaError::InvalidStatus)
    } else if caller@ != e.agent@ && now < e.expires_at {
        Some(MitamaError::Unauthorized)
    } else {
        None
    }
}

/// Why a dispute is refused, if it is.
pub open spec fn dispute_error(
    e: Escrow,
    reputation: EntityReputation,
    caller: Address,
    caller_balance: u64,
    now: i64,
) -> Option<MitamaError> {
    if e.status != EscrowStatus::Active {
        Some(MitamaError::InvalidStatus)
    } else if caller@ != e.agent@ {
        Some(MitamaError::Unauthorized)
    } else if now >= e.expires_at {
        Some(MitamaError::DisputeWindowExpired)
    } else if caller_balance < dispute_cost(
        reputation.total_transactions as int,
        reputation.disputes_filed as int,
    ) {
        Some(MitamaError::InsufficientDisputeFunds)
    } else {
        None
    }
}

/// Why a resolution is refused, if it is.
pub open spec fn resolve_error(
    e: Escrow,
    verifier: Address,
    instruction: SignatureInstruction,
    quality_score: u8,
    refund_percentage: u8,
    signature: Seq<u8>,
) -> Option<MitamaError> {
    if e.status != EscrowStatus::Active && e.status != EscrowStatus::Disputed {
        Some(MitamaError::InvalidStatus)
    } else if quality_score > 100 {
        Some(MitamaError::InvalidQualityScore)
    } else if refund_percentage > 100 {
        Some(MitamaError::InvalidRefundPercentage)
    } else if !ed25519_instruction_matches(
        instruction.program_id@,
        instruction.data@,
        signature,
        verifier@,
        resolution_statement(e.transaction_id@, quality_score),
    ) {
        Some(MitamaError::InvalidSignature)
    } else {
        None
    }
}

/// Opens an agreement that locks `amount` until `now + time_lock`. Fails with
/// `InvalidAmount`, `InvalidTimeLock`, `InvalidTransactionId`, `TokenMintMismatch` or
/// `ArithmeticOverflow`, checked in that order.
pub fn initialize_escrow(
    escrow_key: Address,
    agent: Address,
    api: Address,
    amount: u64,
    time_lock: i64,
    transaction_id: String,
    token: Option<TokenDeposit>,
    now: i64,
) -> (r: Result<(Escrow, EscrowInitialized), MitamaError>)
    ensures
        open_error(amount, time_lock, transaction_id@, token, now) matches Some(err) ==> r
            == Err::<(Escrow, EscrowInitialized), MitamaError>(err),
        open_error(amount, time_lock, transaction_id@, token, now) is None ==> r is Ok,
        r matches Ok((e, ev)) ==> {
            &&& opened(e, agent, api, amount, time_lock, transaction_id@, token, now)
            &&& e.wf()
            &&& ev.escrow == escrow_key
            &&& ev.agent == agent
            &&& ev.api == api
            &&& ev.amount == amount
            &&& ev.expires_at == e.expires_at
            &&& ev.transaction_id@ == transaction_id@
            &&& ev.is_token == token is Some
            &&& ev.token_mint == e.token_mint
        },
{
    if amount == 0 {
        return Err(MitamaError::InvalidAmount);
    }
    if time_lock < MIN_TIME_LOCK || time_lock > MAX_TIME_LOCK {
        return Err(MitamaError::InvalidTimeLock);
    }
    let id_len = transaction_id.as_str().as_bytes().len();
    if id_len == 0 || id_len > MAX_TRANSACTION_ID_LENGTH {
        return Err(MitamaError::InvalidTransactionId);
    }
    let (token_mint, escrow_token_account, token_decimals) = match token {
        Some(t) => {
            if !t.escrow_account_mint.same_as(&t.mint) || !t.agent_account_mint.same_as(&t.mint) {
                return Err(MitamaError::TokenMintMismatch);
            }
            (Some(t.mint), Some(t.escrow_token_account), t.decimals)
        },
        None => (None, None, NATIVE_DECIMALS),
    };
    let expires_at = match now.checked_add(time_lock) {
        Some(t) => t,
        None => {
            return Err(MitamaError::ArithmeticOverflow);
        },
    };
    let event = EscrowInitialized {
        escrow: escrow_key,
        agent,
        api,
        amount,
        expires_at,
        transaction_id: transaction_id.clone(),
        is_token: token.is_some(),
        token_mint,
    };
    let escrow = Escrow {
        agent,
        api,
        amount,
        status: EscrowStatus::Active,
        created_at: now,
        expires_at,
        transaction_id,
        quality_score: None,
        refund_percentage: None,
        oracle_submissions: Vec::new(),
        token_mint,
        escrow_token_account,
        token_decimals,
    };
    Ok((escrow, event))
}

/// Releases the full amount to the payee. Fails with `InvalidStatus` unless the
/// agreement is active, and with `Unauthorized` for a caller other than the payer
/// before the window has elapsed. A refused call changes nothing.
pub fn release_funds(escrow_key: Address, escrow: &mut Escrow, caller: Address, now: i64) -> (r:
    Result<FundsReleased, MitamaError>)
    ensures
        release_error(*old(escrow), caller, now) matches Some(err) ==> r == Err::<
            FundsReleased,
            MitamaError,
        >(err) && *final(escrow) == *old(escrow),
        release_error(*old(escrow), caller, now) is None ==> r is Ok && *final(escrow) == (Escrow {
            status: EscrowStatus::Released,
            ..*old(escrow)
        }),
        r matches Ok(ev) ==> {
            &&& ev.escrow == escrow_key
            &&& ev.transaction_id@ == old(escrow).transaction_id@
            &&& ev.amount == old(escrow).amount
            &&& ev.api == old(escrow).api
            &&& ev.timestamp == now
        },
        old(escrow).wf() ==> final(escrow).wf(),
{
    if escrow.status != EscrowStatus::Active {
        return Err(MitamaError::InvalidStatus);
    }
    let is_agent = caller.same_as(&escrow.agent);
    let time_lock_expired = now >= escrow.expires_at;
    if !is_agent && !time_lock_expired {
        return Err(MitamaError::Unauthorized);
    }
    escrow.status = EscrowStatus::Released;
    Ok(
        FundsReleased {
            escrow: escrow_key,
            transaction_id: escrow.transaction_id.clone(),
            amount: escrow.amount,
            api: escrow.api,
            timestamp: now,
        },
    )
}

/// The payer disputes an active agreement within its window, holding at least the
/// dispute fee. Fails with `InvalidStatus`, `Unauthorized`, `DisputeWindowExpired` or
/// `InsufficientDisputeFunds`, checked in that order. A refused call changes nothing.
pub fn mark_disputed(
    escrow_key: Address,
    escrow: &mut Escrow,
    reputation: &mut EntityReputation,
    caller: Address,
    caller_balance: u64,
    now: i64,
) -> (r: Result<DisputeMarked, MitamaError>)
    ensures
        dispute_error(*old(escrow), *old(reputation), caller, caller_balance, now) matches Some(
            err,
        ) ==> r == Err::<DisputeMarked, MitamaError>(err) && *final(escrow) == *old(escrow)
            && *final(reputation) == *old(reputation),
        dispute_error(*old(escrow), *old(reputation), caller, caller_balance, now) is None ==> {
            &&& r is Ok
            &&& *final(escrow) == (Escrow { status: EscrowStatus::Disputed, ..*old(escrow) })
            &&& *final(reputation) == (EntityReputation {
                disputes_filed: saturating_inc(old(reputation).disputes_filed),
                ..*old(reputation)
            })
        },
        r matches Ok(ev) ==> {
            &&& ev.escrow == escrow_key
            &&& ev.agent == old(escrow).agent
            &&& ev.transaction_id@ == old(escrow).transaction_id@
            &&& ev.timestamp == now
        },
        old(escrow).wf() ==> final(escrow).wf(),
{
    if escrow.status != EscrowStatus::Active {
        return Err(MitamaError::InvalidStatus);
    }
    if !caller.same_as(&escrow.agent) {
        return Err(MitamaError::Unauthorized);
    }
    if now >= escrow.expires_at {
        return Err(MitamaError::DisputeWindowExpired);
    }
    let cost = calculate_dispute_cost(reputation);
    if caller_balance < cost {
        return Err(MitamaError::InsufficientDisputeFunds);
    }
    record_dispute_filed(reputation);
    escrow.status = EscrowStatus::Disputed;
    Ok(
        DisputeMarked {
            escrow: escrow_key,
            agent: escrow.agent,
            transaction_id: escrow.transaction_id.clone(),
            timestamp: now,
        },
    )
}

/// Settles an active or disputed agreement on a verifier's signed quality score: the
/// payer gets `refund_percentage` percent of the amount, rounded down, and the payee
/// the rest; both parties' ledgers take in the outcome. Fails with `InvalidStatus`,
/// `InvalidQualityScore`, `InvalidRefundPercentage` or `InvalidSignature`, checked in
/// that order. A refused call changes nothing.
pub fn resolve_dispute(
    escrow_key: Address,
    escrow: &mut Escrow,
    agent_reputation: &mut EntityReputation,
    api_reputation: &mut EntityReputation,
    verifier: Address,
    instruction: &SignatureInstruction,
    quality_score: u8,
    refund_percentage: u8,
    signature: &[u8; 64],
    now: i64,
) -> (r: Result<DisputeResolved, MitamaError>)
    ensures
        resolve_error(
            *old(escrow),
            verifier,
            *instruction,
            quality_score,
            refund_percentage,
            signature@,
        ) matches Some(err) ==> {
            &&& r == Err::<DisputeResolved, MitamaError>(err)
            &&& *final(escrow) == *old(escrow)
            &&& *final(agent_reputation) == *old(agent_reputation)
            &&& *final(api_reputation) == *old(api_reputation)
        },
        resolve_error(
            *old(escrow),
            verifier,
            *instruction,
            quality_score,
            refund_percentage,
            signature@,
        ) is None ==> {
            &&& r is Ok
            &&& *final(escrow) == (Escrow {
                status: EscrowStatus::Resolved,
                quality_score: Some(quality_score),
                refund_percentage: Some(refund_percentage),
                ..*old(escrow)
            })
            &&& requester_updated(
                *old(agent_reputation),
                *final(agent_reputation),
                quality_score,
                refund_percentage,
                now,
            )
            &&& provider_updated(
                *old(api_reputation),
                *final(api_reputation),
                refund_percentage,
                now,
            )
        },
        r matches Ok(ev) ==> {
            &&& ev.escrow == escrow_key
            &&& ev.transaction_id@ == old(escrow).transaction_id@
            &&& ev.quality_score == quality_score
            &&& ev.refund_percentage == refund_percentage
            &&& ev.refund_amount as int == refund_share(
                old(escrow).amount as int,
                refund_percentage as int,
            )
            &&& ev.refund_amount + ev.payment_amount == old(escrow).amount
            &&& ev.verifier == verifier
        },
        old(escrow).wf() ==> final(escrow).wf(),
        old(agent_reputation).wf() && r is Ok ==> final(agent_reputation).wf(),
        old(api_reputation).wf() ==> final(api_reputation).wf(),
{
    if escrow.status != EscrowStatus::Active && escrow.status != EscrowStatus::Disputed {
        return Err(MitamaError::InvalidStatus);
    }
    if quality_score > 100 {
        return Err(MitamaError::InvalidQualityScore);
    }
    if refund_percentage > 100 {
        return Err(MitamaError::InvalidRefundPercentage);
    }
    let message = resolution_message(&escrow.transaction_id, quality_score);
    match verify_ed25519_signature(instruction, signature, &verifier, &message) {
        Ok(()) => {},
        Err(e) => {
            return Err(e);
        },
    }
    let (refund_amount, payment_amount) = match split_settlement(escrow.amount, refund_percentage) {
        Ok(split) => split,
        Err(e) => {
            return Err(e);
        },
    };
    escrow.status = EscrowStatus::Resolved;
    escrow.quality_score = Some(quality_score);
    escrow.refund_percentage = Some(refund_percentage);
    update_agent_reputation(agent_reputation, quality_score, refund_percentage, now);
    update_api_reputation(api_reputation, refund_percentage, now);
    Ok(
        DisputeResolved {
            escrow: escrow_key,
            transaction_id: escrow.transaction_id.clone(),
            quality_score,
            refund_percentage,
            refund_amount,
            payment_amount,
            verifier,
        },
    )
}

/// Opening succeeds for every positive amount, every lock window in range and every
/// well-formed identifier; on the agreement it creates, the payer may release at any
/// time, any other caller is refused as unauthorized before the window elapses, and
/// anyone may release after it. A release hands the payee exactly the locked amount.
pub proof fn lemma_open_then_release(
    e: Escrow,
    agent: Address,
    api: Address,
    amount: u64,
    time_lock: i64,
    transaction_id: Seq<char>,
    opened_at: i64,
    caller: Address,
    now: i64,
)
    requires
        amount > 0,
        MIN_TIME_LOCK <= time_lock <= MAX_TIME_LOCK,
        valid_transaction_id(transaction_id),
        opened_at + time_lock <= i64::MAX,
    ensures
        open_error(amount, time_lock, transaction_id, None, opened_at) is None,
        opened(e, agent, api, amount, time_lock, transaction_id, None, opened_at) ==> {
            &&& now < opened_at + time_lock ==> release_error(e, agent, now) is None
            &&& now < opened_at + time_lock && caller@ != agent@ ==> release_error(e, caller, now)
                == Some(MitamaError::Unauthorized)
            &&& now >= opened_at + time_lock ==> release_error(e, caller, now) is None
            &&& e.amount == amount
        },
{
}

/// A released or resolved agreement allows no further transition: a second release,
/// a dispute and a second settlement are all refused with `InvalidStatus`.
pub proof fn lemma_terminal_states_are_final(
    e: Escrow,
    reputation: EntityReputation,
    caller: Address,
    caller_balance: u64,
    verifier: Address,
    instruction: SignatureInstruction,
    quality_score: u8,
    refund_percentage: u8,
    signature: Seq<u8>,
    now: i64,
)
    requires
        e.status == EscrowStatus::Released || e.status == EscrowStatus::Resolved,
    ensures
        release_error(e, caller, now) == Some(MitamaError::InvalidStatus),
        dispute_error(e, reputation, caller, caller_balance, now) == Some(
            MitamaError::InvalidStatus,
        ),
        resolve_error(e, verifier, instruction, quality_score, refund_percentage, signature)
            == Some(MitamaError::InvalidStatus),
{
}

} // verus!
