use vstd::prelude::*;

verus! {

/// Every way an operation of the engine can fail. A failed operation changes nothing.
#[derive(Clone, Copy, Debug, PartialEq, Eq, Structural)]
pub enum MitamaError {
    InvalidStatus,
    Unauthorized,
    InvalidQualityScore,
    InvalidRefundPercentage,
    InvalidSignature,
    InvalidTimeLock,
    InvalidAmount,
    InvalidTransactionId,
    TimeLockNotExpired,
    DisputeWindowExpired,
    InsufficientDisputeFunds,
    ArithmeticOverflow,
    InsufficientOracleConsensus,
    UnregisteredOracle,
    NoConsensusReached,
    DuplicateOracleSubmission,
    MaxOraclesReached,
    OracleNotFound,
    InvalidOracleWeight,
    MissingTokenMint,
    MissingTokenAccount,
    MissingTokenProgram,
    TokenMintMismatch,
    InvalidAgentName,
    InsufficientStake,
    AgentNotActive,
}

impl MitamaError {
    /// The human-readable message of each error.
    pub fn message(&self) -> (r: &'static str) {
        match self {
            MitamaError::InvalidStatus => "Invalid escrow status for this operation",
            MitamaError::Unauthorized => "Unauthorized",
            MitamaError::InvalidQualityScore => "Invalid quality score (must be 0-100)",
            MitamaError::InvalidRefundPercentage => "Invalid refund percentage (must be 0-100)",
            MitamaError::InvalidSignature => "Invalid verifier signature",
            MitamaError::InvalidTimeLock => "Invalid time lock: must be between 1 hour and 30 days",
            MitamaError::InvalidAmount => "Invalid amount: must be greater than 0",
            MitamaError::InvalidTransactionId => "Invalid transaction ID",
            MitamaError::TimeLockNotExpired => "Time lock not expired",
            MitamaError::DisputeWindowExpired => "Dispute window expired",
            MitamaError::InsufficientDisputeFunds => "Insufficient funds for dispute",
            MitamaError::ArithmeticOverflow => "Arithmetic overflow",
            MitamaError::InsufficientOracleConsensus => "Insufficient oracle consensus",
            MitamaError::UnregisteredOracle => "Oracle not registered",
            MitamaError::NoConsensusReached => "No consensus reached",
            MitamaError::DuplicateOracleSubmission => "Duplicate oracle submission",
            MitamaError::MaxOraclesReached => "Maximum oracles reached",
            MitamaError::OracleNotFound => "Oracle not found",
            MitamaError::InvalidOracleWeight => "Invalid oracle weight",
            MitamaError::MissingTokenMint => "Missing token mint",
            MitamaError::MissingTokenAccount => "Missing token account",
            MitamaError::MissingTokenProgram => "Missing token program",
            MitamaError::TokenMintMismatch => "Token mint mismatch",
            MitamaError::InvalidAgentName => "Invalid agent name",
            MitamaError::InsufficientStake => "Insufficient stake amount",
            MitamaError::AgentNotActive => "Agent not active",
        }
    }
}

} // verus!
