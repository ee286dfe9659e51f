use vstd::prelude::*;

verus! {

/// Errors reported by the commitment transformation contract.
#[derive(Copy, Clone, Debug, PartialEq, Eq, Structural, PartialOrd, Ord)]
pub enum TransformationError {
    InvalidAmount,
    InvalidTrancheRatios,
    InvalidFeeBps,
    Unauthorized,
    NotInitialized,
    AlreadyInitialized,
    CommitmentNotFound,
    TransformationNotFound,
    InvalidState,
    ReentrancyDetected,
    FeeRecipientNotSet,
    InsufficientFees,
}

impl TransformationError {
    pub open spec fn spec_message(self) -> Seq<char> {
        match self {
            TransformationError::InvalidAmount => "Invalid amount: must be positive"@,
            TransformationError::InvalidTrancheRatios => "Tranche ratios must sum to 100"@,
            TransformationError::InvalidFeeBps => "Fee must be 0-10000 bps"@,
            TransformationError::Unauthorized => "Unauthorized: caller not owner or authorized"@,
            TransformationError::NotInitialized => "Contract not initialized"@,
            TransformationError::AlreadyInitialized => "Contract already initialized"@,
            TransformationError::CommitmentNotFound => "Commitment not found"@,
            TransformationError::TransformationNotFound => "Transformation record not found"@,
            TransformationError::InvalidState => "Invalid state for transformation"@,
            TransformationError::ReentrancyDetected => "Reentrancy detected"@,
            TransformationError::FeeRecipientNotSet => "Fee recipient not set"@,
            TransformationError::InsufficientFees => "Insufficient collected fees to withdraw"@,
        }
    }

    /// The human-readable text reported for this error.
    pub fn message(&self) -> (m: &'static str)
        ensures
            m@ == self.spec_message(),
    {
        match self {
            TransformationError::InvalidAmount => "Invalid amount: must be positive",
            TransformationError::InvalidTrancheRatios => "Tranche ratios must sum to 100",
            TransformationError::InvalidFeeBps => "Fee must be 0-10000 bps",
            TransformationError::Unauthorized => "Unauthorized: caller not owner or authorized",
            TransformationError::NotInitialized => "Contract not initialized",
            TransformationError::AlreadyInitialized => "Contract already initialized",
            TransformationError::CommitmentNotFound => "Commitment not found",
            TransformationError::TransformationNotFound => "Transformation record not found",
            TransformationError::InvalidState => "Invalid state for transformation",
            TransformationError::ReentrancyDetected => "Reentrancy detected",
            TransformationError::FeeRecipientNotSet => "Fee recipient not set",
            TransformationError::InsufficientFees => "Insufficient collected fees to withdraw",
        }
    }

    pub open spec fn spec_code(self) -> u32 {
        match self {
            TransformationError::InvalidAmount => 1u32,
            TransformationError::InvalidTrancheRatios => 2u32,
            TransformationError::InvalidFeeBps => 3u32,
            TransformationError::Unauthorized => 4u32,
            TransformationError::NotInitialized => 5u32,
            TransformationError::AlreadyInitialized => 6u32,
            TransformationError::CommitmentNotFound => 7u32,
            TransformationError::TransformationNotFound => 8u32,
            TransformationError::InvalidState => 9u32,
            TransformationError::ReentrancyDetected => 10u32,
            TransformationError::FeeRecipientNotSet => 11u32,
            TransformationError::InsufficientFees => 12u32,
        }
    }

    /// The contract error code of this error.
    pub fn code(&self) -> (c: u32)
        ensures
            c == self.spec_code(),
    {
        match self {
            TransformationError::InvalidAmount => 1,
            TransformationError::InvalidTrancheRatios => 2,
            TransformationError::InvalidFeeBps => 3,
            TransformationError::Unauthorized => 4,
            TransformationError::NotInitialized => 5,
            TransformationError::AlreadyInitialized => 6,
            TransformationError::CommitmentNotFound => 7,
            TransformationError::TransformationNotFound => 8,
            TransformationError::InvalidState => 9,
            TransformationError::ReentrancyDetected => 10,
            TransformationError::FeeRecipientNotSet => 11,
            TransformationError::InsufficientFees => 12,
        }
    }
}
} // verus!
