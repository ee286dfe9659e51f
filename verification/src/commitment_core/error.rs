use vstd::prelude::*;

verus! {

/// Errors reported by the commitment core contract; the contract code of each is its position in this list, counted from one.
#[derive(Copy, Clone, Debug, PartialEq, Eq, Structural, PartialOrd, Ord)]
pub enum CommitmentError {
    InvalidDuration,
    InvalidMaxLossPercent,
    InvalidCommitmentType,
    InvalidAmount,
    InsufficientBalance,
    TransferFailed,
    MintingFailed,
    CommitmentNotFound,
    Unauthorized,
    AlreadyInitialized,
    AlreadySettled,
    ReentrancyDetected,
    NotActive,
    InvalidStatus,
    NotInitialized,
    NotExpired,
    ValueUpdateViolation,
    NotAuthorizedUpdater,
    ZeroAddress,
    ExpirationOverflow,
    InvalidFeeBps,
    FeeRecipientNotSet,
    InsufficientFees,
    ArithmeticOverflow,
}

impl CommitmentError {
    pub open spec fn spec_message(self) -> Seq<char> {
        match self {
            CommitmentError::InvalidDuration => "Invalid duration: must be greater than zero"@,
            CommitmentError::InvalidMaxLossPercent => "Invalid max loss: must be 0-100"@,
            CommitmentError::InvalidCommitmentType => "Invalid commitment type"@,
            CommitmentError::InvalidAmount => "Invalid amount: must be greater than zero"@,
            CommitmentError::InsufficientBalance => "Insufficient balance"@,
            CommitmentError::TransferFailed => "Token transfer failed"@,
            CommitmentError::MintingFailed => "NFT minting failed"@,
            CommitmentError::CommitmentNotFound => "Commitment not found"@,
            CommitmentError::Unauthorized => "Unauthorized: caller not allowed"@,
            CommitmentError::AlreadyInitialized => "Contract already initialized"@,
            CommitmentError::AlreadySettled => "Commitment already settled"@,
            CommitmentError::ReentrancyDetected => "Reentrancy detected"@,
            CommitmentError::NotActive => "Commitment is not active"@,
            CommitmentError::InvalidStatus => "Invalid commitment status for this operation"@,
            CommitmentError::NotInitialized => "Contract not initialized"@,
            CommitmentError::NotExpired => "Commitment has not expired yet"@,
            CommitmentError::ValueUpdateViolation => "Commitment has value update violation"@,
            CommitmentError::NotAuthorizedUpdater => "Caller is not an authorized value updater"@,
            CommitmentError::ZeroAddress => "Zero address is not allowed"@,
            CommitmentError::ExpirationOverflow => "Duration would cause expiration timestamp overflow"@,
            CommitmentError::InvalidFeeBps => "Invalid fee basis points: must be 0-10000"@,
            CommitmentError::FeeRecipientNotSet => "Fee recipient not set; cannot withdraw"@,
            CommitmentError::InsufficientFees => "Insufficient collected fees to withdraw"@,
            CommitmentError::ArithmeticOverflow => "Arithmetic overflow or underflow"@,
        }
    }

    /// The human-readable text reported for this error.
    pub fn message(&self) -> (m: &'static str)
        ensures
            m@ == self.spec_message(),
    {
        match self {
            CommitmentError::InvalidDuration => "Invalid duration: must be greater than zero",
            CommitmentError::InvalidMaxLossPercent => "Invalid max loss: must be 0-100",
            CommitmentError::InvalidCommitmentType => "Invalid commitment type",
            CommitmentError::InvalidAmount => "Invalid amount: must be greater than zero",
            CommitmentError::InsufficientBalance => "Insufficient balance",
            CommitmentError::TransferFailed => "Token transfer failed",
            CommitmentError::MintingFailed => "NFT minting failed",
            CommitmentError::CommitmentNotFound => "Commitment not found",
            CommitmentError::Unauthorized => "Unauthorized: caller not allowed",
            CommitmentError::AlreadyInitialized => "Contract already initialized",
            CommitmentError::AlreadySettled => "Commitment already settled",
            CommitmentError::ReentrancyDetected => "Reentrancy detected",
            CommitmentError::NotActive => "Commitment is not active",
            CommitmentError::InvalidStatus => "Invalid commitment status for this operation",
            CommitmentError::NotInitialized => "Contract not initialized",
            CommitmentError::NotExpired => "Commitment has not expired yet",
            CommitmentError::ValueUpdateViolation => "Commitment has value update violation",
            CommitmentError::NotAuthorizedUpdater => "Caller is not an authorized value updater",
            CommitmentError::ZeroAddress => "Zero address is not allowed",
            CommitmentError::ExpirationOverflow => "Duration would cause expiration timestamp overflow",
            CommitmentError::InvalidFeeBps => "Invalid fee basis points: must be 0-10000",
            CommitmentError::FeeRecipientNotSet => "Fee recipient not set; cannot withdraw",
            CommitmentError::InsufficientFees => "Insufficient collected fees to withdraw",
            CommitmentError::ArithmeticOverflow => "Arithmetic overflow or underflow",
        }
    }

    pub open spec fn spec_code(self) -> u32 {
        match self {
            CommitmentError::InvalidDuration => 1u32,
            CommitmentError::InvalidMaxLossPercent => 2u32,
            CommitmentError::InvalidCommitmentType => 3u32,
            CommitmentError::InvalidAmount => 4u32,
            CommitmentError::InsufficientBalance => 5u32,
            CommitmentError::TransferFailed => 6u32,
            CommitmentError::MintingFailed => 7u32,
            CommitmentError::CommitmentNotFound => 8u32,
            CommitmentError::Unauthorized => 9u32,
            CommitmentError::AlreadyInitialized => 10u32,
            CommitmentError::AlreadySettled => 11u32,
            CommitmentError::ReentrancyDetected => 12u32,
            CommitmentError::NotActive => 13u32,
            CommitmentError::InvalidStatus => 14u32,
            CommitmentError::NotInitialized => 15u32,
            CommitmentError::NotExpired => 16u32,
            CommitmentError::ValueUpdateViolation => 17u32,
            CommitmentError::NotAuthorizedUpdater => 18u32,
            CommitmentError::ZeroAddress => 19u32,
            CommitmentError::ExpirationOverflow => 20u32,
            CommitmentError::InvalidFeeBps => 21u32,
            CommitmentError::FeeRecipientNotSet => 22u32,
            CommitmentError::InsufficientFees => 23u32,
            CommitmentError::ArithmeticOverflow => 24u32,
        }
    }

    /// The contract error code of this error.
    pub fn code(&self) -> (c: u32)
        ensures
            c == self.spec_code(),
    {
        match self {
            CommitmentError::InvalidDuration => 1,
            CommitmentError::InvalidMaxLossPercent => 2,
            CommitmentError::InvalidCommitmentType => 3,
            CommitmentError::InvalidAmount => 4,
            CommitmentError::InsufficientBalance => 5,
            CommitmentError::TransferFailed => 6,
            CommitmentError::MintingFailed => 7,
            CommitmentError::CommitmentNotFound => 8,
            CommitmentError::Unauthorized => 9,
            CommitmentError::AlreadyInitialized => 10,
            CommitmentError::AlreadySettled => 11,
            CommitmentError::ReentrancyDetected => 12,
            CommitmentError::NotActive => 13,
            CommitmentError::InvalidStatus => 14,
            CommitmentError::NotInitialized => 15,
            CommitmentError::NotExpired => 16,
            CommitmentError::ValueUpdateViolation => 17,
            CommitmentError::NotAuthorizedUpdater => 18,
            CommitmentError::ZeroAddress => 19,
            CommitmentError::ExpirationOverflow => 20,
            CommitmentError::InvalidFeeBps => 21,
            CommitmentError::FeeRecipientNotSet => 22,
            CommitmentError::InsufficientFees => 23,
            CommitmentError::ArithmeticOverflow => 24,
        }
    }
}
} // verus!
