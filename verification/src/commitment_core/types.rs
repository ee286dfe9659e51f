use vstd::prelude::*;
use crate::validation::ValidationError;
use crate::commitment_core::error::CommitmentError;

verus! {

/// Rules governing a commitment: its duration, risk limits and penalties.
///
/// - "safe": max loss at most 10 %, early-exit penalty at least 15 %;
/// - "balanced": max loss at most 30 %, early-exit penalty at least 10 %;
/// - "aggressive": max loss at most 100 %, early-exit penalty at least 5 %.
pub struct CommitmentRules {
    pub duration_days: u32,
    pub max_loss_percent: u32,
    pub commitment_type: String,
    pub early_exit_penalty: u32,
    pub min_fee_threshold: i128,
    pub grace_period_days: u32,
}

impl Clone for CommitmentRules {
    fn clone(&self) -> (r: Self)
        ensures
            r == *self,
    {
        CommitmentRules {
            duration_days: self.duration_days,
            max_loss_percent: self.max_loss_percent,
            commitment_type: self.commitment_type.clone(),
            early_exit_penalty: self.early_exit_penalty,
            min_fee_threshold: self.min_fee_threshold,
            grace_period_days: self.grace_period_days,
        }
    }
}

/// The lifecycle state of a commitment.
#[derive(Clone, Copy, Debug, PartialEq, Eq, Structural)]
pub enum CommitmentStatus {
    Active,
    Settled,
    Violated,
    EarlyExit,
}

impl CommitmentStatus {
    pub open spec fn spec_text(self) -> Seq<char> {
        match self {
            CommitmentStatus::Active => "active"@,
            CommitmentStatus::Settled => "settled"@,
            CommitmentStatus::Violated => "violated"@,
            CommitmentStatus::EarlyExit => "early_exit"@,
        }
    }

    /// The status as the contracts store it.
    pub fn as_str(&self) -> (s: &'static str)
        ensures
            s@ == self.spec_text(),
    {
        match self {
            CommitmentStatus::Active => "active",
            CommitmentStatus::Settled => "settled",
            CommitmentStatus::Violated => "violated",
            CommitmentStatus::EarlyExit => "early_exit",
        }
    }
}

/// A commitment record.
pub struct Commitment {
    pub commitment_id: String,
    pub owner: String,
    pub nft_token_id: u32,
    pub rules: CommitmentRules,
    pub amount: i128,
    pub asset_address: String,
    pub created_at: u64,
    pub expires_at: u64,
    pub current_value: i128,
    pub status: CommitmentStatus,
}

impl Clone for Commitment {
    fn clone(&self) -> (r: Self)
        ensures
            r == *self,
    {
        Commitment {
            commitment_id: self.commitment_id.clone(),
            owner: self.owner.clone(),
            nft_token_id: self.nft_token_id,
            rules: self.rules.clone(),
            amount: self.amount,
            asset_address: self.asset_address.clone(),
            created_at: self.created_at,
            expires_at: self.expires_at,
            current_value: self.current_value,
            status: self.status,
        }
    }
}

/// A commitment-type rule that a set of commitment rules breaks.
#[derive(Clone, Copy, Debug, PartialEq, Eq, Structural)]
pub enum RuleViolation {
    SafeMaxLoss,
    SafePenalty,
    BalancedMaxLoss,
    BalancedPenalty,
    AggressivePenalty,
}

impl RuleViolation {
    pub open spec fn spec_message(self) -> Seq<char> {
        match self {
            RuleViolation::SafeMaxLoss => "Safe type: max_loss_percent must be <= 10"@,
            RuleViolation::SafePenalty => "Safe type: early_exit_penalty must be >= 15"@,
            RuleViolation::BalancedMaxLoss => "Balanced type: max_loss_percent must be <= 30"@,
            RuleViolation::BalancedPenalty => "Balanced type: early_exit_penalty must be >= 10"@,
            RuleViolation::AggressivePenalty => "Aggressive type: early_exit_penalty must be >= 5"@,
        }
    }

    /// The text with which the contract aborts on this violation.
    pub fn message(&self) -> (m: &'static str)
        ensures
            m@ == self.spec_message(),
    {
        match self {
            RuleViolation::SafeMaxLoss => "Safe type: max_loss_percent must be <= 10",
            RuleViolation::SafePenalty => "Safe type: early_exit_penalty must be >= 15",
            RuleViolation::BalancedMaxLoss => "Balanced type: max_loss_percent must be <= 30",
            RuleViolation::BalancedPenalty => "Balanced type: early_exit_penalty must be >= 10",
            RuleViolation::AggressivePenalty => "Aggressive type: early_exit_penalty must be >= 5",
        }
    }
}

/// Why a commitment-core operation was refused.
#[derive(Clone, Copy, Debug, PartialEq, Eq, Structural)]
pub enum CoreError {
    /// One of the contract's own errors.
    Contract(CommitmentError),
    /// An input guard rejected an argument.
    Invalid(ValidationError),
    /// The rules break a commitment-type constraint.
    Rule(RuleViolation),
    /// The contract is paused.
    Paused,
    /// The contract is in emergency mode.
    EmergencyMode,
    /// The operation needs emergency mode, which is off.
    NotEmergencyMode,
    /// The caller has used up its calls in the current rate-limit window.
    RateLimited,
}

impl CoreError {
    pub open spec fn spec_message(self) -> Seq<char> {
        match self {
            CoreError::Contract(e) => e.spec_message(),
            CoreError::Invalid(e) => e.spec_message(),
            CoreError::Rule(e) => e.spec_message(),
            CoreError::Paused => "Contract is paused"@,
            CoreError::EmergencyMode => "Contract is in emergency mode"@,
            CoreError::NotEmergencyMode => "Action only allowed in emergency mode"@,
            CoreError::RateLimited => "Rate limit exceeded"@,
        }
    }

    /// The text with which the contract aborts on this error.
    pub fn message(&self) -> (m: &'static str)
        ensures
            m@ == self.spec_message(),
    {
        match self {
            CoreError::Contract(e) => e.message(),
            CoreError::Invalid(e) => e.message(),
            CoreError::Rule(e) => e.message(),
            CoreError::Paused => "Contract is paused",
            CoreError::EmergencyMode => "Contract is in emergency mode",
            CoreError::NotEmergencyMode => "Action only allowed in emergency mode",
            CoreError::RateLimited => "Rate limit exceeded",
        }
    }
}

} // verus!
