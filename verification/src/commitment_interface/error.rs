use vstd::prelude::*;
use core::cmp::Ordering;
use vstd::std_specs::cmp::PartialOrdSpecImpl;

verus! {

/// Standardized errors of the commitment interface, grouped by code range: validation (1-99), authorization (100-199), state (200-299), resource (300-399) and system (400-499).
#[derive(Copy, Clone, Debug, PartialEq, Eq, Structural, Ord)]
pub enum Error {
    InvalidAmount,
    InvalidDuration,
    InvalidPercent,
    InvalidType,
    OutOfRange,
    EmptyString,
    Unauthorized,
    NotOwner,
    NotAdmin,
    NotAuthorizedContract,
    AlreadyInitialized,
    NotInitialized,
    WrongState,
    AlreadyProcessed,
    ReentrancyDetected,
    NotActive,
    NotFound,
    InsufficientBalance,
    InsufficientValue,
    TransferFailed,
    StorageError,
    ContractCallFailed,
}

impl Error {
    pub open spec fn spec_message(self) -> Seq<char> {
        match self {
            Error::InvalidAmount => "Invalid amount: must be greater than zero"@,
            Error::InvalidDuration => "Invalid duration: must be greater than zero"@,
            Error::InvalidPercent => "Invalid percent: must be between 0 and 100"@,
            Error::InvalidType => "Invalid type: value not allowed"@,
            Error::OutOfRange => "Value out of allowed range"@,
            Error::EmptyString => "Required field must not be empty"@,
            Error::Unauthorized => "Unauthorized: caller not allowed"@,
            Error::NotOwner => "Caller is not the owner"@,
            Error::NotAdmin => "Caller is not the admin"@,
            Error::NotAuthorizedContract => "Caller contract not authorized"@,
            Error::AlreadyInitialized => "Contract already initialized"@,
            Error::NotInitialized => "Contract not initialized"@,
            Error::WrongState => "Invalid state for this operation"@,
            Error::AlreadyProcessed => "Item already processed"@,
            Error::ReentrancyDetected => "Reentrancy detected"@,
            Error::NotActive => "Commitment or item not active"@,
            Error::NotFound => "Resource not found"@,
            Error::InsufficientBalance => "Insufficient balance"@,
            Error::InsufficientValue => "Insufficient commitment value"@,
            Error::TransferFailed => "Token transfer failed"@,
            Error::StorageError => "Storage operation failed"@,
            Error::ContractCallFailed => "Cross-contract call failed"@,
        }
    }

    /// The human-readable text reported for this error.
    pub fn message(&self) -> (m: &'static str)
        ensures
            m@ == self.spec_message(),
    {
        match self {
            Error::InvalidAmount => "Invalid amount: must be greater than zero",
            Error::InvalidDuration => "Invalid duration: must be greater than zero",
            Error::InvalidPercent => "Invalid percent: must be between 0 and 100",
            Error::InvalidType => "Invalid type: value not allowed",
            Error::OutOfRange => "Value out of allowed range",
            Error::EmptyString => "Required field must not be empty",
            Error::Unauthorized => "Unauthorized: caller not allowed",
            Error::NotOwner => "Caller is not the owner",
            Error::NotAdmin => "Caller is not the admin",
            Error::NotAuthorizedContract => "Caller contract not authorized",
            Error::AlreadyInitialized => "Contract already initialized",
            Error::NotInitialized => "Contract not initialized",
            Error::WrongState => "Invalid state for this operation",
            Error::AlreadyProcessed => "Item already processed",
            Error::ReentrancyDetected => "Reentrancy detected",
            Error::NotActive => "Commitment or item not active",
            Error::NotFound => "Resource not found",
            Error::InsufficientBalance => "Insufficient balance",
            Error::InsufficientValue => "Insufficient commitment value",
            Error::TransferFailed => "Token transfer failed",
            Error::StorageError => "Storage operation failed",
            Error::ContractCallFailed => "Cross-contract call failed",
        }
    }

    pub open spec fn spec_code(self) -> u32 {
        match self {
            Error::InvalidAmount => 1u32,
            Error::InvalidDuration => 2u32,
            Error::InvalidPercent => 3u32,
            Error::InvalidType => 4u32,
            Error::OutOfRange => 5u32,
            Error::EmptyString => 6u32,
            Error::Unauthorized => 100u32,
            Error::NotOwner => 101u32,
            Error::NotAdmin => 102u32,
            Error::NotAuthorizedContract => 103u32,
            Error::AlreadyInitialized => 200u32,
            Error::NotInitialized => 201u32,
            Error::WrongState => 202u32,
            Error::AlreadyProcessed => 203u32,
            Error::ReentrancyDetected => 204u32,
            Error::NotActive => 205u32,
            Error::NotFound => 300u32,
            Error::InsufficientBalance => 301u32,
            Error::InsufficientValue => 302u32,
            Error::TransferFailed => 303u32,
            Error::StorageError => 400u32,
            Error::ContractCallFailed => 401u32,
        }
    }

    /// The standardized numeric code of this error.
    pub fn code(&self) -> (c: u32)
        ensures
            c == self.spec_code(),
    {
        match self {
            Error::InvalidAmount => 1,
            Error::InvalidDuration => 2,
            Error::InvalidPercent => 3,
            Error::InvalidType => 4,
            Error::OutOfRange => 5,
            Error::EmptyString => 6,
            Error::Unauthorized => 100,
            Error::NotOwner => 101,
            Error::NotAdmin => 102,
            Error::NotAuthorizedContract => 103,
            Error::AlreadyInitialized => 200,
            Error::NotInitialized => 201,
            Error::WrongState => 202,
            Error::AlreadyProcessed => 203,
            Error::ReentrancyDetected => 204,
            Error::NotActive => 205,
            Error::NotFound => 300,
            Error::InsufficientBalance => 301,
            Error::InsufficientValue => 302,
            Error::TransferFailed => 303,
            Error::StorageError => 400,
            Error::ContractCallFailed => 401,
        }
    }
}
/// Errors are ordered by their codes, which follow the order of the
/// catalogue.
impl PartialOrd for Error {
    fn partial_cmp(&self, other: &Self) -> (r: Option<Ordering>) {
        let a = self.code();
        let b = other.code();
        if a < b {
            Some(Ordering::Less)
        } else if a == b {
            Some(Ordering::Equal)
        } else {
            Some(Ordering::Greater)
        }
    }
}

impl PartialOrdSpecImpl for Error {
    open spec fn obeys_partial_cmp_spec() -> bool {
        true
    }

    open spec fn partial_cmp_spec(&self, other: &Self) -> Option<Ordering> {
        if self.spec_code() < other.spec_code() {
            Some(Ordering::Less)
        } else if self.spec_code() == other.spec_code() {
            Some(Ordering::Equal)
        } else {
            Some(Ordering::Greater)
        }
    }
}

/// Two errors compare as their codes do: one is below another exactly when
/// its code is smaller, and they are equal exactly when their codes are.
pub proof fn law_error_order_follows_codes(a: Error, b: Error)
    ensures
        (vstd::std_specs::cmp::PartialOrdSpec::partial_cmp_spec(&a, &b) == Some(Ordering::Less)) == (a.spec_code() < b.spec_code()),
        (vstd::std_specs::cmp::PartialOrdSpec::partial_cmp_spec(&a, &b) == Some(Ordering::Greater)) == (a.spec_code() > b.spec_code()),
        (a == b) == (a.spec_code() == b.spec_code()),
{
    if a != b {
        law_error_codes_distinct(a, b);
    }
}

/// Every error code lies in exactly one of the five category ranges, and the
/// range matches the error's kind.
pub proof fn law_error_codes_in_category(e: Error)
    ensures
        1 <= e.spec_code() <= 99 <==> (e == Error::InvalidAmount || e == Error::InvalidDuration
            || e == Error::InvalidPercent || e == Error::InvalidType || e == Error::OutOfRange
            || e == Error::EmptyString),
        100 <= e.spec_code() <= 199 <==> (e == Error::Unauthorized || e == Error::NotOwner
            || e == Error::NotAdmin || e == Error::NotAuthorizedContract),
        200 <= e.spec_code() <= 299 <==> (e == Error::AlreadyInitialized || e
            == Error::NotInitialized || e == Error::WrongState || e == Error::AlreadyProcessed
            || e == Error::ReentrancyDetected || e == Error::NotActive),
        300 <= e.spec_code() <= 399 <==> (e == Error::NotFound || e == Error::InsufficientBalance
            || e == Error::InsufficientValue || e == Error::TransferFailed),
        400 <= e.spec_code() <= 499 <==> (e == Error::StorageError || e
            == Error::ContractCallFailed),
{
}

/// Distinct errors have distinct codes.
pub proof fn law_error_codes_distinct(a: Error, b: Error)
    requires
        a != b,
    ensures
        a.spec_code() != b.spec_code(),
{
}

} // verus!
