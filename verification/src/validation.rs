use vstd::prelude::*;
use crate::ids::{append_signed, signed_decimal};

verus! {

/// The reason a guard rejected its input.
#[derive(Clone, Copy, Debug, PartialEq, Eq, Structural)]
pub enum ValidationError {
    NonPositiveAmount,
    NegativeAmount,
    ZeroDuration,
    PercentOutOfRange,
    PercentSumMismatch,
    UnknownCommitmentType,
    FeeBpsOutOfRange,
    ZeroFee,
    DurationExceedsMax,
    Expired,
}

impl ValidationError {
    pub open spec fn spec_message(self) -> Seq<char> {
        match self {
            ValidationError::NonPositiveAmount => "Invalid amount: must be greater than zero"@,
            ValidationError::NegativeAmount => "Invalid amount: must be non-negative"@,
            ValidationError::ZeroDuration => "Invalid duration: must be greater than zero"@,
            ValidationError::PercentOutOfRange => "Invalid percent: must be between 0 and 100"@,
            ValidationError::PercentSumMismatch => "Invalid percent sum: must sum to exactly 100"@,
            ValidationError::UnknownCommitmentType => "Invalid commitment type: must be one of the allowed types"@,
            ValidationError::FeeBpsOutOfRange => "Invalid fee: basis points must be between 0 and 10000"@,
            ValidationError::ZeroFee => "Invalid fee: must be greater than zero"@,
            ValidationError::DurationExceedsMax => "duration_exceeds_max"@,
            ValidationError::Expired => "expired"@,
        }
    }

    /// The text with which a contract aborts on this error.
    pub fn message(&self) -> (m: &'static str)
        ensures
            m@ == self.spec_message(),
    {
        match self {
            ValidationError::NonPositiveAmount => "Invalid amount: must be greater than zero",
            ValidationError::NegativeAmount => "Invalid amount: must be non-negative",
            ValidationError::ZeroDuration => "Invalid duration: must be greater than zero",
            ValidationError::PercentOutOfRange => "Invalid percent: must be between 0 and 100",
            ValidationError::PercentSumMismatch => "Invalid percent sum: must sum to exactly 100",
            ValidationError::UnknownCommitmentType => "Invalid commitment type: must be one of the allowed types",
            ValidationError::FeeBpsOutOfRange => "Invalid fee: basis points must be between 0 and 10000",
            ValidationError::ZeroFee => "Invalid fee: must be greater than zero",
            ValidationError::DurationExceedsMax => "duration_exceeds_max",
            ValidationError::Expired => "expired",
        }
    }
}

/// A rejected field: the rule it broke, with the field's name and the bounds
/// that the rule names.
#[derive(Debug)]
pub enum FieldError {
    OutOfRange { field: String, min: i128, max: i128 },
    BelowMinimum { field: String, min: i128 },
    AboveMaximum { field: String, max: i128 },
    Empty { field: String },
}

impl FieldError {
    pub open spec fn spec_message(self) -> Seq<char> {
        match self {
            FieldError::OutOfRange { field, min, max } => "Invalid "@ + field@ + ": must be between "@
                + signed_decimal(min as int) + " and "@ + signed_decimal(max as int),
            FieldError::BelowMinimum { field, min } => "Invalid "@ + field@ + ": must be at least "@
                + signed_decimal(min as int),
            FieldError::AboveMaximum { field, max } => "Invalid "@ + field@ + ": must be at most "@
                + signed_decimal(max as int),
            FieldError::Empty { field } => "Invalid "@ + field@ + ": must not be empty"@,
        }
    }

    /// The text with which a contract aborts on this error, naming the field
    /// and the bounds.
    pub fn message(&self) -> (m: String)
        ensures
            m@ == self.spec_message(),
    {
        let mut m = "Invalid ".to_owned();
        match self {
            FieldError::OutOfRange { field, min, max } => {
                m.append(field.as_str());
                m.append(": must be between ");
                append_signed(&mut m, *min);
                m.append(" and ");
                append_signed(&mut m, *max);
            },
            FieldError::BelowMinimum { field, min } => {
                m.append(field.as_str());
                m.append(": must be at least ");
                append_signed(&mut m, *min);
            },
            FieldError::AboveMaximum { field, max } => {
                m.append(field.as_str());
                m.append(": must be at most ");
                append_signed(&mut m, *max);
            },
            FieldError::Empty { field } => {
                m.append(field.as_str());
                m.append(": must not be empty");
            },
        }
        m
    }
}

/// Sum of a sequence of percentages, as a mathematical integer.
pub open spec fn percent_total(s: Seq<u32>) -> int
    decreases s.len(),
{
    if s.len() == 0 {
        0
    } else {
        percent_total(s.drop_last()) + s.last()
    }
}

/// True when some element of `s` exceeds one hundred.
pub open spec fn has_percent_above_100(s: Seq<u32>) -> bool {
    exists|i: int| 0 <= i < s.len() && s[i] > 100
}

/// True when `t` equals one of the allowed type names.
pub open spec fn is_allowed_type(t: Seq<char>, allowed: Seq<&str>) -> bool {
    exists|i: int| 0 <= i < allowed.len() && allowed[i]@ == t
}

/// Deterministic input guards shared by the contracts.
pub struct Validation;

impl Validation {
    /// Accepts exactly the amounts greater than zero.
    pub fn require_positive(amount: i128) -> (r: Result<(), ValidationError>)
        ensures
            r is Ok <==> amount > 0,
            r is Err ==> r == Err::<(), ValidationError>(ValidationError::NonPositiveAmount),
    {
        if amount <= 0 {
            return Err(ValidationError::NonPositiveAmount);
        }
        Ok(())
    }

    /// Accepts exactly the amounts greater than or equal to zero.
    pub fn require_non_negative(amount: i128) -> (r: Result<(), ValidationError>)
        ensures
            r is Ok <==> amount >= 0,
            r is Err ==> r == Err::<(), ValidationError>(ValidationError::NegativeAmount),
    {
        if amount < 0 {
            return Err(ValidationError::NegativeAmount);
        }
        Ok(())
    }

    /// Accepts exactly the non-zero durations.
    pub fn require_valid_duration(duration_days: u32) -> (r: Result<(), ValidationError>)
        ensures
            r is Ok <==> duration_days > 0,
            r is Err ==> r == Err::<(), ValidationError>(ValidationError::ZeroDuration),
    {
        if duration_days == 0 {
            return Err(ValidationError::ZeroDuration);
        }
        Ok(())
    }

    /// Accepts exactly the percentages from 0 to 100 inclusive.
    pub fn require_valid_percent(percent: u32) -> (r: Result<(), ValidationError>)
        ensures
            r is Ok <==> percent <= 100,
            r is Err ==> r == Err::<(), ValidationError>(ValidationError::PercentOutOfRange),
    {
        if percent > 100 {
            return Err(ValidationError::PercentOutOfRange);
        }
        Ok(())
    }

    /// Accepts a list of percentages when each lies in 0..=100 and they sum to
    /// exactly 100; an out-of-range element is reported before a wrong sum.
    pub fn require_percent_sum(percents: &[u32]) -> (r: Result<(), ValidationError>)
        ensures
            has_percent_above_100(percents@) ==> r == Err::<(), ValidationError>(
                ValidationError::PercentOutOfRange,
            ),
            !has_percent_above_100(percents@) && percent_total(percents@) != 100 ==> r == Err::<
                (),
                ValidationError,
            >(ValidationError::PercentSumMismatch),
            r is Ok <==> !has_percent_above_100(percents@) && percent_total(percents@) == 100,
    {
        let mut sum: u128 = 0;
        let mut i: usize = 0;
        while i < percents.len()
            invariant
                0 <= i <= percents@.len(),
                sum == percent_total(percents@.take(i as int)),
                sum <= 100 * i,
                forall|j: int| 0 <= j < i ==> percents@[j] <= 100,
            decreases percents@.len() - i,
        {
            let p = percents[i];
            if p > 100 {
                return Err(ValidationError::PercentOutOfRange);
            }
            assert(percents@.take(i + 1).drop_last() =~= percents@.take(i as int));
            sum = sum + p as u128;
            i = i + 1;
        }
        assert(percents@.take(i as int) =~= percents@);
        if sum != 100 {
            return Err(ValidationError::PercentSumMismatch);
        }
        Ok(())
    }

    /// Accepts exactly the non-empty strings; a refusal names the field.
    pub fn require_non_empty_string(value: &String, field_name: &str) -> (r: Result<(), FieldError>)
        ensures
            r is Ok <==> value@.len() > 0,
            r matches Err(e) ==> e matches FieldError::Empty { field } && field@ == field_name@,
            r matches Err(e) ==> e.spec_message() == "Invalid "@ + field_name@ + ": must not be empty"@,
    {
        if value.as_str().is_empty() {
            return Err(FieldError::Empty { field: field_name.to_owned() });
        }
        Ok(())
    }

    /// Accepts every address: the ledger only hands out well-formed ones, and
    /// the contracts that refuse the zero address check for it themselves.
    pub fn require_non_zero_address(_address: &String) {
    }

    /// Accepts a commitment type exactly when it equals one of `allowed_types`
    /// (case-sensitive).
    pub fn require_valid_commitment_type(commitment_type: &String, allowed_types: &[&str]) -> (r:
        Result<(), ValidationError>)
        ensures
            r is Ok <==> is_allowed_type(commitment_type@, allowed_types@),
            r is Err ==> r == Err::<(), ValidationError>(ValidationError::UnknownCommitmentType),
    {
        let mut i: usize = 0;
        while i < allowed_types.len()
            invariant
                0 <= i <= allowed_types@.len(),
                forall|j: int| 0 <= j < i ==> allowed_types@[j]@ != commitment_type@,
            decreases allowed_types@.len() - i,
        {
            let candidate = allowed_types[i].to_owned();
            if *commitment_type == candidate {
                return Ok(());
            }
            i = i + 1;
        }
        Err(ValidationError::UnknownCommitmentType)
    }

    /// Accepts exactly the values with `min <= value <= max`; a refusal names
    /// the field and both bounds.
    pub fn require_in_range(value: i128, min: i128, max: i128, field_name: &str) -> (r: Result<(), FieldError>)
        ensures
            r is Ok <==> min <= value <= max,
            r matches Err(e) ==> e matches FieldError::OutOfRange { field, min: lo, max: hi } && field@
                == field_name@ && lo == min && hi == max,
            r matches Err(e) ==> e.spec_message() == "Invalid "@ + field_name@ + ": must be between "@
                + signed_decimal(min as int) + " and "@ + signed_decimal(max as int),
    {
        if value < min || value > max {
            return Err(FieldError::OutOfRange { field: field_name.to_owned(), min, max });
        }
        Ok(())
    }

    /// Accepts exactly the values with `value >= min`; a refusal names the
    /// field and the minimum.
    pub fn require_min(value: i128, min: i128, field_name: &str) -> (r: Result<(), FieldError>)
        ensures
            r is Ok <==> value >= min,
            r matches Err(e) ==> e matches FieldError::BelowMinimum { field, min: lo } && field@ == field_name@
                && lo == min,
            r matches Err(e) ==> e.spec_message() == "Invalid "@ + field_name@ + ": must be at least "@
                + signed_decimal(min as int),
    {
        if value < min {
            return Err(FieldError::BelowMinimum { field: field_name.to_owned(), min });
        }
        Ok(())
    }

    /// Accepts exactly the values with `value <= max`; a refusal names the
    /// field and the maximum.
    pub fn require_max(value: i128, max: i128, field_name: &str) -> (r: Result<(), FieldError>)
        ensures
            r is Ok <==> value <= max,
            r matches Err(e) ==> e matches FieldError::AboveMaximum { field, max: hi } && field@ == field_name@
                && hi == max,
            r matches Err(e) ==> e.spec_message() == "Invalid "@ + field_name@ + ": must be at most "@
                + signed_decimal(max as int),
    {
        if value > max {
            return Err(FieldError::AboveMaximum { field: field_name.to_owned(), max });
        }
        Ok(())
    }
}

} // verus!
