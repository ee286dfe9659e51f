use vstd::prelude::*;
use soroban_sdk::Env;
use crate::validation::ValidationError;

verus! {

/// The maximum number of days a duration may span (about 200 years).
pub const MAX_DURATION_DAYS: u32 = 73_000;

/// Seconds in one minute.
pub const SECONDS_PER_MINUTE: u64 = 60;

/// Seconds in one hour.
pub const SECONDS_PER_HOUR: u64 = 3_600;

/// Seconds in one day.
pub const SECONDS_PER_DAY: u64 = 86_400;

#[verifier::external_type_specification]
#[verifier::external_body]
pub struct ExEnv(Env);

/// Reads the ledger's close time through `soroban_sdk::Ledger::timestamp`.
/// Nothing is claimed of the value: it is whatever the host reports.
#[verifier::external_body]
fn ledger_timestamp(e: &Env) -> (t: u64) {
    e.ledger().timestamp()
}

/// `now + days * 86_400`, reduced modulo 2^64.
pub open spec fn wrapped_expiration(now: int, days: int) -> int {
    (now + days * 86_400) % 0x1_0000_0000_0000_0000
}

/// `now + days * 86_400` when it fits in a `u64`, else `None`.
pub open spec fn checked_expiration(now: int, days: int) -> Option<u64> {
    if now + days * 86_400 <= u64::MAX {
        Some((now + days * 86_400) as u64)
    } else {
        None
    }
}

/// Timestamp and duration helpers.
pub struct TimeUtils;

impl TimeUtils {
    /// The current ledger timestamp in seconds since the Unix epoch.
    pub fn now(e: &Env) -> (t: u64) {
        ledger_timestamp(e)
    }

    /// `days` in seconds.
    pub fn days_to_seconds(days: u32) -> (s: u64)
        ensures
            s == days * 86_400,
    {
        days as u64 * SECONDS_PER_DAY
    }

    /// `days` in seconds; never `None`, since every `u32` day count fits.
    pub fn checked_days_to_seconds(days: u32) -> (s: Option<u64>)
        ensures
            s == Some((days * 86_400) as u64),
    {
        (days as u64).checked_mul(SECONDS_PER_DAY)
    }

    /// `hours` in seconds.
    pub fn hours_to_seconds(hours: u32) -> (s: u64)
        ensures
            s == hours * 3_600,
    {
        hours as u64 * SECONDS_PER_HOUR
    }

    /// `minutes` in seconds.
    pub fn minutes_to_seconds(minutes: u32) -> (s: u64)
        ensures
            s == minutes * 60,
    {
        minutes as u64 * SECONDS_PER_MINUTE
    }

    /// Whole days in `seconds`, capped at `u32::MAX`.
    pub fn seconds_to_days(seconds: u64) -> (d: u32)
        ensures
            d == (if seconds / 86_400 <= u32::MAX { (seconds / 86_400) as int } else { u32::MAX as int }),
    {
        let days = seconds / SECONDS_PER_DAY;
        if days <= u32::MAX as u64 {
            days as u32
        } else {
            u32::MAX
        }
    }

    /// The expiration `duration_days` after `now`, with wrapping addition.
    pub fn expiration_at(now: u64, duration_days: u32) -> (exp: u64)
        ensures
            exp == wrapped_expiration(now as int, duration_days as int),
    {
        now.wrapping_add(Self::days_to_seconds(duration_days))
    }

    /// The expiration `duration_days` after the current ledger time, with
    /// wrapping addition.
    pub fn calculate_expiration(e: &Env, duration_days: u32) -> (exp: u64)
        ensures
            exists|t: u64| exp == wrapped_expiration(t as int, duration_days as int),
    {
        let current_time = Self::now(e);
        Self::expiration_at(current_time, duration_days)
    }

    /// The expiration `duration_days` after `now`, or `None` when it would
    /// pass `u64::MAX`.
    pub fn checked_expiration_at(now: u64, duration_days: u32) -> (exp: Option<u64>)
        ensures
            now + duration_days * 86_400 <= u64::MAX ==> exp == Some(
                (now + duration_days * 86_400) as u64,
            ),
            now + duration_days * 86_400 > u64::MAX ==> exp is None,
    {
        let duration_seconds = match Self::checked_days_to_seconds(duration_days) {
            Some(s) => s,
            None => return None,
        };
        now.checked_add(duration_seconds)
    }

    /// The expiration `duration_days` after the current ledger time, or `None`
    /// on overflow.
    pub fn checked_calculate_expiration(e: &Env, duration_days: u32) -> (exp: Option<u64>)
        ensures
            exists|t: u64| exp == #[trigger] checked_expiration(t as int, duration_days as int),
            exp matches Some(x) ==> x >= duration_days * 86_400,
            duration_days == 0 ==> exp is Some,
    {
        let current_time = Self::now(e);
        let exp = Self::checked_expiration_at(current_time, duration_days);
        assert(exp == checked_expiration(current_time as int, duration_days as int));
        exp
    }

    /// Whether `expiration` has been reached at time `now` (inclusive).
    pub fn is_expired_at(now: u64, expiration: u64) -> (r: bool)
        ensures
            r == (now >= expiration),
    {
        now >= expiration
    }

    /// Whether `expiration` has been reached at the current ledger time.
    pub fn is_expired(e: &Env, expiration: u64) -> (r: bool)
        ensures
            expiration == 0 ==> r,
    {
        Self::is_expired_at(Self::now(e), expiration)
    }

    /// Whether `expiration` still lies ahead of `now`.
    pub fn is_valid_at(now: u64, expiration: u64) -> (r: bool)
        ensures
            r == (now < expiration),
            r == !(now >= expiration),
    {
        !Self::is_expired_at(now, expiration)
    }

    /// Whether `expiration` still lies ahead of the current ledger time.
    pub fn is_valid(e: &Env, expiration: u64) -> (r: bool)
        ensures
            expiration == 0 ==> !r,
    {
        !Self::is_expired(e, expiration)
    }

    /// Seconds from `now` until `expiration`, or 0 once it has passed.
    pub fn time_remaining_at(now: u64, expiration: u64) -> (r: u64)
        ensures
            r == (if expiration > now { expiration - now } else { 0 }),
    {
        expiration.saturating_sub(now)
    }

    /// Seconds from the current ledger time until `expiration`, or 0.
    pub fn time_remaining(e: &Env, expiration: u64) -> (r: u64)
        ensures
            r <= expiration,
    {
        Self::time_remaining_at(Self::now(e), expiration)
    }

    /// Seconds from `start_time` to `now`, or 0 when `start_time` is later.
    pub fn elapsed_at(now: u64, start_time: u64) -> (r: u64)
        ensures
            r == (if now > start_time { now - start_time } else { 0 }),
    {
        now.saturating_sub(start_time)
    }

    /// Seconds from `start_time` to the current ledger time, or 0.
    pub fn elapsed(e: &Env, start_time: u64) -> (r: u64)
        ensures
            r <= u64::MAX - start_time,
    {
        Self::elapsed_at(Self::now(e), start_time)
    }

    /// Whether two timestamps fall in the same 86 400-second day from epoch.
    pub fn is_same_day(ts_a: u64, ts_b: u64) -> (r: bool)
        ensures
            r == (ts_a / 86_400 == ts_b / 86_400),
    {
        ts_a / SECONDS_PER_DAY == ts_b / SECONDS_PER_DAY
    }

    /// Whether `start <= ts < end`; always false for an empty window.
    pub fn is_in_window(ts: u64, start: u64, end: u64) -> (r: bool)
        ensures
            r == (start < end && start <= ts && ts < end),
    {
        if start >= end {
            return false;
        }
        ts >= start && ts < end
    }

    /// Accepts exactly when `expiration` lies ahead of `now`.
    pub fn require_not_expired_at(now: u64, expiration: u64) -> (r: Result<(), ValidationError>)
        ensures
            r is Ok <==> now < expiration,
            r is Err ==> r == Err::<(), ValidationError>(ValidationError::Expired),
    {
        if Self::is_expired_at(now, expiration) {
            return Err(ValidationError::Expired);
        }
        Ok(())
    }

    /// Accepts exactly when `expiration` lies ahead of the current ledger time.
    pub fn require_not_expired(e: &Env, expiration: u64) -> (r: Result<(), ValidationError>)
        ensures
            expiration == 0 ==> r == Err::<(), ValidationError>(ValidationError::Expired),
            r is Err ==> r == Err::<(), ValidationError>(ValidationError::Expired),
    {
        Self::require_not_expired_at(Self::now(e), expiration)
    }

    /// Accepts exactly the durations of at most `MAX_DURATION_DAYS` days.
    pub fn require_valid_duration(duration_days: u32) -> (r: Result<(), ValidationError>)
        ensures
            r is Ok <==> duration_days <= MAX_DURATION_DAYS,
            r is Err ==> r == Err::<(), ValidationError>(ValidationError::DurationExceedsMax),
    {
        if duration_days > MAX_DURATION_DAYS {
            return Err(ValidationError::DurationExceedsMax);
        }
        Ok(())
    }
}

/// Converting days to seconds and back gives the same number of days.
pub proof fn law_days_seconds_round_trip(days: u32)
    ensures
        (days * 86_400) / 86_400 == days,
        (days * 86_400) / 86_400 <= u32::MAX,
{
    assert((days * 86_400) / 86_400 == days) by (nonlinear_arith);
}

/// No time remains exactly when the expiration has been reached, and before
/// then the remaining time brings `now` to the expiration.
pub proof fn law_remaining_zero_iff_expired(now: u64, expiration: u64)
    ensures
        (if expiration > now { expiration - now } else { 0 }) == 0 <==> now >= expiration,
        now < expiration ==> now + (expiration - now) == expiration,
{
}

} // verus!
