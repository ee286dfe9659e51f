use vstd::prelude::*;
use crate::math::{SafeMath, percent_of};
use crate::validation::{ValidationError, Validation};

verus! {

/// Maximum allowed fee rate in basis points (100 % = 10 000 bps).
pub const MAX_FEE_BPS: u32 = 10_000;

/// One hundred percent expressed in basis points.
pub const BPS_DENOMINATOR: u32 = 10_000;

/// Maximum allowed fee expressed as a plain percentage (100 %).
pub const MAX_FEE_PERCENT: u32 = 100;

/// `amount * bps / 10_000`, rounded down (both factors are non-negative).
pub open spec fn fee_of_bps(amount: int, bps: int) -> int {
    (amount * bps) / 10_000
}

/// The rate a tier schedule applies to `amount`, looking from tier `i` on:
/// the first tier whose threshold is at least `amount`, or else the last tier.
pub open spec fn tier_rate_from(tiers: Seq<(i128, u32)>, amount: int, i: int) -> u32
    decreases tiers.len() - i,
{
    if i >= tiers.len() - 1 {
        tiers.last().1
    } else if amount <= tiers[i].0 {
        tiers[i].1
    } else {
        tier_rate_from(tiers, amount, i + 1)
    }
}

/// The rate a tier schedule applies to `amount`.
pub open spec fn tier_rate(tiers: Seq<(i128, u32)>, amount: int) -> u32 {
    tier_rate_from(tiers, amount, 0)
}

/// The running net after applying each rate of `rates`, in order, to the net
/// left by the previous one.
pub open spec fn compound_net(amount: int, rates: Seq<u32>) -> int
    decreases rates.len(),
{
    if rates.len() == 0 {
        amount
    } else {
        let prev = compound_net(amount, rates.drop_last());
        prev - fee_of_bps(prev, rates.last() as int)
    }
}

/// The conditions under which every step of a compound fee is well defined:
/// each rate is valid and each step's product fits in `i128`.
pub open spec fn compound_steps_ok(amount: int, rates: Seq<u32>) -> bool {
    forall|i: int|
        0 <= i < rates.len() ==> {
            &&& #[trigger] rates[i] <= MAX_FEE_BPS
            &&& compound_net(amount, rates.take(i)) * rates[i] <= i128::MAX
        }
}

pub(crate) proof fn lemma_fee_bounds(amount: int, bps: int)
    requires
        amount >= 0,
        0 <= bps <= 10_000,
    ensures
        0 <= fee_of_bps(amount, bps) <= amount,
{
    assert(0 <= amount * bps <= amount * 10_000) by (nonlinear_arith)
        requires
            amount >= 0,
            0 <= bps <= 10_000,
    ;
    assert((amount * bps) / 10_000 <= (amount * 10_000) / 10_000) by (nonlinear_arith)
        requires
            0 <= amount * bps <= amount * 10_000,
    ;
    assert((amount * 10_000) / 10_000 == amount) by (nonlinear_arith);
    assert(0 <= (amount * bps) / 10_000) by (nonlinear_arith)
        requires
            0 <= amount * bps,
    ;
}

/// Fee calculation and splitting utilities.
pub struct FeeManager;

impl FeeManager {
    /// The fee on `amount` at `fee_bps` basis points: `amount * fee_bps / 10_000`,
    /// rounded down.
    pub fn calculate_fee_bps(amount: i128, fee_bps: u32) -> (fee: i128)
        requires
            amount > 0,
            fee_bps <= MAX_FEE_BPS,
            amount * fee_bps <= i128::MAX,
        ensures
            fee == fee_of_bps(amount as int, fee_bps as int),
            0 <= fee <= amount,
    {
        proof {
            lemma_fee_bounds(amount as int, fee_bps as int);
        }
        let product = amount * (fee_bps as i128);
        product / (BPS_DENOMINATOR as i128)
    }

    /// The fee on `amount` at `percent` percent: `amount * percent / 100`,
    /// rounded down.
    pub fn calculate_fee_percent(amount: i128, percent: u32) -> (fee: i128)
        requires
            amount > 0,
            percent <= MAX_FEE_PERCENT,
            amount * percent <= i128::MAX,
        ensures
            fee == (amount * percent) / 100,
            0 <= fee <= amount,
    {
        proof {
            assert(0 <= amount * percent <= amount * 100) by (nonlinear_arith)
                requires
                    amount > 0,
                    0 <= percent <= 100,
            ;
            assert((amount * percent) / 100 <= (amount * 100) / 100) by (nonlinear_arith)
                requires
                    0 <= amount * percent <= amount * 100,
            ;
            assert((amount * 100) / 100 == amount) by (nonlinear_arith);
            assert(0 <= (amount * percent) / 100) by (nonlinear_arith)
                requires
                    0 <= amount * percent,
            ;
        }
        SafeMath::percent(amount, percent)
    }

    /// `amount` less its basis-point fee.
    pub fn net_amount_bps(amount: i128, fee_bps: u32) -> (net: i128)
        requires
            amount > 0,
            fee_bps <= MAX_FEE_BPS,
            amount * fee_bps <= i128::MAX,
        ensures
            net == amount - fee_of_bps(amount as int, fee_bps as int),
            0 <= net <= amount,
    {
        let fee = Self::calculate_fee_bps(amount, fee_bps);
        amount - fee
    }

    /// `amount` less its percentage fee.
    pub fn net_amount_percent(amount: i128, percent: u32) -> (net: i128)
        requires
            amount > 0,
            percent <= MAX_FEE_PERCENT,
            amount * percent <= i128::MAX,
        ensures
            net == amount - (amount * percent) / 100,
            0 <= net <= amount,
    {
        let fee = Self::calculate_fee_percent(amount, percent);
        amount - fee
    }

    /// Splits `amount` into `(net, fee)` at a basis-point rate; nothing is lost.
    pub fn split_bps(amount: i128, fee_bps: u32) -> (r: (i128, i128))
        requires
            amount > 0,
            fee_bps <= MAX_FEE_BPS,
            amount * fee_bps <= i128::MAX,
        ensures
            r.1 == fee_of_bps(amount as int, fee_bps as int),
            r.0 + r.1 == amount,
            0 <= r.1 <= amount,
    {
        let fee = Self::calculate_fee_bps(amount, fee_bps);
        let net = amount - fee;
        (net, fee)
    }

    /// Splits `amount` into `(net, fee)` at a percentage rate; nothing is lost.
    pub fn split_percent(amount: i128, percent: u32) -> (r: (i128, i128))
        requires
            amount > 0,
            percent <= MAX_FEE_PERCENT,
            amount * percent <= i128::MAX,
        ensures
            r.1 == (amount * percent) / 100,
            r.0 + r.1 == amount,
            0 <= r.1 <= amount,
    {
        let fee = Self::calculate_fee_percent(amount, percent);
        let net = amount - fee;
        (net, fee)
    }

    /// The fee under a tier schedule of `(threshold, fee_bps)` pairs: the first
    /// tier whose threshold is at least `amount` applies, else the last tier.
    pub fn calculate_tiered_fee(amount: i128, tiers: &[(i128, u32)]) -> (fee: i128)
        requires
            amount > 0,
            tiers@.len() > 0,
            forall|i: int| 0 <= i < tiers@.len() ==> #[trigger] tiers@[i].1 <= MAX_FEE_BPS,
            amount * tier_rate(tiers@, amount as int) <= i128::MAX,
        ensures
            fee == fee_of_bps(amount as int, tier_rate(tiers@, amount as int) as int),
    {
        let n = tiers.len();
        let mut i: usize = 0;
        while i + 1 < n
            invariant
                n == tiers@.len(),
                n > 0,
                amount > 0,
                forall|j: int| 0 <= j < tiers@.len() ==> #[trigger] tiers@[j].1 <= MAX_FEE_BPS,
                amount * tier_rate(tiers@, amount as int) <= i128::MAX,
                0 <= i < n,
                tier_rate_from(tiers@, amount as int, i as int) == tier_rate(tiers@, amount as int),
            decreases n - i,
        {
            let (threshold, bps) = tiers[i];
            if amount <= threshold {
                assert(tiers@[i as int].1 == tier_rate(tiers@, amount as int));
                return Self::calculate_fee_bps(amount, bps);
            }
            i = i + 1;
        }
        let (_, last_bps) = tiers[n - 1];
        assert(tiers@.last().1 == tier_rate(tiers@, amount as int));
        Self::calculate_fee_bps(amount, last_bps)
    }

    /// The total fee when each rate is applied in turn to the net left by the
    /// previous one.
    pub fn calculate_compound_fee(amount: i128, rates: &[u32]) -> (fee: i128)
        requires
            amount > 0,
            compound_steps_ok(amount as int, rates@),
        ensures
            fee == amount - compound_net(amount as int, rates@),
            0 <= fee <= amount,
    {
        let mut running = amount;
        let mut i: usize = 0;
        while i < rates.len()
            invariant
                amount > 0,
                compound_steps_ok(amount as int, rates@),
                0 <= i <= rates@.len(),
                running == compound_net(amount as int, rates@.take(i as int)),
                0 <= running <= amount,
            decreases rates@.len() - i,
        {
            let rate = rates[i];
            assert(rates@[i as int] <= MAX_FEE_BPS);
            assert(rates@.take(i + 1).drop_last() =~= rates@.take(i as int));
            assert(rates@.take(i + 1).last() == rate);
            let step_fee = if running > 0 {
                Self::calculate_fee_bps(running, rate)
            } else {
                assert(fee_of_bps(0, rate as int) == 0) by (nonlinear_arith);
                0
            };
            running = running - step_fee;
            i = i + 1;
        }
        assert(rates@.take(i as int) =~= rates@);
        amount - running
    }

    /// A percentage (0–100) in basis points.
    pub fn percent_to_bps(percent: u32) -> (bps: u32)
        requires
            percent <= MAX_FEE_PERCENT,
        ensures
            bps == percent * 100,
    {
        percent * 100
    }

    /// Basis points (0–10 000) as a whole percentage, rounded down.
    pub fn bps_to_percent(bps: u32) -> (percent: u32)
        requires
            bps <= MAX_FEE_BPS,
        ensures
            percent == bps / 100,
    {
        bps / 100
    }

    /// Accepts exactly the rates of at most 10 000 basis points.
    pub fn require_valid_fee_bps(fee_bps: u32) -> (r: Result<(), ValidationError>)
        ensures
            r is Ok <==> fee_bps <= MAX_FEE_BPS,
            r is Err ==> r == Err::<(), ValidationError>(ValidationError::FeeBpsOutOfRange),
    {
        if fee_bps > MAX_FEE_BPS {
            return Err(ValidationError::FeeBpsOutOfRange);
        }
        Ok(())
    }

    /// Whether `fee_bps` is at most 10 000.
    pub fn is_valid_fee_bps(fee_bps: u32) -> (r: bool)
        ensures
            r == (fee_bps <= MAX_FEE_BPS),
    {
        fee_bps <= MAX_FEE_BPS
    }

    /// Accepts exactly the non-zero rates.
    pub fn require_non_zero_fee(fee_bps: u32) -> (r: Result<(), ValidationError>)
        ensures
            r is Ok <==> fee_bps != 0,
            r is Err ==> r == Err::<(), ValidationError>(ValidationError::ZeroFee),
    {
        if fee_bps == 0 {
            return Err(ValidationError::ZeroFee);
        }
        Ok(())
    }
}

/// Converting a percentage to basis points and back gives the percentage.
pub proof fn law_percent_bps_round_trip(percent: u32)
    requires
        percent <= MAX_FEE_PERCENT,
    ensures
        (percent * 100) as u32 <= MAX_FEE_BPS,
        ((percent * 100) as u32) / 100 == percent,
{
}

/// A percentage fee equals the basis-point fee at the same rate.
pub proof fn law_percent_fee_matches_bps_fee(amount: int, percent: int)
    requires
        amount > 0,
        0 <= percent <= 100,
    ensures
        (amount * percent) / 100 == fee_of_bps(amount, percent * 100),
{
    assert(amount * (percent * 100) == (amount * percent) * 100) by (nonlinear_arith);
    assert(((amount * percent) * 100) / 10_000 == (amount * percent) / 100) by (nonlinear_arith)
        requires
            amount * percent >= 0,
    ;
    assert(amount * percent >= 0) by (nonlinear_arith)
        requires
            amount > 0,
            percent >= 0,
    ;
}

/// A higher basis-point rate never yields a smaller fee on the same amount.
pub proof fn law_fee_monotone_in_rate(amount: int, lo: int, hi: int)
    requires
        amount > 0,
        0 <= lo <= hi <= 10_000,
    ensures
        fee_of_bps(amount, lo) <= fee_of_bps(amount, hi),
{
    assert(amount * lo <= amount * hi) by (nonlinear_arith)
        requires
            amount > 0,
            lo <= hi,
    ;
    assert((amount * lo) / 10_000 <= (amount * hi) / 10_000) by (nonlinear_arith)
        requires
            amount * lo <= amount * hi,
    ;
}

} // verus!
