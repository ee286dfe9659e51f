use vstd::prelude::*;

verus! {

/// Integer division rounding toward zero, as Rust's `/` does (for `b > 0`).
pub open spec fn trunc_div(a: int, b: int) -> int {
    if a >= 0 {
        a / b
    } else {
        -((-a) / b)
    }
}

/// `value * percent / 100`, rounded toward zero.
pub open spec fn percent_of(value: int, percent: int) -> int {
    trunc_div(value * percent, 100)
}

/// Loss of `current` against `initial`, in whole percent (negative on a gain).
pub open spec fn loss_percent_of(initial: int, current: int) -> int {
    trunc_div((initial - current) * 100, initial)
}

/// Checked arithmetic used by the fee and penalty computations.
pub struct SafeMath;

impl SafeMath {
    /// `value * percent / 100`, truncated.
    pub fn percent(value: i128, percent: u32) -> (r: i128)
        requires
            i128::MIN <= value * percent <= i128::MAX,
        ensures
            r == percent_of(value as int, percent as int),
    {
        let product = value * (percent as i128);
        product / 100
    }

    /// The loss of `current` against `initial` in whole percent, truncated
    /// toward zero; negative when `current` exceeds `initial`.
    pub fn loss_percent(initial: i128, current: i128) -> (r: i128)
        requires
            initial > 0,
            i128::MIN <= (initial - current) * 100 <= i128::MAX,
        ensures
            r == loss_percent_of(initial as int, current as int),
    {
        let diff = initial - current;
        let scaled = diff * 100;
        scaled / initial
    }

    /// The early-exit penalty: `value * penalty_percent / 100`, truncated.
    pub fn penalty_amount(value: i128, penalty_percent: u32) -> (r: i128)
        requires
            i128::MIN <= value * penalty_percent <= i128::MAX,
        ensures
            r == percent_of(value as int, penalty_percent as int),
    {
        Self::percent(value, penalty_percent)
    }
}

} // verus!
