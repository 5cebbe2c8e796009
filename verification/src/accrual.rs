//! The compounding index and the reward that a stake earns under it.
//!
//! The index grows by simple interest on itself: over `elapsed` seconds at an
//! annual rate of `apr` hundredths of a percent it is multiplied by
//! `1 + apr * elapsed / (SECONDS_IN_YEAR * PERCENTS)`, in fixed point with 18
//! decimals. Both divisions round down.

use vstd::prelude::*;
use crate::error::StdError;
use crate::uint256::{
    limit, outside_checked_add, outside_checked_div, outside_checked_mul, outside_checked_sub,
    Uint256,
};

verus! {

/// The fixed-point scale: the index 1.0.
pub const ONE: u128 = 1_000_000_000_000_000_000;

/// The seconds in a year of 365 days.
pub const SECONDS_IN_YEAR: u128 = 31_536_000;

/// The rate that stands for 100%.
pub const PERCENTS: u128 = 10_000;

/// The share by which the index grows over `elapsed` seconds, scaled by `ONE`.
pub open spec fn growth(apr: nat, elapsed: nat) -> nat {
    ((apr * elapsed * ONE) / (SECONDS_IN_YEAR * PERCENTS)) as nat
}

/// The index `ci` after `elapsed` seconds at the rate `apr`.
pub open spec fn compounded(ci: nat, apr: nat, elapsed: nat) -> nat {
    ((ci * (ONE + growth(apr, elapsed))) / (ONE as int)) as nat
}

/// Whether the index can be advanced within 256 bits.
pub open spec fn compounding_fits(ci: nat, apr: nat, elapsed: nat) -> bool {
    &&& apr * elapsed * ONE < limit()
    &&& ci * (ONE + growth(apr, elapsed)) < limit()
}

/// What advancing the index gives: the new index, or an overflow.
pub open spec fn index_after(ci: nat, apr: nat, elapsed: nat) -> Result<nat, StdError> {
    if compounding_fits(ci, apr, elapsed) {
        Ok(compounded(ci, apr, elapsed))
    } else {
        Err(StdError::Overflow)
    }
}

/// How far the index has risen from `ci_0` to `ci_last`.
pub open spec fn rise(ci_last: nat, ci_0: nat) -> nat {
    if ci_0 <= ci_last {
        (ci_last - ci_0) as nat
    } else {
        0
    }
}

/// The reward that `staked` tokens earn while the index rises from `ci_0` to
/// `ci_last`.
pub open spec fn accrued(staked: nat, ci_last: nat, ci_0: nat) -> nat {
    (staked * rise(ci_last, ci_0)) / (ONE as nat)
}

/// Whether the reward can be computed: the index has not fallen, and the
/// product fits in 256 bits.
pub open spec fn accrual_fits(staked: nat, ci_last: nat, ci_0: nat) -> bool {
    &&& ci_0 <= ci_last
    &&& staked * rise(ci_last, ci_0) < limit()
}

/// What settling a stake gives: the reward, or an overflow.
pub open spec fn reward_after(staked: nat, ci_last: nat, ci_0: nat) -> Result<nat, StdError> {
    if accrual_fits(staked, ci_last, ci_0) {
        Ok(accrued(staked, ci_last, ci_0))
    } else {
        Err(StdError::Overflow)
    }
}

/// A computed number as the model sees it.
pub open spec fn outcome(r: Result<Uint256, StdError>) -> Result<nat, StdError> {
    match r {
        Ok(v) => Ok(v@),
        Err(e) => Err(e),
    }
}

/// The index never falls: advancing it gives at least what it was.
pub proof fn lemma_compounded_grows(ci: nat, apr: nat, elapsed: nat)
    ensures
        ci <= compounded(ci, apr, elapsed),
{
    let factor: int = ONE + growth(apr, elapsed);
    assert(ci * (ONE as int) <= ci * factor) by (nonlinear_arith)
        requires
            ONE <= factor,
    ;
}

/// No time, no growth: over zero seconds the index stays as it is.
pub proof fn lemma_compounded_at_once(ci: nat, apr: nat)
    ensures
        compounded(ci, apr, 0) == ci,
{
    assert(apr * 0 * ONE == 0) by (nonlinear_arith);
    assert(growth(apr, 0) == 0);
}

/// A stake settled at its own checkpoint earns nothing.
pub proof fn lemma_accrued_nothing_at_checkpoint(staked: nat, ci: nat)
    ensures
        accrual_fits(staked, ci, ci),
        accrued(staked, ci, ci) == 0,
{
    assert(staked * 0 == 0) by (nonlinear_arith);
}

/// No stake, no reward, however far the index has risen.
pub proof fn lemma_accrued_nothing_without_stake(ci_last: nat, ci_0: nat)
    requires
        ci_0 <= ci_last,
    ensures
        accrual_fits(0, ci_last, ci_0),
        accrued(0, ci_last, ci_0) == 0,
{
    assert(0 * rise(ci_last, ci_0) == 0) by (nonlinear_arith);
}

/// The index `curr_ci` advanced by `time_elapsed` seconds at the rate `apr`.
pub fn calculate_ci(curr_ci: Uint256, apr: Uint256, time_elapsed: Uint256) -> (r: Result<
    Uint256,
    StdError,
>)
    ensures
        outcome(r) == index_after(curr_ci@, apr@, time_elapsed@),
{
    let one = Uint256::from_u128(ONE);
    let year = Uint256::from_u128(SECONDS_IN_YEAR);
    let percents = Uint256::from_u128(PERCENTS);
    proof {
        assert(apr@ * time_elapsed@ <= apr@ * time_elapsed@ * ONE) by (nonlinear_arith);
    }
    let interest = match outside_checked_mul(&apr, &time_elapsed) {
        Some(v) => v,
        None => { return Err(StdError::Overflow); },
    };
    let scaled = match outside_checked_mul(&interest, &one) {
        Some(v) => v,
        None => { return Err(StdError::Overflow); },
    };
    let period = match outside_checked_mul(&year, &percents) {
        Some(v) => v,
        None => { return Err(StdError::Overflow); },
    };
    let increase = match outside_checked_div(&scaled, &period) {
        Some(v) => v,
        None => { return Err(StdError::Overflow); },
    };
    let factor = match outside_checked_add(&one, &increase) {
        Some(v) => v,
        None => { return Err(StdError::Overflow); },
    };
    let product = match outside_checked_mul(&curr_ci, &factor) {
        Some(v) => v,
        None => { return Err(StdError::Overflow); },
    };
    match outside_checked_div(&product, &one) {
        Some(v) => Ok(v),
        None => Err(StdError::Overflow),
    }
}

/// The reward that `tokens_staked` earn while the index rises from `ci_0` to
/// `ci_last`.
pub fn calculate_reward(tokens_staked: Uint256, ci_last: Uint256, ci_0: Uint256) -> (r: Result<
    Uint256,
    StdError,
>)
    ensures
        outcome(r) == reward_after(tokens_staked@, ci_last@, ci_0@),
{
    let one = Uint256::from_u128(ONE);
    let rise = match outside_checked_sub(&ci_last, &ci_0) {
        Some(v) => v,
        None => { return Err(StdError::Overflow); },
    };
    let product = match outside_checked_mul(&tokens_staked, &rise) {
        Some(v) => v,
        None => { return Err(StdError::Overflow); },
    };
    match outside_checked_div(&product, &one) {
        Some(v) => Ok(v),
        None => Err(StdError::Overflow),
    }
}

} // verus!
