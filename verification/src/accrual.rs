//! The reward arithmetic: payout rates, elapsed days and accrued rewards.
//!
//! Every amount is a `u64` and every division truncates. A product or sum
//! that leaves the range of `u64` makes the computation fail with
//! `LedgerError::Arithmetic`; it never wraps.

use crate::error::LedgerError;
use vstd::prelude::*;

verus! {

/// Seconds in one day of accrual.
pub const SECONDS_PER_DAY: u64 = 86400;

/// Days in one year of accrual.
pub const DAYS_PER_YEAR: u64 = 365;

/// The yield of one day on `amount` at `apy` percent a year: the yearly
/// yield is truncated first, then divided by the days of the year and
/// truncated again.
pub open spec fn daily_yield(amount: int, apy: int) -> int {
    (amount * apy / 100) / 365
}

/// Whole days between `since` and `now`.
pub open spec fn whole_days(now: int, since: int) -> int {
    (now - since) / 86400
}

/// The time from which a deposit's reward is counted: the last claim, or the
/// start of the deposit when nothing was claimed yet (a claim time of zero).
pub open spec fn accrual_anchor(start_date: u64, last_claim: u64) -> u64 {
    if last_claim != 0 {
        last_claim
    } else {
        start_date
    }
}

/// The reward earned on the principal over `days` at `daily` a day.
pub open spec fn base_reward(daily: int, days: int) -> int {
    daily * days
}

/// The reward earned over `days` on a reward of `accrued` that was left
/// unclaimed; nothing when no reward was left.
pub open spec fn compound_reward(accrued: int, apy: int, days: int) -> int {
    if accrued > 0 {
        daily_yield(accrued, apy) * days
    } else {
        0
    }
}

/// The unclaimed reward after folding `days` of accrual into `accrued`.
pub open spec fn folded_reward(accrued: int, daily: int, apy: int, days: int) -> int {
    accrued + base_reward(daily, days) + compound_reward(accrued, apy, days)
}

/// Whether each step of `folded_reward` stays within `u64`.
pub open spec fn fold_fits(accrued: int, daily: int, apy: int, days: int) -> bool {
    &&& base_reward(daily, days) <= u64::MAX
    &&& accrued > 0 ==> accrued * apy <= u64::MAX
    &&& compound_reward(accrued, apy, days) <= u64::MAX
    &&& folded_reward(accrued, daily, apy, days) <= u64::MAX
}

/// The amount paid out by a claim after `days` at `daily` a day: the reward
/// of those days plus the yield that this reward itself earned over them.
pub open spec fn claim_amount(daily: int, apy: int, days: int) -> int {
    daily_yield(base_reward(daily, days), apy) * days + base_reward(daily, days)
}

/// Whether each step of `claim_amount` stays within `u64`.
pub open spec fn claim_fits(daily: int, apy: int, days: int) -> bool {
    &&& base_reward(daily, days) <= u64::MAX
    &&& base_reward(daily, days) * apy <= u64::MAX
    &&& daily_yield(base_reward(daily, days), apy) * days <= u64::MAX
    &&& claim_amount(daily, apy, days) <= u64::MAX
}

/// The reward shown by a query after `days` at `daily` a day: the yield that
/// the reward of those days earned over them.
pub open spec fn projected_reward(daily: int, apy: int, days: int) -> int {
    daily_yield(base_reward(daily, days), apy) * days
}

/// Whether each step of `projected_reward` stays within `u64`.
pub open spec fn projection_fits(daily: int, apy: int, days: int) -> bool {
    &&& base_reward(daily, days) <= u64::MAX
    &&& base_reward(daily, days) * apy <= u64::MAX
    &&& projected_reward(daily, apy, days) <= u64::MAX
}

/// What `daily_payout` returns.
pub open spec fn payout_rate(principal: u64, apy: u64) -> Result<u64, LedgerError> {
    if principal * apy <= u64::MAX {
        Ok(daily_yield(principal as int, apy as int) as u64)
    } else {
        Err(LedgerError::Arithmetic)
    }
}

/// What `elapsed_days` returns.
pub open spec fn days_between(now: u64, since: u64) -> Result<u64, LedgerError> {
    if now >= since {
        Ok(whole_days(now as int, since as int) as u64)
    } else {
        Err(LedgerError::Arithmetic)
    }
}

/// What `fold_reward` returns.
pub open spec fn fold_result(accrued: u64, daily: u64, apy: u64, days: u64) -> Result<
    u64,
    LedgerError,
> {
    if fold_fits(accrued as int, daily as int, apy as int, days as int) {
        Ok(folded_reward(accrued as int, daily as int, apy as int, days as int) as u64)
    } else {
        Err(LedgerError::Arithmetic)
    }
}

/// What `claim_payout` returns.
pub open spec fn claim_result(daily: u64, apy: u64, days: u64) -> Result<u64, LedgerError> {
    if claim_fits(daily as int, apy as int, days as int) {
        Ok(claim_amount(daily as int, apy as int, days as int) as u64)
    } else {
        Err(LedgerError::Arithmetic)
    }
}

/// What `project_reward` returns.
pub open spec fn projection_result(daily: u64, apy: u64, days: u64) -> Result<u64, LedgerError> {
    if projection_fits(daily as int, apy as int, days as int) {
        Ok(projected_reward(daily as int, apy as int, days as int) as u64)
    } else {
        Err(LedgerError::Arithmetic)
    }
}

/// The daily payout of `principal` at `apy` percent a year; fails when the
/// yearly yield leaves the range of `u64`.
pub fn daily_payout(principal: u64, apy: u64) -> (r: Result<u64, LedgerError>)
    ensures
        r == payout_rate(principal, apy),
{
    match principal.checked_mul(apy) {
        Some(yearly) => Ok(yearly / 100 / DAYS_PER_YEAR),
        None => Err(LedgerError::Arithmetic),
    }
}

/// Whole days elapsed from `since` to `now`; fails when `now` lies before
/// `since`.
pub fn elapsed_days(now: u64, since: u64) -> (r: Result<u64, LedgerError>)
    ensures
        r == days_between(now, since),
{
    match now.checked_sub(since) {
        Some(seconds) => Ok(seconds / SECONDS_PER_DAY),
        None => Err(LedgerError::Arithmetic),
    }
}

/// The time from which the reward of a deposit is counted.
pub fn accrual_start(start_date: u64, last_claim: u64) -> (r: u64)
    ensures
        r == accrual_anchor(start_date, last_claim),
{
    if last_claim != 0 {
        last_claim
    } else {
        start_date
    }
}

/// `a * b`, or the arithmetic error when the product leaves `u64`.
fn times(a: u64, b: u64) -> (r: Result<u64, LedgerError>)
    ensures
        a * b <= u64::MAX ==> r == Ok::<u64, LedgerError>((a * b) as u64),
        a * b > u64::MAX ==> r == Err::<u64, LedgerError>(LedgerError::Arithmetic),
{
    match a.checked_mul(b) {
        Some(p) => Ok(p),
        None => Err(LedgerError::Arithmetic),
    }
}

/// `a + b`, or the arithmetic error when the sum leaves `u64`.
fn plus(a: u64, b: u64) -> (r: Result<u64, LedgerError>)
    ensures
        a + b <= u64::MAX ==> r == Ok::<u64, LedgerError>((a + b) as u64),
        a + b > u64::MAX ==> r == Err::<u64, LedgerError>(LedgerError::Arithmetic),
{
    match a.checked_add(b) {
        Some(s) => Ok(s),
        None => Err(LedgerError::Arithmetic),
    }
}

/// Folds `days` of accrual into an unclaimed reward of `accrued`: the reward
/// of those days at `daily` a day is added, and so is the yield that the
/// unclaimed reward earned meanwhile.
pub fn fold_reward(accrued: u64, daily: u64, apy: u64, days: u64) -> (r: Result<u64, LedgerError>)
    ensures
        r == fold_result(accrued, daily, apy, days),
{
    let base: u64 = times(daily, days)?;
    let compound: u64 = if accrued > 0 {
        let rate: u64 = daily_payout(accrued, apy)?;
        times(rate, days)?
    } else {
        0
    };
    let with_base: u64 = plus(accrued, base)?;
    plus(with_base, compound)
}

/// The amount a claim pays out after `days` of accrual at `daily` a day.
pub fn claim_payout(daily: u64, apy: u64, days: u64) -> (r: Result<u64, LedgerError>)
    ensures
        r == claim_result(daily, apy, days),
{
    let accrued: u64 = times(daily, days)?;
    let rate: u64 = daily_payout(accrued, apy)?;
    let compound: u64 = times(rate, days)?;
    plus(compound, accrued)
}

/// The reward a query shows after `days` of accrual at `daily` a day.
pub fn project_reward(daily: u64, apy: u64, days: u64) -> (r: Result<u64, LedgerError>)
    ensures
        r == projection_result(daily, apy, days),
{
    let accrued: u64 = times(daily, days)?;
    let rate: u64 = daily_payout(accrued, apy)?;
    times(rate, days)
}

} // verus!
