//! One depositor's position in one pool, and the steps that change it.

use crate::accrual::{
    accrual_anchor, accrual_start, claim_payout, claim_result, daily_payout, days_between,
    elapsed_days, fold_result, fold_reward, payout_rate, project_reward, projection_result,
};
use crate::error::{BusinessRule, LedgerError};
use crate::identity::Identity;
use crate::policy::Policy;
use crate::pool::Pool;
use vstd::prelude::*;

verus! {

/// Whether a deposit still holds principal. The codes on the wire are 0 and
/// 1 in the order of the variants.
#[derive(Clone, Copy, Debug, PartialEq, Eq, Structural)]
pub enum DepositStatus {
    Active,
    Withdrawn,
}

/// The status that a wire code stands for.
pub open spec fn status_of_code(code: u8) -> Result<DepositStatus, LedgerError> {
    if code == 0 {
        Ok(DepositStatus::Active)
    } else if code == 1 {
        Ok(DepositStatus::Withdrawn)
    } else {
        Err(LedgerError::Validation)
    }
}

impl DepositStatus {
    /// Decodes a wire code; an unknown code is a validation error.
    pub fn from_u8(value: u8) -> (r: Result<DepositStatus, LedgerError>)
        ensures
            r == status_of_code(value),
    {
        match value {
            0 => Ok(DepositStatus::Active),
            1 => Ok(DepositStatus::Withdrawn),
            _ => Err(LedgerError::Validation),
        }
    }

    /// The wire code of this status.
    pub fn to_u8(&self) -> (code: u8)
        ensures
            status_of_code(code) == Ok::<DepositStatus, LedgerError>(*self),
    {
        match self {
            DepositStatus::Active => 0,
            DepositStatus::Withdrawn => 1,
        }
    }
}

/// The amount the transfer gateway is asked to move.
#[derive(Clone, Copy, Debug, PartialEq, Eq, Structural)]
pub struct TransferInput {
    pub amount: u64,
}

impl TransferInput {
    /// A request to move `amount`.
    pub fn new(amount: u64) -> (r: TransferInput)
        ensures
            r.amount == amount,
    {
        TransferInput { amount }
    }
}

/// The payload of a deposit: which pool, and how much.
#[derive(Clone, Copy, Debug, PartialEq, Eq, Structural)]
pub struct DepositParam {
    pub pool_id: u64,
    pub amount: u64,
}

/// The payload of a withdrawal or of a query: which pool.
#[derive(Clone, Copy, Debug, PartialEq, Eq, Structural)]
pub struct QueryParam {
    pub pool_id: u64,
}

/// One depositor's position in one pool.
#[derive(Clone, Copy, Debug, PartialEq, Eq)]
pub struct Deposits {
    pub pool_id: u64,
    pub user_pubkey: Identity,
    pub pool_pubkey: Identity,
    /// The principal currently deposited.
    pub deposited_amount: u64,
    pub status: DepositStatus,
    /// The payout of one day, derived from principal and yield on every
    /// deposit.
    pub daily_payout: u64,
    /// When the principal was last added to; the lock-up counts from here.
    pub start_date: u64,
    /// When a reward was last claimed; zero when none ever was.
    pub last_reward_claim_time: u64,
    /// The reward accrued and not yet claimed.
    pub reward: u64,
}

impl Deposits {
    /// The position a first deposit of `amount` opens.
    pub open spec fn opened(pool: Pool, pool_id: u64, user: Identity, amount: u64, now: u64) -> Result<
        Deposits,
        LedgerError,
    > {
        match payout_rate(amount, pool.apy) {
            Ok(daily) => Ok(
                Deposits {
                    pool_id,
                    user_pubkey: user,
                    pool_pubkey: pool.pool_pubkey,
                    deposited_amount: amount,
                    status: DepositStatus::Active,
                    daily_payout: daily,
                    start_date: now,
                    last_reward_claim_time: 0,
                    reward: 0,
                },
            ),
            Err(e) => Err(e),
        }
    }

    /// The time from which this position's reward is counted.
    pub open spec fn anchor(self) -> u64 {
        accrual_anchor(self.start_date, self.last_reward_claim_time)
    }

    /// The unclaimed reward once the accrual up to `now` has been folded in,
    /// at the payout rate the position has before the deposit. Without
    /// reward accrual the reward stays as it is.
    pub open spec fn reward_carried(self, policy: Policy, apy: u64, now: u64) -> Result<
        u64,
        LedgerError,
    > {
        if policy.reward_bearing {
            match days_between(now, self.anchor()) {
                Ok(days) => fold_result(self.reward, self.daily_payout, apy, days),
                Err(e) => Err(e),
            }
        } else {
            Ok(self.reward)
        }
    }

    /// The status after a further deposit under `policy`.
    pub open spec fn status_after_deposit(self, policy: Policy) -> DepositStatus {
        if policy.reactivate_on_deposit {
            DepositStatus::Active
        } else {
            self.status
        }
    }

    /// The position after a further deposit of `amount`: the reward is
    /// carried forward first, then the principal grows, the payout rate is
    /// derived anew and the lock-up starts over at `now`.
    pub open spec fn topped_up(self, policy: Policy, apy: u64, amount: u64, now: u64) -> Result<
        Deposits,
        LedgerError,
    > {
        match self.reward_carried(policy, apy, now) {
            Err(e) => Err(e),
            Ok(reward) => if self.deposited_amount + amount > u64::MAX {
                Err(LedgerError::Arithmetic)
            } else {
                match payout_rate((self.deposited_amount + amount) as u64, apy) {
                    Err(e) => Err(e),
                    Ok(daily) => Ok(
                        Deposits {
                            deposited_amount: (self.deposited_amount + amount) as u64,
                            status: self.status_after_deposit(policy),
                            daily_payout: daily,
                            start_date: now,
                            reward,
                            ..self
                        },
                    ),
                }
            },
        }
    }

    /// Whether the lock-up still holds at `now`.
    pub open spec fn locked_at(self, min_period: u64, now: u64) -> bool {
        now < self.start_date + min_period
    }

    /// The position after its principal was withdrawn in full.
    pub open spec fn withdrawn(self) -> Deposits {
        Deposits { deposited_amount: 0, status: DepositStatus::Withdrawn, ..self }
    }

    /// What a claim at `now` pays out. With no unclaimed reward there is
    /// nothing to claim.
    pub open spec fn claim_due(self, apy: u64, now: u64) -> Result<u64, LedgerError> {
        if self.reward == 0 {
            Err(LedgerError::BusinessRule(BusinessRule::NoRewards))
        } else {
            match days_between(now, self.anchor()) {
                Ok(days) => claim_result(self.daily_payout, apy, days),
                Err(e) => Err(e),
            }
        }
    }

    /// The position after a claim at `now`.
    pub open spec fn claimed(self, now: u64) -> Deposits {
        Deposits { reward: 0, last_reward_claim_time: now, ..self }
    }

    /// The position as a query at `now` shows it: with reward accrual the
    /// reward field holds the projection for the days since the anchor.
    pub open spec fn shown(self, policy: Policy, apy: u64, now: u64) -> Result<
        Deposits,
        LedgerError,
    > {
        if policy.reward_bearing {
            match days_between(now, self.anchor()) {
                Err(e) => Err(e),
                Ok(days) => match projection_result(self.daily_payout, apy, days) {
                    Err(e) => Err(e),
                    Ok(reward) => Ok(Deposits { reward, ..self }),
                },
            }
        } else {
            Ok(self)
        }
    }

    /// Opens the position of `user` in `pool` with a first deposit.
    pub fn open(pool: &Pool, pool_id: u64, user: Identity, amount: u64, now: u64) -> (r: Result<
        Deposits,
        LedgerError,
    >)
        ensures
            r == Deposits::opened(*pool, pool_id, user, amount, now),
    {
        let daily: u64 = daily_payout(amount, pool.apy)?;
        Ok(
            Deposits {
                pool_id,
                user_pubkey: user,
                pool_pubkey: pool.pool_pubkey,
                deposited_amount: amount,
                status: DepositStatus::Active,
                daily_payout: daily,
                start_date: now,
                last_reward_claim_time: 0,
                reward: 0,
            },
        )
    }

    /// Adds `amount` to the position.
    pub fn top_up(&self, policy: &Policy, apy: u64, amount: u64, now: u64) -> (r: Result<
        Deposits,
        LedgerError,
    >)
        ensures
            r == self.topped_up(*policy, apy, amount, now),
    {
        let reward: u64 = if policy.reward_bearing {
            let since: u64 = accrual_start(self.start_date, self.last_reward_claim_time);
            let days: u64 = elapsed_days(now, since)?;
            fold_reward(self.reward, self.daily_payout, apy, days)?
        } else {
            self.reward
        };
        let principal: u64 = match self.deposited_amount.checked_add(amount) {
            Some(v) => v,
            None => { return Err(LedgerError::Arithmetic); },
        };
        let daily: u64 = daily_payout(principal, apy)?;
        let status: DepositStatus = if policy.reactivate_on_deposit {
            DepositStatus::Active
        } else {
            self.status
        };
        Ok(
            Deposits {
                pool_id: self.pool_id,
                user_pubkey: self.user_pubkey,
                pool_pubkey: self.pool_pubkey,
                deposited_amount: principal,
                status,
                daily_payout: daily,
                start_date: now,
                last_reward_claim_time: self.last_reward_claim_time,
                reward,
            },
        )
    }

    /// Whether the lock-up of `min_period` seconds still holds at `now`.
    pub fn is_locked(&self, min_period: u64, now: u64) -> (r: bool)
        ensures
            r == self.locked_at(min_period, now),
    {
        match self.start_date.checked_add(min_period) {
            Some(unlock) => now < unlock,
            None => true,
        }
    }

    /// The position with its principal withdrawn.
    pub fn close(&self) -> (r: Deposits)
        ensures
            r == self.withdrawn(),
    {
        Deposits {
            pool_id: self.pool_id,
            user_pubkey: self.user_pubkey,
            pool_pubkey: self.pool_pubkey,
            deposited_amount: 0,
            status: DepositStatus::Withdrawn,
            daily_payout: self.daily_payout,
            start_date: self.start_date,
            last_reward_claim_time: self.last_reward_claim_time,
            reward: self.reward,
        }
    }

    /// What a claim at `now` would pay out.
    pub fn claimable(&self, apy: u64, now: u64) -> (r: Result<u64, LedgerError>)
        ensures
            r == self.claim_due(apy, now),
    {
        if self.reward == 0 {
            return Err(LedgerError::BusinessRule(BusinessRule::NoRewards));
        }
        let since: u64 = accrual_start(self.start_date, self.last_reward_claim_time);
        let days: u64 = elapsed_days(now, since)?;
        claim_payout(self.daily_payout, apy, days)
    }

    /// The position after its reward was claimed at `now`.
    pub fn claim(&self, now: u64) -> (r: Deposits)
        ensures
            r == self.claimed(now),
    {
        Deposits {
            pool_id: self.pool_id,
            user_pubkey: self.user_pubkey,
            pool_pubkey: self.pool_pubkey,
            deposited_amount: self.deposited_amount,
            status: self.status,
            daily_payout: self.daily_payout,
            start_date: self.start_date,
            last_reward_claim_time: now,
            reward: 0,
        }
    }

    /// The position as a query at `now` shows it.
    pub fn show(&self, policy: &Policy, apy: u64, now: u64) -> (r: Result<Deposits, LedgerError>)
        ensures
            r == self.shown(*policy, apy, now),
    {
        if policy.reward_bearing {
            let since: u64 = accrual_start(self.start_date, self.last_reward_claim_time);
            let days: u64 = elapsed_days(now, since)?;
            let reward: u64 = project_reward(self.daily_payout, apy, days)?;
            Ok(
                Deposits {
                    pool_id: self.pool_id,
                    user_pubkey: self.user_pubkey,
                    pool_pubkey: self.pool_pubkey,
                    deposited_amount: self.deposited_amount,
                    status: self.status,
                    daily_payout: self.daily_payout,
                    start_date: self.start_date,
                    last_reward_claim_time: self.last_reward_claim_time,
                    reward,
                },
            )
        } else {
            Ok(*self)
        }
    }
}

} // verus!
