//! The operations on a ledger.
//!
//! An operation that moves value is given the outcome of the transfer as an
//! argument. The matching `plan_` function says, before anything is moved,
//! whether a transfer is to be made and of how much. A failed operation
//! leaves the ledger as it was.

use crate::deposit::{DepositParam, Deposits, QueryParam, TransferInput};
use crate::error::{BusinessRule, LedgerError, StateFault, TransferError};
use crate::identity::Identity;
use crate::ledger::Ledger;
use crate::pool::{AssetType, Pool, PoolParam, RiskType};
use crate::registry::find_record;
use crate::search::{is_first, lemma_first_absent, lemma_first_found, nowhere};
use vstd::prelude::*;

verus! {

/// The pool record stored at `location`.
pub fn get_pool(ledger: &Ledger, location: &Identity) -> (r: Result<Pool, LedgerError>)
    ensures
        r == ledger@.pool_at(*location),
{
    match find_record(&ledger.pools, location) {
        Some(i) => Ok(ledger.pools[i].duplicate()),
        None => Err(LedgerError::State(StateFault::RecordMissing)),
    }
}

/// The record of pool `pool_id`.
pub fn get_pool_by_id(ledger: &Ledger, pool_id: u64) -> (r: Result<Pool, LedgerError>)
    ensures
        r == ledger@.pool_by_id(pool_id),
{
    let i: usize = ledger.resolve(pool_id)?;
    Ok(ledger.pools[i].duplicate())
}

/// The value locked in pool `pool_id`.
pub fn get_pool_tvl(ledger: &Ledger, pool_id: u64) -> (r: Result<u64, LedgerError>)
    ensures
        match ledger@.pool_by_id(pool_id) {
            Ok(pool) => r == Ok::<u64, LedgerError>(pool.tvl),
            Err(e) => r == Err::<u64, LedgerError>(e),
        },
{
    let i: usize = ledger.resolve(pool_id)?;
    Ok(ledger.pools[i].tvl)
}

/// Says which transfer a deposit needs, without changing anything.
pub fn plan_deposit(ledger: &Ledger, param: &DepositParam) -> (r: Result<
    TransferInput,
    LedgerError,
>)
    ensures
        r == ledger@.deposit_plan(*param),
{
    if param.amount == 0 {
        return Err(LedgerError::Validation);
    }
    let _ = ledger.resolve(param.pool_id)?;
    Ok(TransferInput::new(param.amount))
}

/// Books a deposit of `param.amount` by `user` into pool `param.pool_id` at
/// time `now`, `transfer` being the outcome of moving the amount from the
/// depositor to the pool.
pub fn deposit(
    ledger: &mut Ledger,
    user: Identity,
    param: DepositParam,
    now: u64,
    transfer: Result<(), TransferError>,
) -> (r: Result<(), LedgerError>)
    ensures
        match old(ledger)@.deposit_outcome(user, param, now, transfer) {
            Ok(next) => r is Ok && final(ledger)@ == next,
            Err(e) => r == Err::<(), LedgerError>(e) && final(ledger)@ == old(ledger)@,
        },
{
    if param.amount == 0 {
        return Err(LedgerError::Validation);
    }
    let i: usize = ledger.resolve(param.pool_id)?;
    if let Err(failure) = transfer {
        return Err(LedgerError::Transfer(failure));
    }
    let found: Option<usize> = ledger.deposits.position(param.pool_id, &user);
    let entry: Deposits = match found {
        Some(d) => ledger.deposits.deposits[d].top_up(
            &ledger.policy,
            ledger.pools[i].apy,
            param.amount,
            now,
        )?,
        None => Deposits::open(&ledger.pools[i], param.pool_id, user, param.amount, now)?,
    };
    ledger.pools[i].apply_deposit(param.amount)?;
    match found {
        Some(d) => {
            ledger.deposits.deposits[d] = entry;
        },
        None => {
            ledger.deposits.deposits.push(entry);
        },
    }
    Ok(())
}

/// Says which transfer a withdrawal needs, without changing anything.
pub fn plan_withdraw(
    ledger: &Ledger,
    user: &Identity,
    pool_id: u64,
    now: u64,
) -> (r: Result<TransferInput, LedgerError>)
    ensures
        r == ledger@.withdraw_plan(*user, pool_id, now),
{
    let i: usize = ledger.resolve(pool_id)?;
    let d: usize = match ledger.deposits.position(pool_id, user) {
        Some(d) => d,
        None => { return Err(LedgerError::State(StateFault::DepositNotFound)); },
    };
    let principal: u64 = ledger.deposits.deposits[d].deposited_amount;
    if principal == 0 {
        return Err(LedgerError::State(StateFault::DepositNotFound));
    }
    if ledger.deposits.deposits[d].is_locked(ledger.pools[i].min_period, now) {
        return Err(LedgerError::BusinessRule(BusinessRule::Locked));
    }
    if principal > ledger.pools[i].tvl {
        return Err(LedgerError::BusinessRule(BusinessRule::InsufficientFunds));
    }
    Ok(TransferInput::new(principal))
}

/// Books the withdrawal of the whole principal of `user` from pool `pool_id`
/// at time `now`, `transfer` being the outcome of moving the principal from
/// the pool to the depositor.
pub fn withdraw(
    ledger: &mut Ledger,
    user: Identity,
    pool_id: u64,
    now: u64,
    transfer: Result<(), TransferError>,
) -> (r: Result<(), LedgerError>)
    ensures
        match old(ledger)@.withdraw_outcome(user, pool_id, now, transfer) {
            Ok(next) => r is Ok && final(ledger)@ == next,
            Err(e) => r == Err::<(), LedgerError>(e) && final(ledger)@ == old(ledger)@,
        },
{
    let request: TransferInput = plan_withdraw(ledger, &user, pool_id, now)?;
    if let Err(failure) = transfer {
        return Err(LedgerError::Transfer(failure));
    }
    let i: usize = ledger.resolve(pool_id)?;
    let d: usize = match ledger.deposits.position(pool_id, &user) {
        Some(d) => d,
        None => { return Err(LedgerError::State(StateFault::DepositNotFound)); },
    };
    ledger.pools[i].apply_withdrawal(request.amount)?;
    let closed: Deposits = ledger.deposits.deposits[d].close();
    ledger.deposits.deposits[d] = closed;
    Ok(())
}

/// Says which transfer a reward claim needs, without changing anything.
pub fn plan_withdraw_rewards(
    ledger: &Ledger,
    user: &Identity,
    pool_id: u64,
    now: u64,
) -> (r: Result<TransferInput, LedgerError>)
    ensures
        r == ledger@.reward_plan(*user, pool_id, now),
{
    if !ledger.policy.reward_bearing {
        return Err(LedgerError::Validation);
    }
    let i: usize = ledger.resolve(pool_id)?;
    let d: usize = match ledger.deposits.position(pool_id, user) {
        Some(d) => d,
        None => { return Err(LedgerError::State(StateFault::DepositNotFound)); },
    };
    let amount: u64 = ledger.deposits.deposits[d].claimable(ledger.pools[i].apy, now)?;
    Ok(TransferInput::new(amount))
}

/// Books the claim of the reward of `user` in pool `pool_id` at time `now`,
/// `transfer` being the outcome of moving the payout from the pool to the
/// depositor.
pub fn withdraw_rewards(
    ledger: &mut Ledger,
    user: Identity,
    pool_id: u64,
    now: u64,
    transfer: Result<(), TransferError>,
) -> (r: Result<(), LedgerError>)
    ensures
        match old(ledger)@.reward_outcome(user, pool_id, now, transfer) {
            Ok(next) => r is Ok && final(ledger)@ == next,
            Err(e) => r == Err::<(), LedgerError>(e) && final(ledger)@ == old(ledger)@,
        },
{
    let _ = plan_withdraw_rewards(ledger, &user, pool_id, now)?;
    if let Err(failure) = transfer {
        return Err(LedgerError::Transfer(failure));
    }
    let d: usize = match ledger.deposits.position(pool_id, &user) {
        Some(d) => d,
        None => { return Err(LedgerError::State(StateFault::DepositNotFound)); },
    };
    let claimed: Deposits = ledger.deposits.deposits[d].claim(now);
    ledger.deposits.deposits[d] = claimed;
    Ok(())
}

/// The deposit of `user` in pool `query.pool_id` as a query at `now` shows
/// it.
pub fn get_user_deposit(
    ledger: &Ledger,
    user: &Identity,
    query: &QueryParam,
    now: u64,
) -> (r: Result<Deposits, LedgerError>)
    ensures
        r == ledger@.deposit_shown(*user, *query, now),
{
    let d: usize = match ledger.deposits.position(query.pool_id, user) {
        Some(d) => d,
        None => { return Err(LedgerError::State(StateFault::DepositNotFound)); },
    };
    if ledger.policy.reward_bearing {
        let i: usize = ledger.resolve(query.pool_id)?;
        ledger.deposits.deposits[d].show(&ledger.policy, ledger.pools[i].apy, now)
    } else {
        Ok(ledger.deposits.deposits[d])
    }
}

/// Says which id a new pool would get, without changing anything.
pub fn check_create(
    ledger: &Ledger,
    caller: &Identity,
    is_signer: bool,
    param: &PoolParam,
) -> (r: Result<u64, LedgerError>)
    ensures
        r == ledger@.create_check(*caller, is_signer, *param),
{
    if ledger.policy.admin_gated && !ledger.pool_list.is_admin(caller) {
        return Err(LedgerError::Authorization);
    }
    if !is_signer {
        return Err(LedgerError::Authorization);
    }
    let _ = AssetType::from_u8(param.asset_type)?;
    let _ = RiskType::from_u8(param.risk_type)?;
    let count: u64 = ledger.pool_list.pools.len() as u64;
    match count.checked_add(1) {
        Some(id) => Ok(id),
        None => Err(LedgerError::Arithmetic),
    }
}

/// Creates a pool whose record lives at `location` and returns its id.
pub fn create_pool(
    ledger: &mut Ledger,
    caller: &Identity,
    is_signer: bool,
    location: Identity,
    param: PoolParam,
) -> (r: Result<u64, LedgerError>)
    ensures
        match old(ledger)@.create_outcome(*caller, is_signer, location, param) {
            Ok((id, next)) => r == Ok::<u64, LedgerError>(id) && final(ledger)@ == next,
            Err(e) => r == Err::<u64, LedgerError>(e) && final(ledger)@ == old(ledger)@,
        },
{
    let pool_id: u64 = check_create(ledger, caller, is_signer, &param)?;
    let asset_type: AssetType = AssetType::from_u8(param.asset_type)?;
    let risk_type: RiskType = RiskType::from_u8(param.risk_type)?;
    let record: Pool = Pool::create(pool_id, location, param, risk_type, asset_type);
    ledger.pool_list.pools.push(pool_id);
    ledger.pool_list.pool_id_to_pubkey.push((pool_id, location));
    match find_record(&ledger.pools, &location) {
        Some(i) => {
            ledger.pools[i] = record;
        },
        None => {
            ledger.pools.push(record);
        },
    }
    Ok(pool_id)
}

/// The records of all pools, in the order of the index.
pub fn get_all_pools(ledger: &Ledger) -> (r: Result<Vec<Pool>, LedgerError>)
    ensures
        match ledger@.listing() {
            Ok(records) => r is Ok && r.unwrap()@ == records,
            Err(e) => r == Err::<Vec<Pool>, LedgerError>(e),
        },
{
    let mut records: Vec<Pool> = Vec::new();
    let mut k: usize = 0;
    while k < ledger.pool_list.pools.len()
        invariant
            k <= ledger.pool_list.pools.len(),
            records@.len() == k,
            forall|j: int|
                0 <= j < k ==> !ledger@.unresolved()(#[trigger] ledger.pool_list.pools@[j]),
            forall|j: int|
                0 <= j < k ==> #[trigger] records@[j] == ledger.pools@[ledger@.resolve(
                    ledger.pool_list.pools@[j],
                ).unwrap()],
        decreases ledger.pool_list.pools.len() - k,
    {
        match ledger.resolve(ledger.pool_list.pools[k]) {
            Ok(i) => {
                records.push(ledger.pools[i].duplicate());
            },
            Err(e) => {
                proof {
                    assert(is_first(ledger@.pool_ids, ledger@.unresolved(), k as int));
                    lemma_first_found(ledger@.pool_ids, ledger@.unresolved(), k as int);
                }
                return Err(e);
            },
        }
        k += 1;
    }
    proof {
        assert(nowhere(ledger@.pool_ids, ledger@.unresolved()));
        lemma_first_absent(ledger@.pool_ids, ledger@.unresolved());
        assert(records@ =~= ledger@.listing().unwrap());
    }
    Ok(records)
}

} // verus!
