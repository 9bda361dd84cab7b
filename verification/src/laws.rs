//! Laws of the ledger: what holds of every state that the operations can
//! reach, and of operations taken together.

use crate::books::{
    active_principal, lemma_principal_bounds, lemma_principal_of_unknown_pool,
    lemma_principal_push, lemma_principal_update, lemma_resolve, lemma_sound_is_balanced,
    total_principal,
};
use crate::deposit::{DepositParam, DepositStatus};
use crate::error::{BusinessRule, LedgerError, TransferError};
use crate::identity::Identity;
use crate::ledger::LedgerView;
use crate::pool::{Pool, PoolParam};
use crate::registry::{held_by, indexes, stored_at};
use crate::search::{
    first_index, lemma_first_absent, lemma_first_index, lemma_first_index_agrees,
    lemma_first_index_push, nowhere,
};
use vstd::prelude::*;

verus! {

/// A deposit keeps the books in order. Where a deposit into a withdrawn
/// position makes it active again, it also keeps every deposit withdrawn
/// exactly when it holds no principal.
pub proof fn law_deposit_keeps_books(
    ledger: LedgerView,
    user: Identity,
    param: DepositParam,
    now: u64,
    transfer: Result<(), TransferError>,
)
    requires
        ledger.in_order(),
    ensures
        ledger.deposit_outcome(user, param, now, transfer) matches Ok(next) ==> {
            &&& next.in_order()
            &&& next.policy == ledger.policy
            &&& ledger.sound() && ledger.policy.reactivate_on_deposit ==> next.sound()
        },
{
    if let Ok(next) = ledger.deposit_outcome(user, param, now, transfer) {
        lemma_resolve(ledger, param.pool_id);
        let i = ledger.resolve(param.pool_id).unwrap();
        let entry = ledger.deposit_entry(i, user, param, now).unwrap();
        let pool = ledger.pools[i].after_deposit(param.amount).unwrap();
        lemma_first_index(ledger.deposits, held_by(param.pool_id, user));
        assert(next.pools == ledger.pools.update(i, pool));
        assert(entry.pool_id == param.pool_id);
        assert(entry.deposited_amount > 0);
        assert forall|k: int| 0 <= k < next.pools.len() implies {
            &&& (#[trigger] next.pools[k]).tvl == total_principal(
                next.deposits,
                next.pools[k].pool_id,
            )
            &&& next.pools[k].total_unit == next.pools[k].tvl
        } by {
            let id = ledger.pools[k].pool_id;
            assert(ledger.pool_ids[k] == k + 1);
            assert(ledger.pools[k].tvl == total_principal(ledger.deposits, id));
            match ledger.position(param.pool_id, user) {
                Some(d) => {
                    lemma_principal_update(ledger.deposits, d, entry, id);
                },
                None => {
                    lemma_principal_push(ledger.deposits, entry, id);
                },
            }
        }
        assert forall|d: int| 0 <= d < next.deposits.len() implies 1 <= (
        #[trigger] next.deposits[d]).pool_id <= next.pools.len() by {
            if d < ledger.deposits.len() && ledger.position(param.pool_id, user) != Some(d) {
                assert(next.deposits[d] == ledger.deposits[d]);
            }
        }
        lemma_registry_kept(ledger, next);
        if ledger.sound() && ledger.policy.reactivate_on_deposit {
            assert(entry.status == DepositStatus::Active);
            assert forall|d: int| 0 <= d < next.deposits.len() implies ((
            #[trigger] next.deposits[d]).deposited_amount == 0 <==> next.deposits[d].status
                == DepositStatus::Withdrawn) by {
                if d < ledger.deposits.len() && ledger.position(param.pool_id, user) != Some(d) {
                    assert(next.deposits[d] == ledger.deposits[d]);
                }
            }
        }
    }
}

/// A consistent registry stays consistent while every record keeps its id
/// and its location.
proof fn lemma_registry_kept(ledger: LedgerView, next: LedgerView)
    requires
        ledger.registry_consistent(),
        next.pool_ids == ledger.pool_ids,
        next.locations == ledger.locations,
        next.pools.len() == ledger.pools.len(),
        forall|k: int|
            0 <= k < ledger.pools.len() ==> (#[trigger] next.pools[k]).pool_id
                == ledger.pools[k].pool_id && next.pools[k].pool_pubkey
                == ledger.pools[k].pool_pubkey,
    ensures
        next.registry_consistent(),
{
    assert forall|k: int| 0 <= k < next.pools.len() implies {
        &&& #[trigger] next.pool_ids[k] == k + 1
        &&& next.locations[k] == (next.pool_ids[k], next.pools[k].pool_pubkey)
        &&& next.pools[k].pool_id == next.pool_ids[k]
    } by {
        assert(ledger.pool_ids[k] == k + 1);
        assert(next.pools[k].pool_id == ledger.pools[k].pool_id);
    }
    assert forall|j: int, k: int| 0 <= j < k < next.pools.len() implies (
    #[trigger] next.pools[j]).pool_pubkey != (#[trigger] next.pools[k]).pool_pubkey by {
        assert(ledger.pools[j].pool_pubkey != ledger.pools[k].pool_pubkey);
    }
}

/// A withdrawal keeps the books in order, and keeps every deposit withdrawn
/// exactly when it holds no principal.
pub proof fn law_withdraw_keeps_books(
    ledger: LedgerView,
    user: Identity,
    pool_id: u64,
    now: u64,
    transfer: Result<(), TransferError>,
)
    requires
        ledger.in_order(),
    ensures
        ledger.withdraw_outcome(user, pool_id, now, transfer) matches Ok(next) ==> {
            &&& next.in_order()
            &&& next.policy == ledger.policy
            &&& ledger.sound() ==> next.sound()
        },
{
    if let Ok(next) = ledger.withdraw_outcome(user, pool_id, now, transfer) {
        lemma_resolve(ledger, pool_id);
        let i = ledger.resolve(pool_id).unwrap();
        let d = ledger.position(pool_id, user).unwrap();
        let before = ledger.deposits[d];
        let pool = ledger.pools[i].after_withdrawal(before.deposited_amount).unwrap();
        lemma_first_index(ledger.deposits, held_by(pool_id, user));
        assert(before.pool_id == pool_id);
        assert(next.pools == ledger.pools.update(i, pool));
        assert(next.deposits == ledger.deposits.update(d, before.withdrawn()));
        assert forall|k: int| 0 <= k < next.pools.len() implies {
            &&& (#[trigger] next.pools[k]).tvl == total_principal(
                next.deposits,
                next.pools[k].pool_id,
            )
            &&& next.pools[k].total_unit == next.pools[k].tvl
        } by {
            let id = ledger.pools[k].pool_id;
            assert(ledger.pool_ids[k] == k + 1);
            assert(ledger.pools[k].tvl == total_principal(ledger.deposits, id));
            lemma_principal_update(ledger.deposits, d, before.withdrawn(), id);
        }
        assert forall|e: int| 0 <= e < next.deposits.len() implies 1 <= (
        #[trigger] next.deposits[e]).pool_id <= next.pools.len() by {
            if e != d {
                assert(next.deposits[e] == ledger.deposits[e]);
            }
        }
        lemma_registry_kept(ledger, next);
        if ledger.sound() {
            assert forall|e: int| 0 <= e < next.deposits.len() implies ((
            #[trigger] next.deposits[e]).deposited_amount == 0 <==> next.deposits[e].status
                == DepositStatus::Withdrawn) by {
                if e != d {
                    assert(next.deposits[e] == ledger.deposits[e]);
                }
            }
        }
    }
}

/// A reward claim keeps the books in order: it changes no principal, no
/// status and no pool.
pub proof fn law_claim_keeps_books(
    ledger: LedgerView,
    user: Identity,
    pool_id: u64,
    now: u64,
    transfer: Result<(), TransferError>,
)
    requires
        ledger.in_order(),
    ensures
        ledger.reward_outcome(user, pool_id, now, transfer) matches Ok(next) ==> {
            &&& next.in_order()
            &&& next.policy == ledger.policy
            &&& next.pools == ledger.pools
            &&& ledger.sound() ==> next.sound()
        },
{
    if let Ok(next) = ledger.reward_outcome(user, pool_id, now, transfer) {
        let d = ledger.position(pool_id, user).unwrap();
        let before = ledger.deposits[d];
        lemma_first_index(ledger.deposits, held_by(pool_id, user));
        assert(next.deposits == ledger.deposits.update(d, before.claimed(now)));
        assert forall|k: int| 0 <= k < next.pools.len() implies {
            &&& (#[trigger] next.pools[k]).tvl == total_principal(
                next.deposits,
                next.pools[k].pool_id,
            )
            &&& next.pools[k].total_unit == next.pools[k].tvl
        } by {
            let id = ledger.pools[k].pool_id;
            assert(ledger.pools[k].tvl == total_principal(ledger.deposits, id));
            lemma_principal_update(ledger.deposits, d, before.claimed(now), id);
        }
        assert forall|e: int| 0 <= e < next.deposits.len() implies 1 <= (
        #[trigger] next.deposits[e]).pool_id <= next.pools.len() by {
            if e != d {
                assert(next.deposits[e] == ledger.deposits[e]);
            }
        }
        if ledger.sound() {
            assert forall|e: int| 0 <= e < next.deposits.len() implies ((
            #[trigger] next.deposits[e]).deposited_amount == 0 <==> next.deposits[e].status
                == DepositStatus::Withdrawn) by {
                if e != d {
                    assert(next.deposits[e] == ledger.deposits[e]);
                }
            }
        }
    }
}

/// Creating a pool at a location that holds no record keeps the books in
/// order; the new pool gets the next id and its record is added to storage.
pub proof fn law_create_keeps_books(
    ledger: LedgerView,
    caller: Identity,
    is_signer: bool,
    location: Identity,
    param: PoolParam,
)
    requires
        ledger.in_order(),
        nowhere(ledger.pools, stored_at(location)),
    ensures
        ledger.create_outcome(caller, is_signer, location, param) matches Ok((id, next)) ==> {
            &&& next.in_order()
            &&& next.policy == ledger.policy
            &&& next.deposits == ledger.deposits
            &&& id == ledger.pools.len() + 1
            &&& next.pools.len() == ledger.pools.len() + 1
            &&& next.pools[id - 1].pool_id == id
            &&& next.pools[id - 1].pool_pubkey == location
            &&& forall|k: int|
                0 <= k < ledger.pools.len() ==> #[trigger] next.pools[k] == ledger.pools[k]
        },
{
    if let Ok((id, next)) = ledger.create_outcome(caller, is_signer, location, param) {
        lemma_first_absent(ledger.pools, stored_at(location));
        let record = next.pools[id - 1];
        assert(next.pools == ledger.pools.push(record));
        assert(record.tvl == 0 && record.total_unit == 0);
        assert forall|d: int| 0 <= d < ledger.deposits.len() implies (
        #[trigger] ledger.deposits[d]).pool_id != id by {}
        lemma_principal_of_unknown_pool(ledger.deposits, id);
        assert forall|k: int| 0 <= k < next.pools.len() implies {
            &&& #[trigger] next.pool_ids[k] == k + 1
            &&& next.locations[k] == (next.pool_ids[k], next.pools[k].pool_pubkey)
            &&& next.pools[k].pool_id == next.pool_ids[k]
        } by {
            if k < ledger.pools.len() {
                assert(ledger.pool_ids[k] == k + 1);
            }
        }
        assert forall|j: int, k: int| 0 <= j < k < next.pools.len() implies (
        #[trigger] next.pools[j]).pool_pubkey != (#[trigger] next.pools[k]).pool_pubkey by {
            if k < ledger.pools.len() {
                assert(ledger.pools[j].pool_pubkey != ledger.pools[k].pool_pubkey);
            } else {
                assert(!stored_at(location)(ledger.pools[j]));
            }
        }
        assert forall|k: int| 0 <= k < next.pools.len() implies {
            &&& (#[trigger] next.pools[k]).tvl == total_principal(
                next.deposits,
                next.pools[k].pool_id,
            )
            &&& next.pools[k].total_unit == next.pools[k].tvl
        } by {
            if k < ledger.pools.len() {
                assert(ledger.pools[k].tvl == total_principal(
                    ledger.deposits,
                    ledger.pools[k].pool_id,
                ));
            }
        }
        assert forall|d: int| 0 <= d < next.deposits.len() implies 1 <= (
        #[trigger] next.deposits[d]).pool_id <= next.pools.len() by {}
    }
}

/// An operation on the deposits of a ledger, with all it is given.
pub enum Operation {
    Deposit { user: Identity, param: DepositParam, now: u64, transfer: Result<(), TransferError> },
    Withdraw { user: Identity, pool_id: u64, now: u64, transfer: Result<(), TransferError> },
    ClaimReward { user: Identity, pool_id: u64, now: u64, transfer: Result<(), TransferError> },
}

/// The ledger after `operation`; a failed operation leaves it as it was.
pub open spec fn after(ledger: LedgerView, operation: Operation) -> LedgerView {
    match operation {
        Operation::Deposit { user, param, now, transfer } => match ledger.deposit_outcome(
            user,
            param,
            now,
            transfer,
        ) {
            Ok(next) => next,
            Err(_) => ledger,
        },
        Operation::Withdraw { user, pool_id, now, transfer } => match ledger.withdraw_outcome(
            user,
            pool_id,
            now,
            transfer,
        ) {
            Ok(next) => next,
            Err(_) => ledger,
        },
        Operation::ClaimReward { user, pool_id, now, transfer } => match ledger.reward_outcome(
            user,
            pool_id,
            now,
            transfer,
        ) {
            Ok(next) => next,
            Err(_) => ledger,
        },
    }
}

/// The ledger after the operations in `operations`, one after the other.
pub open spec fn after_all(ledger: LedgerView, operations: Seq<Operation>) -> LedgerView
    decreases operations.len(),
{
    if operations.len() == 0 {
        ledger
    } else {
        after(after_all(ledger, operations.drop_last()), operations.last())
    }
}

/// After any sequence of deposits, withdrawals and reward claims on a
/// ledger whose books are in order, they still are: for every pool the
/// value locked equals the units outstanding and equals the sum of the
/// principal of the pool's deposits. This holds under every policy.
pub proof fn law_books_stay_in_order(ledger: LedgerView, operations: Seq<Operation>)
    requires
        ledger.in_order(),
    ensures
        after_all(ledger, operations).in_order(),
        after_all(ledger, operations).policy == ledger.policy,
        ledger.sound() && ledger.policy.reactivate_on_deposit ==> after_all(
            ledger,
            operations,
        ).sound(),
    decreases operations.len(),
{
    if operations.len() > 0 {
        law_books_stay_in_order(ledger, operations.drop_last());
        let before = after_all(ledger, operations.drop_last());
        match operations.last() {
            Operation::Deposit { user, param, now, transfer } => {
                law_deposit_keeps_books(before, user, param, now, transfer);
            },
            Operation::Withdraw { user, pool_id, now, transfer } => {
                law_withdraw_keeps_books(before, user, pool_id, now, transfer);
            },
            Operation::ClaimReward { user, pool_id, now, transfer } => {
                law_claim_keeps_books(before, user, pool_id, now, transfer);
            },
        }
    }
}

/// After any sequence of deposits, withdrawals and reward claims on a sound
/// ledger, for every pool the value locked equals the units outstanding
/// and equals the sum of the principal of the pool's active deposits. This
/// holds where a deposit into a withdrawn position makes it active again;
/// where it does not, such a position holds principal that no active
/// deposit accounts for.
pub proof fn law_books_stay_balanced(ledger: LedgerView, operations: Seq<Operation>)
    requires
        ledger.sound(),
        ledger.policy.reactivate_on_deposit,
    ensures
        after_all(ledger, operations).sound(),
        after_all(ledger, operations).balanced(),
        forall|k: int|
            0 <= k < after_all(ledger, operations).pools.len() ==> {
                let pool = #[trigger] after_all(ledger, operations).pools[k];
                pool.tvl == pool.total_unit && pool.tvl == active_principal(
                    after_all(ledger, operations).deposits,
                    pool.pool_id,
                )
            },
{
    law_books_stay_in_order(ledger, operations);
    lemma_sound_is_balanced(after_all(ledger, operations));
}

/// A first deposit followed by a withdrawal once the lock-up has elapsed
/// brings every pool back to what it was: the value locked and the units
/// outstanding are those from before the deposit. The depositor must hold
/// no principal in the pool beforehand, because a withdrawal takes all of
/// it out.
pub proof fn law_round_trip(
    ledger: LedgerView,
    user: Identity,
    param: DepositParam,
    deposited_at: u64,
    withdrawn_at: u64,
)
    requires
        ledger.deposit_outcome(user, param, deposited_at, Ok(())) is Ok,
        ledger.position(param.pool_id, user) matches Some(d) ==> ledger.deposits[d].deposited_amount
            == 0,
        withdrawn_at >= deposited_at + ledger.pools[ledger.resolve(
            param.pool_id,
        ).unwrap()].min_period,
    ensures
        ledger.deposit_outcome(user, param, deposited_at, Ok(())).unwrap().withdraw_outcome(
            user,
            param.pool_id,
            withdrawn_at,
            Ok(()),
        ) matches Ok(last) && last.pools == ledger.pools,
{
    let i = ledger.resolve(param.pool_id).unwrap();
    let entry = ledger.deposit_entry(i, user, param, deposited_at).unwrap();
    let pool = ledger.pools[i].after_deposit(param.amount).unwrap();
    let middle = ledger.deposit_outcome(user, param, deposited_at, Ok(())).unwrap();
    lemma_resolve_after_update(ledger, param.pool_id, pool);
    lemma_first_index(ledger.deposits, held_by(param.pool_id, user));
    assert(held_by(param.pool_id, user)(entry));
    let d = match ledger.position(param.pool_id, user) {
        Some(d) => {
            assert forall|j: int| 0 <= j < ledger.deposits.len() implies held_by(
                param.pool_id,
                user,
            )(#[trigger] ledger.deposits[j]) == held_by(param.pool_id, user)(
                ledger.deposits.update(d, entry)[j],
            ) by {}
            lemma_first_index_agrees(
                ledger.deposits,
                ledger.deposits.update(d, entry),
                held_by(param.pool_id, user),
            );
            d
        },
        None => {
            lemma_first_index_push(ledger.deposits, entry, held_by(param.pool_id, user));
            ledger.deposits.len() as int
        },
    };
    let changed = LedgerView { pools: ledger.pools.update(i, pool), ..ledger };
    assert(changed.resolve(param.pool_id) == ledger.resolve(param.pool_id));
    assert(middle.resolve(param.pool_id) == changed.resolve(param.pool_id));
    assert(middle.position(param.pool_id, user) == Some(d));
    assert(middle.deposits[d] == entry);
    assert(entry.deposited_amount == param.amount);
    assert(entry.start_date == deposited_at);
    assert(middle.pools[i] == pool);
    assert(pool.min_period == ledger.pools[i].min_period);
    assert(!entry.locked_at(pool.min_period, withdrawn_at));
    assert(pool.after_withdrawal(param.amount) == Ok::<Pool, LedgerError>(ledger.pools[i]));
    assert(middle.withdraw_plan(user, param.pool_id, withdrawn_at) is Ok);
    let last = middle.withdraw_outcome(user, param.pool_id, withdrawn_at, Ok(())).unwrap();
    assert(last.pools =~= ledger.pools);
}

/// Changing the aggregates of the record a pool resolves to does not change
/// what any pool resolves to.
proof fn lemma_resolve_after_update(ledger: LedgerView, pool_id: u64, pool: Pool)
    requires
        ledger.resolve(pool_id) is Ok,
        pool.pool_pubkey == ledger.pools[ledger.resolve(pool_id).unwrap()].pool_pubkey,
    ensures
        forall|other: u64|
            (#[trigger] (LedgerView {
                pools: ledger.pools.update(ledger.resolve(pool_id).unwrap(), pool),
                ..ledger
            }).resolve(other)) == ledger.resolve(other),
        0 <= ledger.resolve(pool_id).unwrap() < ledger.pools.len(),
{
    let i = ledger.resolve(pool_id).unwrap();
    lemma_first_index(ledger.locations, indexes(pool_id));
    let k = first_index(ledger.locations, indexes(pool_id)).unwrap();
    lemma_first_index(ledger.pools, stored_at(ledger.locations[k].1));
    let changed = LedgerView { pools: ledger.pools.update(i, pool), ..ledger };
    assert forall|other: u64| #[trigger] changed.resolve(other) == ledger.resolve(other) by {
        match first_index(ledger.locations, indexes(other)) {
            Some(m) => {
                let location = ledger.locations[m].1;
                assert forall|j: int| 0 <= j < ledger.pools.len() implies stored_at(location)(
                    #[trigger] ledger.pools[j],
                ) == stored_at(location)(changed.pools[j]) by {}
                lemma_first_index_agrees(ledger.pools, changed.pools, stored_at(location));
            },
            None => {},
        }
    }
}

/// A deposit that would take the value locked in the pool beyond the range
/// of `u64` fails with the arithmetic error. (A failed deposit changes
/// nothing: that is part of the contract of `Ledger::deposit`.)
pub proof fn law_overflow_is_refused(
    ledger: LedgerView,
    user: Identity,
    param: DepositParam,
    now: u64,
)
    requires
        ledger.deposit_plan(param) is Ok,
        ledger.pools[ledger.resolve(param.pool_id).unwrap()].tvl + param.amount > u64::MAX,
    ensures
        ledger.deposit_outcome(user, param, now, Ok(())) == Err::<LedgerView, LedgerError>(
            LedgerError::Arithmetic,
        ),
{
}

/// The lock-up is enforced to the second: while `now` lies before the start
/// of the deposit plus the pool's lock-up period, a withdrawal fails as
/// locked, whatever the transfer did; from that time on it succeeds where
/// the pool holds the principal and the transfer went through.
pub proof fn law_lock_up(
    ledger: LedgerView,
    user: Identity,
    pool_id: u64,
    now: u64,
    transfer: Result<(), TransferError>,
)
    requires
        ledger.resolve(pool_id) is Ok,
        ledger.position(pool_id, user) is Some,
        ledger.deposits[ledger.position(pool_id, user).unwrap()].deposited_amount > 0,
    ensures
        ({
            let pool = ledger.pools[ledger.resolve(pool_id).unwrap()];
            let deposit = ledger.deposits[ledger.position(pool_id, user).unwrap()];
            let unlock = deposit.start_date + pool.min_period;
            &&& now < unlock ==> ledger.withdraw_outcome(user, pool_id, now, transfer) == Err::<
                LedgerView,
                LedgerError,
            >(LedgerError::BusinessRule(BusinessRule::Locked))
            &&& now >= unlock && deposit.deposited_amount <= pool.tvl && deposit.deposited_amount
                <= pool.total_unit ==> ledger.withdraw_outcome(user, pool_id, now, Ok(())) is Ok
        }),
{
}

/// In a ledger whose books are in order the pool always holds the principal
/// of a deposit, so a withdrawal succeeds as soon as the lock-up has
/// elapsed and the transfer went through.
pub proof fn law_unlocked_withdrawal_succeeds(
    ledger: LedgerView,
    user: Identity,
    pool_id: u64,
    now: u64,
)
    requires
        ledger.in_order(),
        ledger.resolve(pool_id) is Ok,
        ledger.position(pool_id, user) is Some,
        ledger.deposits[ledger.position(pool_id, user).unwrap()].deposited_amount > 0,
        now >= ledger.deposits[ledger.position(pool_id, user).unwrap()].start_date
            + ledger.pools[ledger.resolve(pool_id).unwrap()].min_period,
    ensures
        ledger.withdraw_outcome(user, pool_id, now, Ok(())) is Ok,
{
    lemma_resolve(ledger, pool_id);
    let i = ledger.resolve(pool_id).unwrap();
    let d = ledger.position(pool_id, user).unwrap();
    lemma_first_index(ledger.deposits, held_by(pool_id, user));
    assert(ledger.pool_ids[i] == i + 1);
    assert(ledger.pools[i].tvl == total_principal(ledger.deposits, ledger.pools[i].pool_id));
    lemma_principal_bounds(ledger.deposits, d, pool_id);
}

/// A reward cannot be claimed twice: after a claim went through, the next
/// claim for the same deposit fails for want of a reward, at whatever time
/// it is made and whatever its transfer did.
pub proof fn law_no_double_claim(
    ledger: LedgerView,
    user: Identity,
    pool_id: u64,
    now: u64,
    again: u64,
    transfer: Result<(), TransferError>,
)
    requires
        ledger.reward_outcome(user, pool_id, now, Ok(())) is Ok,
    ensures
        ledger.reward_outcome(user, pool_id, now, Ok(())).unwrap().reward_outcome(
            user,
            pool_id,
            again,
            transfer,
        ) == Err::<LedgerView, LedgerError>(LedgerError::BusinessRule(BusinessRule::NoRewards)),
{
    let d = ledger.position(pool_id, user).unwrap();
    let next = ledger.reward_outcome(user, pool_id, now, Ok(())).unwrap();
    let claimed = ledger.deposits[d].claimed(now);
    lemma_first_index(ledger.deposits, held_by(pool_id, user));
    assert forall|j: int| 0 <= j < ledger.deposits.len() implies held_by(pool_id, user)(
        #[trigger] ledger.deposits[j],
    ) == held_by(pool_id, user)(ledger.deposits.update(d, claimed)[j]) by {}
    lemma_first_index_agrees(
        ledger.deposits,
        ledger.deposits.update(d, claimed),
        held_by(pool_id, user),
    );
    assert(next.position(pool_id, user) == Some(d));
    assert(next.resolve(pool_id) == ledger.resolve(pool_id));
    assert(next.deposits[d].reward == 0);
}

/// A call of `create_pool`, with all it is given.
pub struct Creation {
    pub caller: Identity,
    pub is_signer: bool,
    pub location: Identity,
    pub param: PoolParam,
}

/// The ledger after the call `call`; a failed call leaves it as it was.
pub open spec fn after_creation(ledger: LedgerView, call: Creation) -> LedgerView {
    match ledger.create_outcome(call.caller, call.is_signer, call.location, call.param) {
        Ok((_, next)) => next,
        Err(_) => ledger,
    }
}

/// The ledger after the calls in `calls`, one after the other.
pub open spec fn after_creations(ledger: LedgerView, calls: Seq<Creation>) -> LedgerView
    decreases calls.len(),
{
    if calls.len() == 0 {
        ledger
    } else {
        after_creation(after_creations(ledger, calls.drop_last()), calls.last())
    }
}

/// Every call in `calls` succeeds on the ledger it meets.
pub open spec fn all_created(ledger: LedgerView, calls: Seq<Creation>) -> bool
    decreases calls.len(),
{
    calls.len() == 0 || (all_created(ledger, calls.drop_last()) && after_creations(
        ledger,
        calls.drop_last(),
    ).create_outcome(
        calls.last().caller,
        calls.last().is_signer,
        calls.last().location,
        calls.last().param,
    ) is Ok)
}

/// The calls name locations that hold no record of the ledger, and no two
/// calls name the same.
pub open spec fn fresh_locations(ledger: LedgerView, calls: Seq<Creation>) -> bool {
    &&& forall|k: int|
        0 <= k < calls.len() ==> nowhere(ledger.pools, stored_at((#[trigger] calls[k]).location))
    &&& forall|j: int, k: int|
        0 <= j < k < calls.len() ==> (#[trigger] calls[j]).location != (
        #[trigger] calls[k]).location
}

/// In a consistent registry the listing is the storage itself, record by
/// record.
pub proof fn lemma_listing(ledger: LedgerView)
    requires
        ledger.registry_consistent(),
    ensures
        ledger.listing() == Ok::<Seq<Pool>, LedgerError>(ledger.pools),
{
    assert forall|k: int| 0 <= k < ledger.pool_ids.len() implies !ledger.unresolved()(
        #[trigger] ledger.pool_ids[k],
    ) && ledger.resolve(ledger.pool_ids[k]) == Ok::<int, LedgerError>(k) by {
        lemma_resolve(ledger, ledger.pool_ids[k]);
    }
    assert(nowhere(ledger.pool_ids, ledger.unresolved()));
    lemma_first_absent(ledger.pool_ids, ledger.unresolved());
    assert(ledger.listing().unwrap() =~= ledger.pools);
}

/// What successful creations at fresh locations leave behind: books in
/// order, the old records where they were, and one new record for each
/// call, at the location the call named.
proof fn lemma_creations(ledger: LedgerView, calls: Seq<Creation>)
    requires
        ledger.in_order(),
        fresh_locations(ledger, calls),
        all_created(ledger, calls),
    ensures
        after_creations(ledger, calls).in_order(),
        after_creations(ledger, calls).pools.len() == ledger.pools.len() + calls.len(),
        forall|m: int|
            0 <= m < ledger.pools.len() ==> (#[trigger] after_creations(
                ledger,
                calls,
            ).pools[m]).pool_pubkey == ledger.pools[m].pool_pubkey,
        forall|m: int|
            ledger.pools.len() <= m < ledger.pools.len() + calls.len() ==> (
            #[trigger] after_creations(ledger, calls).pools[m]).pool_pubkey == calls[m
                - ledger.pools.len()].location,
    decreases calls.len(),
{
    if calls.len() > 0 {
        let earlier = calls.drop_last();
        let call = calls.last();
        assert forall|k: int| 0 <= k < earlier.len() implies nowhere(
            ledger.pools,
            stored_at((#[trigger] earlier[k]).location),
        ) by {
            assert(earlier[k] == calls[k]);
        }
        assert forall|j: int, k: int| 0 <= j < k < earlier.len() implies (
        #[trigger] earlier[j]).location != (#[trigger] earlier[k]).location by {
            assert(earlier[j] == calls[j]);
            assert(earlier[k] == calls[k]);
        }
        lemma_creations(ledger, earlier);
        let middle = after_creations(ledger, earlier);
        assert(call == calls[calls.len() - 1]);
        assert forall|m: int| 0 <= m < middle.pools.len() implies !stored_at(call.location)(
            #[trigger] middle.pools[m],
        ) by {
            if m < ledger.pools.len() {
                assert(!stored_at(call.location)(ledger.pools[m]));
            } else {
                assert(earlier[m - ledger.pools.len()] == calls[m - ledger.pools.len()]);
            }
        }
        law_create_keeps_books(middle, call.caller, call.is_signer, call.location, call.param);
        let last = after_creations(ledger, calls);
        lemma_first_absent(middle.pools, stored_at(call.location));
        assert forall|m: int| 0 <= m < ledger.pools.len() implies (#[trigger] last.pools[m]).pool_pubkey
            == ledger.pools[m].pool_pubkey by {
            assert(last.pools[m] == middle.pools[m]);
        }
        assert forall|m: int|
            ledger.pools.len() <= m < ledger.pools.len() + calls.len() implies (
        #[trigger] last.pools[m]).pool_pubkey == calls[m - ledger.pools.len()].location by {
            if m < middle.pools.len() {
                assert(last.pools[m] == middle.pools[m]);
                assert(earlier[m - ledger.pools.len()] == calls[m - ledger.pools.len()]);
            }
        }
    }
}

/// After `create_pool` was called successfully N times, each time at a
/// location of its own that held no record before, the listing holds
/// exactly N records more than before, and the ids of the records are
/// 1, 2, 3 and so on in the order of the listing: sequential, hence
/// distinct. On a ledger without pools the listing holds exactly N records.
pub proof fn law_registry_integrity(ledger: LedgerView, calls: Seq<Creation>)
    requires
        ledger.in_order(),
        fresh_locations(ledger, calls),
        all_created(ledger, calls),
    ensures
        after_creations(ledger, calls).listing() matches Ok(records) && records.len()
            == ledger.pools.len() + calls.len() && (forall|k: int|
            0 <= k < records.len() ==> (#[trigger] records[k]).pool_id == k + 1) && (forall|
            j: int,
            k: int,
        |
            0 <= j < k < records.len() ==> (#[trigger] records[j]).pool_id != (
            #[trigger] records[k]).pool_id),
{
    lemma_creations(ledger, calls);
    let last = after_creations(ledger, calls);
    lemma_listing(last);
    assert forall|k: int| 0 <= k < last.pools.len() implies (#[trigger] last.pools[k]).pool_id == k
        + 1 by {
        assert(last.pool_ids[k] == k + 1);
    }
}

/// A ledger without pools and deposits is sound.
pub proof fn law_empty_ledger_is_sound(ledger: LedgerView)
    requires
        ledger.pool_ids.len() == 0,
        ledger.locations.len() == 0,
        ledger.pools.len() == 0,
        ledger.deposits.len() == 0,
    ensures
        ledger.sound(),
{
}

} // verus!
