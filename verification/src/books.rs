//! What it means for a ledger's books to be in order, and the facts about
//! sums and lookups that the laws rest on.

use crate::deposit::{DepositStatus, Deposits};
use crate::error::{LedgerError, StateFault};
use crate::ledger::LedgerView;
use crate::registry::{indexes, stored_at};
use crate::search::{is_first, lemma_first_absent, lemma_first_found, nowhere};
use vstd::prelude::*;

verus! {

/// What `deposit` adds to the principal of pool `pool_id`: its principal
/// where it is a deposit of that pool, nothing otherwise.
pub open spec fn counted(deposit: Deposits, pool_id: u64) -> int {
    if deposit.pool_id == pool_id {
        deposit.deposited_amount as int
    } else {
        0
    }
}

/// The sum of the principal of the deposits in pool `pool_id`.
pub open spec fn total_principal(deposits: Seq<Deposits>, pool_id: u64) -> int
    decreases deposits.len(),
{
    if deposits.len() == 0 {
        0
    } else {
        total_principal(deposits.drop_last(), pool_id) + counted(deposits.last(), pool_id)
    }
}

/// What `deposit` adds to the active principal of pool `pool_id`: its
/// principal where it is an active deposit of that pool, nothing otherwise.
pub open spec fn counted_active(deposit: Deposits, pool_id: u64) -> int {
    if deposit.status == DepositStatus::Active {
        counted(deposit, pool_id)
    } else {
        0
    }
}

/// The sum of the principal of the active deposits in pool `pool_id`.
pub open spec fn active_principal(deposits: Seq<Deposits>, pool_id: u64) -> int
    decreases deposits.len(),
{
    if deposits.len() == 0 {
        0
    } else {
        active_principal(deposits.drop_last(), pool_id) + counted_active(
            deposits.last(),
            pool_id,
        )
    }
}

/// Every deposit in `deposits` is withdrawn exactly when it holds no
/// principal.
pub open spec fn statuses_agree(deposits: Seq<Deposits>) -> bool {
    forall|d: int|
        0 <= d < deposits.len() ==> ((#[trigger] deposits[d]).deposited_amount == 0
            <==> deposits[d].status == DepositStatus::Withdrawn)
}

impl LedgerView {
    /// The index and storage are in step: pool `k + 1` is the `k`-th entry of
    /// the index and its record is the `k`-th in storage, at the location
    /// the index names, and no two pools share a location.
    pub open spec fn registry_consistent(self) -> bool {
        &&& self.pool_ids.len() == self.pools.len()
        &&& self.locations.len() == self.pools.len()
        &&& forall|k: int|
            0 <= k < self.pools.len() ==> {
                &&& #[trigger] self.pool_ids[k] == k + 1
                &&& self.locations[k] == (self.pool_ids[k], self.pools[k].pool_pubkey)
                &&& self.pools[k].pool_id == self.pool_ids[k]
            }
        &&& forall|j: int, k: int|
            0 <= j < k < self.pools.len() ==> (#[trigger] self.pools[j]).pool_pubkey != (
            #[trigger] self.pools[k]).pool_pubkey
    }

    /// Every deposit belongs to a pool of the registry.
    pub open spec fn deposits_known(self) -> bool {
        forall|d: int|
            0 <= d < self.deposits.len() ==> 1 <= (#[trigger] self.deposits[d]).pool_id
                <= self.pools.len()
    }

    /// For every pool, the value locked and the units outstanding both
    /// equal the sum of the principal of the pool's deposits.
    pub open spec fn tallied(self) -> bool {
        forall|k: int|
            0 <= k < self.pools.len() ==> {
                &&& (#[trigger] self.pools[k]).tvl == total_principal(
                    self.deposits,
                    self.pools[k].pool_id,
                )
                &&& self.pools[k].total_unit == self.pools[k].tvl
            }
    }

    /// For every pool, the value locked and the units outstanding both
    /// equal the sum of the principal of the pool's active deposits.
    pub open spec fn balanced(self) -> bool {
        forall|k: int|
            0 <= k < self.pools.len() ==> {
                &&& (#[trigger] self.pools[k]).tvl == active_principal(
                    self.deposits,
                    self.pools[k].pool_id,
                )
                &&& self.pools[k].total_unit == self.pools[k].tvl
            }
    }

    /// The books are in order: the registry is consistent, every deposit
    /// belongs to one of its pools, and every pool holds the principal of
    /// its deposits.
    pub open spec fn in_order(self) -> bool {
        &&& self.registry_consistent()
        &&& self.deposits_known()
        &&& self.tallied()
    }

    /// The books are in order and every deposit is withdrawn exactly when
    /// it holds no principal.
    pub open spec fn sound(self) -> bool {
        &&& self.in_order()
        &&& statuses_agree(self.deposits)
    }
}

/// Appending a deposit adds what it counts for.
pub proof fn lemma_principal_push(deposits: Seq<Deposits>, deposit: Deposits, pool_id: u64)
    ensures
        total_principal(deposits.push(deposit), pool_id) == total_principal(deposits, pool_id)
            + counted(deposit, pool_id),
{
    assert(deposits.push(deposit).drop_last() =~= deposits);
}

/// Replacing a deposit takes away what the old one counted for and adds
/// what the new one counts for.
pub proof fn lemma_principal_update(
    deposits: Seq<Deposits>,
    at: int,
    deposit: Deposits,
    pool_id: u64,
)
    requires
        0 <= at < deposits.len(),
    ensures
        total_principal(deposits.update(at, deposit), pool_id) == total_principal(
            deposits,
            pool_id,
        ) - counted(deposits[at], pool_id) + counted(deposit, pool_id),
    decreases deposits.len(),
{
    let changed = deposits.update(at, deposit);
    if at == deposits.len() - 1 {
        assert(changed.drop_last() =~= deposits.drop_last());
    } else {
        assert(changed.drop_last() =~= deposits.drop_last().update(at, deposit));
        lemma_principal_update(deposits.drop_last(), at, deposit, pool_id);
    }
}

/// A sum of principal is never negative.
pub proof fn lemma_principal_nonnegative(deposits: Seq<Deposits>, pool_id: u64)
    ensures
        0 <= total_principal(deposits, pool_id),
    decreases deposits.len(),
{
    if deposits.len() > 0 {
        lemma_principal_nonnegative(deposits.drop_last(), pool_id);
    }
}

/// No deposit counts for more than the sum.
pub proof fn lemma_principal_bounds(deposits: Seq<Deposits>, at: int, pool_id: u64)
    requires
        0 <= at < deposits.len(),
    ensures
        0 <= counted(deposits[at], pool_id) <= total_principal(deposits, pool_id),
    decreases deposits.len(),
{
    lemma_principal_nonnegative(deposits.drop_last(), pool_id);
    if at < deposits.len() - 1 {
        lemma_principal_bounds(deposits.drop_last(), at, pool_id);
    }
}

/// Where no deposit belongs to pool `pool_id`, its principal is zero.
pub proof fn lemma_principal_of_unknown_pool(deposits: Seq<Deposits>, pool_id: u64)
    requires
        forall|d: int| 0 <= d < deposits.len() ==> (#[trigger] deposits[d]).pool_id != pool_id,
    ensures
        total_principal(deposits, pool_id) == 0,
    decreases deposits.len(),
{
    if deposits.len() > 0 {
        assert forall|d: int| 0 <= d < deposits.drop_last().len() implies (
        #[trigger] deposits.drop_last()[d]).pool_id != pool_id by {
            assert(deposits.drop_last()[d] == deposits[d]);
        }
        lemma_principal_of_unknown_pool(deposits.drop_last(), pool_id);
        assert(deposits.last() == deposits[deposits.len() - 1]);
    }
}

/// Where every deposit is withdrawn exactly when it holds no principal, the
/// active deposits hold all the principal.
pub proof fn lemma_active_principal(deposits: Seq<Deposits>, pool_id: u64)
    requires
        statuses_agree(deposits),
    ensures
        active_principal(deposits, pool_id) == total_principal(deposits, pool_id),
    decreases deposits.len(),
{
    if deposits.len() > 0 {
        assert forall|d: int| 0 <= d < deposits.drop_last().len() implies ((
        #[trigger] deposits.drop_last()[d]).deposited_amount == 0 <==> deposits.drop_last()[d].status
            == DepositStatus::Withdrawn) by {
            assert(deposits.drop_last()[d] == deposits[d]);
        }
        lemma_active_principal(deposits.drop_last(), pool_id);
        assert(deposits.last() == deposits[deposits.len() - 1]);
    }
}

/// In a sound ledger every pool holds the principal of its active deposits.
pub proof fn lemma_sound_is_balanced(ledger: LedgerView)
    requires
        ledger.sound(),
    ensures
        ledger.balanced(),
{
    assert forall|k: int| 0 <= k < ledger.pools.len() implies {
        &&& (#[trigger] ledger.pools[k]).tvl == active_principal(
            ledger.deposits,
            ledger.pools[k].pool_id,
        )
        &&& ledger.pools[k].total_unit == ledger.pools[k].tvl
    } by {
        lemma_active_principal(ledger.deposits, ledger.pools[k].pool_id);
    }
}

/// In a consistent registry pool `pool_id` resolves to place `pool_id - 1`
/// where it is one of the pools, and is not found otherwise.
pub proof fn lemma_resolve(ledger: LedgerView, pool_id: u64)
    requires
        ledger.registry_consistent(),
    ensures
        1 <= pool_id <= ledger.pools.len() ==> ledger.resolve(pool_id) == Ok::<int, LedgerError>(
            pool_id - 1,
        ),
        !(1 <= pool_id <= ledger.pools.len()) ==> ledger.resolve(pool_id) == Err::<
            int,
            LedgerError,
        >(LedgerError::State(StateFault::PoolNotFound)),
{
    if 1 <= pool_id <= ledger.pools.len() {
        let k = pool_id - 1;
        assert(ledger.pool_ids[k] == k + 1);
        assert(indexes(pool_id)(ledger.locations[k]));
        assert forall|j: int| 0 <= j < k implies !indexes(pool_id)(
            #[trigger] ledger.locations[j],
        ) by {
            assert(ledger.pool_ids[j] == j + 1);
        }
        assert(is_first(ledger.locations, indexes(pool_id), k));
        lemma_first_found(ledger.locations, indexes(pool_id), k);
        let location = ledger.locations[k].1;
        assert(stored_at(location)(ledger.pools[k]));
        assert forall|j: int| 0 <= j < k implies !stored_at(location)(
            #[trigger] ledger.pools[j],
        ) by {
            assert(ledger.pools[j].pool_pubkey != ledger.pools[k].pool_pubkey);
        }
        assert(is_first(ledger.pools, stored_at(location), k));
        lemma_first_found(ledger.pools, stored_at(location), k);
    } else {
        assert forall|j: int| 0 <= j < ledger.locations.len() implies !indexes(pool_id)(
            #[trigger] ledger.locations[j],
        ) by {
            assert(ledger.pool_ids[j] == j + 1);
        }
        assert(nowhere(ledger.locations, indexes(pool_id)));
        lemma_first_absent(ledger.locations, indexes(pool_id));
    }
}

} // verus!
