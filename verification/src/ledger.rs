//! The ledger: the registry, the pool records and the deposits taken
//! together, and what each operation makes of them.

use crate::deposit::{DepositParam, Deposits, QueryParam, TransferInput};
use crate::error::{BusinessRule, LedgerError, StateFault, TransferError};
use crate::identity::Identity;
use crate::policy::Policy;
use crate::pool::{asset_of_code, risk_of_code, Pool, PoolParam};
use crate::registry::{find_record, held_by, indexes, stored_at, PoolList, UserDepositList};
use crate::search::first_index;
use vstd::prelude::*;

verus! {

/// The registry index, the pool records it points to, the deposits, and the
/// policy in force.
#[derive(Clone, Debug, PartialEq, Eq)]
pub struct Ledger {
    pub pool_list: PoolList,
    pub pools: Vec<Pool>,
    pub deposits: UserDepositList,
    pub policy: Policy,
}

/// The ledger as plain sequences.
#[verifier::ext_equal]
pub struct LedgerView {
    /// The ids of the pools, in the order of their creation.
    pub pool_ids: Seq<u64>,
    /// The storage location recorded for each id.
    pub locations: Seq<(u64, Identity)>,
    /// The admin allow-list.
    pub admins: Seq<Identity>,
    /// The pool records in storage.
    pub pools: Seq<Pool>,
    /// The deposits.
    pub deposits: Seq<Deposits>,
    pub policy: Policy,
}

impl View for Ledger {
    type V = LedgerView;

    open spec fn view(&self) -> LedgerView {
        LedgerView {
            pool_ids: self.pool_list.pools@,
            locations: self.pool_list.pool_id_to_pubkey@,
            admins: self.pool_list.admin_list@,
            pools: self.pools@,
            deposits: self.deposits.deposits@,
            policy: self.policy,
        }
    }
}

impl LedgerView {
    /// The place in storage of the record of pool `pool_id`: the index gives
    /// the location, and the record is the first one stored there.
    pub open spec fn resolve(self, pool_id: u64) -> Result<int, LedgerError> {
        match first_index(self.locations, indexes(pool_id)) {
            None => Err(LedgerError::State(StateFault::PoolNotFound)),
            Some(k) => match first_index(self.pools, stored_at(self.locations[k].1)) {
                None => Err(LedgerError::State(StateFault::RecordMissing)),
                Some(i) => Ok(i),
            },
        }
    }

    /// The place of the deposit of `user` in pool `pool_id`.
    pub open spec fn position(self, pool_id: u64, user: Identity) -> Option<int> {
        first_index(self.deposits, held_by(pool_id, user))
    }

    /// The record stored at `location`.
    pub open spec fn pool_at(self, location: Identity) -> Result<Pool, LedgerError> {
        match first_index(self.pools, stored_at(location)) {
            None => Err(LedgerError::State(StateFault::RecordMissing)),
            Some(i) => Ok(self.pools[i]),
        }
    }

    /// The record of pool `pool_id`.
    pub open spec fn pool_by_id(self, pool_id: u64) -> Result<Pool, LedgerError> {
        match self.resolve(pool_id) {
            Err(e) => Err(e),
            Ok(i) => Ok(self.pools[i]),
        }
    }

    /// The transfer a deposit asks for: the amount, from the depositor to
    /// the pool. A zero amount is refused, then the pool must resolve.
    pub open spec fn deposit_plan(self, param: DepositParam) -> Result<TransferInput, LedgerError> {
        if param.amount == 0 {
            Err(LedgerError::Validation)
        } else {
            match self.resolve(param.pool_id) {
                Err(e) => Err(e),
                Ok(_) => Ok(TransferInput { amount: param.amount }),
            }
        }
    }

    /// The depositor's position after the deposit, the pool's record being
    /// at place `i`: a first deposit opens a position, a further one tops
    /// the existing position up.
    pub open spec fn deposit_entry(self, i: int, user: Identity, param: DepositParam, now: u64) -> Result<
        Deposits,
        LedgerError,
    > {
        match self.position(param.pool_id, user) {
            Some(d) => self.deposits[d].topped_up(
                self.policy,
                self.pools[i].apy,
                param.amount,
                now,
            ),
            None => Deposits::opened(self.pools[i], param.pool_id, user, param.amount, now),
        }
    }

    /// The deposits once `entry` stands for the position of `user` in pool
    /// `pool_id`.
    pub open spec fn deposits_with(self, pool_id: u64, user: Identity, entry: Deposits) -> Seq<
        Deposits,
    > {
        match self.position(pool_id, user) {
            Some(d) => self.deposits.update(d, entry),
            None => self.deposits.push(entry),
        }
    }

    /// The ledger after a deposit, or the error it fails with. The checks
    /// of `deposit_plan` come first; then a failed transfer is handed on;
    /// then the position and the pool's aggregates are brought up to date,
    /// which fails where an amount leaves the range of `u64`.
    pub open spec fn deposit_outcome(
        self,
        user: Identity,
        param: DepositParam,
        now: u64,
        transfer: Result<(), TransferError>,
    ) -> Result<LedgerView, LedgerError> {
        match self.deposit_plan(param) {
            Err(e) => Err(e),
            Ok(_) => match transfer {
                Err(failure) => Err(LedgerError::Transfer(failure)),
                Ok(_) => {
                    let i = self.resolve(param.pool_id).unwrap();
                    match self.deposit_entry(i, user, param, now) {
                        Err(e) => Err(e),
                        Ok(entry) => match self.pools[i].after_deposit(param.amount) {
                            Err(e) => Err(e),
                            Ok(pool) => Ok(
                                LedgerView {
                                    pools: self.pools.update(i, pool),
                                    deposits: self.deposits_with(param.pool_id, user, entry),
                                    ..self
                                },
                            ),
                        },
                    }
                },
            },
        }
    }

    /// The transfer a withdrawal asks for: the whole principal, from the
    /// pool to the depositor. The pool and a deposit with principal must be
    /// found, the lock-up must have elapsed, and the pool must hold at
    /// least the principal.
    pub open spec fn withdraw_plan(self, user: Identity, pool_id: u64, now: u64) -> Result<
        TransferInput,
        LedgerError,
    > {
        match self.resolve(pool_id) {
            Err(e) => Err(e),
            Ok(i) => match self.position(pool_id, user) {
                None => Err(LedgerError::State(StateFault::DepositNotFound)),
                Some(d) => if self.deposits[d].deposited_amount == 0 {
                    Err(LedgerError::State(StateFault::DepositNotFound))
                } else if self.deposits[d].locked_at(self.pools[i].min_period, now) {
                    Err(LedgerError::BusinessRule(BusinessRule::Locked))
                } else if self.deposits[d].deposited_amount > self.pools[i].tvl {
                    Err(LedgerError::BusinessRule(BusinessRule::InsufficientFunds))
                } else {
                    Ok(TransferInput { amount: self.deposits[d].deposited_amount })
                },
            },
        }
    }

    /// The ledger after a withdrawal, or the error it fails with. The
    /// checks of `withdraw_plan` come first; then a failed transfer is
    /// handed on; then the position is emptied and the pool's aggregates
    /// shrink by the principal.
    pub open spec fn withdraw_outcome(
        self,
        user: Identity,
        pool_id: u64,
        now: u64,
        transfer: Result<(), TransferError>,
    ) -> Result<LedgerView, LedgerError> {
        match self.withdraw_plan(user, pool_id, now) {
            Err(e) => Err(e),
            Ok(request) => match transfer {
                Err(failure) => Err(LedgerError::Transfer(failure)),
                Ok(_) => {
                    let i = self.resolve(pool_id).unwrap();
                    let d = self.position(pool_id, user).unwrap();
                    match self.pools[i].after_withdrawal(request.amount) {
                        Err(e) => Err(e),
                        Ok(pool) => Ok(
                            LedgerView {
                                pools: self.pools.update(i, pool),
                                deposits: self.deposits.update(d, self.deposits[d].withdrawn()),
                                ..self
                            },
                        ),
                    }
                },
            },
        }
    }

    /// The transfer a reward claim asks for: the payout, from the pool to
    /// the depositor. The ledger must bear rewards, the pool and the
    /// deposit must be found, and a reward must be waiting.
    pub open spec fn reward_plan(self, user: Identity, pool_id: u64, now: u64) -> Result<
        TransferInput,
        LedgerError,
    > {
        if !self.policy.reward_bearing {
            Err(LedgerError::Validation)
        } else {
            match self.resolve(pool_id) {
                Err(e) => Err(e),
                Ok(i) => match self.position(pool_id, user) {
                    None => Err(LedgerError::State(StateFault::DepositNotFound)),
                    Some(d) => match self.deposits[d].claim_due(self.pools[i].apy, now) {
                        Err(e) => Err(e),
                        Ok(amount) => Ok(TransferInput { amount }),
                    },
                },
            }
        }
    }

    /// The ledger after a reward claim, or the error it fails with. The
    /// checks of `reward_plan` come first; then a failed transfer is handed
    /// on; then the reward is reset and the claim time noted. The pool's
    /// aggregates stay as they are.
    pub open spec fn reward_outcome(
        self,
        user: Identity,
        pool_id: u64,
        now: u64,
        transfer: Result<(), TransferError>,
    ) -> Result<LedgerView, LedgerError> {
        match self.reward_plan(user, pool_id, now) {
            Err(e) => Err(e),
            Ok(_) => match transfer {
                Err(failure) => Err(LedgerError::Transfer(failure)),
                Ok(_) => {
                    let d = self.position(pool_id, user).unwrap();
                    Ok(
                        LedgerView {
                            deposits: self.deposits.update(d, self.deposits[d].claimed(now)),
                            ..self
                        },
                    )
                },
            },
        }
    }

    /// What a query for the deposit of `user` in pool `query.pool_id`
    /// answers at `now`. Where the ledger bears rewards the pool is
    /// resolved for its yield and the reward shown is the projection.
    pub open spec fn deposit_shown(self, user: Identity, query: QueryParam, now: u64) -> Result<
        Deposits,
        LedgerError,
    > {
        match self.position(query.pool_id, user) {
            None => Err(LedgerError::State(StateFault::DepositNotFound)),
            Some(d) => if self.policy.reward_bearing {
                match self.resolve(query.pool_id) {
                    Err(e) => Err(e),
                    Ok(i) => self.deposits[d].shown(self.policy, self.pools[i].apy, now),
                }
            } else {
                Ok(self.deposits[d])
            },
        }
    }

    /// The id a new pool gets: one more than the number of pools. The
    /// caller must be an admin where creation is gated, and must have
    /// signed; the asset and risk codes must be known.
    pub open spec fn create_check(self, caller: Identity, is_signer: bool, param: PoolParam) -> Result<
        u64,
        LedgerError,
    > {
        if self.policy.admin_gated && !self.admins.contains(caller) {
            Err(LedgerError::Authorization)
        } else if !is_signer {
            Err(LedgerError::Authorization)
        } else if asset_of_code(param.asset_type) is Err {
            Err(LedgerError::Validation)
        } else if risk_of_code(param.risk_type) is Err {
            Err(LedgerError::Validation)
        } else if self.pool_ids.len() + 1 > u64::MAX {
            Err(LedgerError::Arithmetic)
        } else {
            Ok((self.pool_ids.len() + 1) as u64)
        }
    }

    /// Storage once `record` was written to its location: it takes the
    /// place of the record that was there, or is added.
    pub open spec fn stored(pools: Seq<Pool>, record: Pool) -> Seq<Pool> {
        match first_index(pools, stored_at(record.pool_pubkey)) {
            Some(i) => pools.update(i, record),
            None => pools.push(record),
        }
    }

    /// The id of the new pool and the ledger after its creation, or the
    /// error the creation fails with.
    pub open spec fn create_outcome(
        self,
        caller: Identity,
        is_signer: bool,
        location: Identity,
        param: PoolParam,
    ) -> Result<(u64, LedgerView), LedgerError> {
        match self.create_check(caller, is_signer, param) {
            Err(e) => Err(e),
            Ok(id) => Ok(
                (
                    id,
                    LedgerView {
                        pool_ids: self.pool_ids.push(id),
                        locations: self.locations.push((id, location)),
                        pools: Self::stored(
                            self.pools,
                            Pool::created(
                                id,
                                location,
                                param,
                                risk_of_code(param.risk_type).unwrap(),
                                asset_of_code(param.asset_type).unwrap(),
                            ),
                        ),
                        ..self
                    },
                ),
            ),
        }
    }

    /// Holds of the ids that do not resolve to a record.
    pub open spec fn unresolved(self) -> spec_fn(u64) -> bool {
        |pool_id: u64| self.resolve(pool_id) is Err
    }

    /// The records of all pools in the order of the index, or the error of
    /// the first id that does not resolve.
    pub open spec fn listing(self) -> Result<Seq<Pool>, LedgerError> {
        match first_index(self.pool_ids, self.unresolved()) {
            Some(k) => Err(self.resolve(self.pool_ids[k])->Err_0),
            None => Ok(
                Seq::new(
                    self.pool_ids.len(),
                    |k: int| self.pools[self.resolve(self.pool_ids[k]).unwrap()],
                ),
            ),
        }
    }
}

impl Ledger {
    /// A ledger without pools or deposits.
    pub fn new(policy: Policy, admin_list: Vec<Identity>) -> (r: Ledger)
        ensures
            r@ == (LedgerView {
                pool_ids: Seq::empty(),
                locations: Seq::empty(),
                admins: admin_list@,
                pools: Seq::empty(),
                deposits: Seq::empty(),
                policy,
            }),
    {
        Ledger {
            pool_list: PoolList::new(admin_list),
            pools: Vec::new(),
            deposits: UserDepositList::new(),
            policy,
        }
    }

    /// Finds the record of pool `pool_id` in storage.
    pub fn resolve(&self, pool_id: u64) -> (r: Result<usize, LedgerError>)
        ensures
            match r {
                Ok(i) => self@.resolve(pool_id) == Ok::<int, LedgerError>(i as int) && i
                    < self.pools@.len(),
                Err(e) => self@.resolve(pool_id) == Err::<int, LedgerError>(e),
            },
    {
        let location: Identity = match self.pool_list.location_of(pool_id) {
            Some(location) => location,
            None => { return Err(LedgerError::State(StateFault::PoolNotFound)); },
        };
        match find_record(&self.pools, &location) {
            Some(i) => Ok(i),
            None => Err(LedgerError::State(StateFault::RecordMissing)),
        }
    }
}

} // verus!
