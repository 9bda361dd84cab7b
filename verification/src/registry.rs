//! The pool registry's index, the list of deposits, and lookups by key.

use crate::deposit::Deposits;
use crate::identity::Identity;
use crate::pool::Pool;
use crate::search::{
    first_index, is_first, lemma_first_absent, lemma_first_found, nowhere,
};
use vstd::prelude::*;

verus! {

/// Holds of the index entries for pool `pool_id`.
pub open spec fn indexes(pool_id: u64) -> spec_fn((u64, Identity)) -> bool {
    |entry: (u64, Identity)| entry.0 == pool_id
}

/// Holds of the pool records stored at `location`.
pub open spec fn stored_at(location: Identity) -> spec_fn(Pool) -> bool {
    |pool: Pool| pool.pool_pubkey == location
}

/// Holds of the deposits of `user` in pool `pool_id`.
pub open spec fn held_by(pool_id: u64, user: Identity) -> spec_fn(Deposits) -> bool {
    |deposit: Deposits| deposit.pool_id == pool_id && deposit.user_pubkey == user
}

/// Holds of the identity `who` itself.
pub open spec fn is_identity(who: Identity) -> spec_fn(Identity) -> bool {
    |other: Identity| other == who
}

/// The registry's index: the ids of the pools in the order of their creation,
/// the storage location recorded for each id, and the admins who may create
/// pools.
#[derive(Clone, Debug, PartialEq, Eq)]
pub struct PoolList {
    pub pools: Vec<u64>,
    pub pool_id_to_pubkey: Vec<(u64, Identity)>,
    pub admin_list: Vec<Identity>,
}

/// A list of deposits, at most one of which counts for a depositor and pool:
/// the first.
#[derive(Clone, Debug, PartialEq, Eq)]
pub struct UserDepositList {
    pub deposits: Vec<Deposits>,
}

impl PoolList {
    /// An index without pools, with the given admins.
    pub fn new(admin_list: Vec<Identity>) -> (r: PoolList)
        ensures
            r.pools@ == Seq::<u64>::empty(),
            r.pool_id_to_pubkey@ == Seq::<(u64, Identity)>::empty(),
            r.admin_list@ == admin_list@,
    {
        PoolList { pools: Vec::new(), pool_id_to_pubkey: Vec::new(), admin_list }
    }

    /// Whether `who` is on the admin allow-list.
    pub fn is_admin(&self, who: &Identity) -> (r: bool)
        ensures
            r == self.admin_list@.contains(*who),
    {
        let mut i: usize = 0;
        while i < self.admin_list.len()
            invariant
                i <= self.admin_list.len(),
                forall|j: int| 0 <= j < i ==> self.admin_list@[j] != *who,
            decreases self.admin_list.len() - i,
        {
            if self.admin_list[i] == *who {
                return true;
            }
            i += 1;
        }
        false
    }

    /// The storage location the index records for `pool_id`.
    pub fn location_of(&self, pool_id: u64) -> (r: Option<Identity>)
        ensures
            match first_index(self.pool_id_to_pubkey@, indexes(pool_id)) {
                Some(k) => r == Some(self.pool_id_to_pubkey@[k].1) && 0 <= k
                    < self.pool_id_to_pubkey@.len(),
                None => r is None,
            },
    {
        let mut i: usize = 0;
        while i < self.pool_id_to_pubkey.len()
            invariant
                i <= self.pool_id_to_pubkey.len(),
                forall|j: int|
                    0 <= j < i ==> !indexes(pool_id)(#[trigger] self.pool_id_to_pubkey@[j]),
            decreases self.pool_id_to_pubkey.len() - i,
        {
            if self.pool_id_to_pubkey[i].0 == pool_id {
                proof {
                    assert(is_first(self.pool_id_to_pubkey@, indexes(pool_id), i as int));
                    lemma_first_found(self.pool_id_to_pubkey@, indexes(pool_id), i as int);
                }
                return Some(self.pool_id_to_pubkey[i].1);
            }
            i += 1;
        }
        proof {
            assert(nowhere(self.pool_id_to_pubkey@, indexes(pool_id)));
            lemma_first_absent(self.pool_id_to_pubkey@, indexes(pool_id));
        }
        None
    }
}

/// The place of the first record stored at `location`.
pub fn find_record(records: &Vec<Pool>, location: &Identity) -> (r: Option<usize>)
    ensures
        match r {
            Some(i) => first_index(records@, stored_at(*location)) == Some(i as int) && i
                < records@.len(),
            None => first_index(records@, stored_at(*location)) is None,
        },
{
    let mut i: usize = 0;
    while i < records.len()
        invariant
            i <= records.len(),
            forall|j: int| 0 <= j < i ==> !stored_at(*location)(#[trigger] records@[j]),
        decreases records.len() - i,
    {
        if records[i].pool_pubkey == *location {
            proof {
                assert(is_first(records@, stored_at(*location), i as int));
                lemma_first_found(records@, stored_at(*location), i as int);
            }
            return Some(i);
        }
        i += 1;
    }
    proof {
        assert(nowhere(records@, stored_at(*location)));
        lemma_first_absent(records@, stored_at(*location));
    }
    None
}

impl UserDepositList {
    /// A list without deposits.
    pub fn new() -> (r: UserDepositList)
        ensures
            r.deposits@ == Seq::<Deposits>::empty(),
    {
        UserDepositList { deposits: Vec::new() }
    }

    /// The place of the deposit of `user` in pool `pool_id`.
    pub fn position(&self, pool_id: u64, user: &Identity) -> (r: Option<usize>)
        ensures
            match r {
                Some(i) => first_index(self.deposits@, held_by(pool_id, *user)) == Some(i as int)
                    && i < self.deposits@.len(),
                None => first_index(self.deposits@, held_by(pool_id, *user)) is None,
            },
    {
        let mut i: usize = 0;
        while i < self.deposits.len()
            invariant
                i <= self.deposits.len(),
                forall|j: int|
                    0 <= j < i ==> !held_by(pool_id, *user)(#[trigger] self.deposits@[j]),
            decreases self.deposits.len() - i,
        {
            if self.deposits[i].pool_id == pool_id && self.deposits[i].user_pubkey == *user {
                proof {
                    assert(is_first(self.deposits@, held_by(pool_id, *user), i as int));
                    lemma_first_found(self.deposits@, held_by(pool_id, *user), i as int);
                }
                return Some(i);
            }
            i += 1;
        }
        proof {
            assert(nowhere(self.deposits@, held_by(pool_id, *user)));
            lemma_first_absent(self.deposits@, held_by(pool_id, *user));
        }
        None
    }
}

} // verus!
