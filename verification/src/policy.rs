//! The choices a deployment makes about the ledger's behaviour.

use vstd::prelude::*;

verus! {

/// The capabilities and policy decisions a ledger is set up with.
#[derive(Clone, Copy, Debug, PartialEq, Eq, Structural)]
pub struct Policy {
    /// Only callers on the admin allow-list may create a pool.
    pub admin_gated: bool,
    /// Deposits accrue a claimable reward.
    pub reward_bearing: bool,
    /// A deposit into a record that was withdrawn makes it active again.
    /// When unset, the record keeps the status it has.
    pub reactivate_on_deposit: bool,
}

} // verus!
