//! The error taxonomy shared by every operation.

use vstd::prelude::*;

verus! {

/// A business rule that refused an otherwise well-formed operation.
#[derive(Clone, Copy, Debug, PartialEq, Eq, Structural)]
pub enum BusinessRule {
    /// The lock-up period of the deposit has not elapsed.
    Locked,
    /// The pool holds less value than the operation would take out.
    InsufficientFunds,
    /// There is no unclaimed reward to pay out.
    NoRewards,
}

/// Which record a lookup failed to produce.
#[derive(Clone, Copy, Debug, PartialEq, Eq, Structural)]
pub enum StateFault {
    /// The registry index knows no pool under the given id.
    PoolNotFound,
    /// The depositor has no deposit in the pool, or its principal is zero.
    DepositNotFound,
    /// The index names a storage location at which no pool record lives.
    RecordMissing,
}

/// The failure reported by the transfer gateway, carried through unchanged.
#[derive(Clone, Copy, Debug, PartialEq, Eq, Structural)]
pub struct TransferError {
    pub code: u64,
}

/// Why an operation failed. A failed operation never changes any record.
#[derive(Clone, Copy, Debug, PartialEq, Eq, Structural)]
pub enum LedgerError {
    /// A required signature is missing, or the caller is not an admin.
    Authorization,
    /// The target record is not managed by this module's storage domain.
    Ownership,
    /// The payload is malformed or undersized, an enum code is unknown, or
    /// the amount is zero.
    Validation,
    /// A checked addition, subtraction or multiplication left the range of
    /// `u64`.
    Arithmetic,
    /// A record could not be found.
    State(StateFault),
    /// A business rule refused the operation.
    BusinessRule(BusinessRule),
    /// The transfer gateway failed; nothing was booked.
    Transfer(TransferError),
}

} // verus!
