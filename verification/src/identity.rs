//! Identities of callers, depositors, assets and storage locations.

use vstd::prelude::*;
use vstd::std_specs::cmp::PartialEqSpecImpl;

verus! {

/// A 32-byte key that names a caller, a depositor, an asset or the storage
/// location of a record. Two identities are equal when their bytes are.
#[derive(Clone, Copy, Debug, Eq)]
pub struct Identity {
    pub bytes: [u8; 32],
}

impl PartialEq for Identity {
    fn eq(&self, other: &Self) -> (r: bool) {
        let mut i: usize = 0;
        while i < 32
            invariant
                i <= 32,
                forall|j: int| 0 <= j < i ==> self.bytes[j] == other.bytes[j],
            decreases 32 - i,
        {
            if self.bytes[i] != other.bytes[i] {
                return false;
            }
            i += 1;
        }
        assert(self.bytes =~= other.bytes);
        true
    }
}

impl PartialEqSpecImpl for Identity {
    open spec fn obeys_eq_spec() -> bool {
        true
    }

    open spec fn eq_spec(&self, other: &Self) -> bool {
        *self == *other
    }
}

impl Identity {
    /// The identity made of the given bytes.
    pub fn new(bytes: [u8; 32]) -> (r: Identity)
        ensures
            r.bytes == bytes,
    {
        Identity { bytes }
    }
}

/// Checks that a record's owner is the storage domain the caller acts for.
pub fn check_owner(owner: &Identity, domain: &Identity) -> (r: Result<(), crate::error::LedgerError>)
    ensures
        *owner == *domain ==> r == Ok::<(), crate::error::LedgerError>(()),
        *owner != *domain ==> r == Err::<(), crate::error::LedgerError>(
            crate::error::LedgerError::Ownership,
        ),
{
    if *owner == *domain {
        Ok(())
    } else {
        Err(crate::error::LedgerError::Ownership)
    }
}

} // verus!
