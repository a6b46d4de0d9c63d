//! The check that guards the administrator's operations.

use crate::errors::LedgerError;
use crate::host::{Deps, MessageInfo};
use crate::ledger::{Ledger, LedgerView};
use vstd::prelude::*;

verus! {

/// Why the caller may not act as administrator, if it may not: no
/// administrator is stored, the stored one is no valid account, or the
/// caller is another account.
pub open spec fn owner_check(pre: LedgerView, deps: Deps, info: MessageInfo) -> Option<
    LedgerError,
> {
    match pre.owner {
        None => Some(LedgerError::OwnerNotSet),
        Some(owner) => if !deps.api.accepts(owner) {
            Some(LedgerError::InvalidAddress)
        } else if owner != info.sender@ {
            Some(LedgerError::InvalidOwner)
        } else {
            None
        },
    }
}

/// Checks that the caller is the administrator.
pub fn is_owner(store: &Ledger, deps: &Deps, info: &MessageInfo) -> (res: Result<(), LedgerError>)
    ensures
        res == match owner_check(store@, *deps, *info) {
            Some(e) => Err::<(), LedgerError>(e),
            None => Ok(()),
        },
{
    match &store.owner {
        None => Err(LedgerError::OwnerNotSet),
        Some(owner) => {
            if !deps.api.addr_validate(owner) {
                Err(LedgerError::InvalidAddress)
            } else if *owner != info.sender {
                Err(LedgerError::InvalidOwner)
            } else {
                Ok(())
            }
        },
    }
}

} // verus!
