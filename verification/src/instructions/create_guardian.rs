use vstd::prelude::*;

use crate::error::ErrorCode;
use crate::key::Key;
use crate::state::guardian::Guardian;

verus! {

/// The accounts of a guardian's creation: the payer and the new guardian
/// account.
#[derive(Clone, Copy, Debug, PartialEq, Eq)]
pub struct CreateGuardian {
    pub payer: Key,
    pub guardian: Guardian,
}

/// Makes the payer the new guardian's admin authority. Never fails.
pub fn handler(accounts: &mut CreateGuardian) -> (r: Result<(), ErrorCode>)
    ensures
        r is Ok,
        final(accounts).payer == old(accounts).payer,
        final(accounts).guardian.admin_authority == old(accounts).payer,
{
    accounts.guardian.admin_authority = accounts.payer;
    Ok(())
}

} // verus!
