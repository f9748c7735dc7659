use vstd::prelude::*;

use crate::error::{ConstraintViolation, ErrorCode};
use crate::key::Key;
use crate::state::policy::{tiers_updated, Policy, TierInfo};

verus! {

/// The accounts of a policy's creation: the payer, the admin authority of the
/// guardian the payer acts for, and the new policy account.
#[derive(Clone, Copy, Debug, PartialEq, Eq)]
pub struct CreatePolicy {
    pub payer: Key,
    pub guardian_admin_authority: Key,
    pub policy: Policy,
}

/// `Ok` when the payer is the guardian's admin authority: only a guardian
/// creates policies.
pub open spec fn create_policy_check(a: CreatePolicy) -> Result<(), ConstraintViolation> {
    if a.guardian_admin_authority@ != a.payer@ {
        Err(ConstraintViolation::Raw)
    } else {
        Ok(())
    }
}

impl CreatePolicy {
    /// Checks that the payer is the guardian's admin authority; see
    /// `create_policy_check`.
    pub fn check_constraints(&self) -> (r: Result<(), ConstraintViolation>)
        ensures
            r == create_policy_check(*self),
    {
        if !self.guardian_admin_authority.same_as(&self.payer) {
            return Err(ConstraintViolation::Raw);
        }
        Ok(())
    }
}

/// Makes the payer the policy's update authority, sets its base rate and
/// copies the given tiers over its table (see `Policy::update_tiers`). Never
/// fails.
pub fn handler(accounts: &mut CreatePolicy, base_apr_x64: u128, tiers: Vec<TierInfo>) -> (r: Result<
    (),
    ErrorCode,
>)
    ensures
        r is Ok,
        final(accounts).payer == old(accounts).payer,
        final(accounts).guardian_admin_authority == old(accounts).guardian_admin_authority,
        final(accounts).policy.update_authority == old(accounts).payer,
        final(accounts).policy.base_apr_x64 == base_apr_x64,
        final(accounts).policy.tiers@ == tiers_updated(old(accounts).policy.tiers@, tiers@),
{
    accounts.policy.update_authority = accounts.payer;
    accounts.policy.base_apr_x64 = base_apr_x64;
    accounts.policy.update_tiers(tiers.as_slice());
    Ok(())
}

} // verus!
