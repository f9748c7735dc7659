//! The cluster clock.

use anchor_lang::solana_program::sysvar::Sysvar;
use vstd::prelude::*;

verus! {

/// The Unix timestamp of the cluster clock, read through `Clock::get` of
/// `anchor_lang` (the Clock sysvar); `None` when the runtime does not provide
/// the sysvar, which of the sysvar's errors it was is not kept. Nothing is
/// stated of the value: it is the time at which the call runs.
#[verifier::external_body]
pub(crate) fn current_unix_timestamp() -> (r: Option<i64>) {
    match anchor_lang::prelude::Clock::get() {
        Ok(clock) => Some(clock.unix_timestamp),
        Err(_) => None,
    }
}

} // verus!
