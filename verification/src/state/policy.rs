use vstd::prelude::*;

use crate::key::Key;

verus! {

/// How many tiers a policy holds.
pub const MAX_TIERS: usize = 8;

/// One staking tier of a policy.
#[derive(Clone, Copy, Debug, PartialEq, Eq, Structural)]
pub struct TierInfo {
    pub tier: u8,
    pub lock_up_epoch: u8,
    pub multiplier: u8,
}

impl TierInfo {
    /// The all-zero tier.
    pub open spec fn zero() -> TierInfo {
        TierInfo { tier: 0, lock_up_epoch: 0, multiplier: 0 }
    }
}

impl Default for TierInfo {
    fn default() -> (t: TierInfo)
        ensures
            t == TierInfo::zero(),
    {
        TierInfo { tier: 0, lock_up_epoch: 0, multiplier: 0 }
    }
}

/// The reward terms a stake pool applies: a base rate and a fixed table of tiers.
#[derive(Clone, Copy, Debug, PartialEq, Eq)]
pub struct Policy {
    pub update_authority: Key,
    pub base_apr_x64: u128,
    pub tiers: [TierInfo; MAX_TIERS],
}

/// The tier table after copying `given` over `tiers`: the first
/// `min(given.len(), MAX_TIERS)` entries come from `given`, the others stay.
pub open spec fn tiers_updated(tiers: Seq<TierInfo>, given: Seq<TierInfo>) -> Seq<TierInfo> {
    Seq::new(tiers.len(), |i: int| if i < given.len() { given[i] } else { tiers[i] })
}

impl Default for Policy {
    fn default() -> (p: Policy)
        ensures
            p.update_authority@ == Seq::new(32, |i: int| 0u8),
            p.base_apr_x64 == 0,
            forall|i: int| 0 <= i < MAX_TIERS ==> #[trigger] p.tiers@[i] == TierInfo::zero(),
    {
        Policy {
            update_authority: Key::default(),
            base_apr_x64: 0,
            tiers: [TierInfo::default(); MAX_TIERS],
        }
    }
}

impl Policy {
    /// Copies the given tiers over the first entries of the table; entries
    /// past the table's size are ignored.
    pub fn update_tiers(&mut self, tier_info: &[TierInfo])
        ensures
            final(self).update_authority == old(self).update_authority,
            final(self).base_apr_x64 == old(self).base_apr_x64,
            final(self).tiers@ == tiers_updated(old(self).tiers@, tier_info@),
    {
        let len: usize = if tier_info.len() < MAX_TIERS { tier_info.len() } else { MAX_TIERS };
        let mut i: usize = 0;
        while i < len
            invariant
                len <= MAX_TIERS,
                len <= tier_info@.len(),
                len == tier_info@.len() || len == MAX_TIERS,
                i <= len,
                self.update_authority == old(self).update_authority,
                self.base_apr_x64 == old(self).base_apr_x64,
                self.tiers@.len() == MAX_TIERS,
                forall|j: int| 0 <= j < i ==> #[trigger] self.tiers@[j] == tier_info@[j],
                forall|j: int| i <= j < MAX_TIERS ==> #[trigger] self.tiers@[j] == old(self).tiers@[j],
            decreases len - i,
        {
            self.tiers[i] = tier_info[i];
            i = i + 1;
        }
        assert(self.tiers@ =~= tiers_updated(old(self).tiers@, tier_info@));
    }
}

} // verus!
