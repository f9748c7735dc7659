use vstd::prelude::*;

use crate::key::Key;

verus! {

/// The account of the party that administers stake pools.
#[derive(Clone, Copy, Debug, PartialEq, Eq)]
pub struct Guardian {
    pub admin_authority: Key,
}

impl Default for Guardian {
    fn default() -> (g: Guardian)
        ensures
            g.admin_authority@ == Seq::new(32, |i: int| 0u8),
    {
        Guardian { admin_authority: Key::default() }
    }
}

} // verus!
