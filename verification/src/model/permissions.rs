//! Permission sets.

use vstd::prelude::*;

verus! {

/// A set of permissions, one bit each.
#[derive(Clone, Copy, Debug, PartialEq, Eq, Hash, Structural)]
pub struct Permissions {
    pub bits: u64,
}

} // verus!
