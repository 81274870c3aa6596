//! Errors of the collector builders.

use vstd::prelude::*;

verus! {

/// What can go wrong while a collector is configured.
#[derive(Clone, Copy, Debug, PartialEq, Eq, Structural)]
pub enum Error {
    /// An identifier constraint was added to a raw-event collector although
    /// no event type on its allow-list carries identifiers of that kind, so
    /// that the collector could never receive anything.
    InvalidEventIdFilters,
}

} // verus!
