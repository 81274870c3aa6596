//! Names that are of use almost everywhere.

use vstd::prelude::*;

pub use crate::gateway::shard_manager::GatewayError;
pub use crate::model::gateway::GatewayIntents;

verus! {

/// The type-level `true`.
pub struct True;

/// The type-level `false`.
pub struct False;

/// Implemented by [`True`] and [`False`].
pub trait Boolean {

}

impl Boolean for True {

}

impl Boolean for False {

}

} // verus!
