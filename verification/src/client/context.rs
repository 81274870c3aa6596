//! What the handlers of events are handed.

use vstd::prelude::*;
use crate::cache::Cache;
use crate::gateway::shard_manager::ShardManager;
use crate::gateway::ShardId;

verus! {

/// What belongs to a client as a whole.
#[non_exhaustive]
pub struct ClientContext {
    /// The manager of the client's shards.
    pub shard_manager: ShardManager,
    /// The channels that the client has seen.
    pub cache: Cache,
}

/// What belongs to one event.
#[derive(Clone, Copy, Debug)]
#[non_exhaustive]
pub struct EventContext {
    /// The shard that the event came from.
    pub shard_id: ShardId,
}

impl EventContext {
    /// The context of an event that came from `shard_id`.
    pub fn new(shard_id: ShardId) -> (context: Self)
        ensures
            context.shard_id == shard_id,
    {
        EventContext { shard_id }
    }
}

} // verus!
