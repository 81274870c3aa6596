//! The supervision of gateway shards: the queue of shards that wait to be
//! started, the queuer that owns the registry of running shards, and the
//! manager through which an application commands them.

use vstd::prelude::*;

pub mod channel;
pub mod shard_manager;
pub mod shard_queue;
pub mod shard_queuer;

pub use shard_manager::{ShardManager, ShardManagerOptions};
pub use shard_queue::ShardQueue;
pub use shard_queuer::{ShardQueuer, ShardQueuerMessage, ShardRunnerInfo};

verus! {

/// The ordinal number of a shard.
#[derive(Clone, Copy, Debug, PartialEq, Eq, Hash, PartialOrd, Ord, Structural)]
pub struct ShardId(pub u16);

} // verus!
