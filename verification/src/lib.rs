//! Verified core of a client for a real-time chat platform: typed identifiers
//! and channel records, the event-collector pipeline (lazy items, filters,
//! builders, collectors) and the supervision of gateway shards (start queue,
//! queuer state machine, manager facade).

pub mod builder;
pub mod cache;
pub mod client;
pub mod collector;
pub mod framework;
pub mod gateway;
pub mod http;
pub mod model;
pub mod prelude;
