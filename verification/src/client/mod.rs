//! The client and what it hands to handlers.

pub mod context;

pub use context::{ClientContext, EventContext};
