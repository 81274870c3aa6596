//! Collectors receive the events of one shard, check whether their filter
//! lets an event pass, and hand the accepted items to a consumer until a
//! count limit, a deadline or the consumer ends the subscription.

use std::sync::Arc;
use vstd::prelude::*;
use crate::model::channel::reaction::Reaction;

pub mod aliases;
pub mod channel;
pub mod collectable;
pub mod collector;
pub mod collector_builder;
pub mod error;
pub mod filter;
pub mod filter_options;
pub mod lazy_item;
pub mod message_collector;
pub mod predicate;
mod sealed;

pub use aliases::{
    ComponentInteractionCollectorBuilder,
    EventCollectorBuilder,
    MessageCollectorBuilder,
    ModalInteractionCollectorBuilder,
    ReactionCollectorBuilder,
};
pub use collectable::Collectable;
pub use collector::{Collector, CollectorCallback, Polled};
pub use collector_builder::CollectorBuilder;
pub use error::Error as CollectorError;
pub use filter::{Filter, FilterTrait};
pub use filter_options::{
    CommonFilterOptions,
    ComponentFilterOptions,
    EventFilterOptions,
    Limits,
    MessageFilterOptions,
    ModalFilterOptions,
    ReactionFilterOptions,
};
pub use lazy_item::{LazyArc, LazyItem, LazyReactionAction};
pub use message_collector::{MessageCollector, MessageFilter};
pub use predicate::{AcceptAll, FilterFn, ItemPredicate};
pub use sealed::Sealed;

verus! {

/// Calls `Arc::clone`, which hands out another handle to the same
/// allocation. To Verus a handle is the value it points to, so the contract
/// says that the new handle equals the given one.
#[verifier::external_body]
pub(crate) fn share<T>(handle: &Arc<T>) -> (other: Arc<T>)
    ensures
        other == *handle,
{
    Arc::clone(handle)
}

/// A reaction together with the direction of the change.
#[derive(Debug)]
pub enum ReactionAction {
    /// The reaction was put on the message.
    Added(Arc<Reaction>),
    /// The reaction was taken from the message.
    Removed(Arc<Reaction>),
}

impl ReactionAction {
    /// The reaction, whichever way it changed.
    pub open spec fn reaction(&self) -> Reaction {
        match self {
            ReactionAction::Added(inner) => **inner,
            ReactionAction::Removed(inner) => **inner,
        }
    }

    /// The reaction, whichever way it changed.
    #[must_use]
    pub fn as_inner_ref(&self) -> (inner: &Arc<Reaction>)
        ensures
            **inner == self.reaction(),
    {
        match self {
            ReactionAction::Added(inner) => inner,
            ReactionAction::Removed(inner) => inner,
        }
    }

    /// Whether the reaction was added.
    #[must_use]
    pub fn is_added(&self) -> (added: bool)
        ensures
            added == (self is Added),
    {
        match self {
            ReactionAction::Added(_) => true,
            ReactionAction::Removed(_) => false,
        }
    }

    /// Whether the reaction was removed.
    #[must_use]
    pub fn is_removed(&self) -> (removed: bool)
        ensures
            removed == (self is Removed),
    {
        match self {
            ReactionAction::Added(_) => false,
            ReactionAction::Removed(_) => true,
        }
    }
}

impl Clone for ReactionAction {
    fn clone(&self) -> (copy: Self)
        ensures
            copy == *self,
    {
        match self {
            ReactionAction::Added(inner) => ReactionAction::Added(share(inner)),
            ReactionAction::Removed(inner) => ReactionAction::Removed(share(inner)),
        }
    }
}

} // verus!
