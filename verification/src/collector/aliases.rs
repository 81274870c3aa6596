//! Names for the builders of the five kinds of collector.

use vstd::prelude::*;
use crate::collector::collector_builder::CollectorBuilder;
use crate::collector::ReactionAction;
use crate::model::application::interaction::{ComponentInteraction, ModalSubmitInteraction};
use crate::model::channel::message::Message;
use crate::model::event::Event;

verus! {

/// Builds a collector of raw events.
pub type EventCollectorBuilder<P> = CollectorBuilder<Event, P>;

/// Builds a collector of messages.
pub type MessageCollectorBuilder<P> = CollectorBuilder<Message, P>;

/// Builds a collector of reaction changes.
pub type ReactionCollectorBuilder<P> = CollectorBuilder<ReactionAction, P>;

/// Builds a collector of modal submissions.
pub type ModalInteractionCollectorBuilder<P> = CollectorBuilder<ModalSubmitInteraction, P>;

/// Builds a collector of component interactions.
pub type ComponentInteractionCollectorBuilder<P> = CollectorBuilder<ComponentInteraction, P>;

} // verus!
