//! The kinds of item that a collector can target, and how each is found in
//! an inbound event.

use vstd::prelude::*;
use crate::collector::filter_options::{
    ComponentFilterOptions,
    EventFilterOptions,
    MessageFilterOptions,
    ModalFilterOptions,
    ReactionFilterOptions,
};
use crate::collector::lazy_item::{LazyArc, LazyItem, LazyReactionAction};
use crate::collector::sealed::Sealed;
use crate::collector::ReactionAction;
use crate::model::application::interaction::{
    ComponentInteraction,
    Interaction,
    ModalSubmitInteraction,
};
use crate::model::channel::message::Message;
use crate::model::channel::reaction::Reaction;
use crate::model::event::Event;

verus! {

/// A kind of item that collectors can subscribe to.
///
/// Extraction is total and reads the event only: it yields a lazy item that
/// borrows from the event and has not been promoted, or nothing where the
/// event carries no item of the kind.
pub trait Collectable: Sealed + Sized {
    /// The lazy item that extraction yields.
    type Lazy<'a>: LazyItem<Self>;

    /// The declarative constraints of filters of this kind.
    type FilterOptions: Default;

    /// What the custom predicate of a filter of this kind is asked about.
    type FilterItem;

    /// Whether `event` carries an item of this kind.
    spec fn carried_by(event: &Event) -> bool;

    /// Whether `lazy` borrows the item that `event` carries.
    spec fn borrows(lazy: &Self::Lazy<'_>, event: &Event) -> bool;

    /// The item of this kind that `event` carries, if it carries one.
    fn extract(event: &Event) -> (lazy: Option<Self::Lazy<'_>>)
        ensures
            lazy is Some <==> Self::carried_by(event),
            lazy matches Some(item) ==> Self::borrows(&item, event) && item.promoted() is None,
    ;
}

impl Collectable for ModalSubmitInteraction {
    type Lazy<'a> = LazyArc<'a, ModalSubmitInteraction>;

    type FilterOptions = ModalFilterOptions;

    type FilterItem = ModalSubmitInteraction;

    open spec fn carried_by(event: &Event) -> bool {
        event matches Event::InteractionCreate(e) && e.interaction is ModalSubmit
    }

    open spec fn borrows(lazy: &LazyArc<'_, ModalSubmitInteraction>, event: &Event) -> bool {
        event matches Event::InteractionCreate(e) && e.interaction matches Interaction::ModalSubmit(
            modal,
        ) && lazy.value() == modal
    }

    fn extract(event: &Event) -> (lazy: Option<LazyArc<'_, ModalSubmitInteraction>>) {
        if let Event::InteractionCreate(interaction) = event {
            if let Interaction::ModalSubmit(interaction) = &interaction.interaction {
                let lazy = LazyArc::new(interaction);
                assert(lazy.promoted() == lazy.owned());
                return Some(lazy);
            }
        }
        None
    }
}

impl Collectable for ReactionAction {
    type Lazy<'a> = LazyReactionAction<'a>;

    type FilterOptions = ReactionFilterOptions;

    type FilterItem = Reaction;

    open spec fn carried_by(event: &Event) -> bool {
        event is ReactionAdd || event is ReactionRemove
    }

    open spec fn borrows(lazy: &LazyReactionAction<'_>, event: &Event) -> bool {
        match event {
            Event::ReactionAdd(e) => lazy.reaction() == e.reaction && lazy.added(),
            Event::ReactionRemove(e) => lazy.reaction() == e.reaction && !lazy.added(),
            _ => false,
        }
    }

    fn extract(event: &Event) -> (lazy: Option<LazyReactionAction<'_>>) {
        let (reaction, added) = match event {
            Event::ReactionAdd(reaction) => (&reaction.reaction, true),
            Event::ReactionRemove(reaction) => (&reaction.reaction, false),
            _ => {
                return None;
            },
        };
        let lazy = LazyReactionAction::new(reaction, added);
        assert(lazy.promoted() == lazy.owned());
        Some(lazy)
    }
}

impl Collectable for ComponentInteraction {
    type Lazy<'a> = LazyArc<'a, ComponentInteraction>;

    type FilterOptions = ComponentFilterOptions;

    type FilterItem = ComponentInteraction;

    open spec fn carried_by(event: &Event) -> bool {
        event matches Event::InteractionCreate(e) && e.interaction is Component
    }

    open spec fn borrows(lazy: &LazyArc<'_, ComponentInteraction>, event: &Event) -> bool {
        event matches Event::InteractionCreate(e) && e.interaction matches Interaction::Component(
            component,
        ) && lazy.value() == component
    }

    fn extract(event: &Event) -> (lazy: Option<LazyArc<'_, ComponentInteraction>>) {
        if let Event::InteractionCreate(interaction) = event {
            if let Interaction::Component(interaction) = &interaction.interaction {
                let lazy = LazyArc::new(interaction);
                assert(lazy.promoted() == lazy.owned());
                return Some(lazy);
            }
        }
        None
    }
}

impl Collectable for Message {
    type Lazy<'a> = LazyArc<'a, Message>;

    type FilterOptions = MessageFilterOptions;

    type FilterItem = Message;

    open spec fn carried_by(event: &Event) -> bool {
        event is MessageCreate
    }

    open spec fn borrows(lazy: &LazyArc<'_, Message>, event: &Event) -> bool {
        event matches Event::MessageCreate(e) && lazy.value() == e.message
    }

    fn extract(event: &Event) -> (lazy: Option<LazyArc<'_, Message>>) {
        if let Event::MessageCreate(message) = event {
            let lazy = LazyArc::new(&message.message);
            assert(lazy.promoted() == lazy.owned());
            Some(lazy)
        } else {
            None
        }
    }
}

impl Collectable for Event {
    type Lazy<'a> = LazyArc<'a, Event>;

    type FilterOptions = EventFilterOptions;

    type FilterItem = Event;

    open spec fn carried_by(event: &Event) -> bool {
        true
    }

    open spec fn borrows(lazy: &LazyArc<'_, Event>, event: &Event) -> bool {
        lazy.value() == *event
    }

    fn extract(event: &Event) -> (lazy: Option<LazyArc<'_, Event>>) {
        let lazy = LazyArc::new(event);
        assert(lazy.promoted() == lazy.owned());
        Some(lazy)
    }
}

} // verus!
