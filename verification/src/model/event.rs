//! Events that the gateway delivers, their types, and the identifiers that an
//! event of each type can carry.

use vstd::prelude::*;
use crate::model::application::interaction::Interaction;
use crate::model::channel::message::Message;
use crate::model::channel::reaction::Reaction;
use crate::model::id::{ChannelId, GuildId, MessageId, UserId};

verus! {

/// The type of an [`Event`], without its payload.
#[derive(Clone, Copy, Debug, PartialEq, Eq, Hash, Structural)]
pub enum EventType {
    Ready,
    GuildCreate,
    ChannelCreate,
    TypingStart,
    MessageCreate,
    MessageDelete,
    ReactionAdd,
    ReactionRemove,
    InteractionCreate,
}

/// Which kinds of identifier an event of some type can carry at all.
#[derive(Clone, Copy, Debug, PartialEq, Eq, Structural)]
pub struct RelatedIdsForEventType {
    pub user_id: bool,
    pub guild_id: bool,
    pub channel_id: bool,
    pub message_id: bool,
}

impl Default for RelatedIdsForEventType {
    fn default() -> (none: Self)
        ensures
            none == (RelatedIdsForEventType {
                user_id: false,
                guild_id: false,
                channel_id: false,
                message_id: false,
            }),
    {
        RelatedIdsForEventType {
            user_id: false,
            guild_id: false,
            channel_id: false,
            message_id: false,
        }
    }
}

impl EventType {
    /// The table of identifier kinds per event type.
    pub open spec fn spec_related_ids(self) -> RelatedIdsForEventType {
        match self {
            EventType::Ready => RelatedIdsForEventType {
                user_id: false,
                guild_id: false,
                channel_id: false,
                message_id: false,
            },
            EventType::GuildCreate => RelatedIdsForEventType {
                user_id: false,
                guild_id: true,
                channel_id: false,
                message_id: false,
            },
            EventType::ChannelCreate => RelatedIdsForEventType {
                user_id: false,
                guild_id: true,
                channel_id: true,
                message_id: false,
            },
            EventType::TypingStart => RelatedIdsForEventType {
                user_id: true,
                guild_id: true,
                channel_id: true,
                message_id: false,
            },
            EventType::MessageDelete => RelatedIdsForEventType {
                user_id: false,
                guild_id: true,
                channel_id: true,
                message_id: true,
            },
            EventType::MessageCreate
            | EventType::ReactionAdd
            | EventType::ReactionRemove
            | EventType::InteractionCreate => RelatedIdsForEventType {
                user_id: true,
                guild_id: true,
                channel_id: true,
                message_id: true,
            },
        }
    }

    /// Which kinds of identifier an event of this type can carry.
    pub fn related_ids(&self) -> (related: RelatedIdsForEventType)
        ensures
            related == self.spec_related_ids(),
    {
        let (user_id, guild_id, channel_id, message_id) = match self {
            EventType::Ready => (false, false, false, false),
            EventType::GuildCreate => (false, true, false, false),
            EventType::ChannelCreate => (false, true, true, false),
            EventType::TypingStart => (true, true, true, false),
            EventType::MessageDelete => (false, true, true, true),
            EventType::MessageCreate => (true, true, true, true),
            EventType::ReactionAdd => (true, true, true, true),
            EventType::ReactionRemove => (true, true, true, true),
            EventType::InteractionCreate => (true, true, true, true),
        };
        RelatedIdsForEventType { user_id, guild_id, channel_id, message_id }
    }
}

/// The identifier of one kind that an event carries.
#[derive(Clone, Copy, Debug, PartialEq, Eq, Structural)]
pub enum RelatedId {
    /// Events of this type never carry such an identifier.
    Never,
    /// This event happens to carry none.
    Absent,
    /// This event carries one.
    One(u64),
}

impl RelatedId {
    /// Whether `id` is the identifier carried.
    pub open spec fn spec_contains(self, id: u64) -> bool {
        self matches RelatedId::One(own) && own == id
    }

    /// The identifier of an optional one.
    pub open spec fn from_option(id: Option<u64>) -> Self {
        match id {
            Some(id) => RelatedId::One(id),
            None => RelatedId::Absent,
        }
    }

    /// Whether `id` is the identifier carried.
    pub fn contains(&self, id: u64) -> (found: bool)
        ensures
            found == self.spec_contains(id),
    {
        match self {
            RelatedId::Never => false,
            RelatedId::Absent => false,
            RelatedId::One(own) => *own == id,
        }
    }
}

/// A message was posted.
#[derive(Debug)]
pub struct MessageCreateEvent {
    pub message: Message,
}

/// A reaction was put on a message.
#[derive(Debug)]
pub struct ReactionAddEvent {
    pub reaction: Reaction,
}

/// A reaction was taken from a message.
#[derive(Debug)]
pub struct ReactionRemoveEvent {
    pub reaction: Reaction,
}

/// A user interacted with the application.
#[derive(Debug)]
pub struct InteractionCreateEvent {
    pub interaction: Interaction,
}

/// An event as a shard receives it from the gateway.
#[derive(Debug)]
#[allow(inconsistent_fields)]
pub enum Event {
    /// The session is established.
    Ready,
    /// A guild became available.
    GuildCreate { guild_id: GuildId },
    /// A channel was created.
    ChannelCreate { guild_id: GuildId, channel_id: ChannelId },
    /// A user started typing.
    TypingStart { guild_id: Option<GuildId>, channel_id: ChannelId, user_id: UserId },
    /// A message was posted.
    MessageCreate(MessageCreateEvent),
    /// A message was deleted.
    MessageDelete { guild_id: Option<GuildId>, channel_id: ChannelId, message_id: MessageId },
    /// A reaction was added.
    ReactionAdd(ReactionAddEvent),
    /// A reaction was removed.
    ReactionRemove(ReactionRemoveEvent),
    /// A user interacted with the application.
    InteractionCreate(InteractionCreateEvent),
}

/// The number of an optional guild identifier.
pub open spec fn guild_number(id: Option<GuildId>) -> Option<u64> {
    match id {
        Some(id) => Some(id@),
        None => None,
    }
}

/// The number of an optional user identifier.
pub open spec fn user_number(id: Option<UserId>) -> Option<u64> {
    match id {
        Some(id) => Some(id@),
        None => None,
    }
}

impl Event {
    /// The type of this event.
    pub open spec fn spec_event_type(&self) -> EventType {
        match self {
            Event::Ready => EventType::Ready,
            Event::GuildCreate { .. } => EventType::GuildCreate,
            Event::ChannelCreate { .. } => EventType::ChannelCreate,
            Event::TypingStart { .. } => EventType::TypingStart,
            Event::MessageCreate(_) => EventType::MessageCreate,
            Event::MessageDelete { .. } => EventType::MessageDelete,
            Event::ReactionAdd(_) => EventType::ReactionAdd,
            Event::ReactionRemove(_) => EventType::ReactionRemove,
            Event::InteractionCreate(_) => EventType::InteractionCreate,
        }
    }

    /// The type of this event.
    pub fn event_type(&self) -> (kind: EventType)
        ensures
            kind == self.spec_event_type(),
    {
        match self {
            Event::Ready => EventType::Ready,
            Event::GuildCreate { .. } => EventType::GuildCreate,
            Event::ChannelCreate { .. } => EventType::ChannelCreate,
            Event::TypingStart { .. } => EventType::TypingStart,
            Event::MessageCreate(_) => EventType::MessageCreate,
            Event::MessageDelete { .. } => EventType::MessageDelete,
            Event::ReactionAdd(_) => EventType::ReactionAdd,
            Event::ReactionRemove(_) => EventType::ReactionRemove,
            Event::InteractionCreate(_) => EventType::InteractionCreate,
        }
    }

    /// The user identifiers that this event carries.
    pub open spec fn spec_user_id(&self) -> RelatedId {
        match self {
            Event::Ready
            | Event::GuildCreate { .. }
            | Event::ChannelCreate { .. }
            | Event::MessageDelete { .. } => RelatedId::Never,
            Event::TypingStart { user_id, .. } => RelatedId::One(user_id@),
            Event::MessageCreate(e) => RelatedId::One(e.message.author.id@),
            Event::ReactionAdd(e) => RelatedId::from_option(user_number(e.reaction.user_id)),
            Event::ReactionRemove(e) => RelatedId::from_option(
                user_number(e.reaction.user_id),
            ),
            Event::InteractionCreate(e) => match e.interaction {
                Interaction::Ping => RelatedId::Absent,
                Interaction::Component(i) => RelatedId::One(i.user.id@),
                Interaction::ModalSubmit(i) => RelatedId::One(i.user.id@),
            },
        }
    }

    /// The guild identifiers that this event carries.
    pub open spec fn spec_guild_id(&self) -> RelatedId {
        match self {
            Event::Ready => RelatedId::Never,
            Event::GuildCreate { guild_id } => RelatedId::One(guild_id@),
            Event::ChannelCreate { guild_id, .. } => RelatedId::One(guild_id@),
            Event::TypingStart { guild_id, .. } => RelatedId::from_option(
                guild_number(*guild_id),
            ),
            Event::MessageCreate(e) => RelatedId::from_option(guild_number(e.message.guild_id)),
            Event::MessageDelete { guild_id, .. } => RelatedId::from_option(
                guild_number(*guild_id),
            ),
            Event::ReactionAdd(e) => RelatedId::from_option(guild_number(e.reaction.guild_id)),
            Event::ReactionRemove(e) => RelatedId::from_option(
                guild_number(e.reaction.guild_id),
            ),
            Event::InteractionCreate(e) => match e.interaction {
                Interaction::Ping => RelatedId::Absent,
                Interaction::Component(i) => RelatedId::from_option(guild_number(i.guild_id)),
                Interaction::ModalSubmit(i) => RelatedId::from_option(guild_number(i.guild_id)),
            },
        }
    }

    /// The channel identifiers that this event carries.
    pub open spec fn spec_channel_id(&self) -> RelatedId {
        match self {
            Event::Ready
            | Event::GuildCreate { .. } => RelatedId::Never,
            Event::ChannelCreate { channel_id, .. } => RelatedId::One(channel_id@),
            Event::TypingStart { channel_id, .. } => RelatedId::One(channel_id@),
            Event::MessageCreate(e) => RelatedId::One(e.message.channel_id@),
            Event::MessageDelete { channel_id, .. } => RelatedId::One(channel_id@),
            Event::ReactionAdd(e) => RelatedId::One(e.reaction.channel_id@),
            Event::ReactionRemove(e) => RelatedId::One(e.reaction.channel_id@),
            Event::InteractionCreate(e) => match e.interaction {
                Interaction::Ping => RelatedId::Absent,
                Interaction::Component(i) => RelatedId::One(i.channel_id@),
                Interaction::ModalSubmit(i) => RelatedId::One(i.channel_id@),
            },
        }
    }

    /// The message identifiers that this event carries.
    pub open spec fn spec_message_id(&self) -> RelatedId {
        match self {
            Event::Ready
            | Event::GuildCreate { .. }
            | Event::ChannelCreate { .. }
            | Event::TypingStart { .. } => RelatedId::Never,
            Event::MessageCreate(e) => RelatedId::One(e.message.id@),
            Event::MessageDelete { message_id, .. } => RelatedId::One(message_id@),
            Event::ReactionAdd(e) => RelatedId::One(e.reaction.message_id@),
            Event::ReactionRemove(e) => RelatedId::One(e.reaction.message_id@),
            Event::InteractionCreate(e) => match e.interaction {
                Interaction::Ping => RelatedId::Absent,
                Interaction::Component(i) => RelatedId::One(i.message.id@),
                Interaction::ModalSubmit(i) => match i.message {
                    Some(m) => RelatedId::One(m.id@),
                    None => RelatedId::Absent,
                },
            },
        }
    }

    /// The user identifiers that this event carries.
    pub fn user_id(&self) -> (ids: RelatedId)
        ensures
            ids == self.spec_user_id(),
    {
        match self {
            Event::Ready => RelatedId::Never,
            Event::GuildCreate { .. } => RelatedId::Never,
            Event::ChannelCreate { .. } => RelatedId::Never,
            Event::MessageDelete { .. } => RelatedId::Never,
            Event::TypingStart { user_id, .. } => RelatedId::One(user_id.get()),
            Event::MessageCreate(e) => RelatedId::One(e.message.author.id.get()),
            Event::ReactionAdd(e) => option_user(e.reaction.user_id),
            Event::ReactionRemove(e) => option_user(e.reaction.user_id),
            Event::InteractionCreate(e) => match &e.interaction {
                Interaction::Ping => RelatedId::Absent,
                Interaction::Component(i) => RelatedId::One(i.user.id.get()),
                Interaction::ModalSubmit(i) => RelatedId::One(i.user.id.get()),
            },
        }
    }

    /// The guild identifiers that this event carries.
    pub fn guild_id(&self) -> (ids: RelatedId)
        ensures
            ids == self.spec_guild_id(),
    {
        match self {
            Event::Ready => RelatedId::Never,
            Event::GuildCreate { guild_id } => RelatedId::One(guild_id.get()),
            Event::ChannelCreate { guild_id, .. } => RelatedId::One(guild_id.get()),
            Event::TypingStart { guild_id, .. } => option_guild(*guild_id),
            Event::MessageCreate(e) => option_guild(e.message.guild_id),
            Event::MessageDelete { guild_id, .. } => option_guild(*guild_id),
            Event::ReactionAdd(e) => option_guild(e.reaction.guild_id),
            Event::ReactionRemove(e) => option_guild(e.reaction.guild_id),
            Event::InteractionCreate(e) => match &e.interaction {
                Interaction::Ping => RelatedId::Absent,
                Interaction::Component(i) => option_guild(i.guild_id),
                Interaction::ModalSubmit(i) => option_guild(i.guild_id),
            },
        }
    }

    /// The channel identifiers that this event carries.
    pub fn channel_id(&self) -> (ids: RelatedId)
        ensures
            ids == self.spec_channel_id(),
    {
        match self {
            Event::Ready => RelatedId::Never,
            Event::GuildCreate { .. } => RelatedId::Never,
            Event::ChannelCreate { channel_id, .. } => RelatedId::One(channel_id.get()),
            Event::TypingStart { channel_id, .. } => RelatedId::One(channel_id.get()),
            Event::MessageCreate(e) => RelatedId::One(e.message.channel_id.get()),
            Event::MessageDelete { channel_id, .. } => RelatedId::One(channel_id.get()),
            Event::ReactionAdd(e) => RelatedId::One(e.reaction.channel_id.get()),
            Event::ReactionRemove(e) => RelatedId::One(e.reaction.channel_id.get()),
            Event::InteractionCreate(e) => match &e.interaction {
                Interaction::Ping => RelatedId::Absent,
                Interaction::Component(i) => RelatedId::One(i.channel_id.get()),
                Interaction::ModalSubmit(i) => RelatedId::One(i.channel_id.get()),
            },
        }
    }

    /// The message identifiers that this event carries.
    pub fn message_id(&self) -> (ids: RelatedId)
        ensures
            ids == self.spec_message_id(),
    {
        match self {
            Event::Ready => RelatedId::Never,
            Event::GuildCreate { .. } => RelatedId::Never,
            Event::ChannelCreate { .. } => RelatedId::Never,
            Event::TypingStart { .. } => RelatedId::Never,
            Event::MessageCreate(e) => RelatedId::One(e.message.id.get()),
            Event::MessageDelete { message_id, .. } => RelatedId::One(message_id.get()),
            Event::ReactionAdd(e) => RelatedId::One(e.reaction.message_id.get()),
            Event::ReactionRemove(e) => RelatedId::One(e.reaction.message_id.get()),
            Event::InteractionCreate(e) => match &e.interaction {
                Interaction::Ping => RelatedId::Absent,
                Interaction::Component(i) => RelatedId::One(i.message.id.get()),
                Interaction::ModalSubmit(i) => match &i.message {
                    Some(m) => RelatedId::One(m.id.get()),
                    None => RelatedId::Absent,
                },
            },
        }
    }

    /// An event carries identifiers of a kind only if the table of its type
    /// says that such events can: where the table says no, the accessor
    /// answers `Never`, and nothing is contained in it.
    pub proof fn lemma_related_ids_sound(&self)
        ensures
            self.spec_event_type().spec_related_ids().user_id
                <==> self.spec_user_id() !is Never,
            self.spec_event_type().spec_related_ids().guild_id
                <==> self.spec_guild_id() !is Never,
            self.spec_event_type().spec_related_ids().channel_id
                <==> self.spec_channel_id() !is Never,
            self.spec_event_type().spec_related_ids().message_id
                <==> self.spec_message_id() !is Never,
    {
    }
}

fn option_guild(id: Option<GuildId>) -> (ids: RelatedId)
    ensures
        ids == RelatedId::from_option(guild_number(id)),
{
    match id {
        Some(id) => RelatedId::One(id.get()),
        None => RelatedId::Absent,
    }
}

fn option_user(id: Option<UserId>) -> (ids: RelatedId)
    ensures
        ids == RelatedId::from_option(user_number(id)),
{
    match id {
        Some(id) => RelatedId::One(id.get()),
        None => RelatedId::Absent,
    }
}

impl Clone for Event {
    fn clone(&self) -> (copy: Self)
        ensures
            copy == *self,
    {
        match self {
            Event::Ready => Event::Ready,
            Event::GuildCreate { guild_id } => Event::GuildCreate { guild_id: *guild_id },
            Event::ChannelCreate { guild_id, channel_id } => Event::ChannelCreate {
                guild_id: *guild_id,
                channel_id: *channel_id,
            },
            Event::TypingStart { guild_id, channel_id, user_id } => Event::TypingStart {
                guild_id: *guild_id,
                channel_id: *channel_id,
                user_id: *user_id,
            },
            Event::MessageCreate(e) => Event::MessageCreate(
                MessageCreateEvent { message: e.message.clone() },
            ),
            Event::MessageDelete { guild_id, channel_id, message_id } => Event::MessageDelete {
                guild_id: *guild_id,
                channel_id: *channel_id,
                message_id: *message_id,
            },
            Event::ReactionAdd(e) => Event::ReactionAdd(
                ReactionAddEvent { reaction: e.reaction.clone() },
            ),
            Event::ReactionRemove(e) => Event::ReactionRemove(
                ReactionRemoveEvent { reaction: e.reaction.clone() },
            ),
            Event::InteractionCreate(e) => Event::InteractionCreate(
                InteractionCreateEvent { interaction: e.interaction.clone() },
            ),
        }
    }
}

} // verus!
