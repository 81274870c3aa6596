//! Interactions: what a user does with a component, a modal or a command.

use vstd::prelude::*;
use crate::model::channel::message::Message;
use crate::model::id::{ApplicationId, ChannelId, GuildId, InteractionId};
use crate::model::user::User;

verus! {

/// What a message component interaction carries besides its origin.
#[derive(Debug)]
pub struct ComponentInteractionData {
    /// The identifier that the component's author gave it.
    pub custom_id: String,
}

impl Clone for ComponentInteractionData {
    fn clone(&self) -> (copy: Self)
        ensures
            copy == *self,
    {
        ComponentInteractionData { custom_id: self.custom_id.clone() }
    }
}

/// A user pressed a button or chose from a menu under a message.
#[derive(Debug)]
pub struct ComponentInteraction {
    /// The interaction's unique identifier.
    pub id: InteractionId,
    /// The application the interaction is for.
    pub application_id: ApplicationId,
    /// The guild it came from, if any.
    pub guild_id: Option<GuildId>,
    /// The channel it came from.
    pub channel_id: ChannelId,
    /// Who triggered it.
    pub user: User,
    /// The message the component hangs under.
    pub message: Message,
    /// The component's own data.
    pub data: ComponentInteractionData,
}

impl Clone for ComponentInteraction {
    fn clone(&self) -> (copy: Self)
        ensures
            copy == *self,
    {
        ComponentInteraction {
            id: self.id,
            application_id: self.application_id,
            guild_id: self.guild_id,
            channel_id: self.channel_id,
            user: self.user.clone(),
            message: self.message.clone(),
            data: self.data.clone(),
        }
    }
}

/// What a modal submission carries besides its origin.
#[derive(Debug)]
pub struct ModalSubmitInteractionData {
    /// The identifier that the modal's author gave it.
    pub custom_id: String,
}

impl Clone for ModalSubmitInteractionData {
    fn clone(&self) -> (copy: Self)
        ensures
            copy == *self,
    {
        ModalSubmitInteractionData { custom_id: self.custom_id.clone() }
    }
}

/// A user submitted a modal dialog.
#[derive(Debug)]
pub struct ModalSubmitInteraction {
    /// The interaction's unique identifier.
    pub id: InteractionId,
    /// The application the interaction is for.
    pub application_id: ApplicationId,
    /// The guild it came from, if any.
    pub guild_id: Option<GuildId>,
    /// The channel it came from.
    pub channel_id: ChannelId,
    /// Who submitted it.
    pub user: User,
    /// The message whose component opened the modal, if one did.
    pub message: Option<Message>,
    /// The modal's own data.
    pub data: ModalSubmitInteractionData,
}

impl Clone for ModalSubmitInteraction {
    fn clone(&self) -> (copy: Self)
        ensures
            copy == *self,
    {
        let message = match &self.message {
            Some(m) => Some(m.clone()),
            None => None,
        };
        ModalSubmitInteraction {
            id: self.id,
            application_id: self.application_id,
            guild_id: self.guild_id,
            channel_id: self.channel_id,
            user: self.user.clone(),
            message,
            data: self.data.clone(),
        }
    }
}

/// Any interaction that the gateway delivers.
#[derive(Debug)]
pub enum Interaction {
    /// The platform checks that the application answers.
    Ping,
    /// A message component was used.
    Component(ComponentInteraction),
    /// A modal was submitted.
    ModalSubmit(ModalSubmitInteraction),
}

impl Clone for Interaction {
    fn clone(&self) -> (copy: Self)
        ensures
            copy == *self,
    {
        match self {
            Interaction::Ping => Interaction::Ping,
            Interaction::Component(c) => Interaction::Component(c.clone()),
            Interaction::ModalSubmit(m) => Interaction::ModalSubmit(m.clone()),
        }
    }
}

} // verus!
