//! Chat messages.

use vstd::prelude::*;
use crate::model::id::{ChannelId, GuildId, MessageId};
use crate::model::user::User;

verus! {

/// A message posted to a channel.
#[derive(Debug)]
pub struct Message {
    /// The message's unique identifier.
    pub id: MessageId,
    /// The channel the message was posted to.
    pub channel_id: ChannelId,
    /// The guild of that channel; absent in a private channel.
    pub guild_id: Option<GuildId>,
    /// Who posted the message.
    pub author: User,
    /// The text of the message.
    pub content: String,
}

impl Clone for Message {
    fn clone(&self) -> (copy: Self)
        ensures
            copy == *self,
    {
        Message {
            id: self.id,
            channel_id: self.channel_id,
            guild_id: self.guild_id,
            author: self.author.clone(),
            content: self.content.clone(),
        }
    }
}

} // verus!
