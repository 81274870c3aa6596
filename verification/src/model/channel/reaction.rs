//! Reactions to messages.

use vstd::prelude::*;
use crate::model::id::{ChannelId, GuildId, MessageId, UserId};

verus! {

/// A reaction that a user put on, or took from, a message.
#[derive(Debug)]
pub struct Reaction {
    /// The channel of the message.
    pub channel_id: ChannelId,
    /// The message reacted to.
    pub message_id: MessageId,
    /// Who reacted; absent where the platform does not say.
    pub user_id: Option<UserId>,
    /// The guild of the channel; absent in a private channel.
    pub guild_id: Option<GuildId>,
    /// The emoji of the reaction, as text.
    pub emoji: String,
}

impl Clone for Reaction {
    fn clone(&self) -> (copy: Self)
        ensures
            copy == *self,
    {
        Reaction {
            channel_id: self.channel_id,
            message_id: self.message_id,
            user_id: self.user_id,
            guild_id: self.guild_id,
            emoji: self.emoji.clone(),
        }
    }
}

} // verus!
