//! Private channels.

use vstd::prelude::*;
use crate::model::channel::ChannelType;
use crate::model::id::{ChannelId, MessageId};
use crate::model::timestamp::Timestamp;
use crate::model::user::User;

verus! {

/// A channel between the current user and one other user.
#[derive(Clone, Debug)]
pub struct PrivateChannel {
    /// The channel's unique identifier.
    pub id: ChannelId,
    /// The last message posted, if any.
    pub last_message_id: Option<MessageId>,
    /// When a message was last pinned.
    pub last_pin_timestamp: Option<Timestamp>,
    /// The type of the channel: always private.
    pub kind: ChannelType,
    /// The other user.
    pub recipient: User,
}

impl PrivateChannel {
    /// A private channel is never marked as not safe for work.
    #[must_use]
    pub fn is_nsfw(&self) -> (nsfw: bool)
        ensures
            !nsfw,
    {
        false
    }

    /// The name under which the channel is shown: that of the other user.
    pub fn name(&self) -> (name: String)
        ensures
            name@ == self.recipient.name@,
    {
        self.recipient.name.clone()
    }
}

} // verus!
