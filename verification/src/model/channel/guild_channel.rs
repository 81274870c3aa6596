//! Channels of a guild.

use vstd::prelude::*;
use crate::model::channel::{ChannelType, PermissionOverwrite, ThreadMember, ThreadMetadata, VideoQualityMode};
use crate::model::id::{ChannelId, GuildId, MessageId};
use crate::model::timestamp::Timestamp;

verus! {

/// A text, voice, stage, directory or thread channel within a guild.
#[derive(Clone, Debug)]
pub struct GuildChannel {
    /// The channel's unique identifier.
    pub id: ChannelId,
    /// The bitrate of a voice channel.
    pub bitrate: Option<u64>,
    /// The category the channel belongs to, or for a thread the channel it
    /// was started in.
    pub parent_id: Option<ChannelId>,
    /// The guild the channel belongs to.
    pub guild_id: GuildId,
    /// The type of the channel.
    pub kind: ChannelType,
    /// The last message posted, if any.
    pub last_message_id: Option<MessageId>,
    /// When a message was last pinned.
    pub last_pin_timestamp: Option<Timestamp>,
    /// The channel's name.
    pub name: String,
    /// The permission overwrites of members and roles.
    pub permission_overwrites: Vec<PermissionOverwrite>,
    /// The place of the channel in the guild's list.
    pub position: i64,
    /// The channel's topic.
    pub topic: Option<String>,
    /// How many members a voice channel admits.
    pub user_limit: Option<u64>,
    /// Whether the channel is marked as not safe for work.
    pub nsfw: bool,
    /// The seconds a user must wait between messages.
    pub rate_limit_per_user: Option<u64>,
    /// The voice region, if it is fixed.
    pub rtc_region: Option<String>,
    /// The video quality of a voice channel.
    pub video_quality_mode: Option<VideoQualityMode>,
    /// About how many messages a thread holds.
    pub message_count: Option<u8>,
    /// About how many members a thread has.
    pub member_count: Option<u8>,
    /// What only a thread has.
    pub thread_metadata: Option<ThreadMetadata>,
    /// The current user's membership of a thread.
    pub member: Option<ThreadMember>,
    /// The minutes after which new threads are archived by default.
    pub default_auto_archive_duration: Option<u64>,
}

impl GuildChannel {
    /// Whether the channel is a text channel that is marked as not safe for
    /// work.
    pub open spec fn spec_is_nsfw(&self) -> bool {
        self.kind == ChannelType::Text && self.nsfw
    }

    /// Whether the channel is a text channel that is marked as not safe for
    /// work. The channel's name plays no part.
    #[must_use]
    pub fn is_nsfw(&self) -> (nsfw: bool)
        ensures
            nsfw == self.spec_is_nsfw(),
    {
        self.kind == ChannelType::Text && self.nsfw
    }

    /// The channel's name.
    pub fn name(&self) -> (name: &str)
        ensures
            name@ == self.name@,
    {
        self.name.as_str()
    }
}

} // verus!
