//! Categories of guild channels.

use vstd::prelude::*;
use crate::model::channel::{ChannelType, PermissionOverwrite};
use crate::model::id::{ChannelId, GuildId};

verus! {

/// A category that groups channels of a guild.
#[derive(Clone, Debug)]
pub struct ChannelCategory {
    /// The category's unique identifier.
    pub id: ChannelId,
    /// The guild the category belongs to.
    pub guild_id: GuildId,
    /// In a nested category, the category above.
    pub parent_id: Option<ChannelId>,
    /// The place of the category in the guild's list.
    pub position: i64,
    /// The type of the channel: always category.
    pub kind: ChannelType,
    /// The category's name.
    pub name: String,
    /// Whether the category is marked as not safe for work.
    pub nsfw: bool,
    /// The permission overwrites of members and roles.
    pub permission_overwrites: Vec<PermissionOverwrite>,
}

impl ChannelCategory {
    /// Whether the channel is a text channel that is marked as not safe for
    /// work.
    pub open spec fn spec_is_nsfw(&self) -> bool {
        self.kind == ChannelType::Text && self.nsfw
    }

    /// Whether the channel is a text channel that is marked as not safe for
    /// work.
    #[must_use]
    pub fn is_nsfw(&self) -> (nsfw: bool)
        ensures
            nsfw == self.spec_is_nsfw(),
    {
        self.kind == ChannelType::Text && self.nsfw
    }

    /// The category's name.
    pub fn name(&self) -> (name: &str)
        ensures
            name@ == self.name@,
    {
        self.name.as_str()
    }
}

} // verus!
