//! Channels and what is posted in them.

use vstd::prelude::*;
use vstd::string::StringExecFns;
use crate::model::id::{ChannelId, GuildId, RoleId, StageInstanceId, UserId};
use crate::model::permissions::Permissions;
use crate::model::timestamp::Timestamp;

pub mod attachment_type;
pub mod channel_category;
pub mod channel_id;
pub mod guild_channel;
pub mod message;
pub mod private_channel;
pub mod reaction;

pub use attachment_type::AttachmentType;
pub use channel_category::ChannelCategory;
pub use guild_channel::GuildChannel;
pub use message::Message;
pub use private_channel::PrivateChannel;
pub use reaction::Reaction;

verus! {

/// A container for any channel.
#[derive(Clone, Debug)]
#[non_exhaustive]
pub enum Channel {
    /// A text, voice, stage, directory or thread channel within a guild.
    Guild(GuildChannel),
    /// A private channel to another user.
    Private(PrivateChannel),
    /// A category of guild channels.
    Category(ChannelCategory),
}

impl Channel {
    /// The identifier of the inner channel.
    pub open spec fn spec_id(&self) -> ChannelId {
        match self {
            Channel::Guild(ch) => ch.id,
            Channel::Private(ch) => ch.id,
            Channel::Category(ch) => ch.id,
        }
    }

    /// The guild channel inside, if that is what the channel is.
    #[must_use]
    pub fn guild(self) -> (inner: Option<GuildChannel>)
        ensures
            inner == match self {
                Channel::Guild(ch) => Some(ch),
                _ => None,
            },
    {
        match self {
            Channel::Guild(lock) => Some(lock),
            _ => None,
        }
    }

    /// The private channel inside, if that is what the channel is.
    #[must_use]
    pub fn private(self) -> (inner: Option<PrivateChannel>)
        ensures
            inner == match self {
                Channel::Private(ch) => Some(ch),
                _ => None,
            },
    {
        match self {
            Channel::Private(lock) => Some(lock),
            _ => None,
        }
    }

    /// The category inside, if that is what the channel is.
    #[must_use]
    pub fn category(self) -> (inner: Option<ChannelCategory>)
        ensures
            inner == match self {
                Channel::Category(ch) => Some(ch),
                _ => None,
            },
    {
        match self {
            Channel::Category(lock) => Some(lock),
            _ => None,
        }
    }

    /// Whether the channel is marked as not safe for work; a private channel
    /// never is.
    #[must_use]
    pub fn is_nsfw(&self) -> (nsfw: bool)
        ensures
            nsfw == match self {
                Channel::Guild(ch) => ch.spec_is_nsfw(),
                Channel::Category(ch) => ch.spec_is_nsfw(),
                Channel::Private(_) => false,
            },
    {
        match self {
            Channel::Guild(channel) => channel.is_nsfw(),
            Channel::Category(category) => category.is_nsfw(),
            Channel::Private(_) => false,
        }
    }

    /// The identifier of the inner channel.
    #[must_use]
    pub fn id(&self) -> (id: ChannelId)
        ensures
            id == self.spec_id(),
    {
        match self {
            Channel::Guild(ch) => ch.id,
            Channel::Private(ch) => ch.id,
            Channel::Category(ch) => ch.id,
        }
    }

    /// The position of a guild channel or a category; a private channel has
    /// none.
    #[must_use]
    pub fn position(&self) -> (position: Option<i64>)
        ensures
            position == match self {
                Channel::Guild(ch) => Some(ch.position),
                Channel::Category(ch) => Some(ch.position),
                Channel::Private(_) => None,
            },
    {
        match self {
            Channel::Guild(channel) => Some(channel.position),
            Channel::Category(category) => Some(category.position),
            _ => None,
        }
    }

    /// The text by which the channel is shown: a mention for a guild channel,
    /// the other user's name for a private channel, the name for a category.
    pub fn to_string(&self) -> (text: String)
        ensures
            text@ == match self {
                Channel::Private(ch) => ch.recipient.name@,
                Channel::Category(ch) => ch.name@,
                Channel::Guild(ch) => "<#"@ + crate::model::snowflake::decimal(ch.id@ as nat)
                    + ">"@,
            },
    {
        match self {
            Channel::Guild(ch) => ch.id.mention(),
            Channel::Private(ch) => ch.recipient.name.clone(),
            Channel::Category(ch) => ch.name.clone(),
        }
    }
}

/// Which variant of [`Channel`] a channel record of a given type number is
/// read as.
#[derive(Clone, Copy, Debug, PartialEq, Eq, Structural)]
pub enum ChannelVariant {
    Guild,
    Private,
    Category,
}

/// The variant for a type number, or nothing for a number that stands for no
/// known type of channel.
pub open spec fn spec_variant_for_kind(kind: u64) -> Option<ChannelVariant> {
    if kind == 0 || kind == 2 || kind == 5 || (10 <= kind <= 15) {
        Some(ChannelVariant::Guild)
    } else if kind == 1 {
        Some(ChannelVariant::Private)
    } else if kind == 4 {
        Some(ChannelVariant::Category)
    } else {
        None
    }
}

/// The failure to read a channel record.
#[derive(Clone, Copy, Debug, PartialEq, Eq, Structural)]
pub enum ChannelReadError {
    /// The record's type number stands for no known type of channel.
    UnknownChannelType,
}

impl Channel {
    /// Decides from the type number of a channel record as which variant the
    /// record is to be read.
    pub fn variant_for_kind(kind: u64) -> (variant: Result<ChannelVariant, ChannelReadError>)
        ensures
            variant == match spec_variant_for_kind(kind) {
                Some(v) => Ok::<ChannelVariant, ChannelReadError>(v),
                None => Err::<ChannelVariant, ChannelReadError>(
                    ChannelReadError::UnknownChannelType,
                ),
            },
    {
        match kind {
            0 | 2 | 5 | 10 | 11 | 12 | 13 | 14 | 15 => Ok(ChannelVariant::Guild),
            1 => Ok(ChannelVariant::Private),
            4 => Ok(ChannelVariant::Category),
            _ => Err(ChannelReadError::UnknownChannelType),
        }
    }
}

/// The type of a channel.
#[derive(Clone, Copy, Debug, Eq, Hash, PartialEq, Structural)]
#[non_exhaustive]
pub enum ChannelType {
    /// A text channel of a guild.
    Text,
    /// A private channel.
    Private,
    /// A voice channel of a guild.
    Voice,
    /// A category.
    Category,
    /// A news channel of a guild.
    News,
    /// A thread in a news channel.
    NewsThread,
    /// A public thread.
    PublicThread,
    /// A private thread.
    PrivateThread,
    /// A stage channel of a guild.
    Stage,
    /// A directory channel in a hub.
    Directory,
    /// A forum channel of a guild.
    Forum,
    /// A type that this library does not know, with its number.
    Unknown(u8),
}

impl ChannelType {
    /// The number that stands for the type on the wire.
    pub open spec fn spec_num(self) -> u8 {
        match self {
            ChannelType::Text => 0,
            ChannelType::Private => 1,
            ChannelType::Voice => 2,
            ChannelType::Category => 4,
            ChannelType::News => 5,
            ChannelType::NewsThread => 10,
            ChannelType::PublicThread => 11,
            ChannelType::PrivateThread => 12,
            ChannelType::Stage => 13,
            ChannelType::Directory => 14,
            ChannelType::Forum => 15,
            ChannelType::Unknown(n) => n,
        }
    }

    /// The type that a number stands for.
    pub open spec fn spec_from_num(n: u8) -> Self {
        if n == 0 {
            ChannelType::Text
        } else if n == 1 {
            ChannelType::Private
        } else if n == 2 {
            ChannelType::Voice
        } else if n == 4 {
            ChannelType::Category
        } else if n == 5 {
            ChannelType::News
        } else if n == 10 {
            ChannelType::NewsThread
        } else if n == 11 {
            ChannelType::PublicThread
        } else if n == 12 {
            ChannelType::PrivateThread
        } else if n == 13 {
            ChannelType::Stage
        } else if n == 14 {
            ChannelType::Directory
        } else if n == 15 {
            ChannelType::Forum
        } else {
            ChannelType::Unknown(n)
        }
    }

    /// The name of the type.
    pub open spec fn spec_name(self) -> Seq<char> {
        match self {
            ChannelType::Private => "private"@,
            ChannelType::Text => "text"@,
            ChannelType::Voice => "voice"@,
            ChannelType::Category => "category"@,
            ChannelType::News => "news"@,
            ChannelType::NewsThread => "news_thread"@,
            ChannelType::PublicThread => "public_thread"@,
            ChannelType::PrivateThread => "private_thread"@,
            ChannelType::Stage => "stage"@,
            ChannelType::Directory => "directory"@,
            ChannelType::Forum => "forum"@,
            ChannelType::Unknown(_) => "unknown"@,
        }
    }

    /// The number that stands for the type on the wire.
    pub fn num(self) -> (n: u8)
        ensures
            n == self.spec_num(),
    {
        match self {
            ChannelType::Text => 0,
            ChannelType::Private => 1,
            ChannelType::Voice => 2,
            ChannelType::Category => 4,
            ChannelType::News => 5,
            ChannelType::NewsThread => 10,
            ChannelType::PublicThread => 11,
            ChannelType::PrivateThread => 12,
            ChannelType::Stage => 13,
            ChannelType::Directory => 14,
            ChannelType::Forum => 15,
            ChannelType::Unknown(n) => n,
        }
    }

    /// The type that a number stands for.
    pub fn from_num(n: u8) -> (kind: Self)
        ensures
            kind == Self::spec_from_num(n),
    {
        match n {
            0 => ChannelType::Text,
            1 => ChannelType::Private,
            2 => ChannelType::Voice,
            4 => ChannelType::Category,
            5 => ChannelType::News,
            10 => ChannelType::NewsThread,
            11 => ChannelType::PublicThread,
            12 => ChannelType::PrivateThread,
            13 => ChannelType::Stage,
            14 => ChannelType::Directory,
            15 => ChannelType::Forum,
            other => ChannelType::Unknown(other),
        }
    }

    /// The name of the type.
    #[must_use]
    pub fn name(&self) -> (name: &'static str)
        ensures
            name@ == self.spec_name(),
    {
        match *self {
            ChannelType::Private => "private",
            ChannelType::Text => "text",
            ChannelType::Voice => "voice",
            ChannelType::Category => "category",
            ChannelType::News => "news",
            ChannelType::NewsThread => "news_thread",
            ChannelType::PublicThread => "public_thread",
            ChannelType::PrivateThread => "private_thread",
            ChannelType::Stage => "stage",
            ChannelType::Directory => "directory",
            ChannelType::Forum => "forum",
            ChannelType::Unknown(_) => "unknown",
        }
    }

    /// Every number stands for a type that is written as that number again.
    pub proof fn lemma_num_round_trip(n: u8)
        ensures
            Self::spec_from_num(n).spec_num() == n,
    {
    }

    /// A type is read back from its number, unless it is an unknown type
    /// that holds the number of a known one.
    pub proof fn lemma_type_round_trip(self)
        requires
            self matches ChannelType::Unknown(n) ==> Self::spec_from_num(n) is Unknown,
        ensures
            Self::spec_from_num(self.spec_num()) == self,
    {
    }
}

/// The video quality mode of a voice channel.
#[derive(Clone, Copy, Debug, Eq, Hash, PartialEq, Structural)]
#[non_exhaustive]
pub enum VideoQualityMode {
    /// The platform chooses the quality.
    Auto,
    /// 720p.
    Full,
    /// A mode that this library does not know, with its number.
    Unknown(u8),
}

impl VideoQualityMode {
    /// The number that stands for the mode on the wire.
    pub open spec fn spec_num(self) -> u8 {
        match self {
            VideoQualityMode::Auto => 1,
            VideoQualityMode::Full => 2,
            VideoQualityMode::Unknown(n) => n,
        }
    }

    /// The mode that a number stands for.
    pub open spec fn spec_from_num(n: u8) -> Self {
        if n == 1 {
            VideoQualityMode::Auto
        } else if n == 2 {
            VideoQualityMode::Full
        } else {
            VideoQualityMode::Unknown(n)
        }
    }

    /// The number that stands for the mode on the wire.
    pub fn num(self) -> (n: u8)
        ensures
            n == self.spec_num(),
    {
        match self {
            VideoQualityMode::Auto => 1,
            VideoQualityMode::Full => 2,
            VideoQualityMode::Unknown(n) => n,
        }
    }

    /// The mode that a number stands for.
    pub fn from_num(n: u8) -> (mode: Self)
        ensures
            mode == Self::spec_from_num(n),
            mode.spec_num() == n,
    {
        match n {
            1 => VideoQualityMode::Auto,
            2 => VideoQualityMode::Full,
            other => VideoQualityMode::Unknown(other),
        }
    }
}

/// A permission overwrite as it stands on the wire: the target is an
/// identifier with a type number beside it.
#[derive(Clone, Copy, Debug, PartialEq, Eq, Structural)]
pub struct PermissionOverwriteData {
    pub allow: Permissions,
    pub deny: Permissions,
    pub id: u64,
    pub kind: u8,
}

/// The type number of a permission overwrite that stands for neither a role
/// nor a member.
#[derive(Clone, Copy, Debug, PartialEq, Eq, Structural)]
pub struct InvalidPermissionOverwriteType(pub u8);

/// A channel-specific permission overwrite for a member or a role.
#[derive(Clone, Copy, Debug, Eq, PartialEq, Structural)]
pub struct PermissionOverwrite {
    pub allow: Permissions,
    pub deny: Permissions,
    pub kind: PermissionOverwriteType,
}

/// Whose permissions an overwrite changes.
#[derive(Clone, Copy, Debug, Eq, PartialEq, Structural)]
#[non_exhaustive]
pub enum PermissionOverwriteType {
    /// A member.
    Member(UserId),
    /// A role.
    Role(RoleId),
}

impl PermissionOverwrite {
    /// Reads an overwrite from its wire form: type 0 names a role, type 1 a
    /// member, and every other type is refused with its number.
    pub fn try_from_data(data: PermissionOverwriteData) -> (read: Result<
        PermissionOverwrite,
        InvalidPermissionOverwriteType,
    >)
        ensures
            match read {
                Ok(overwrite) => {
                    &&& overwrite.allow == data.allow
                    &&& overwrite.deny == data.deny
                    &&& match overwrite.kind {
                        PermissionOverwriteType::Role(id) => data.kind == 0 && id@ == data.id,
                        PermissionOverwriteType::Member(id) => data.kind == 1 && id@ == data.id,
                    }
                },
                Err(refused) => data.kind > 1 && refused == InvalidPermissionOverwriteType(
                    data.kind,
                ),
            },
    {
        let kind = match data.kind {
            0 => PermissionOverwriteType::Role(RoleId::new(data.id)),
            1 => PermissionOverwriteType::Member(UserId::new(data.id)),
            raw => {
                return Err(InvalidPermissionOverwriteType(raw));
            },
        };
        Ok(PermissionOverwrite { allow: data.allow, deny: data.deny, kind })
    }

    /// The wire form of the overwrite.
    pub fn into_data(self) -> (data: PermissionOverwriteData)
        ensures
            data.allow == self.allow,
            data.deny == self.deny,
            match self.kind {
                PermissionOverwriteType::Role(id) => data.kind == 0 && data.id == id@,
                PermissionOverwriteType::Member(id) => data.kind == 1 && data.id == id@,
            },
    {
        let (kind, id) = match self.kind {
            PermissionOverwriteType::Role(id) => (0u8, id.get()),
            PermissionOverwriteType::Member(id) => (1u8, id.get()),
        };
        PermissionOverwriteData { allow: self.allow, deny: self.deny, kind, id }
    }
}

impl InvalidPermissionOverwriteType {
    /// The message of the refusal.
    pub fn to_string(&self) -> (text: String)
        ensures
            text@ == "Invalid Permission Overwrite Type: "@ + crate::model::snowflake::decimal(
                self.0 as nat,
            ),
    {
        let mut text = String::new();
        text.append("Invalid Permission Overwrite Type: ");
        crate::model::snowflake::append_decimal(&mut text, self.0 as u64);
        assert(text@ == "Invalid Permission Overwrite Type: "@ + crate::model::snowflake::decimal(
            self.0 as nat,
        ));
        text
    }
}

/// A stage instance: a live event in a stage channel.
#[derive(Clone, Debug)]
#[non_exhaustive]
pub struct StageInstance {
    /// The identifier of the stage instance.
    pub id: StageInstanceId,
    /// The guild of the stage channel.
    pub guild_id: GuildId,
    /// The stage channel.
    pub channel_id: ChannelId,
    /// The topic of the stage instance.
    pub topic: String,
}

/// What only threads have.
#[derive(Clone, Copy, Debug)]
#[non_exhaustive]
pub struct ThreadMetadata {
    /// Whether the thread is archived.
    pub archived: bool,
    /// The minutes of inactivity after which the thread is archived.
    pub auto_archive_duration: Option<u64>,
    /// When the archive status last changed.
    pub archive_timestamp: Option<Timestamp>,
    /// Whether only moderators can unarchive the thread.
    pub locked: bool,
    /// When the thread was created.
    pub create_timestamp: Option<Timestamp>,
    /// Whether members who are not moderators can add others to a private
    /// thread.
    pub invitable: bool,
}

/// A member of a thread.
#[derive(Clone, Copy, Debug)]
pub struct ThreadMember {
    /// The thread.
    pub id: Option<ChannelId>,
    /// The user.
    pub user_id: Option<UserId>,
    /// When the user last joined the thread.
    pub join_timestamp: Timestamp,
    /// The user's settings for the thread, as a bit set.
    pub flags: u64,
}

/// An answer to a request for several threads.
#[derive(Clone, Debug)]
#[non_exhaustive]
pub struct ThreadsData {
    /// The threads.
    pub threads: Vec<GuildChannel>,
    /// For each thread that the current user has joined, their membership.
    pub members: Vec<ThreadMember>,
    /// Whether a later request could return more threads.
    pub has_more: bool,
}

/// Why a text did not lead to a channel.
#[derive(Clone, Copy, Debug, PartialEq, Eq, Structural)]
pub enum ChannelParseError {
    /// The text names a channel that the cache does not hold.
    NotPresentInCache,
    /// The text names no channel.
    InvalidChannel,
}

impl ChannelParseError {
    /// The message of the error.
    pub fn to_string(&self) -> (text: &'static str)
        ensures
            text@ == match self {
                ChannelParseError::NotPresentInCache => "not present in cache"@,
                ChannelParseError::InvalidChannel => "invalid channel"@,
            },
    {
        match self {
            ChannelParseError::NotPresentInCache => "not present in cache",
            ChannelParseError::InvalidChannel => "invalid channel",
        }
    }
}

impl Channel {
    /// The channel that a text led to: `parsed` is the identifier that the
    /// text names, if it names one, and `cached` what the cache holds under
    /// that identifier.
    pub fn from_lookup(parsed: Option<ChannelId>, cached: Option<Channel>) -> (found: Result<
        Channel,
        ChannelParseError,
    >)
        ensures
            found == match parsed {
                Some(_) => match cached {
                    Some(channel) => Ok::<Channel, ChannelParseError>(channel),
                    None => Err::<Channel, ChannelParseError>(ChannelParseError::NotPresentInCache),
                },
                None => Err::<Channel, ChannelParseError>(ChannelParseError::InvalidChannel),
            },
    {
        match parsed {
            Some(_) => match cached {
                Some(channel) => Ok(channel),
                None => Err(ChannelParseError::NotPresentInCache),
            },
            None => Err(ChannelParseError::InvalidChannel),
        }
    }
}

} // verus!
