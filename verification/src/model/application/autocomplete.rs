//! The interaction that arrives while a user fills in an option of a
//! command.

use vstd::prelude::*;
use crate::model::guild::Member;
use crate::model::id::{ApplicationId, ChannelId, CommandId, GuildId, InteractionId};
use crate::model::user::User;

verus! {

/// The command that an interaction belongs to.
#[derive(Debug)]
pub struct CommandData {
    /// The identifier of the command.
    pub id: CommandId,
    /// The name of the command.
    pub name: String,
}

/// An interaction received while the user fills in an option.
#[derive(Debug)]
#[non_exhaustive]
pub struct AutocompleteInteraction {
    /// The identifier of the interaction.
    pub id: InteractionId,
    /// The application the interaction is for.
    pub application_id: ApplicationId,
    /// The command and what was typed so far.
    pub data: CommandData,
    /// The guild the interaction came from, if any.
    pub guild_id: Option<GuildId>,
    /// The channel the interaction came from.
    pub channel_id: ChannelId,
    /// The invoking user as a member; present only in a guild.
    pub member: Option<Member>,
    /// The invoking user.
    pub user: User,
    /// The token by which the interaction is answered.
    pub token: String,
    /// Always `1`.
    pub version: u8,
    /// The language of the invoking user.
    pub locale: String,
    /// The preferred language of the guild.
    pub guild_locale: Option<String>,
}

/// Why an interaction could not be read.
#[derive(Clone, Copy, Debug, PartialEq, Eq, Structural)]
pub enum InteractionReadError {
    /// The record names neither a user nor a member.
    ExpectedUserOrMember,
}

impl AutocompleteInteraction {
    /// The invoking user of an interaction record: the user that the record
    /// names, else the user of the member that it names; a record that names
    /// neither is refused.
    pub fn resolve_user(user: Option<User>, member: &Option<Member>) -> (resolved: Result<
        User,
        InteractionReadError,
    >)
        ensures
            resolved == match user {
                Some(user) => Ok::<User, InteractionReadError>(user),
                None => match member {
                    Some(member) => Ok::<User, InteractionReadError>(member.user),
                    None => Err::<User, InteractionReadError>(
                        InteractionReadError::ExpectedUserOrMember,
                    ),
                },
            },
    {
        match user {
            Some(user) => Ok(user),
            None => match member {
                Some(member) => Ok(member.user.clone()),
                None => Err(InteractionReadError::ExpectedUserOrMember),
            },
        }
    }
}

} // verus!
