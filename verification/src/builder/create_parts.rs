//! The parts of a message that builders put together.

use vstd::prelude::*;
use crate::model::id::{RoleId, UserId};

verus! {

/// Who may be notified by the mentions of a message.
#[derive(Debug)]
pub struct CreateAllowedMentions {
    /// Whether `@everyone` and `@here` notify.
    pub everyone: bool,
    /// The users that may be notified.
    pub users: Vec<UserId>,
    /// The roles that may be notified.
    pub roles: Vec<RoleId>,
    /// Whether the author of the message replied to is notified.
    pub replied_user: bool,
}

impl Default for CreateAllowedMentions {
    fn default() -> (mentions: Self)
        ensures
            !mentions.everyone,
            mentions.users@.len() == 0,
            mentions.roles@.len() == 0,
            !mentions.replied_user,
    {
        CreateAllowedMentions {
            everyone: false,
            users: Vec::new(),
            roles: Vec::new(),
            replied_user: false,
        }
    }
}

/// The rows of components under a message; each row holds the custom
/// identifiers of its components.
#[derive(Debug)]
pub struct CreateComponents {
    pub rows: Vec<Vec<String>>,
}

impl Default for CreateComponents {
    fn default() -> (components: Self)
        ensures
            components.rows@.len() == 0,
    {
        CreateComponents { rows: Vec::new() }
    }
}

/// An embed of a message.
#[derive(Debug)]
pub struct CreateEmbed {
    pub title: Option<String>,
    pub description: Option<String>,
    pub colour: Option<u32>,
}

impl Default for CreateEmbed {
    fn default() -> (embed: Self)
        ensures
            embed.title is None,
            embed.description is None,
            embed.colour is None,
    {
        CreateEmbed { title: None, description: None, colour: None }
    }
}

/// The flags of a message, one bit each.
#[derive(Clone, Copy, Debug, PartialEq, Eq, Structural)]
pub struct MessageFlags {
    pub bits: u64,
}

/// The bit that keeps embeds from being shown.
pub const SUPPRESS_EMBEDS: u64 = 4;

impl MessageFlags {
    /// No flag.
    pub fn empty() -> (flags: Self)
        ensures
            flags.bits == 0,
    {
        MessageFlags { bits: 0 }
    }
}

} // verus!
