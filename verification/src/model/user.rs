//! Users, as far as events and channels carry them.

use vstd::prelude::*;
use crate::model::id::UserId;

verus! {

/// The public flags of a user's account, as a bit set.
#[derive(Clone, Copy, Debug, PartialEq, Eq, Structural)]
pub struct UserPublicFlags {
    pub bits: u32,
}

/// A colour, as `0xRRGGBB`.
#[derive(Clone, Copy, Debug, PartialEq, Eq, Structural)]
pub struct Colour(pub u32);

/// A user of the platform.
#[derive(Debug)]
pub struct User {
    /// The user's unique identifier.
    pub id: UserId,
    /// The hash of the user's avatar, if they have one.
    pub avatar: Option<String>,
    /// Whether the user is an automated account.
    pub bot: bool,
    /// The four-digit tag that tells users of one name apart.
    pub discriminator: u16,
    /// The user's name; not unique.
    pub name: String,
    /// The public flags of the account.
    pub public_flags: Option<UserPublicFlags>,
    /// The hash of the user's banner, if they have one.
    pub banner: Option<String>,
    /// The colour of the user's banner, if they chose one.
    pub accent_colour: Option<Colour>,
}

/// A copy of an optional text.
pub fn clone_text(text: &Option<String>) -> (copy: Option<String>)
    ensures
        copy == *text,
{
    match text {
        Some(text) => Some(text.clone()),
        None => None,
    }
}

impl Clone for User {
    fn clone(&self) -> (copy: Self)
        ensures
            copy == *self,
    {
        User {
            id: self.id,
            avatar: clone_text(&self.avatar),
            bot: self.bot,
            discriminator: self.discriminator,
            name: self.name.clone(),
            public_flags: self.public_flags,
            banner: clone_text(&self.banner),
            accent_colour: self.accent_colour,
        }
    }
}

} // verus!
