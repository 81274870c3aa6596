//! Members of guilds.

use vstd::prelude::*;
use crate::model::user::{clone_text, User};

verus! {

/// A user as a member of a guild.
#[derive(Debug)]
pub struct Member {
    /// The user.
    pub user: User,
    /// The name that the user goes by in the guild.
    pub nick: Option<String>,
}

impl Clone for Member {
    fn clone(&self) -> (copy: Self)
        ensures
            copy == *self,
    {
        Member { user: self.user.clone(), nick: clone_text(&self.nick) }
    }
}

} // verus!
