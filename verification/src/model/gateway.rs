//! What the gateway is told and tells about sessions: intents, presences
//! and activities.

use vstd::prelude::*;

verus! {

/// An absolute address as the `url` crate holds it; opaque.
#[verifier::external_type_specification]
#[verifier::external_body]
pub struct ExUrl(url::Url);

/// The kinds of event that a session subscribes to, one bit each.
#[derive(Clone, Copy, Debug, PartialEq, Eq, Hash, Structural)]
pub struct GatewayIntents {
    pub bits: u64,
}

/// What a user is shown as doing.
#[derive(Clone, Copy, Debug, PartialEq, Eq, Hash, Structural)]
pub enum ActivityType {
    Playing,
    Streaming,
    Listening,
    Watching,
    Custom,
    Competing,
}

/// Whether and how a user is shown as present.
#[derive(Clone, Copy, Debug, PartialEq, Eq, Hash, Structural)]
pub enum OnlineStatus {
    DoNotDisturb,
    Idle,
    Invisible,
    Offline,
    Online,
}

impl Default for OnlineStatus {
    fn default() -> (status: Self)
        ensures
            status == OnlineStatus::Online,
    {
        OnlineStatus::Online
    }
}

/// An activity of a user, as the gateway reports it.
#[derive(Debug)]
pub struct Activity {
    /// The name of the activity.
    pub name: String,
    /// The kind of activity.
    pub kind: ActivityType,
    /// The text of a custom status.
    pub state: Option<String>,
    /// The address of a stream.
    pub url: Option<url::Url>,
}

} // verus!
