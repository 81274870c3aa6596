//! The presence that the current user announces.

use vstd::prelude::*;
use vstd::string::StringExecFns;
use crate::model::gateway::{Activity, ActivityType, OnlineStatus};

verus! {

/// The presence of the current user.
#[derive(Debug)]
pub struct PresenceBuilder {
    pub activity: Option<ActivityBuilder>,
    pub status: OnlineStatus,
}

impl Default for PresenceBuilder {
    fn default() -> (presence: Self)
        ensures
            presence.activity is None,
            presence.status == OnlineStatus::Online,
    {
        PresenceBuilder { activity: None, status: OnlineStatus::Online }
    }
}

/// The activity of the current user.
#[derive(Debug)]
pub struct ActivityBuilder {
    name: String,
    kind: ActivityType,
    state: Option<String>,
    url: Option<url::Url>,
}

impl ActivityBuilder {
    /// The name of the activity.
    pub closed spec fn name(&self) -> Seq<char> {
        self.name@
    }

    /// The kind of activity.
    pub closed spec fn kind(&self) -> ActivityType {
        self.kind
    }

    /// The text of a custom status.
    pub closed spec fn state(&self) -> Option<String> {
        self.state
    }

    /// The address of a stream.
    pub closed spec fn url(&self) -> Option<url::Url> {
        self.url
    }

    /// An activity of `kind` under `name`.
    fn named(name: String, kind: ActivityType) -> (activity: Self)
        ensures
            activity.name() == name@,
            activity.kind() == kind,
            activity.state() is None,
            activity.url() is None,
    {
        ActivityBuilder { name, kind, state: None, url: None }
    }

    /// An activity that appears as `Playing <name>`.
    #[must_use]
    pub fn playing(name: String) -> (activity: Self)
        ensures
            activity.name() == name@,
            activity.kind() == ActivityType::Playing,
            activity.state() is None,
            activity.url() is None,
    {
        Self::named(name, ActivityType::Playing)
    }

    /// An activity that appears as `Streaming <name>`.
    pub fn streaming(name: String, url: url::Url) -> (activity: Self)
        ensures
            activity.name() == name@,
            activity.kind() == ActivityType::Streaming,
            activity.state() is None,
            activity.url() == Some(url),
    {
        ActivityBuilder { name, kind: ActivityType::Streaming, state: None, url: Some(url) }
    }

    /// An activity that appears as `Listening to <name>`.
    #[must_use]
    pub fn listening(name: String) -> (activity: Self)
        ensures
            activity.name() == name@,
            activity.kind() == ActivityType::Listening,
            activity.state() is None,
            activity.url() is None,
    {
        Self::named(name, ActivityType::Listening)
    }

    /// An activity that appears as `Watching <name>`.
    #[must_use]
    pub fn watching(name: String) -> (activity: Self)
        ensures
            activity.name() == name@,
            activity.kind() == ActivityType::Watching,
            activity.state() is None,
            activity.url() is None,
    {
        Self::named(name, ActivityType::Watching)
    }

    /// An activity that appears as `Competing in <name>`.
    #[must_use]
    pub fn competing(name: String) -> (activity: Self)
        ensures
            activity.name() == name@,
            activity.kind() == ActivityType::Competing,
            activity.state() is None,
            activity.url() is None,
    {
        Self::named(name, ActivityType::Competing)
    }

    /// An activity that appears as `<state>`. The platform wants a name for
    /// it although none is shown; it is `~`.
    #[must_use]
    pub fn custom(state: String) -> (activity: Self)
        ensures
            activity.name() == "~"@,
            activity.kind() == ActivityType::Custom,
            activity.state() == Some(state),
            activity.url() is None,
    {
        ActivityBuilder {
            name: String::from_str("~"),
            kind: ActivityType::Custom,
            state: Some(state),
            url: None,
        }
    }

    /// The activity that `activity` reports, to be announced again.
    pub fn from_activity(activity: Activity) -> (builder: Self)
        ensures
            builder.name() == activity.name@,
            builder.kind() == activity.kind,
            builder.state() == activity.state,
            builder.url() == activity.url,
    {
        ActivityBuilder {
            name: activity.name,
            kind: activity.kind,
            state: activity.state,
            url: activity.url,
        }
    }

    /// The name of the activity.
    pub fn get_name(&self) -> (name: &str)
        ensures
            name@ == self.name(),
    {
        self.name.as_str()
    }

    /// The kind of activity.
    pub fn get_kind(&self) -> (kind: ActivityType)
        ensures
            kind == self.kind(),
    {
        self.kind
    }

    /// The text of a custom status.
    pub fn get_state(&self) -> (state: &Option<String>)
        ensures
            *state == self.state(),
    {
        &self.state
    }

    /// The address of a stream.
    pub fn get_url(&self) -> (url: &Option<url::Url>)
        ensures
            *url == self.url(),
    {
        &self.url
    }
}

} // verus!
