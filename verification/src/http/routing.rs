//! The addresses of the platform's resources and the buckets by which
//! requests to them are rate-limited together.

use vstd::prelude::*;
use vstd::string::StringExecFns;
use crate::model::id::{ChannelId, GenericId, MessageId, TargetId};
use crate::model::snowflake::{append_decimal, decimal};

verus! {

/// Which resource a route leads to, without its parameters.
#[derive(Clone, Copy, Debug, PartialEq, Eq, Hash, Structural)]
pub enum RouteKind {
    Channel,
    ChannelMessage,
    ChannelMessages,
    ChannelMessagesBulkDelete,
    ChannelPermission,
    StageInstances,
    StageInstance,
}

/// Groups requests that are rate-limited together.
#[derive(Clone, Copy, Debug, Eq, Hash, PartialEq)]
pub struct RatelimitingBucket(pub Option<(RouteKind, Option<GenericId>)>);

impl RatelimitingBucket {
    /// Whether requests of this bucket are not rate-limited at all.
    #[must_use]
    pub fn is_none(&self) -> (none: bool)
        ensures
            none == (self.0 is None),
    {
        self.0.is_none()
    }
}

/// How a route is rate-limited.
#[derive(Clone, Copy, Debug, PartialEq, Eq, Structural)]
pub enum RatelimitingKind {
    /// Together with the requests of the same path and the same major
    /// parameter.
    PathAndId(GenericId),
    /// Together with the requests of the same path.
    Path,
}

/// A resource of the platform with its parameters.
#[derive(Clone, Copy, Debug)]
pub enum Route {
    Channel { channel_id: ChannelId },
    ChannelMessage { channel_id: ChannelId, message_id: MessageId },
    ChannelMessages { channel_id: ChannelId },
    ChannelMessagesBulkDelete { channel_id: ChannelId },
    ChannelPermission { channel_id: ChannelId, target_id: TargetId },
    StageInstances,
    StageInstance { channel_id: ChannelId },
}

impl Route {
    /// Which resource the route leads to.
    pub open spec fn spec_kind(&self) -> RouteKind {
        match self {
            Route::Channel { .. } => RouteKind::Channel,
            Route::ChannelMessage { .. } => RouteKind::ChannelMessage,
            Route::ChannelMessages { .. } => RouteKind::ChannelMessages,
            Route::ChannelMessagesBulkDelete { .. } => RouteKind::ChannelMessagesBulkDelete,
            Route::ChannelPermission { .. } => RouteKind::ChannelPermission,
            Route::StageInstances => RouteKind::StageInstances,
            Route::StageInstance { .. } => RouteKind::StageInstance,
        }
    }

    /// The major parameter by which the route is rate-limited, if it is
    /// rate-limited by one: the channel of a channel route. Stage instances
    /// are rate-limited by their path alone.
    pub open spec fn spec_major(&self) -> Option<u64> {
        match self {
            Route::Channel { channel_id } => Some(channel_id@),
            Route::ChannelMessage { channel_id, .. } => Some(channel_id@),
            Route::ChannelMessages { channel_id } => Some(channel_id@),
            Route::ChannelMessagesBulkDelete { channel_id } => Some(channel_id@),
            Route::ChannelPermission { channel_id, .. } => Some(channel_id@),
            Route::StageInstances => None,
            Route::StageInstance { .. } => None,
        }
    }

    /// The address of the resource.
    pub open spec fn spec_path(&self) -> Seq<char> {
        let base = "https://discord.com/api/v10"@;
        match self {
            Route::Channel { channel_id } => base + "/channels/"@ + decimal(channel_id@ as nat),
            Route::ChannelMessage { channel_id, message_id } => base + "/channels/"@ + decimal(
                channel_id@ as nat,
            ) + "/messages/"@ + decimal(message_id@ as nat),
            Route::ChannelMessages { channel_id } => base + "/channels/"@ + decimal(
                channel_id@ as nat,
            ) + "/messages"@,
            Route::ChannelMessagesBulkDelete { channel_id } => base + "/channels/"@ + decimal(
                channel_id@ as nat,
            ) + "/messages/bulk-delete"@,
            Route::ChannelPermission { channel_id, target_id } => base + "/channels/"@ + decimal(
                channel_id@ as nat,
            ) + "/permissions/"@ + decimal(target_id@ as nat),
            Route::StageInstances => base + "/stage-instances"@,
            Route::StageInstance { channel_id } => base + "/stage-instances/"@ + decimal(
                channel_id@ as nat,
            ),
        }
    }

    /// The address of the resource.
    #[must_use]
    pub fn path(&self) -> (path: String)
        ensures
            path@ == self.spec_path(),
    {
        let mut path = String::from_str("https://discord.com/api/v10");
        match self {
            Route::Channel { channel_id } => {
                path.append("/channels/");
                append_decimal(&mut path, channel_id.get());
            },
            Route::ChannelMessage { channel_id, message_id } => {
                path.append("/channels/");
                append_decimal(&mut path, channel_id.get());
                path.append("/messages/");
                append_decimal(&mut path, message_id.get());
            },
            Route::ChannelMessages { channel_id } => {
                path.append("/channels/");
                append_decimal(&mut path, channel_id.get());
                path.append("/messages");
            },
            Route::ChannelMessagesBulkDelete { channel_id } => {
                path.append("/channels/");
                append_decimal(&mut path, channel_id.get());
                path.append("/messages/bulk-delete");
            },
            Route::ChannelPermission { channel_id, target_id } => {
                path.append("/channels/");
                append_decimal(&mut path, channel_id.get());
                path.append("/permissions/");
                append_decimal(&mut path, target_id.get());
            },
            Route::StageInstances => {
                path.append("/stage-instances");
            },
            Route::StageInstance { channel_id } => {
                path.append("/stage-instances/");
                append_decimal(&mut path, channel_id.get());
            },
        }
        assert(path@ =~= self.spec_path());
        path
    }

    /// How the route is rate-limited.
    pub fn ratelimiting_kind(&self) -> (kind: RatelimitingKind)
        ensures
            match kind {
                RatelimitingKind::PathAndId(id) => self.spec_major() == Some(id@),
                RatelimitingKind::Path => self.spec_major() is None,
            },
    {
        match self {
            Route::Channel { channel_id } => RatelimitingKind::PathAndId(
                GenericId::new(channel_id.get()),
            ),
            Route::ChannelMessage { channel_id, .. } => RatelimitingKind::PathAndId(
                GenericId::new(channel_id.get()),
            ),
            Route::ChannelMessages { channel_id } => RatelimitingKind::PathAndId(
                GenericId::new(channel_id.get()),
            ),
            Route::ChannelMessagesBulkDelete { channel_id } => RatelimitingKind::PathAndId(
                GenericId::new(channel_id.get()),
            ),
            Route::ChannelPermission { channel_id, .. } => RatelimitingKind::PathAndId(
                GenericId::new(channel_id.get()),
            ),
            Route::StageInstances => RatelimitingKind::Path,
            Route::StageInstance { .. } => RatelimitingKind::Path,
        }
    }

    /// Which resource the route leads to.
    pub fn kind(&self) -> (kind: RouteKind)
        ensures
            kind == self.spec_kind(),
    {
        match self {
            Route::Channel { .. } => RouteKind::Channel,
            Route::ChannelMessage { .. } => RouteKind::ChannelMessage,
            Route::ChannelMessages { .. } => RouteKind::ChannelMessages,
            Route::ChannelMessagesBulkDelete { .. } => RouteKind::ChannelMessagesBulkDelete,
            Route::ChannelPermission { .. } => RouteKind::ChannelPermission,
            Route::StageInstances => RouteKind::StageInstances,
            Route::StageInstance { .. } => RouteKind::StageInstance,
        }
    }

    /// The bucket of the route: its resource, and its major parameter where
    /// it is rate-limited by one. Every route has a bucket.
    #[must_use]
    pub fn ratelimiting_bucket(&self) -> (bucket: RatelimitingBucket)
        ensures
            bucket.0 matches Some((kind, id)) && kind == self.spec_kind() && match id {
                Some(id) => self.spec_major() == Some(id@),
                None => self.spec_major() is None,
            },
    {
        let id = match self.ratelimiting_kind() {
            RatelimitingKind::PathAndId(id) => Some(id),
            RatelimitingKind::Path => None,
        };
        RatelimitingBucket(Some((self.kind(), id)))
    }
}

} // verus!
