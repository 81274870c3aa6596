//! The declarative constraints of a filter: one record per collectable kind,
//! and the options that all kinds share.

use vstd::prelude::*;
use crate::model::event::EventType;
use crate::model::id::{ChannelId, GuildId, MessageId, UserId};

verus! {

/// The caps of a filter: how many items it may examine, and how many it may
/// accept. An absent cap does not bound; a cap that is present is positive.
#[derive(Clone, Copy, Debug, PartialEq, Eq, Structural)]
pub struct Limits {
    pub filter_limit: Option<u32>,
    pub collect_limit: Option<u32>,
}

impl Limits {
    /// Every cap that is present is positive.
    pub open spec fn wf(self) -> bool {
        &&& self.filter_limit matches Some(cap) ==> cap > 0
        &&& self.collect_limit matches Some(cap) ==> cap > 0
    }

    /// Whether counters that stand at `filtered` and `collected` are still
    /// strictly below every cap.
    pub open spec fn admits(self, filtered: u32, collected: u32) -> bool {
        &&& self.filter_limit matches Some(cap) ==> filtered < cap
        &&& self.collect_limit matches Some(cap) ==> collected < cap
    }
}

/// The cap that a caller's number stands for: zero asks for no cap.
pub open spec fn cap_of(limit: u32) -> Option<u32> {
    if limit == 0 {
        None
    } else {
        Some(limit)
    }
}

/// The options that filters of every kind share: the two caps and the
/// custom predicate.
#[derive(Debug)]
pub struct CommonFilterOptions<P> {
    pub(crate) filter_limit: Option<u32>,
    pub(crate) collect_limit: Option<u32>,
    pub(crate) filter: P,
}

impl<P> CommonFilterOptions<P> {
    /// Every cap that is present is positive.
    #[verifier::type_invariant]
    spec fn caps_are_positive(&self) -> bool {
        &&& self.filter_limit matches Some(cap) ==> cap > 0
        &&& self.collect_limit matches Some(cap) ==> cap > 0
    }

    /// The two caps; each that is present is positive.
    pub fn get_limits(&self) -> (limits: Limits)
        ensures
            limits == self.limits(),
            limits.wf(),
    {
        proof {
            use_type_invariant(self);
        }
        Limits { filter_limit: self.filter_limit, collect_limit: self.collect_limit }
    }

    /// The two caps.
    pub closed spec fn limits(&self) -> Limits {
        Limits { filter_limit: self.filter_limit, collect_limit: self.collect_limit }
    }

    /// The custom predicate.
    pub closed spec fn predicate(&self) -> P {
        self.filter
    }

    /// No caps, and `filter` as the predicate.
    pub fn new(filter: P) -> (options: Self)
        ensures
            options.limits() == (Limits { filter_limit: None, collect_limit: None }),
            options.predicate() == filter,
    {
        CommonFilterOptions { filter_limit: None, collect_limit: None, filter }
    }

    /// The same caps with `filter` as the predicate.
    pub fn with_filter<Q>(self, filter: Q) -> (options: CommonFilterOptions<Q>)
        ensures
            options.limits() == self.limits(),
            options.predicate() == filter,
    {
        proof {
            use_type_invariant(&self);
        }
        CommonFilterOptions {
            filter_limit: self.filter_limit,
            collect_limit: self.collect_limit,
            filter,
        }
    }

    /// The same options with the cap on examined items that `limit` stands
    /// for: none for zero.
    pub fn with_filter_limit(self, limit: u32) -> (options: Self)
        ensures
            options.limits() == (Limits { filter_limit: cap_of(limit), ..self.limits() }),
            options.predicate() == self.predicate(),
    {
        proof {
            use_type_invariant(&self);
        }
        CommonFilterOptions {
            filter_limit: if limit == 0 {
                None
            } else {
                Some(limit)
            },
            collect_limit: self.collect_limit,
            filter: self.filter,
        }
    }

    /// The same options with the cap on accepted items that `limit` stands
    /// for: none for zero.
    pub fn with_collect_limit(self, limit: u32) -> (options: Self)
        ensures
            options.limits() == (Limits { collect_limit: cap_of(limit), ..self.limits() }),
            options.predicate() == self.predicate(),
    {
        proof {
            use_type_invariant(&self);
        }
        CommonFilterOptions {
            filter_limit: self.filter_limit,
            collect_limit: if limit == 0 {
                None
            } else {
                Some(limit)
            },
            filter: self.filter,
        }
    }

    /// The custom predicate.
    pub fn filter(&self) -> (predicate: &P)
        ensures
            *predicate == self.predicate(),
    {
        &self.filter
    }

    /// The cap on examined items, if there is one.
    pub fn filter_limit(&self) -> (cap: Option<u32>)
        ensures
            cap == self.limits().filter_limit,
    {
        self.filter_limit
    }

    /// The cap on accepted items, if there is one.
    pub fn collect_limit(&self) -> (cap: Option<u32>)
        ensures
            cap == self.limits().collect_limit,
    {
        self.collect_limit
    }

    /// Whether counters that stand at `filtered` and `collected` are still
    /// strictly below every cap.
    pub fn is_within_limits(&self, filtered: u32, collected: u32) -> (within: bool)
        ensures
            within == self.limits().admits(filtered, collected),
    {
        let examined_ok = match self.filter_limit {
            Some(cap) => filtered < cap,
            None => true,
        };
        let accepted_ok = match self.collect_limit {
            Some(cap) => collected < cap,
            None => true,
        };
        examined_ok && accepted_ok
    }
}

/// Constraints on component interactions.
#[derive(Debug)]
pub struct ComponentFilterOptions {
    pub channel_id: Option<ChannelId>,
    pub guild_id: Option<GuildId>,
    pub author_id: Option<UserId>,
    pub message_id: Option<MessageId>,
    pub custom_ids: Option<Vec<String>>,
}

impl Default for ComponentFilterOptions {
    fn default() -> (options: Self)
        ensures
            options == (ComponentFilterOptions {
                channel_id: None,
                guild_id: None,
                author_id: None,
                message_id: None,
                custom_ids: None,
            }),
    {
        ComponentFilterOptions {
            channel_id: None,
            guild_id: None,
            author_id: None,
            message_id: None,
            custom_ids: None,
        }
    }
}

/// Constraints on chat messages.
#[derive(Clone, Copy, Debug)]
pub struct MessageFilterOptions {
    pub channel_id: Option<ChannelId>,
    pub guild_id: Option<GuildId>,
    pub author_id: Option<UserId>,
}

impl Default for MessageFilterOptions {
    fn default() -> (options: Self)
        ensures
            options == (MessageFilterOptions { channel_id: None, guild_id: None, author_id: None }),
    {
        MessageFilterOptions { channel_id: None, guild_id: None, author_id: None }
    }
}

/// Constraints on modal submissions.
#[derive(Debug)]
pub struct ModalFilterOptions {
    pub channel_id: Option<ChannelId>,
    pub guild_id: Option<GuildId>,
    pub author_id: Option<UserId>,
    pub message_id: Option<MessageId>,
    pub custom_ids: Option<Vec<String>>,
}

impl Default for ModalFilterOptions {
    fn default() -> (options: Self)
        ensures
            options == (ModalFilterOptions {
                channel_id: None,
                guild_id: None,
                author_id: None,
                message_id: None,
                custom_ids: None,
            }),
    {
        ModalFilterOptions {
            channel_id: None,
            guild_id: None,
            author_id: None,
            message_id: None,
            custom_ids: None,
        }
    }
}

/// Constraints on raw events: the allow-list of event types, and for each
/// kind of identifier the identifiers of which an event must carry one.
#[derive(Debug)]
pub struct EventFilterOptions {
    pub event_types: Vec<EventType>,
    pub channel_id: Vec<ChannelId>,
    pub guild_id: Vec<GuildId>,
    pub user_id: Vec<UserId>,
    pub message_id: Vec<MessageId>,
}

impl Default for EventFilterOptions {
    fn default() -> (options: Self)
        ensures
            options.event_types@ == Seq::<EventType>::empty(),
            options.channel_id@ == Seq::<ChannelId>::empty(),
            options.guild_id@ == Seq::<GuildId>::empty(),
            options.user_id@ == Seq::<UserId>::empty(),
            options.message_id@ == Seq::<MessageId>::empty(),
    {
        EventFilterOptions {
            event_types: Vec::new(),
            channel_id: Vec::new(),
            guild_id: Vec::new(),
            user_id: Vec::new(),
            message_id: Vec::new(),
        }
    }
}

/// Constraints on reaction changes. Additions are accepted unless switched
/// off; removals are accepted only when switched on.
#[derive(Clone, Copy, Debug)]
pub struct ReactionFilterOptions {
    pub channel_id: Option<ChannelId>,
    pub guild_id: Option<GuildId>,
    pub author_id: Option<UserId>,
    pub message_id: Option<MessageId>,
    pub accept_added: bool,
    pub accept_removed: bool,
}

impl Default for ReactionFilterOptions {
    fn default() -> (options: Self)
        ensures
            options == (ReactionFilterOptions {
                channel_id: None,
                guild_id: None,
                author_id: None,
                message_id: None,
                accept_added: true,
                accept_removed: false,
            }),
    {
        ReactionFilterOptions {
            channel_id: None,
            guild_id: None,
            author_id: None,
            message_id: None,
            accept_added: true,
            accept_removed: false,
        }
    }
}

} // verus!
