//! Builders of collectors: the options are gathered call by call, and
//! `build` makes the filter, its channel and the collector from them.

use vstd::prelude::*;
use crate::collector::collectable::Collectable;
use crate::collector::collector::{Collector, CollectorCallback};
use crate::collector::error::Error;
use crate::collector::filter::{
    channel_numbers,
    event_constraints,
    guild_numbers,
    message_numbers,
    related_matches,
    user_numbers,
    Counters,
    Filter,
};
use crate::collector::filter_options::{
    cap_of,
    CommonFilterOptions,
    ComponentFilterOptions,
    EventFilterOptions,
    Limits,
    MessageFilterOptions,
    ModalFilterOptions,
    ReactionFilterOptions,
};
use crate::collector::predicate::{AcceptAll, FilterFn};
use crate::collector::ReactionAction;
use crate::model::application::interaction::{ComponentInteraction, ModalSubmitInteraction};
use crate::model::channel::message::Message;
use crate::model::event::{Event, EventType, RelatedIdsForEventType};
use crate::model::id::{ChannelId, GuildId, MessageId, UserId};

verus! {

/// Gathers the options of a collector of `Item`s whose custom predicate is a
/// `P`.
#[must_use]
pub struct CollectorBuilder<Item: Collectable, P> {
    common_options: CommonFilterOptions<P>,
    filter_options: Item::FilterOptions,
    timeout: Option<u64>,
}

/// The moment at which a collector built at `now` with a timeout of
/// `timeout` milliseconds ends; the clock's largest value where the sum would
/// pass it.
pub open spec fn deadline_of(timeout: Option<u64>, now: u64) -> Option<u64> {
    match timeout {
        Some(duration) => Some(
            if now + duration > u64::MAX {
                u64::MAX
            } else {
                (now + duration) as u64
            },
        ),
        None => None,
    }
}

impl<Item: Collectable> CollectorBuilder<Item, AcceptAll> {
    /// A builder with the default constraints of the kind, no caps, no
    /// custom predicate and no timeout.
    pub fn new() -> (builder: Self)
        ensures
            builder.limits() == (Limits { filter_limit: None, collect_limit: None }),
            builder.predicate() == AcceptAll,
            builder.timeout_ms() is None,
            call_ensures(<Item::FilterOptions as Default>::default, (), builder.options()),
    {
        CollectorBuilder {
            common_options: CommonFilterOptions::new(AcceptAll),
            filter_options: Default::default(),
            timeout: None,
        }
    }
}

impl<Item: Collectable, P> CollectorBuilder<Item, P> {
    /// The declarative constraints gathered so far.
    pub closed spec fn options(&self) -> Item::FilterOptions {
        self.filter_options
    }

    /// The caps and the custom predicate gathered so far.
    pub closed spec fn common(&self) -> CommonFilterOptions<P> {
        self.common_options
    }

    /// The timeout in milliseconds, if one was set.
    pub closed spec fn timeout_ms(&self) -> Option<u64> {
        self.timeout
    }

    /// The caps gathered so far.
    pub open spec fn limits(&self) -> Limits {
        self.common().limits()
    }

    /// The custom predicate.
    pub open spec fn predicate(&self) -> P {
        self.common().predicate()
    }

    /// Makes the filter with its channel. The result is the collector, for
    /// the consumer, and the callback, to be registered at the dispatch point
    /// of the shard. `now` is the reading of the millisecond clock against
    /// which the collector's deadline is set.
    pub fn build(self, now: u64) -> (made: (Collector<Item>, CollectorCallback<Item, P>))
        ensures
            made.0.deadline() == deadline_of(self.timeout_ms(), now),
            made.1.0.counters() == (Counters { filtered: 0, collected: 0 }),
            made.1.0.options() == self.options(),
            made.1.0.common() == self.common(),
    {
        let deadline = match self.timeout {
            Some(duration) => Some(now.saturating_add(duration)),
            None => None,
        };
        let (filter, receiver) = Filter::new(self.filter_options, self.common_options);
        (Collector::new(receiver, deadline), CollectorCallback(filter))
    }

    /// Sets the custom predicate: an item counts as collected only if
    /// `function` answers `true` for it. The predicate is asked last, after
    /// every declarative constraint has passed.
    pub fn filter<F: Fn(&Item::FilterItem) -> bool>(self, function: F) -> (builder:
        CollectorBuilder<Item, FilterFn<Item::FilterItem, F>>)
        requires
            forall|item: &Item::FilterItem| call_requires(function, (item,)),
        ensures
            builder.predicate().function() == function,
            builder.limits() == self.limits(),
            builder.options() == self.options(),
            builder.timeout_ms() == self.timeout_ms(),
    {
        CollectorBuilder {
            common_options: self.common_options.with_filter(FilterFn::new(function)),
            filter_options: self.filter_options,
            timeout: self.timeout,
        }
    }

    /// Caps how many items can be collected; zero lifts the cap.
    pub fn collect_limit(self, limit: u32) -> (builder: Self)
        ensures
            builder.limits() == (Limits { collect_limit: cap_of(limit), ..self.limits() }),
            builder.predicate() == self.predicate(),
            builder.options() == self.options(),
            builder.timeout_ms() == self.timeout_ms(),
    {
        CollectorBuilder {
            common_options: self.common_options.with_collect_limit(limit),
            filter_options: self.filter_options,
            timeout: self.timeout,
        }
    }

    /// Caps how many items will be examined; zero lifts the cap.
    pub fn filter_limit(self, limit: u32) -> (builder: Self)
        ensures
            builder.limits() == (Limits { filter_limit: cap_of(limit), ..self.limits() }),
            builder.predicate() == self.predicate(),
            builder.options() == self.options(),
            builder.timeout_ms() == self.timeout_ms(),
    {
        CollectorBuilder {
            common_options: self.common_options.with_filter_limit(limit),
            filter_options: self.filter_options,
            timeout: self.timeout,
        }
    }

    /// Sets for how many milliseconds the collector shall receive items.
    pub fn timeout(self, duration_ms: u64) -> (builder: Self)
        ensures
            builder.timeout_ms() == Some(duration_ms),
            builder.common() == self.common(),
            builder.options() == self.options(),
    {
        CollectorBuilder {
            common_options: self.common_options,
            filter_options: self.filter_options,
            timeout: Some(duration_ms),
        }
    }
}

/// Whether an event of one of `types` can carry a user identifier.
pub open spec fn carries_user(types: Seq<EventType>) -> bool {
    exists|i: int| 0 <= i < types.len() && (#[trigger] types[i]).spec_related_ids().user_id
}

/// Whether an event of one of `types` can carry a guild identifier.
pub open spec fn carries_guild(types: Seq<EventType>) -> bool {
    exists|i: int| 0 <= i < types.len() && (#[trigger] types[i]).spec_related_ids().guild_id
}

/// Whether an event of one of `types` can carry a channel identifier.
pub open spec fn carries_channel(types: Seq<EventType>) -> bool {
    exists|i: int| 0 <= i < types.len() && (#[trigger] types[i]).spec_related_ids().channel_id
}

/// Whether an event of one of `types` can carry a message identifier.
pub open spec fn carries_message(types: Seq<EventType>) -> bool {
    exists|i: int| 0 <= i < types.len() && (#[trigger] types[i]).spec_related_ids().message_id
}

/// Whether the identifier constraints of a raw-event filter can be met at
/// all: for each kind of identifier that is constrained, some event type on
/// the allow-list carries identifiers of that kind.
pub open spec fn id_filters_valid(options: EventFilterOptions) -> bool {
    &&& options.user_id@.len() == 0 || carries_user(options.event_types@)
    &&& options.guild_id@.len() == 0 || carries_guild(options.event_types@)
    &&& options.channel_id@.len() == 0 || carries_channel(options.event_types@)
    &&& options.message_id@.len() == 0 || carries_message(options.event_types@)
}

/// What the validation of a raw-event builder is for: a filter whose
/// identifier constraints it would refuse lets no event pass, whatever the
/// event.
pub proof fn lemma_refused_filters_never_match(options: EventFilterOptions, event: Event)
    requires
        !id_filters_valid(options),
    ensures
        !event_constraints(options, event),
{
    if event_constraints(options, event) {
        let types = options.event_types@;
        let kind = event.spec_event_type();
        let i = choose|i: int| 0 <= i < types.len() && types[i] == kind;
        event.lemma_related_ids_sound();
        if options.user_id@.len() > 0 && !carries_user(types) {
            assert(!types[i].spec_related_ids().user_id);
            assert(user_numbers(options.user_id@).len() > 0);
            assert(!related_matches(user_numbers(options.user_id@), event.spec_user_id()));
        } else if options.guild_id@.len() > 0 && !carries_guild(types) {
            assert(!types[i].spec_related_ids().guild_id);
            assert(guild_numbers(options.guild_id@).len() > 0);
            assert(!related_matches(guild_numbers(options.guild_id@), event.spec_guild_id()));
        } else if options.channel_id@.len() > 0 && !carries_channel(types) {
            assert(!types[i].spec_related_ids().channel_id);
            assert(channel_numbers(options.channel_id@).len() > 0);
            assert(!related_matches(channel_numbers(options.channel_id@), event.spec_channel_id()));
        } else {
            assert(options.message_id@.len() > 0 && !carries_message(types));
            assert(!types[i].spec_related_ids().message_id);
            assert(message_numbers(options.message_id@).len() > 0);
            assert(!related_matches(message_numbers(options.message_id@), event.spec_message_id()));
        }
    }
}

/// The kinds of identifier that events of the listed types can carry, taken
/// together.
pub fn related_ids_of(types: &Vec<EventType>) -> (related: RelatedIdsForEventType)
    ensures
        related.user_id == carries_user(types@),
        related.guild_id == carries_guild(types@),
        related.channel_id == carries_channel(types@),
        related.message_id == carries_message(types@),
{
    let mut related = RelatedIdsForEventType::default();
    let mut i: usize = 0;
    while i < types.len()
        invariant
            i <= types.len(),
            related.user_id == carries_user(types@.take(i as int)),
            related.guild_id == carries_guild(types@.take(i as int)),
            related.channel_id == carries_channel(types@.take(i as int)),
            related.message_id == carries_message(types@.take(i as int)),
        decreases types.len() - i,
    {
        let own = types[i].related_ids();
        proof {
            lemma_carries_step(types@, i as int);
        }
        related.user_id = related.user_id || own.user_id;
        related.guild_id = related.guild_id || own.guild_id;
        related.channel_id = related.channel_id || own.channel_id;
        related.message_id = related.message_id || own.message_id;
        i = i + 1;
    }
    proof {
        assert(types@.take(i as int) == types@);
    }
    related
}

/// What one more event type adds to what a list of types carries.
proof fn lemma_carries_step(types: Seq<EventType>, i: int)
    requires
        0 <= i < types.len(),
    ensures
        carries_user(types.take(i + 1)) == (carries_user(types.take(i))
            || types[i].spec_related_ids().user_id),
        carries_guild(types.take(i + 1)) == (carries_guild(types.take(i))
            || types[i].spec_related_ids().guild_id),
        carries_channel(types.take(i + 1)) == (carries_channel(types.take(i))
            || types[i].spec_related_ids().channel_id),
        carries_message(types.take(i + 1)) == (carries_message(types.take(i))
            || types[i].spec_related_ids().message_id),
{
    let shorter = types.take(i);
    let longer = types.take(i + 1);
    assert(longer[i] == types[i]);
    assert forall|j: int| 0 <= j < i implies #[trigger] longer[j] == shorter[j] by {}
    if carries_user(shorter) {
        let j = choose|j: int| 0 <= j < shorter.len() && (#[trigger] shorter[j]).spec_related_ids().user_id;
        assert(longer[j].spec_related_ids().user_id);
    }
    if carries_guild(shorter) {
        let j = choose|j: int| 0 <= j < shorter.len() && (#[trigger] shorter[j]).spec_related_ids().guild_id;
        assert(longer[j].spec_related_ids().guild_id);
    }
    if carries_channel(shorter) {
        let j = choose|j: int| 0 <= j < shorter.len() && (#[trigger] shorter[j]).spec_related_ids().channel_id;
        assert(longer[j].spec_related_ids().channel_id);
    }
    if carries_message(shorter) {
        let j = choose|j: int| 0 <= j < shorter.len() && (#[trigger] shorter[j]).spec_related_ids().message_id;
        assert(longer[j].spec_related_ids().message_id);
    }
    if carries_user(longer) {
        let j = choose|j: int| 0 <= j < longer.len() && (#[trigger] longer[j]).spec_related_ids().user_id;
        if j < i {
            assert(shorter[j].spec_related_ids().user_id);
        }
    }
    if carries_guild(longer) {
        let j = choose|j: int| 0 <= j < longer.len() && (#[trigger] longer[j]).spec_related_ids().guild_id;
        if j < i {
            assert(shorter[j].spec_related_ids().guild_id);
        }
    }
    if carries_channel(longer) {
        let j = choose|j: int| 0 <= j < longer.len() && (#[trigger] longer[j]).spec_related_ids().channel_id;
        if j < i {
            assert(shorter[j].spec_related_ids().channel_id);
        }
    }
    if carries_message(longer) {
        let j = choose|j: int| 0 <= j < longer.len() && (#[trigger] longer[j]).spec_related_ids().message_id;
        if j < i {
            assert(shorter[j].spec_related_ids().message_id);
        }
    }
}

impl<P> CollectorBuilder<Event, P> {
    /// Accepts the builder if its identifier constraints can be met by some
    /// event type on its allow-list, and rejects it otherwise.
    pub fn validate_related_ids(self) -> (checked: Result<Self, Error>)
        ensures
            id_filters_valid(self.options()) ==> checked == Ok::<Self, Error>(self),
            !id_filters_valid(self.options()) ==> checked == Err::<Self, Error>(
                Error::InvalidEventIdFilters,
            ),
    {
        let related = related_ids_of(&self.filter_options.event_types);
        if (self.filter_options.user_id.len() == 0 || related.user_id) && (
        self.filter_options.guild_id.len() == 0 || related.guild_id) && (
        self.filter_options.channel_id.len() == 0 || related.channel_id) && (
        self.filter_options.message_id.len() == 0 || related.message_id) {
            Ok(self)
        } else {
            Err(Error::InvalidEventIdFilters)
        }
    }

    /// Adds an event type to the allow-list. An event whose type is not on
    /// the list is not received.
    pub fn add_event_type(self, event_type: EventType) -> (builder: Self)
        ensures
            builder.options()@ == (EventFilterOptionsView {
                event_types: self.options()@.event_types.push(event_type),
                ..self.options()@
            }),
            builder.common() == self.common(),
            builder.timeout_ms() == self.timeout_ms(),
    {
        let mut options = self.filter_options;
        options.event_types.push(event_type);
        CollectorBuilder {
            common_options: self.common_options,
            filter_options: options,
            timeout: self.timeout,
        }
    }

    /// Adds a user of whom an event must carry one. Fails unless an event
    /// type that carries user identifiers is on the allow-list.
    pub fn add_user_id(self, user_id: UserId) -> (added: Result<Self, Error>)
        ensures
            match added {
                Ok(builder) => {
                    &&& builder.options()@ == (EventFilterOptionsView {
                        user_id: self.options()@.user_id.push(user_id),
                        ..self.options()@
                    })
                    &&& builder.common() == self.common()
                    &&& builder.timeout_ms() == self.timeout_ms()
                },
                Err(error) => error == Error::InvalidEventIdFilters,
            },
            added is Ok <==> id_filters_valid_view(
                EventFilterOptionsView {
                    user_id: self.options()@.user_id.push(user_id),
                    ..self.options()@
                },
            ),
    {
        let mut options = self.filter_options;
        options.user_id.push(user_id);
        let builder = CollectorBuilder {
            common_options: self.common_options,
            filter_options: options,
            timeout: self.timeout,
        };
        builder.validate_related_ids()
    }

    /// Adds a channel of which an event must carry one. Fails unless an
    /// event type that carries channel identifiers is on the allow-list.
    pub fn add_channel_id(self, channel_id: ChannelId) -> (added: Result<Self, Error>)
        ensures
            match added {
                Ok(builder) => {
                    &&& builder.options()@ == (EventFilterOptionsView {
                        channel_id: self.options()@.channel_id.push(channel_id),
                        ..self.options()@
                    })
                    &&& builder.common() == self.common()
                    &&& builder.timeout_ms() == self.timeout_ms()
                },
                Err(error) => error == Error::InvalidEventIdFilters,
            },
            added is Ok <==> id_filters_valid_view(
                EventFilterOptionsView {
                    channel_id: self.options()@.channel_id.push(channel_id),
                    ..self.options()@
                },
            ),
    {
        let mut options = self.filter_options;
        options.channel_id.push(channel_id);
        let builder = CollectorBuilder {
            common_options: self.common_options,
            filter_options: options,
            timeout: self.timeout,
        };
        builder.validate_related_ids()
    }

    /// Adds a guild of which an event must carry one. Fails unless an event
    /// type that carries guild identifiers is on the allow-list.
    pub fn add_guild_id(self, guild_id: GuildId) -> (added: Result<Self, Error>)
        ensures
            match added {
                Ok(builder) => {
                    &&& builder.options()@ == (EventFilterOptionsView {
                        guild_id: self.options()@.guild_id.push(guild_id),
                        ..self.options()@
                    })
                    &&& builder.common() == self.common()
                    &&& builder.timeout_ms() == self.timeout_ms()
                },
                Err(error) => error == Error::InvalidEventIdFilters,
            },
            added is Ok <==> id_filters_valid_view(
                EventFilterOptionsView {
                    guild_id: self.options()@.guild_id.push(guild_id),
                    ..self.options()@
                },
            ),
    {
        let mut options = self.filter_options;
        options.guild_id.push(guild_id);
        let builder = CollectorBuilder {
            common_options: self.common_options,
            filter_options: options,
            timeout: self.timeout,
        };
        builder.validate_related_ids()
    }

    /// Adds a message of which an event must carry one. Fails unless an
    /// event type that carries message identifiers is on the allow-list.
    pub fn add_message_id(self, message_id: MessageId) -> (added: Result<Self, Error>)
        ensures
            match added {
                Ok(builder) => {
                    &&& builder.options()@ == (EventFilterOptionsView {
                        message_id: self.options()@.message_id.push(message_id),
                        ..self.options()@
                    })
                    &&& builder.common() == self.common()
                    &&& builder.timeout_ms() == self.timeout_ms()
                },
                Err(error) => error == Error::InvalidEventIdFilters,
            },
            added is Ok <==> id_filters_valid_view(
                EventFilterOptionsView {
                    message_id: self.options()@.message_id.push(message_id),
                    ..self.options()@
                },
            ),
    {
        let mut options = self.filter_options;
        options.message_id.push(message_id);
        let builder = CollectorBuilder {
            common_options: self.common_options,
            filter_options: options,
            timeout: self.timeout,
        };
        builder.validate_related_ids()
    }
}

/// What a record of raw-event constraints holds.
pub struct EventFilterOptionsView {
    pub event_types: Seq<EventType>,
    pub channel_id: Seq<ChannelId>,
    pub guild_id: Seq<GuildId>,
    pub user_id: Seq<UserId>,
    pub message_id: Seq<MessageId>,
}

impl View for EventFilterOptions {
    type V = EventFilterOptionsView;

    open spec fn view(&self) -> EventFilterOptionsView {
        EventFilterOptionsView {
            event_types: self.event_types@,
            channel_id: self.channel_id@,
            guild_id: self.guild_id@,
            user_id: self.user_id@,
            message_id: self.message_id@,
        }
    }
}

/// [`id_filters_valid`], said of what a record holds.
pub open spec fn id_filters_valid_view(options: EventFilterOptionsView) -> bool {
    &&& options.user_id.len() == 0 || carries_user(options.event_types)
    &&& options.guild_id.len() == 0 || carries_guild(options.event_types)
    &&& options.channel_id.len() == 0 || carries_channel(options.event_types)
    &&& options.message_id.len() == 0 || carries_message(options.event_types)
}

impl<P> CollectorBuilder<ReactionAction, P> {
    /// Whether added reactions are collected; they are unless this is
    /// switched off.
    pub fn added(self, is_accepted: bool) -> (builder: Self)
        ensures
            builder.options() == (ReactionFilterOptions { accept_added: is_accepted, ..self.options() }),
            builder.common() == self.common(),
            builder.timeout_ms() == self.timeout_ms(),
    {
        CollectorBuilder {
            common_options: self.common_options,
            filter_options: ReactionFilterOptions { accept_added: is_accepted, ..self.filter_options },
            timeout: self.timeout,
        }
    }

    /// Whether removed reactions are collected; they are not unless this
    /// is switched on.
    pub fn removed(self, is_accepted: bool) -> (builder: Self)
        ensures
            builder.options() == (ReactionFilterOptions { accept_removed: is_accepted, ..self.options() }),
            builder.common() == self.common(),
            builder.timeout_ms() == self.timeout_ms(),
    {
        CollectorBuilder {
            common_options: self.common_options,
            filter_options: ReactionFilterOptions { accept_removed: is_accepted, ..self.filter_options },
            timeout: self.timeout,
        }
    }

    /// Sets the channel in which the reaction must occur.
    pub fn channel_id(self, channel_id: ChannelId) -> (builder: Self)
        ensures
            builder.options() == (ReactionFilterOptions { channel_id: Some(channel_id), ..self.options() }),
            builder.common() == self.common(),
            builder.timeout_ms() == self.timeout_ms(),
    {
        CollectorBuilder {
            common_options: self.common_options,
            filter_options: ReactionFilterOptions { channel_id: Some(channel_id), ..self.filter_options },
            timeout: self.timeout,
        }
    }

    /// Sets the guild in which the reaction must occur.
    pub fn guild_id(self, guild_id: GuildId) -> (builder: Self)
        ensures
            builder.options() == (ReactionFilterOptions { guild_id: Some(guild_id), ..self.options() }),
            builder.common() == self.common(),
            builder.timeout_ms() == self.timeout_ms(),
    {
        CollectorBuilder {
            common_options: self.common_options,
            filter_options: ReactionFilterOptions { guild_id: Some(guild_id), ..self.filter_options },
            timeout: self.timeout,
        }
    }

    /// Sets the message on which the reaction must occur.
    pub fn message_id(self, message_id: MessageId) -> (builder: Self)
        ensures
            builder.options() == (ReactionFilterOptions { message_id: Some(message_id), ..self.options() }),
            builder.common() == self.common(),
            builder.timeout_ms() == self.timeout_ms(),
    {
        CollectorBuilder {
            common_options: self.common_options,
            filter_options: ReactionFilterOptions { message_id: Some(message_id), ..self.filter_options },
            timeout: self.timeout,
        }
    }

    /// Sets the user who must have reacted.
    pub fn author_id(self, author_id: UserId) -> (builder: Self)
        ensures
            builder.options() == (ReactionFilterOptions { author_id: Some(author_id), ..self.options() }),
            builder.common() == self.common(),
            builder.timeout_ms() == self.timeout_ms(),
    {
        CollectorBuilder {
            common_options: self.common_options,
            filter_options: ReactionFilterOptions { author_id: Some(author_id), ..self.filter_options },
            timeout: self.timeout,
        }
    }
}

impl<P> CollectorBuilder<ComponentInteraction, P> {
    /// Sets the channel in which the interaction must occur.
    pub fn channel_id(self, channel_id: ChannelId) -> (builder: Self)
        ensures
            builder.options() == (ComponentFilterOptions { channel_id: Some(channel_id), ..self.options() }),
            builder.common() == self.common(),
            builder.timeout_ms() == self.timeout_ms(),
    {
        CollectorBuilder {
            common_options: self.common_options,
            filter_options: ComponentFilterOptions { channel_id: Some(channel_id), ..self.filter_options },
            timeout: self.timeout,
        }
    }

    /// Sets the guild in which the interaction must occur.
    pub fn guild_id(self, guild_id: GuildId) -> (builder: Self)
        ensures
            builder.options() == (ComponentFilterOptions { guild_id: Some(guild_id), ..self.options() }),
            builder.common() == self.common(),
            builder.timeout_ms() == self.timeout_ms(),
    {
        CollectorBuilder {
            common_options: self.common_options,
            filter_options: ComponentFilterOptions { guild_id: Some(guild_id), ..self.filter_options },
            timeout: self.timeout,
        }
    }

    /// Sets the message under which the component must hang.
    pub fn message_id(self, message_id: MessageId) -> (builder: Self)
        ensures
            builder.options() == (ComponentFilterOptions { message_id: Some(message_id), ..self.options() }),
            builder.common() == self.common(),
            builder.timeout_ms() == self.timeout_ms(),
    {
        CollectorBuilder {
            common_options: self.common_options,
            filter_options: ComponentFilterOptions { message_id: Some(message_id), ..self.filter_options },
            timeout: self.timeout,
        }
    }

    /// Sets the custom identifiers of which the component must have one.
    pub fn custom_ids(self, custom_ids: Vec<String>) -> (builder: Self)
        ensures
            builder.options() == (ComponentFilterOptions { custom_ids: Some(custom_ids), ..self.options() }),
            builder.common() == self.common(),
            builder.timeout_ms() == self.timeout_ms(),
    {
        CollectorBuilder {
            common_options: self.common_options,
            filter_options: ComponentFilterOptions { custom_ids: Some(custom_ids), ..self.filter_options },
            timeout: self.timeout,
        }
    }

    /// Sets the user who must have triggered the interaction.
    pub fn author_id(self, author_id: UserId) -> (builder: Self)
        ensures
            builder.options() == (ComponentFilterOptions { author_id: Some(author_id), ..self.options() }),
            builder.common() == self.common(),
            builder.timeout_ms() == self.timeout_ms(),
    {
        CollectorBuilder {
            common_options: self.common_options,
            filter_options: ComponentFilterOptions { author_id: Some(author_id), ..self.filter_options },
            timeout: self.timeout,
        }
    }
}

impl<P> CollectorBuilder<ModalSubmitInteraction, P> {
    /// Sets the channel in which the interaction must occur.
    pub fn channel_id(self, channel_id: ChannelId) -> (builder: Self)
        ensures
            builder.options() == (ModalFilterOptions { channel_id: Some(channel_id), ..self.options() }),
            builder.common() == self.common(),
            builder.timeout_ms() == self.timeout_ms(),
    {
        CollectorBuilder {
            common_options: self.common_options,
            filter_options: ModalFilterOptions { channel_id: Some(channel_id), ..self.filter_options },
            timeout: self.timeout,
        }
    }

    /// Sets the guild in which the interaction must occur.
    pub fn guild_id(self, guild_id: GuildId) -> (builder: Self)
        ensures
            builder.options() == (ModalFilterOptions { guild_id: Some(guild_id), ..self.options() }),
            builder.common() == self.common(),
            builder.timeout_ms() == self.timeout_ms(),
    {
        CollectorBuilder {
            common_options: self.common_options,
            filter_options: ModalFilterOptions { guild_id: Some(guild_id), ..self.filter_options },
            timeout: self.timeout,
        }
    }

    /// Sets the message whose component must have opened the modal.
    pub fn message_id(self, message_id: MessageId) -> (builder: Self)
        ensures
            builder.options() == (ModalFilterOptions { message_id: Some(message_id), ..self.options() }),
            builder.common() == self.common(),
            builder.timeout_ms() == self.timeout_ms(),
    {
        CollectorBuilder {
            common_options: self.common_options,
            filter_options: ModalFilterOptions { message_id: Some(message_id), ..self.filter_options },
            timeout: self.timeout,
        }
    }

    /// Sets the custom identifiers of which the modal must have one.
    pub fn custom_ids(self, custom_ids: Vec<String>) -> (builder: Self)
        ensures
            builder.options() == (ModalFilterOptions { custom_ids: Some(custom_ids), ..self.options() }),
            builder.common() == self.common(),
            builder.timeout_ms() == self.timeout_ms(),
    {
        CollectorBuilder {
            common_options: self.common_options,
            filter_options: ModalFilterOptions { custom_ids: Some(custom_ids), ..self.filter_options },
            timeout: self.timeout,
        }
    }

    /// Sets the user who must have submitted the modal.
    pub fn author_id(self, author_id: UserId) -> (builder: Self)
        ensures
            builder.options() == (ModalFilterOptions { author_id: Some(author_id), ..self.options() }),
            builder.common() == self.common(),
            builder.timeout_ms() == self.timeout_ms(),
    {
        CollectorBuilder {
            common_options: self.common_options,
            filter_options: ModalFilterOptions { author_id: Some(author_id), ..self.filter_options },
            timeout: self.timeout,
        }
    }
}

impl<P> CollectorBuilder<Message, P> {
    /// Sets the channel to which the message must be posted.
    pub fn channel_id(self, channel_id: ChannelId) -> (builder: Self)
        ensures
            builder.options() == (MessageFilterOptions { channel_id: Some(channel_id), ..self.options() }),
            builder.common() == self.common(),
            builder.timeout_ms() == self.timeout_ms(),
    {
        CollectorBuilder {
            common_options: self.common_options,
            filter_options: MessageFilterOptions { channel_id: Some(channel_id), ..self.filter_options },
            timeout: self.timeout,
        }
    }

    /// Sets the user who must have posted the message.
    pub fn author_id(self, author_id: UserId) -> (builder: Self)
        ensures
            builder.options() == (MessageFilterOptions { author_id: Some(author_id), ..self.options() }),
            builder.common() == self.common(),
            builder.timeout_ms() == self.timeout_ms(),
    {
        CollectorBuilder {
            common_options: self.common_options,
            filter_options: MessageFilterOptions { author_id: Some(author_id), ..self.filter_options },
            timeout: self.timeout,
        }
    }

    /// Sets the guild in which the message must be posted.
    pub fn guild_id(self, guild_id: GuildId) -> (builder: Self)
        ensures
            builder.options() == (MessageFilterOptions { guild_id: Some(guild_id), ..self.options() }),
            builder.common() == self.common(),
            builder.timeout_ms() == self.timeout_ms(),
    {
        CollectorBuilder {
            common_options: self.common_options,
            filter_options: MessageFilterOptions { guild_id: Some(guild_id), ..self.filter_options },
            timeout: self.timeout,
        }
    }
}

} // verus!
