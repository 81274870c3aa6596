use std::sync::Arc;

use serenity::collector::channel::Reception;
use serenity::collector::filter::Outcome;
use serenity::collector::{
    Collectable,
    Collector,
    CollectorBuilder,
    CollectorError,
    LazyArc,
    LazyItem,
    LazyReactionAction,
    Polled,
    ReactionAction,
};
use serenity::model::application::interaction::{
    ComponentInteraction,
    ComponentInteractionData,
    Interaction,
    ModalSubmitInteraction,
    ModalSubmitInteractionData,
};
use serenity::model::channel::{Message, Reaction};
use serenity::model::event::{
    Event,
    EventType,
    InteractionCreateEvent,
    MessageCreateEvent,
    ReactionAddEvent,
    ReactionRemoveEvent,
};
use serenity::model::id::{
    ApplicationId,
    ChannelId,
    GuildId,
    InteractionId,
    MessageId,
    UserId,
};
use serenity::model::user::User;

fn user(id: u64) -> User {
    User {
        id: UserId::new(id),
        avatar: None,
        bot: false,
        discriminator: 1,
        name: "ab".to_string(),
        public_flags: None,
        banner: None,
        accent_colour: None,
    }
}

fn message(id: u64, channel: u64, guild: Option<u64>, author: u64, content: &str) -> Message {
    Message {
        id: MessageId::new(id),
        channel_id: ChannelId::new(channel),
        guild_id: guild.map(GuildId::new),
        author: user(author),
        content: content.to_string(),
    }
}

fn reaction(channel: u64, msg: u64, user: Option<u64>, guild: Option<u64>) -> Reaction {
    Reaction {
        channel_id: ChannelId::new(channel),
        message_id: MessageId::new(msg),
        user_id: user.map(UserId::new),
        guild_id: guild.map(GuildId::new),
        emoji: "+1".to_string(),
    }
}

fn message_event(m: Message) -> Event {
    Event::MessageCreate(MessageCreateEvent { message: m })
}

#[test]
fn raw_event_guild_id_without_event_type_is_rejected() {
    let added = CollectorBuilder::<Event, _>::new().add_guild_id(GuildId::new(42));
    assert!(matches!(added, Err(CollectorError::InvalidEventIdFilters)));
}

#[test]
fn raw_event_id_filters_need_a_type_that_carries_them() {
    // `Ready` carries no identifier at all.
    let builder = CollectorBuilder::<Event, _>::new().add_event_type(EventType::Ready);
    assert!(builder.add_user_id(UserId::new(1)).is_err());
    // `GuildCreate` carries a guild, but neither channel nor message nor user.
    let builder = CollectorBuilder::<Event, _>::new().add_event_type(EventType::GuildCreate);
    let builder = builder.add_guild_id(GuildId::new(7)).unwrap();
    assert!(builder.add_channel_id(ChannelId::new(1)).is_err());
    let builder = CollectorBuilder::<Event, _>::new()
        .add_event_type(EventType::GuildCreate)
        .add_event_type(EventType::MessageDelete);
    let builder = builder.add_message_id(MessageId::new(5)).unwrap();
    let builder = builder.add_channel_id(ChannelId::new(5)).unwrap();
    assert!(builder.add_user_id(UserId::new(5)).is_err());
}

#[test]
fn reaction_filter_rejects_removed_by_default() {
    let (collector, mut callback) = CollectorBuilder::<ReactionAction, _>::new()
        .added(true)
        .removed(false)
        .channel_id(ChannelId::new(3))
        .build(0);
    let mut collector = collector;
    let removed = Event::ReactionRemove(ReactionRemoveEvent {
        reaction: reaction(3, 9, Some(1), None),
    });
    assert!(callback.call(&removed));
    assert_eq!(callback.0.collected(), 0);
    assert_eq!(callback.0.filtered(), 1);
    assert!(matches!(collector.poll_at(0), Polled::Pending));

    let added = Event::ReactionAdd(ReactionAddEvent { reaction: reaction(3, 9, Some(1), None) });
    assert!(callback.call(&added));
    assert_eq!(callback.0.collected(), 1);
    match collector.poll_at(0) {
        Polled::Item(action) => {
            assert!(action.is_added());
            assert!(!action.is_removed());
            assert_eq!(action.as_inner_ref().message_id, MessageId::new(9));
        },
        _ => panic!("the added reaction was not collected"),
    }
}

#[test]
fn reaction_filter_accepts_removed_when_switched_on() {
    let (mut collector, mut callback) =
        CollectorBuilder::<ReactionAction, _>::new().added(false).removed(true).build(0);
    let added = Event::ReactionAdd(ReactionAddEvent { reaction: reaction(3, 9, Some(1), None) });
    let removed = Event::ReactionRemove(ReactionRemoveEvent {
        reaction: reaction(3, 9, Some(1), None),
    });
    assert!(callback.call(&added));
    assert!(callback.call(&removed));
    assert_eq!(callback.0.filtered(), 2);
    assert_eq!(callback.0.collected(), 1);
    match collector.poll_at(0) {
        Polled::Item(action) => assert!(action.is_removed()),
        _ => panic!("the removed reaction was not collected"),
    }
}

#[test]
fn promote_is_memoized() {
    let m = message(1, 2, None, 3, "hello");
    let mut lazy = LazyArc::new(&m);
    let first = Arc::clone(lazy.as_arc());
    let second = Arc::clone(lazy.as_arc());
    assert!(Arc::ptr_eq(&first, &second));
    assert_eq!(first.content, "hello");
    assert_eq!(Arc::strong_count(&first), 3);

    let r = reaction(1, 2, None, None);
    let mut lazy = LazyReactionAction::new(&r, false);
    let first = Arc::clone(lazy.as_arc());
    let second = Arc::clone(lazy.as_arc());
    assert!(Arc::ptr_eq(&first, &second));
    assert!(first.is_removed());
    assert_eq!(first.as_inner_ref().message_id, MessageId::new(2));
}

#[test]
fn collect_limit_bounds_items_sent() {
    let (mut collector, mut callback) =
        CollectorBuilder::<Message, _>::new().collect_limit(2).build(0);
    let event = message_event(message(1, 2, None, 3, "a"));
    assert!(callback.call(&event));
    // the second acceptance reaches the cap: the filter is to be deregistered
    assert!(!callback.call(&event));
    assert_eq!(callback.0.collected(), 2);
    let mut received = 0;
    while let Polled::Item(_) = collector.poll_at(0) {
        received += 1;
    }
    assert_eq!(received, 2);
}

#[test]
fn filter_limit_deregisters_at_the_cap() {
    let (_collector, mut callback) = CollectorBuilder::<Message, _>::new()
        .filter_limit(3)
        .author_id(UserId::new(77))
        .build(0);
    let event = message_event(message(1, 2, None, 3, "a"));
    assert!(callback.call(&event));
    assert!(callback.call(&event));
    assert!(!callback.call(&event));
    assert_eq!(callback.0.filtered(), 3);
    assert_eq!(callback.0.collected(), 0);
    assert!(!callback.0.is_within_limits());
}

#[test]
fn zero_limit_means_no_limit() {
    let (_collector, mut callback) =
        CollectorBuilder::<Message, _>::new().filter_limit(0).collect_limit(0).build(0);
    let event = message_event(message(1, 2, None, 3, "a"));
    for _ in 0..10 {
        assert!(callback.call(&event));
    }
    assert_eq!(callback.0.filtered(), 10);
    assert_eq!(callback.0.collected(), 10);
}

#[test]
fn dropped_collector_deregisters_filter() {
    let (collector, mut callback) = CollectorBuilder::<Message, _>::new().build(0);
    let event = message_event(message(1, 2, None, 3, "a"));
    assert!(callback.call(&event));
    collector.stop();
    // the send fails: the item counts as collected, but not as filtered
    assert!(!callback.call(&event));
    assert_eq!(callback.0.collected(), 2);
    assert_eq!(callback.0.filtered(), 1);
}

#[test]
fn closed_channel_deregisters_even_when_nothing_passes() {
    let (collector, mut callback) =
        CollectorBuilder::<Message, _>::new().channel_id(ChannelId::new(99)).build(0);
    drop(collector);
    let event = message_event(message(1, 2, None, 3, "a"));
    assert!(!callback.call(&event));
    assert_eq!(callback.0.collected(), 0);
    assert_eq!(callback.0.filtered(), 1);
}

#[test]
fn settle_books_each_outcome() {
    let (_collector, mut callback) =
        CollectorBuilder::<Message, _>::new().filter_limit(2).collect_limit(5).build(0);
    let filter = &mut callback.0;
    assert!(filter.settle(Outcome { passed: true, delivered: true, open: true }));
    assert_eq!((filter.filtered(), filter.collected()), (1, 1));
    assert!(!filter.settle(Outcome { passed: true, delivered: false, open: true }));
    assert_eq!((filter.filtered(), filter.collected()), (1, 2));
    assert!(!filter.settle(Outcome { passed: false, delivered: false, open: true }));
    assert_eq!((filter.filtered(), filter.collected()), (2, 2));
}

#[test]
fn message_constraints_and_predicate() {
    let (mut collector, mut callback) = CollectorBuilder::<Message, _>::new()
        .guild_id(GuildId::new(10))
        .channel_id(ChannelId::new(20))
        .author_id(UserId::new(30))
        .filter(|m: &Message| m.content.starts_with("!"))
        .build(0);
    assert!(callback.call(&message_event(message(1, 20, Some(10), 30, "!ping"))));
    assert!(callback.call(&message_event(message(2, 20, Some(10), 30, "ping"))));
    assert!(callback.call(&message_event(message(3, 20, None, 30, "!ping"))));
    assert!(callback.call(&message_event(message(4, 21, Some(10), 30, "!ping"))));
    assert!(callback.call(&message_event(message(5, 20, Some(10), 31, "!ping"))));
    assert!(callback.call(&message_event(message(6, 20, Some(11), 30, "!ping"))));
    assert_eq!(callback.0.filtered(), 6);
    assert_eq!(callback.0.collected(), 1);
    match collector.poll_at(0) {
        Polled::Item(m) => assert_eq!(m.id, MessageId::new(1)),
        _ => panic!("the matching message was not collected"),
    }
    assert!(matches!(collector.poll_at(0), Polled::Pending));
}

#[test]
fn predicate_is_not_asked_after_a_failed_constraint() {
    let asked = Arc::new(std::sync::atomic::AtomicUsize::new(0));
    let counter = Arc::clone(&asked);
    let (_collector, mut callback) = CollectorBuilder::<Message, _>::new()
        .channel_id(ChannelId::new(20))
        .filter(move |_: &Message| {
            counter.fetch_add(1, std::sync::atomic::Ordering::SeqCst);
            true
        })
        .build(0);
    assert!(callback.call(&message_event(message(1, 21, None, 30, "a"))));
    assert_eq!(asked.load(std::sync::atomic::Ordering::SeqCst), 0);
    assert!(callback.call(&message_event(message(1, 20, None, 30, "a"))));
    assert_eq!(asked.load(std::sync::atomic::Ordering::SeqCst), 1);
}

#[test]
fn unrelated_event_leaves_filter_untouched() {
    let (_collector, mut callback) =
        CollectorBuilder::<Message, _>::new().filter_limit(1).build(0);
    assert!(callback.call(&Event::Ready));
    assert!(callback.call(&Event::GuildCreate { guild_id: GuildId::new(1) }));
    assert_eq!(callback.0.filtered(), 0);
    assert_eq!(callback.0.collected(), 0);
    assert!(!callback.call(&message_event(message(1, 2, None, 3, "a"))));
}

fn component(custom_id: &str, guild: Option<u64>, msg: u64) -> Event {
    Event::InteractionCreate(InteractionCreateEvent {
        interaction: Interaction::Component(ComponentInteraction {
            id: InteractionId::new(1),
            application_id: ApplicationId::new(2),
            guild_id: guild.map(GuildId::new),
            channel_id: ChannelId::new(4),
            user: user(5),
            message: message(msg, 4, guild, 6, "menu"),
            data: ComponentInteractionData { custom_id: custom_id.to_string() },
        }),
    })
}

fn modal(custom_id: &str, msg: Option<u64>) -> Event {
    Event::InteractionCreate(InteractionCreateEvent {
        interaction: Interaction::ModalSubmit(ModalSubmitInteraction {
            id: InteractionId::new(1),
            application_id: ApplicationId::new(2),
            guild_id: None,
            channel_id: ChannelId::new(4),
            user: user(5),
            message: msg.map(|id| message(id, 4, None, 6, "form")),
            data: ModalSubmitInteractionData { custom_id: custom_id.to_string() },
        }),
    })
}

#[test]
fn component_filter_checks_custom_ids() {
    let (mut collector, mut callback) = CollectorBuilder::<ComponentInteraction, _>::new()
        .custom_ids(vec!["yes".to_string(), "no".to_string()])
        .message_id(MessageId::new(8))
        .author_id(UserId::new(5))
        .build(0);
    assert!(callback.call(&component("maybe", None, 8)));
    assert!(callback.call(&component("no", None, 9)));
    assert!(callback.call(&component("no", None, 8)));
    assert!(callback.call(&modal("no", Some(8))));
    assert_eq!(callback.0.filtered(), 3);
    assert_eq!(callback.0.collected(), 1);
    match collector.poll_at(0) {
        Polled::Item(i) => assert_eq!(i.data.custom_id, "no"),
        _ => panic!("the matching interaction was not collected"),
    }
}

#[test]
fn modal_filter_checks_message_presence() {
    let (_collector, mut callback) = CollectorBuilder::<ModalSubmitInteraction, _>::new()
        .message_id(MessageId::new(8))
        .channel_id(ChannelId::new(4))
        .build(0);
    assert!(callback.call(&modal("form", None)));
    assert_eq!(callback.0.collected(), 0);
    assert!(callback.call(&modal("form", Some(7))));
    assert_eq!(callback.0.collected(), 0);
    assert!(callback.call(&modal("form", Some(8))));
    assert_eq!(callback.0.collected(), 1);
    assert!(callback.call(&component("form", None, 8)));
    assert_eq!(callback.0.filtered(), 3);
}

#[test]
fn event_filter_needs_an_allowed_type() {
    let (_collector, mut callback) = CollectorBuilder::<Event, _>::new().build(0);
    assert!(callback.call(&Event::Ready));
    assert_eq!(callback.0.filtered(), 1);
    assert_eq!(callback.0.collected(), 0);

    let builder = CollectorBuilder::<Event, _>::new()
        .add_event_type(EventType::MessageCreate)
        .add_event_type(EventType::TypingStart);
    let builder = builder.add_guild_id(GuildId::new(1)).unwrap();
    let builder = builder.add_guild_id(GuildId::new(2)).unwrap();
    let (mut collector, mut callback) = builder.build(0);
    assert!(callback.call(&message_event(message(1, 2, Some(2), 3, "a"))));
    assert!(callback.call(&message_event(message(1, 2, Some(3), 3, "a"))));
    assert!(callback.call(&message_event(message(1, 2, None, 3, "a"))));
    assert!(callback.call(&Event::TypingStart {
        guild_id: Some(GuildId::new(1)),
        channel_id: ChannelId::new(1),
        user_id: UserId::new(1),
    }));
    assert!(callback.call(&Event::GuildCreate { guild_id: GuildId::new(1) }));
    assert_eq!(callback.0.filtered(), 5);
    assert_eq!(callback.0.collected(), 2);
    match collector.poll_at(0) {
        Polled::Item(e) => assert_eq!(e.event_type(), EventType::MessageCreate),
        _ => panic!("the matching event was not collected"),
    }
}

#[test]
fn collector_ends_at_its_deadline() {
    let (mut collector, mut callback) =
        CollectorBuilder::<Message, _>::new().timeout(1_000).build(500);
    assert_eq!(collector.get_deadline(), Some(1_500));
    assert!(callback.call(&message_event(message(1, 2, None, 3, "a"))));
    assert!(callback.call(&message_event(message(2, 2, None, 3, "b"))));
    // before the deadline the waiting item is handed out
    match collector.poll_at(1_499) {
        Polled::Item(m) => assert_eq!(m.id, MessageId::new(1)),
        _ => panic!("the item sent before the deadline was skipped"),
    }
    // at the deadline the sequence ends, whatever waits in the channel
    assert!(collector.is_expired(1_500));
    assert!(matches!(collector.poll_at(1_500), Polled::Ended));
    assert!(matches!(collector.poll_at(9_999), Polled::Ended));
}

#[test]
fn collector_deadline_saturates() {
    let (collector, _callback) =
        CollectorBuilder::<Message, _>::new().timeout(u64::MAX).build(5);
    assert_eq!(collector.get_deadline(), Some(u64::MAX));
    let (collector, _callback) = CollectorBuilder::<Message, _>::new().build(5);
    assert_eq!(collector.get_deadline(), None);
    assert!(!collector.is_expired(u64::MAX));
}

#[test]
fn collector_ends_when_the_producer_is_gone() {
    let (mut collector, callback) = CollectorBuilder::<Message, _>::new().build(0);
    assert!(matches!(collector.poll_at(0), Polled::Pending));
    drop(callback);
    assert!(matches!(collector.poll_at(0), Polled::Ended));
}

#[test]
fn resolve_decides_the_deadline_first() {
    let item = Arc::new(7u8);
    assert!(matches!(
        Collector::<u8>::resolve(true, Reception::Item(Arc::clone(&item))),
        Polled::Ended
    ));
    assert!(matches!(Collector::<u8>::resolve(true, Reception::Empty), Polled::Ended));
    assert!(matches!(Collector::<u8>::resolve(false, Reception::Empty), Polled::Pending));
    assert!(matches!(Collector::<u8>::resolve(false, Reception::Closed), Polled::Ended));
    match Collector::<u8>::resolve(false, Reception::Item(item)) {
        Polled::Item(got) => assert_eq!(*got, 7),
        _ => panic!("the waiting item was not handed out"),
    }
}

#[test]
fn extract_finds_each_kind() {
    let m = message_event(message(1, 2, None, 3, "a"));
    assert!(Message::extract(&m).is_some());
    assert!(ReactionAction::extract(&m).is_none());
    assert!(ComponentInteraction::extract(&m).is_none());
    assert!(ModalSubmitInteraction::extract(&m).is_none());
    assert!(Event::extract(&m).is_some());
    let c = component("x", None, 1);
    assert!(ComponentInteraction::extract(&c).is_some());
    assert!(ModalSubmitInteraction::extract(&c).is_none());
    let f = modal("x", None);
    assert!(ModalSubmitInteraction::extract(&f).is_some());
    assert!(ComponentInteraction::extract(&f).is_none());
    let r = Event::ReactionRemove(ReactionRemoveEvent { reaction: reaction(1, 2, None, None) });
    let lazy = ReactionAction::extract(&r).unwrap();
    assert!(!lazy.is_added());
    assert_eq!(lazy.get().message_id, MessageId::new(2));
    assert!(Message::extract(&Event::Ready).is_none());
}

#[test]
fn dispatch_stops_at_the_first_refusal() {
    let (mut collector, mut callback) =
        CollectorBuilder::<Message, _>::new().collect_limit(2).build(0);
    let events = vec![
        Event::Ready,
        message_event(message(1, 2, None, 3, "a")),
        Event::GuildCreate { guild_id: GuildId::new(1) },
        message_event(message(2, 2, None, 3, "b")),
        message_event(message(3, 2, None, 3, "c")),
        message_event(message(4, 2, None, 3, "d")),
    ];
    assert!(!callback.dispatch_all(&events));
    // the cap was reached at the second message: the rest was never shown
    assert_eq!((callback.0.filtered(), callback.0.collected()), (2, 2));
    let mut ids = Vec::new();
    while let Polled::Item(m) = collector.poll_at(0) {
        ids.push(m.id.get());
    }
    assert_eq!(ids, vec![1, 2]);

    let (_collector, mut callback) = CollectorBuilder::<Message, _>::new().build(0);
    assert!(callback.dispatch_all(&events));
    assert!(callback.dispatch_all(&vec![]));
    assert_eq!((callback.0.filtered(), callback.0.collected()), (4, 4));
}
