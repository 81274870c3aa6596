use serenity::cache::Cache;
use serenity::client::EventContext;
use serenity::collector::Polled;
use serenity::framework::standard::parse::map::{
    Command,
    CommandGroup,
    CommandMap,
    CommandOptions,
    Configuration,
    GroupMap,
    GroupOptions,
    ParseMap,
    ParseMaps,
};
use serenity::gateway::ShardId;
use serenity::http::routing::{RatelimitingBucket, RatelimitingKind, Route, RouteKind};
use serenity::model::application::autocomplete::{AutocompleteInteraction, InteractionReadError};
use serenity::model::channel::channel_id::{
    ChannelSource,
    Deletion,
    MessagesIter,
    SearchFilter,
    MESSAGE_CODE_LIMIT,
};
use serenity::model::channel::{
    Channel,
    ChannelCategory,
    ChannelType,
    Message,
    PrivateChannel,
    Reaction,
};
use serenity::model::error::Error;
use serenity::model::event::{Event, MessageCreateEvent, ReactionAddEvent};
use serenity::model::guild::Member;
use serenity::model::id::{ChannelId, GenericId, GuildId, MessageId, TargetId, UserId};
use serenity::model::user::User;
use serenity::prelude::{Boolean, False, True};

fn command(names: &[&str], sub_commands: Vec<Command>) -> Command {
    Command {
        options: CommandOptions {
            names: names.iter().map(|n| n.to_string()).collect(),
            sub_commands,
        },
    }
}

fn group(prefixes: &[&str], sub_groups: Vec<CommandGroup>, commands: Vec<Command>) -> CommandGroup {
    CommandGroup {
        name: "group".to_string(),
        options: GroupOptions {
            prefixes: prefixes.iter().map(|n| n.to_string()).collect(),
            sub_groups,
            commands,
        },
    }
}

fn user(id: u64, name: &str) -> User {
    User {
        id: UserId::new(id),
        avatar: None,
        bot: false,
        discriminator: 1,
        name: name.to_string(),
        public_flags: None,
        banner: None,
        accent_colour: None,
    }
}

fn message(id: u64, channel: u64) -> Message {
    Message {
        id: MessageId::new(id),
        channel_id: ChannelId::new(channel),
        guild_id: None,
        author: user(1, "ab"),
        content: "hi".to_string(),
    }
}

#[test]
fn command_map_stores_every_name() {
    let cmds = vec![
        command(&["Ping", "p"], vec![command(&["deep"], vec![])]),
        command(&["latency", "ping"], vec![]),
    ];
    let conf = Configuration { case_insensitive: true };
    let map = CommandMap::new(&cmds, &conf);
    assert!(!map.is_empty());
    assert_eq!(map.min_length(), 0);
    assert_eq!(map.max_length(), 7);
    // names are stored in lower case, and the later command wins a name
    let (found, sub) = map.get("ping").unwrap();
    assert_eq!(found.options.names[0], "latency");
    assert!(sub.is_empty());
    assert!(map.get("Ping").is_none());
    let (found, sub) = map.get("p").unwrap();
    assert_eq!(found.options.names[0], "Ping");
    assert_eq!(sub.max_length(), 4);
    assert!(sub.get("deep").is_some());
    assert!(map.get("deep").is_none());

    let exact = CommandMap::new(&cmds, &Configuration { case_insensitive: false });
    assert_eq!(exact.get("Ping").unwrap().0.options.names[1], "p");
    assert_eq!(exact.get("ping").unwrap().0.options.names[0], "latency");

    let none: Vec<Command> = vec![];
    let empty = CommandMap::new(&none, &conf);
    assert!(empty.is_empty());
    assert_eq!(empty.max_length(), 0);
    assert!(empty.get("").is_none());
}

#[test]
fn command_map_counts_characters() {
    let cmds = vec![command(&["héllo", "日本語のコマンド"], vec![])];
    let map = CommandMap::new(&cmds, &Configuration { case_insensitive: false });
    assert_eq!(map.max_length(), 8);
    let upper = vec![command(&["ÄÖ"], vec![])];
    let map = CommandMap::new(&upper, &Configuration { case_insensitive: true });
    assert!(map.get("äö").is_some());
    assert!(map.get("ÄÖ").is_none());
}

#[test]
fn group_map_stores_every_prefix() {
    let groups = vec![
        group(&["admin", "a"], vec![group(&["sub"], vec![], vec![])], vec![command(&["ban"], vec![])]),
        group(&["fun"], vec![], vec![]),
        group(&[], vec![], vec![command(&["lost"], vec![])]),
    ];
    let conf = Configuration { case_insensitive: true };
    let map = GroupMap::new(&groups, &conf);
    assert!(!map.is_empty());
    assert_eq!(map.min_length(), 0);
    assert_eq!(map.max_length(), 5);
    let (found, subgroups, commands) = map.get("a").unwrap();
    assert_eq!(found.options.prefixes[0], "admin");
    assert!(subgroups.get("sub").is_some());
    assert!(commands.get("ban").is_some());
    // prefixes are stored as they are written
    assert!(map.get("Admin").is_none());
    assert!(map.get("fun").unwrap().1.is_empty());
    assert!(map.get("lost").is_none());
    let maps = ParseMaps::Prefixless(GroupMap::new(&groups, &conf), CommandMap::new(&groups[0].options.commands, &conf));
    assert!(matches!(maps, ParseMaps::Prefixless(_, _)));
}

#[test]
fn routes_have_paths_and_buckets() {
    let channel = Route::Channel { channel_id: ChannelId::new(7) };
    assert_eq!(channel.path(), "https://discord.com/api/v10/channels/7");
    let message =
        Route::ChannelMessage { channel_id: ChannelId::new(7), message_id: MessageId::new(8) };
    assert_eq!(message.path(), "https://discord.com/api/v10/channels/7/messages/8");
    assert_eq!(
        Route::ChannelMessages { channel_id: ChannelId::new(7) }.path(),
        "https://discord.com/api/v10/channels/7/messages"
    );
    assert_eq!(
        Route::ChannelMessagesBulkDelete { channel_id: ChannelId::new(7) }.path(),
        "https://discord.com/api/v10/channels/7/messages/bulk-delete"
    );
    assert_eq!(
        Route::ChannelPermission { channel_id: ChannelId::new(7), target_id: TargetId::new(9) }
            .path(),
        "https://discord.com/api/v10/channels/7/permissions/9"
    );
    assert_eq!(Route::StageInstances.path(), "https://discord.com/api/v10/stage-instances");
    assert_eq!(
        Route::StageInstance { channel_id: ChannelId::new(3) }.path(),
        "https://discord.com/api/v10/stage-instances/3"
    );
    assert_eq!(
        message.ratelimiting_bucket(),
        RatelimitingBucket(Some((RouteKind::ChannelMessage, Some(GenericId::new(7)))))
    );
    assert_eq!(message.ratelimiting_kind(), RatelimitingKind::PathAndId(GenericId::new(7)));
    assert_eq!(
        Route::StageInstance { channel_id: ChannelId::new(3) }.ratelimiting_bucket(),
        RatelimitingBucket(Some((RouteKind::StageInstance, None)))
    );
    assert!(!channel.ratelimiting_bucket().is_none());
    assert!(RatelimitingBucket(None).is_none());
    // requests to one channel share a bucket, whatever the message
    let other =
        Route::ChannelMessage { channel_id: ChannelId::new(7), message_id: MessageId::new(99) };
    assert_eq!(message.ratelimiting_bucket(), other.ratelimiting_bucket());
    assert_ne!(message.ratelimiting_bucket(), channel.ratelimiting_bucket());
}

#[test]
fn autocomplete_user_comes_from_the_record_or_the_member() {
    let member = Some(Member { user: user(2, "member"), nick: None });
    let resolved = AutocompleteInteraction::resolve_user(Some(user(1, "direct")), &member);
    assert_eq!(resolved.unwrap().name, "direct");
    let resolved = AutocompleteInteraction::resolve_user(None, &member);
    assert_eq!(resolved.unwrap().id, UserId::new(2));
    let resolved = AutocompleteInteraction::resolve_user(None, &None);
    assert_eq!(resolved.unwrap_err(), InteractionReadError::ExpectedUserOrMember);
}

#[test]
fn bulk_deletion_takes_one_to_a_hundred_messages() {
    let ids = |n: u64| (1..=n).map(MessageId::new).collect::<Vec<_>>();
    assert_eq!(ChannelId::plan_deletion(&ids(0)).unwrap_err(), Error::BulkDeleteAmount);
    assert_eq!(ChannelId::plan_deletion(&ids(101)).unwrap_err(), Error::BulkDeleteAmount);
    assert!(matches!(
        ChannelId::plan_deletion(&ids(1)),
        Ok(Deletion::Single(id)) if id == MessageId::new(1)
    ));
    match ChannelId::plan_deletion(&ids(2)) {
        Ok(Deletion::Bulk(numbers)) => assert_eq!(numbers, vec![1, 2]),
        other => panic!("expected a bulk deletion, got {:?}", other),
    }
    match ChannelId::plan_deletion(&ids(100)) {
        Ok(Deletion::Bulk(numbers)) => assert_eq!(numbers.len(), 100),
        other => panic!("expected a bulk deletion, got {:?}", other),
    }
}

#[test]
fn request_parameters_are_checked() {
    assert_eq!(ChannelId::reaction_users_limit(None), 50);
    assert_eq!(ChannelId::reaction_users_limit(Some(0)), 0);
    assert_eq!(ChannelId::reaction_users_limit(Some(100)), 100);
    assert_eq!(ChannelId::reaction_users_limit(Some(101)), 100);
    assert_eq!(ChannelId::reaction_users_limit(Some(255)), 100);
    assert_eq!(ChannelId::check_webhook_name(None), Ok(()));
    assert_eq!(ChannelId::check_webhook_name(Some("a")), Err(Error::NameTooShort));
    assert_eq!(ChannelId::check_webhook_name(Some("ab")), Ok(()));
    // the length is counted in bytes
    assert_eq!(ChannelId::check_webhook_name(Some("é")), Ok(()));
    assert_eq!(ChannelId::check_webhook_name(Some(&"x".repeat(100))), Ok(()));
    assert_eq!(ChannelId::check_webhook_name(Some(&"x".repeat(101))), Err(Error::NameTooLong));
    assert_eq!(MESSAGE_CODE_LIMIT, 2000);
    assert_eq!(ChannelId::overflow_length(&"x".repeat(2000)), None);
    assert_eq!(ChannelId::overflow_length(&"x".repeat(2003)), Some(3));
    // the content is counted in characters
    assert_eq!(ChannelId::overflow_length(&"é".repeat(2000)), None);
    assert_eq!(ChannelId::check_content(&None), Ok(()));
    assert_eq!(ChannelId::check_content(&Some("ok".to_string())), Ok(()));
    assert_eq!(ChannelId::check_content(&Some("é".repeat(2001))), Err(Error::MessageTooLong(1)));
    assert_eq!(ChannelId::messages_query(None, None), "?limit=50");
    assert_eq!(
        ChannelId::messages_query(Some(7), Some(SearchFilter::After(MessageId::new(3)))),
        "?limit=7&after=3"
    );
    assert_eq!(
        ChannelId::messages_query(None, Some(SearchFilter::Around(MessageId::new(4)))),
        "?limit=50&around=4"
    );
    assert_eq!(
        ChannelId::messages_query(Some(100), Some(SearchFilter::Before(MessageId::new(5)))),
        "?limit=100&before=5"
    );
}

#[test]
fn messages_are_walked_from_newest_to_oldest() {
    let mut iter = MessagesIter::new(ChannelId::new(1));
    assert!(iter.needs_refresh());
    assert_eq!(iter.refresh_query(), "?limit=100");
    // a page arrives newest first
    iter.refresh(vec![message(30, 1), message(20, 1), message(10, 1)]);
    assert!(!iter.needs_refresh());
    assert_eq!(iter.pop().map(|m| m.id), Some(MessageId::new(30)));
    assert_eq!(iter.pop().map(|m| m.id), Some(MessageId::new(20)));
    assert!(!iter.needs_refresh());
    assert_eq!(iter.pop().map(|m| m.id), Some(MessageId::new(10)));
    // the page is used up: the next is asked for before its oldest message
    assert!(iter.needs_refresh());
    assert_eq!(iter.refresh_query(), "?limit=100&before=10");
    iter.refresh(vec![]);
    assert!(!iter.needs_refresh());
    assert!(iter.pop().is_none());
    assert!(!iter.needs_refresh());
}

#[test]
fn cache_holds_channels_by_their_id() {
    let mut cache = Cache::new();
    let id = ChannelId::new(5);
    assert!(id.to_channel_cached(&cache).is_none());
    assert!(matches!(id.to_channel(Some(&cache)), ChannelSource::Fetch));
    assert!(matches!(id.to_channel(None), ChannelSource::Fetch));
    assert_eq!(id.name(&cache), None);
    let category = |name: &str| {
        Channel::Category(ChannelCategory {
            id,
            guild_id: GuildId::new(2),
            parent_id: None,
            position: 3,
            kind: ChannelType::Category,
            name: name.to_string(),
            nsfw: false,
            permission_overwrites: vec![],
        })
    };
    cache.insert(category("general"));
    cache.insert(Channel::Private(PrivateChannel {
        id: ChannelId::new(6),
        last_message_id: None,
        last_pin_timestamp: None,
        kind: ChannelType::Private,
        recipient: user(2, "friend"),
    }));
    assert_eq!(id.to_channel_cached(&cache).map(|c| c.id()), Some(id));
    assert!(matches!(id.to_channel(Some(&cache)), ChannelSource::Cached(_)));
    assert_eq!(id.name(&cache), Some("general".to_string()));
    assert_eq!(ChannelId::new(6).name(&cache), Some("friend".to_string()));
    // a channel seen again takes the place of the one that was held
    cache.insert(category("renamed"));
    assert_eq!(id.name(&cache), Some("renamed".to_string()));
    assert_eq!(ChannelId::new(6).name(&cache), Some("friend".to_string()));
    assert!(ChannelId::new(7).to_channel_cached(&cache).is_none());
}

#[test]
fn channel_collectors_start_from_the_channel() {
    let (mut collector, mut callback) = ChannelId::new(4).reply_collector().build(0);
    let event = |channel| Event::MessageCreate(MessageCreateEvent { message: message(1, channel) });
    assert!(callback.call(&event(5)));
    assert!(callback.call(&event(4)));
    assert_eq!(callback.0.collected(), 1);
    assert!(matches!(collector.poll_at(0), Polled::Item(_)));
    // the same filter, by the name of the message filter
    assert!(callback.0.send_message(&message(2, 4)));
    assert!(callback.0.send_message(&message(2, 9)));
    assert_eq!((callback.0.filtered(), callback.0.collected()), (4, 2));

    let (_collector, mut callback) = ChannelId::new(4).reaction_collector().build(0);
    let reaction = |channel| {
        Event::ReactionAdd(ReactionAddEvent {
            reaction: Reaction {
                channel_id: ChannelId::new(channel),
                message_id: MessageId::new(1),
                user_id: None,
                guild_id: None,
                emoji: "+1".to_string(),
            },
        })
    };
    assert!(callback.call(&reaction(4)));
    assert!(callback.call(&reaction(5)));
    assert_eq!((callback.0.filtered(), callback.0.collected()), (2, 1));
}

fn is_boolean<B: Boolean>(_: B) -> bool {
    true
}

#[test]
fn contexts_and_markers() {
    let context = EventContext::new(ShardId(3));
    assert_eq!(context.shard_id, ShardId(3));
    assert!(is_boolean(True));
    assert!(is_boolean(False));
}
