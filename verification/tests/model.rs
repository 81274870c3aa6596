use serenity::model::channel::{
    Channel,
    ChannelCategory,
    ChannelParseError,
    ChannelReadError,
    ChannelType,
    ChannelVariant,
    GuildChannel,
    InvalidPermissionOverwriteType,
    PermissionOverwrite,
    PermissionOverwriteData,
    PermissionOverwriteType,
    PrivateChannel,
    VideoQualityMode,
};
use serenity::model::id::{ChannelId, GuildId, MessageId, RoleId, UserId};
use serenity::model::permissions::Permissions;
use serenity::model::snowflake::{to_decimal, visit_i64, visit_str, visit_u64, SnowflakeError};
use serenity::model::timestamp::{Date, Timestamp};
use serenity::model::user::User;

fn guild_channel() -> GuildChannel {
    GuildChannel {
        id: ChannelId::new(1),
        bitrate: None,
        parent_id: None,
        guild_id: GuildId::new(2),
        kind: ChannelType::Text,
        last_message_id: None,
        last_pin_timestamp: None,
        name: "nsfw-stuff".to_string(),
        permission_overwrites: vec![],
        position: 0,
        topic: None,
        user_limit: None,
        nsfw: false,
        rate_limit_per_user: Some(0),
        rtc_region: None,
        video_quality_mode: None,
        message_count: None,
        member_count: None,
        thread_metadata: None,
        member: None,
        default_auto_archive_duration: None,
    }
}

fn private_channel() -> PrivateChannel {
    PrivateChannel {
        id: ChannelId::new(1),
        last_message_id: None,
        last_pin_timestamp: None,
        kind: ChannelType::Private,
        recipient: User {
            id: UserId::new(2),
            avatar: None,
            bot: false,
            discriminator: 1,
            name: "ab".to_string(),
            public_flags: None,
            banner: None,
            accent_colour: None,
        },
    }
}

fn category() -> ChannelCategory {
    ChannelCategory {
        id: ChannelId::new(5),
        guild_id: GuildId::new(2),
        parent_id: None,
        position: 3,
        kind: ChannelType::Category,
        name: "general".to_string(),
        nsfw: true,
        permission_overwrites: vec![],
    }
}

#[test]
fn nsfw_checks() {
    let mut channel = guild_channel();
    assert!(!channel.is_nsfw());
    channel.kind = ChannelType::Voice;
    assert!(!channel.is_nsfw());

    channel.kind = ChannelType::Text;
    channel.name = "nsfw-".to_string();
    assert!(!channel.is_nsfw());

    channel.name = "nsfw".to_string();
    assert!(!channel.is_nsfw());
    channel.kind = ChannelType::Voice;
    assert!(!channel.is_nsfw());
    channel.kind = ChannelType::Text;

    channel.name = "nsf".to_string();
    channel.nsfw = true;
    assert!(channel.is_nsfw());
    channel.nsfw = false;
    assert!(!channel.is_nsfw());

    let channel = Channel::Guild(channel);
    assert!(!channel.is_nsfw());

    let private_channel = private_channel();
    assert!(!private_channel.is_nsfw());
}

#[test]
fn test_created_at() {
    // The id is from discord's snowflake docs
    let id = GuildId::new(175928847299117063);
    assert_eq!(id.created_at().unix_timestamp(), 1462015105);
    assert_eq!(id.created_at().to_string(), "2016-04-30T11:18:25.796Z");
}

#[test]
fn test_id_serde() {
    let id = GuildId::new(17_5928_8472_9911_7063);
    let written = serde_json::Value::String(id.to_string());
    let expected: serde_json::Value = serde_json::from_str("\"175928847299117063\"").unwrap();
    assert_eq!(written, expected);
    let read = visit_str(expected.as_str().unwrap()).map(GuildId::new);
    assert_eq!(read, Ok(id));

    let mut object = serde_json::Map::new();
    object.insert("id".to_string(), serde_json::Value::String(id.to_string()));
    let expected: serde_json::Value =
        serde_json::from_str("{\"id\": \"175928847299117063\"}").unwrap();
    assert_eq!(serde_json::Value::Object(object), expected);
    let read = expected
        .get("id")
        .and_then(|v| v.as_str())
        .map(|text| visit_str(text).map(GuildId::new));
    assert_eq!(read, Some(Ok(id)));
}

#[test]
fn ids_wrap_their_number() {
    assert_eq!(UserId::new(7).get(), 7);
    assert_eq!(GuildId::default().get(), 1);
    assert_eq!(ChannelId::from(9).get(), 9);
    assert_eq!(MessageId::new(0).get(), 0);
    assert_eq!(UserId::new(7), UserId::new(7));
    assert_ne!(UserId::new(7), UserId::new(8));
    assert!(RoleId::new(1) < RoleId::new(2));
    assert_eq!(ChannelId::new(381880193700069377).to_string(), "381880193700069377");
    assert_eq!(ChannelId::new(12).mention(), "<#12>");
}

#[test]
fn decimal_text_of_numbers() {
    assert_eq!(to_decimal(0), "0");
    assert_eq!(to_decimal(7), "7");
    assert_eq!(to_decimal(10), "10");
    assert_eq!(to_decimal(1234567890), "1234567890");
    assert_eq!(to_decimal(u64::MAX), "18446744073709551615");
}

#[test]
fn snowflakes_are_read_from_text_and_numbers() {
    assert_eq!(visit_str("175928847299117063"), Ok(175928847299117063));
    assert_eq!(visit_str("+5"), Ok(5));
    assert_eq!(visit_str("007"), Ok(7));
    assert_eq!(visit_str("18446744073709551615"), Ok(u64::MAX));
    assert_eq!(visit_str("18446744073709551616"), Err(SnowflakeError::NotANumber));
    assert_eq!(visit_str("99999999999999999999999"), Err(SnowflakeError::NotANumber));
    assert_eq!(visit_str("0"), Err(SnowflakeError::Zero));
    assert_eq!(visit_str("+000"), Err(SnowflakeError::Zero));
    assert_eq!(visit_str(""), Err(SnowflakeError::NotANumber));
    assert_eq!(visit_str("+"), Err(SnowflakeError::NotANumber));
    assert_eq!(visit_str("-5"), Err(SnowflakeError::NotANumber));
    assert_eq!(visit_str("12a"), Err(SnowflakeError::NotANumber));
    assert_eq!(visit_str("1+2"), Err(SnowflakeError::NotANumber));
    assert_eq!(visit_str(" 1"), Err(SnowflakeError::NotANumber));
    assert_eq!(visit_u64(0), Err(SnowflakeError::Zero));
    assert_eq!(visit_u64(5), Ok(5));
    assert_eq!(visit_i64(-1), Err(SnowflakeError::Negative));
    assert_eq!(visit_i64(0), Err(SnowflakeError::Zero));
    assert_eq!(visit_i64(i64::MAX), Ok(i64::MAX as u64));
    // what the library writes, it reads back
    for n in [1u64, 9, 10, 99, 100, 4_294_967_296, u64::MAX] {
        assert_eq!(visit_str(&to_decimal(n)), Ok(n));
    }
}

#[test]
fn timestamps_fall_on_the_right_day() {
    let epoch = Timestamp::from_unix_millis(0);
    assert_eq!(epoch.date(), Date { year: 1970, month: 1, day: 1 });
    assert_eq!(epoch.to_string(), "1970-01-01T00:00:00.000Z");
    assert_eq!(epoch.unix_timestamp(), 0);
    let last_of_1970 = Timestamp::from_unix_millis(365 * 86_400_000 - 1);
    assert_eq!(last_of_1970.to_string(), "1970-12-31T23:59:59.999Z");
    // 2000 is a leap year, 1900 would not have been
    let leap_day = Timestamp::from_unix_millis(951_782_400_000);
    assert_eq!(leap_day.date(), Date { year: 2000, month: 2, day: 29 });
    let after = Timestamp::from_unix_millis(951_782_400_000 + 86_400_000);
    assert_eq!(after.date(), Date { year: 2000, month: 3, day: 1 });
    let discord_epoch = Timestamp::from_discord_id(0);
    assert_eq!(discord_epoch.unix_millis(), 1_420_070_400_000);
    assert_eq!(discord_epoch.to_string(), "2015-01-01T00:00:00.000Z");
    let y2100 = Timestamp::from_unix_millis(4_107_542_400_000);
    assert_eq!(y2100.date(), Date { year: 2100, month: 3, day: 1 });
    let late = Timestamp::from_unix_millis(253_402_300_800_000);
    assert_eq!(late.to_string(), "10000-01-01T00:00:00.000Z");
    let last = Timestamp::from_unix_millis(u64::MAX);
    assert_eq!(last.date().year, 584_556_019);
    assert_eq!(Timestamp::from_discord_id(u64::MAX).date().year, 2154);
}

#[test]
fn channel_accessors() {
    let guild = Channel::Guild(guild_channel());
    assert_eq!(guild.id(), ChannelId::new(1));
    assert_eq!(guild.position(), Some(0));
    assert_eq!(guild.to_string(), "<#1>");
    assert!(guild.clone().guild().is_some());
    assert!(guild.clone().private().is_none());
    assert!(guild.category().is_none());

    let private = Channel::Private(private_channel());
    assert_eq!(private.id(), ChannelId::new(1));
    assert_eq!(private.position(), None);
    assert!(!private.is_nsfw());
    assert_eq!(private.to_string(), "ab");
    assert!(private.clone().private().is_some());
    assert!(private.guild().is_none());

    let cat = Channel::Category(category());
    assert_eq!(cat.id(), ChannelId::new(5));
    assert_eq!(cat.position(), Some(3));
    // a category is never a text channel
    assert!(!cat.is_nsfw());
    assert_eq!(cat.to_string(), "general");
    assert_eq!(cat.category().map(|c| c.name), Some("general".to_string()));
}

#[test]
fn channel_type_names_and_numbers() {
    assert_eq!(ChannelType::Text.name(), "text");
    assert_eq!(ChannelType::Private.name(), "private");
    assert_eq!(ChannelType::Voice.name(), "voice");
    assert_eq!(ChannelType::Category.name(), "category");
    assert_eq!(ChannelType::News.name(), "news");
    assert_eq!(ChannelType::NewsThread.name(), "news_thread");
    assert_eq!(ChannelType::PublicThread.name(), "public_thread");
    assert_eq!(ChannelType::PrivateThread.name(), "private_thread");
    assert_eq!(ChannelType::Stage.name(), "stage");
    assert_eq!(ChannelType::Directory.name(), "directory");
    assert_eq!(ChannelType::Forum.name(), "forum");
    assert_eq!(ChannelType::Unknown(99).name(), "unknown");
    for n in 0..=255u8 {
        assert_eq!(ChannelType::from_num(n).num(), n);
        assert_eq!(VideoQualityMode::from_num(n).num(), n);
    }
    assert_eq!(ChannelType::from_num(13), ChannelType::Stage);
    assert_eq!(ChannelType::from_num(3), ChannelType::Unknown(3));
    assert_eq!(VideoQualityMode::from_num(2), VideoQualityMode::Full);
}

#[test]
fn channel_records_are_read_by_their_type_number() {
    for kind in [0u64, 2, 5, 10, 11, 12, 13, 14, 15] {
        assert_eq!(Channel::variant_for_kind(kind), Ok(ChannelVariant::Guild));
    }
    assert_eq!(Channel::variant_for_kind(1), Ok(ChannelVariant::Private));
    assert_eq!(Channel::variant_for_kind(4), Ok(ChannelVariant::Category));
    for kind in [3u64, 6, 9, 16, 255, u64::MAX] {
        assert_eq!(Channel::variant_for_kind(kind), Err(ChannelReadError::UnknownChannelType));
    }
}

#[test]
fn permission_overwrites_round_trip() {
    let allow = Permissions { bits: 0b1010 };
    let deny = Permissions { bits: 0b0101 };
    let role = PermissionOverwriteData { allow, deny, id: 77, kind: 0 };
    let read = PermissionOverwrite::try_from_data(role).unwrap();
    assert_eq!(read.kind, PermissionOverwriteType::Role(RoleId::new(77)));
    assert_eq!(read.allow, allow);
    assert_eq!(read.deny, deny);
    assert_eq!(read.into_data(), role);
    let member = PermissionOverwriteData { allow, deny, id: 78, kind: 1 };
    let read = PermissionOverwrite::try_from_data(member).unwrap();
    assert_eq!(read.kind, PermissionOverwriteType::Member(UserId::new(78)));
    assert_eq!(read.into_data(), member);
    let bad = PermissionOverwriteData { allow, deny, id: 78, kind: 2 };
    let refused = PermissionOverwrite::try_from_data(bad).unwrap_err();
    assert_eq!(refused, InvalidPermissionOverwriteType(2));
    assert_eq!(refused.to_string(), "Invalid Permission Overwrite Type: 2");
}

#[test]
fn channel_lookup_errors() {
    let found = Channel::from_lookup(Some(ChannelId::new(1)), Some(Channel::Guild(guild_channel())));
    assert_eq!(found.map(|c| c.id()).ok(), Some(ChannelId::new(1)));
    let missing = Channel::from_lookup(Some(ChannelId::new(1)), None);
    assert!(matches!(missing, Err(ChannelParseError::NotPresentInCache)));
    let invalid = Channel::from_lookup(None, None);
    assert!(matches!(invalid, Err(ChannelParseError::InvalidChannel)));
    assert_eq!(ChannelParseError::NotPresentInCache.to_string(), "not present in cache");
    assert_eq!(ChannelParseError::InvalidChannel.to_string(), "invalid channel");
}
