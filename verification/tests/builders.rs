use serenity::builder::create_parts::SUPPRESS_EMBEDS;
use serenity::builder::{
    ActivityBuilder,
    CreateAllowedMentions,
    CreateComponents,
    CreateEmbed,
    EditMessage,
    EditWebhookMessage,
    MessageFlags,
    PresenceBuilder,
};
use serenity::model::channel::attachment_type::AttachmentError;
use serenity::model::channel::AttachmentType;
use serenity::model::gateway::{Activity, ActivityType, OnlineStatus};
use serenity::model::id::AttachmentId;

#[test]
fn test_attachment_type() {
    assert!(matches!(
        AttachmentType::from_path("./dogs/corgis/kona.png"),
        AttachmentType::Path(_)
    ));
    assert!(matches!(AttachmentType::from_path("./cats/copycat.png"), AttachmentType::Path(_)));
    assert!(matches!(
        AttachmentType::from_str("./mascots/crabs/ferris.png"),
        AttachmentType::Path(_)
    ));
    assert!(matches!(
        AttachmentType::from_str("https://test.url/test.jpg"),
        AttachmentType::Image(_)
    ));
}

#[test]
fn attachments_know_their_file_names() {
    let bytes = AttachmentType::from_bytes(vec![1, 2, 3], "a.bin".to_string());
    assert_eq!(bytes.filename().unwrap(), Some("a.bin".to_string()));
    let file = AttachmentType::from_file("b.txt".to_string());
    assert_eq!(file.filename().unwrap(), Some("b.txt".to_string()));
    let path = AttachmentType::from_str("./mascots/crabs/ferris.png");
    assert_eq!(path.filename().unwrap(), Some("ferris.png".to_string()));
    assert_eq!(AttachmentType::from_path("..").filename().unwrap(), None);
    let image = AttachmentType::from_str("https://test.url/images/test.jpg?size=64");
    assert_eq!(image.filename().unwrap(), Some("test.jpg".to_string()));
    // an address that cannot be a base has no path segments
    let data = AttachmentType::from_str("data:text/plain,HelloWorld");
    assert!(matches!(data, AttachmentType::Image(_)));
    match data.filename() {
        Err(AttachmentError::Url(address)) => assert_eq!(address, "data:text/plain,HelloWorld"),
        other => panic!("expected an address error, got {:?}", other),
    }
    // the name is the last of the segments, not the first
    let segments = vec!["images".to_string(), "2024".to_string(), "x.png".to_string()];
    assert_eq!(
        AttachmentType::image_filename(Some(segments.clone()), "u".to_string()).unwrap(),
        "x.png"
    );
    assert_eq!(
        AttachmentType::image_filename(Some(vec!["".to_string()]), "u".to_string()).unwrap(),
        ""
    );
    assert!(matches!(
        AttachmentType::image_filename(None, "u".to_string()),
        Err(AttachmentError::Url(address)) if address == "u"
    ));
    assert!(matches!(
        AttachmentType::image_filename(Some(vec![]), "u".to_string()),
        Err(AttachmentError::Url(address)) if address == "u"
    ));
    let image = AttachmentType::from_str("https://test.url/a/b/c.gif");
    assert_eq!(
        image.filename_from(Some("p".to_string()), Some(segments), "u".to_string()).unwrap(),
        Some("x.png".to_string())
    );
    assert!(image.filename_from(Some("p".to_string()), None, "u".to_string()).is_err());
    assert_eq!(image.filename().unwrap(), Some("c.gif".to_string()));
    let path = AttachmentType::from_path("a/b.txt");
    assert_eq!(
        path.filename_from(Some("p".to_string()), None, "u".to_string()).unwrap(),
        Some("p".to_string())
    );
    assert_eq!(path.filename_from(None, None, "u".to_string()).unwrap(), None);
    let bytes = AttachmentType::from_bytes(vec![], "n".to_string());
    assert_eq!(
        bytes.filename_from(Some("p".to_string()), None, "u".to_string()).unwrap(),
        Some("n".to_string())
    );
    // a text that is read as an address is not handed back as a path
    match AttachmentType::from_parsed(None, "https://test.url/test.jpg") {
        AttachmentType::Path(path) => assert_eq!(path, "https://test.url/test.jpg"),
        other => panic!("expected a path, got {:?}", other),
    }
}

#[test]
fn activities_are_built_by_kind() {
    let playing = ActivityBuilder::playing("chess".to_string());
    assert_eq!(playing.get_name(), "chess");
    assert_eq!(playing.get_kind(), ActivityType::Playing);
    assert!(playing.get_state().is_none());
    assert!(playing.get_url().is_none());
    assert_eq!(ActivityBuilder::listening("x".to_string()).get_kind(), ActivityType::Listening);
    assert_eq!(ActivityBuilder::watching("x".to_string()).get_kind(), ActivityType::Watching);
    assert_eq!(ActivityBuilder::competing("x".to_string()).get_kind(), ActivityType::Competing);
    let url = url::Url::parse("https://twitch.example/bot").unwrap();
    let streaming = ActivityBuilder::streaming("live".to_string(), url.clone());
    assert_eq!(streaming.get_kind(), ActivityType::Streaming);
    assert_eq!(streaming.get_url(), &Some(url.clone()));
    let custom = ActivityBuilder::custom("busy".to_string());
    assert_eq!(custom.get_name(), "~");
    assert_eq!(custom.get_kind(), ActivityType::Custom);
    assert_eq!(custom.get_state(), &Some("busy".to_string()));
    let from = ActivityBuilder::from_activity(Activity {
        name: "n".to_string(),
        kind: ActivityType::Streaming,
        state: Some("s".to_string()),
        url: Some(url.clone()),
    });
    assert_eq!(from.get_name(), "n");
    assert_eq!(from.get_kind(), ActivityType::Streaming);
    assert_eq!(from.get_state(), &Some("s".to_string()));
    assert_eq!(from.get_url(), &Some(url));
    let presence = PresenceBuilder::default();
    assert!(presence.activity.is_none());
    assert_eq!(presence.status, OnlineStatus::Online);
}

#[test]
fn webhook_message_edits_set_their_fields() {
    let mut edit = EditWebhookMessage::default();
    assert!(edit.content.is_none() && edit.embeds.is_none());
    edit.content("hello".to_string()).embeds(vec![CreateEmbed::default()]);
    assert_eq!(edit.content, Some("hello".to_string()));
    assert_eq!(edit.embeds.as_ref().map(|e| e.len()), Some(1));
    assert!(edit.allowed_mentions.is_none());
    let mut mentions = CreateAllowedMentions::default();
    mentions.replied_user = true;
    edit.allowed_mentions(mentions).components(CreateComponents {
        rows: vec![vec!["ok".to_string()]],
    });
    assert!(edit.allowed_mentions.as_ref().unwrap().replied_user);
    assert_eq!(edit.components.as_ref().unwrap().rows.len(), 1);
    assert_eq!(edit.content, Some("hello".to_string()));
    edit.content("bye".to_string());
    assert_eq!(edit.content, Some("bye".to_string()));
}

fn titled(title: &str) -> CreateEmbed {
    CreateEmbed { title: Some(title.to_string()), description: None, colour: None }
}

fn titles(edit: &EditMessage) -> Option<Vec<String>> {
    edit.embeds.as_ref().map(|list| list.iter().map(|e| e.title.clone().unwrap()).collect())
}

#[test]
fn message_edits_add_and_replace_embeds() {
    let mut edit = EditMessage::default();
    assert!(edit.embeds.is_none());
    edit.add_embed(titled("a")).add_embeds(vec![titled("b"), titled("c")]);
    assert_eq!(titles(&edit), Some(vec!["a".to_string(), "b".to_string(), "c".to_string()]));
    edit.set_embed(titled("d"));
    assert_eq!(titles(&edit), Some(vec!["d".to_string()]));
    edit.embed(titled("e"));
    assert_eq!(titles(&edit), Some(vec!["e".to_string()]));
    edit.set_embeds(vec![]);
    assert_eq!(titles(&edit), Some(vec![]));
    edit.content("x".to_string());
    assert_eq!(edit.content, Some("x".to_string()));
    assert_eq!(titles(&edit), Some(vec![]));
}

#[test]
fn message_edits_set_flags() {
    let mut edit = EditMessage::default();
    edit.suppress_embeds(true);
    assert_eq!(edit.flags, Some(MessageFlags { bits: SUPPRESS_EMBEDS }));
    assert_eq!(SUPPRESS_EMBEDS, 1 << 2);
    edit.suppress_embeds(false);
    assert_eq!(edit.flags, Some(MessageFlags::empty()));
    edit.flags(MessageFlags { bits: 64 });
    assert_eq!(edit.flags, Some(MessageFlags { bits: 64 }));
    edit.components(CreateComponents::default());
    edit.set_components(CreateComponents { rows: vec![vec![]] });
    assert_eq!(edit.components.as_ref().unwrap().rows.len(), 1);
    edit.allowed_mentions(CreateAllowedMentions::default());
    assert!(!edit.allowed_mentions.as_ref().unwrap().everyone);
}

#[test]
fn message_edits_keep_and_drop_attachments() {
    let mut edit = EditMessage::default();
    // nothing is kept yet: removing changes nothing
    edit.remove_existing_attachment(AttachmentId::new(1));
    assert!(edit.attachments.is_none());
    for id in [1u64, 2, 1, 3] {
        edit.add_existing_attachment(AttachmentId::new(id));
    }
    edit.remove_existing_attachment(AttachmentId::new(1));
    assert_eq!(
        edit.attachments,
        Some(vec![AttachmentId::new(2), AttachmentId::new(1), AttachmentId::new(3)])
    );
    edit.remove_existing_attachment(AttachmentId::new(9));
    assert_eq!(edit.attachments.as_ref().map(|a| a.len()), Some(3));
    edit.remove_existing_attachment(AttachmentId::new(3));
    edit.remove_existing_attachment(AttachmentId::new(2));
    edit.remove_existing_attachment(AttachmentId::new(1));
    assert_eq!(edit.attachments, Some(vec![]));
    edit.attachment(AttachmentType::from_path("a.png"))
        .attachment(AttachmentType::from_bytes(vec![0], "b".to_string()));
    assert_eq!(edit.files.len(), 2);
    assert!(matches!(edit.files[0], AttachmentType::Path(_)));
    assert!(matches!(edit.files[1], AttachmentType::Bytes { .. }));
}
