use gexbot::attachments::Image;
use gexbot::guild_cache::GatewayEvent;
use gexbot::events::{Action, BotEvent, EventKind, EventUser, LogError, MessageLog, Missing, CID_LOG};
use twilight_cache_inmemory::InMemoryCache;
use twilight_model::channel::{Channel, Message};
use twilight_model::gateway::event::Event;
use twilight_model::gateway::payload::incoming::{ChannelCreate, MessageCreate, VoiceStateUpdate};
use twilight_model::util::Timestamp;
use twilight_model::voice::VoiceState;

const HASH: &str = "1269e74af4df7417b13759eae50c83dc";

fn channel_event(id: u64, kind: u8, name: &str) -> Event {
    let text = format!("{{\"id\":\"{}\",\"type\":{},\"guild_id\":\"1\",\"name\":\"{}\"}}", id, kind, name);
    let channel: Channel = serde_json::from_str(&text).expect("channel");
    Event::ChannelCreate(Box::new(ChannelCreate(channel)))
}

fn message_event(id: u64, channel_id: u64, content: &str) -> Event {
    let text = format!(
        "{{\"id\":\"{}\",\"channel_id\":\"{}\",\"guild_id\":\"1\",\"author\":{{\"id\":\"42\",\"username\":\"alice\",\"discriminator\":\"0001\",\"avatar\":\"{}\"}},\"content\":\"{}\",\"timestamp\":\"2021-01-01T00:00:00.000000+00:00\",\"edited_timestamp\":null,\"tts\":false,\"mention_everyone\":false,\"mentions\":[],\"mention_roles\":[],\"attachments\":[],\"embeds\":[],\"pinned\":false,\"type\":0}}",
        id, channel_id, HASH, content
    );
    let message: Message = serde_json::from_str(&text).expect("message");
    Event::MessageCreate(Box::new(MessageCreate(message)))
}

fn voice_event(channel_id: u64) -> Event {
    let text = format!(
        "{{\"channel_id\":\"{}\",\"guild_id\":\"1\",\"user_id\":\"42\",\"session_id\":\"s\",\"deaf\":false,\"mute\":false,\"self_deaf\":false,\"self_mute\":false,\"self_video\":false,\"suppress\":false}}",
        channel_id
    );
    let state: VoiceState = serde_json::from_str(&text).expect("voice state");
    Event::VoiceStateUpdate(Box::new(VoiceStateUpdate(state)))
}

fn log_with_history() -> MessageLog {
    let mut log = MessageLog::new(InMemoryCache::new());
    log.record(&GatewayEvent::new(channel_event(100, 0, "general")));
    log.record(&GatewayEvent::new(channel_event(200, 2, "Lounge")));
    log.record(&GatewayEvent::new(message_event(500, 100, "hello")));
    log.record(&GatewayEvent::new(message_event(501, 100, "")));
    log.record(&GatewayEvent::new(message_event(502, 200, "in voice text")));
    log
}

fn avatar() -> String {
    format!("https://cdn.discordapp.com/avatars/42/a_{}.webp?size=256", HASH)
}

#[test]
fn log_channel_events_are_ignored() {
    let log = log_with_history();
    for ev in [
        BotEvent::MessageCreate { channel_id: CID_LOG, message_id: 9, attachments: Vec::new() },
        BotEvent::MessageDelete { channel_id: CID_LOG, message_id: 500 },
        BotEvent::MessageUpdate {
            channel_id: CID_LOG,
            message_id: 500,
            author: None,
            content: None,
            timestamp: None,
        },
    ] {
        assert!(matches!(log.handle(ev), Ok(Action::Ignore)));
    }
}

#[test]
fn new_message_asks_for_attachments() {
    let log = log_with_history();
    let ev = BotEvent::MessageCreate { channel_id: 100, message_id: 9, attachments: Vec::new() };
    assert!(matches!(log.handle(ev), Ok(Action::Fetch { message_id: 9, .. })));
}

#[test]
fn deletion_is_logged() {
    let log = log_with_history();
    match log.handle(BotEvent::MessageDelete { channel_id: 100, message_id: 500 }) {
        Ok(Action::PostDeleted { channel_id, post, message_id }) => {
            assert_eq!(message_id, 500);
            assert_eq!(channel_id, CID_LOG);
            let e = post.embed().clone();
            assert_eq!(e.color, Some(0xb90702));
            assert_eq!(e.title.as_deref(), Some("at #general"));
            assert_eq!(e.description.as_deref(), Some("hello"));
            assert_eq!(e.footer.expect("footer").text, "A:42 | M:500");
            let author = e.author.expect("author");
            assert_eq!(author.name, "alice");
            assert_eq!(author.icon_url, Some(avatar()));
            let sent = Timestamp::parse("2021-01-01T00:00:00.000000+00:00").expect("timestamp");
            assert_eq!(e.timestamp, Some(sent));
        }
        _ => panic!("a cached deletion must be logged"),
    }
}

#[test]
fn deletion_of_attachment_only_message() {
    let log = log_with_history();
    match log.handle(BotEvent::MessageDelete { channel_id: 100, message_id: 501 }) {
        Ok(Action::PostDeleted { post, .. }) => {
            assert_eq!(post.embed().description.as_deref(), Some("Attachment only"));
        }
        _ => panic!("expected a deletion entry"),
    }
}

#[test]
fn deletion_outside_text_channels_is_not_logged() {
    let log = log_with_history();
    assert!(matches!(
        log.handle(BotEvent::MessageDelete { channel_id: 200, message_id: 502 }),
        Ok(Action::Nothing)
    ));
}

#[test]
fn unknown_message_is_a_cache_miss() {
    let log = log_with_history();
    let r = log.handle(BotEvent::MessageDelete { channel_id: 100, message_id: 999 });
    match r {
        Err(e) => {
            assert_eq!(e, LogError::CacheMiss(EventKind::MessageDelete, Missing::Message));
            assert_eq!(e.message(), "MessageDelete: Message cache miss");
        }
        _ => panic!("unknown messages cannot be logged"),
    }
}

#[test]
fn edit_is_logged() {
    let log = log_with_history();
    let ts = Timestamp::from_secs(1_600_000_000).expect("timestamp");
    let ev = BotEvent::MessageUpdate {
        channel_id: 100,
        message_id: 500,
        author: Some(EventUser { id: 42, name: "alice".to_string(), avatar: Some(HASH.to_string()) }),
        content: Some("bye".to_string()),
        timestamp: Some(ts),
    };
    match log.handle(ev) {
        Ok(Action::Post { channel_id, post }) => {
            assert_eq!(channel_id, CID_LOG);
            let e = post.embed().clone();
            assert_eq!(e.color, Some(0xffd700));
            assert_eq!(e.title.as_deref(), Some("at #general"));
            assert_eq!(e.description.as_deref(), Some("hello -> bye"));
            assert_eq!(e.timestamp, Some(ts));
            assert_eq!(e.footer.expect("footer").text, "A:42 | M:500");
        }
        _ => panic!("a cached edit must be logged"),
    }
}

#[test]
fn edit_without_author_fails() {
    let log = log_with_history();
    let ev = BotEvent::MessageUpdate {
        channel_id: 100,
        message_id: 500,
        author: None,
        content: Some("x".to_string()),
        timestamp: None,
    };
    let e = log.handle(ev).err().expect("missing author");
    assert_eq!(e, LogError::CacheMiss(EventKind::MessageUpdate, Missing::Author));
    assert_eq!(e.message(), "MessageUpdate: Author cache miss");
}

#[test]
fn voice_join_and_leave() {
    let mut log = log_with_history();
    let join = BotEvent::VoiceStateUpdate { user_id: 42, guild_id: Some(1), channel_id: Some(200) };
    match log.handle(join) {
        Ok(Action::Post { channel_id, post }) => {
            assert_eq!(channel_id, CID_LOG);
            let e = post.embed();
            assert_eq!(e.color, Some(0x1a7701));
            assert_eq!(e.description.as_deref(), Some("alice joined the voice chat \u{1F508}Lounge"));
            assert!(e.title.is_none());
            assert_eq!(e.author.as_ref().expect("author").name, "alice");
        }
        _ => panic!("a join must be announced"),
    }
    log.record(&GatewayEvent::new(voice_event(200)));
    let leave = BotEvent::VoiceStateUpdate { user_id: 42, guild_id: Some(1), channel_id: None };
    match log.handle(leave) {
        Ok(Action::Post { post, .. }) => {
            assert_eq!(post.embed().color, Some(0x77011a));
            assert_eq!(post.embed().description.as_deref(), Some("alice left the voice chat \u{1F508}Lounge"));
        }
        _ => panic!("a leave must be announced"),
    }
}

#[test]
fn voice_errors() {
    let log = log_with_history();
    let e = log
        .handle(BotEvent::VoiceStateUpdate { user_id: 42, guild_id: None, channel_id: Some(200) })
        .err()
        .expect("no guild");
    assert_eq!(e.message(), "VoiceStateUpdate: guild_id cache miss");
    let e = log
        .handle(BotEvent::VoiceStateUpdate { user_id: 42, guild_id: Some(1), channel_id: None })
        .err()
        .expect("no channel");
    assert_eq!(e.message(), "VoiceStateUpdate: Channel id cache miss");
    assert!(matches!(
        log.handle(BotEvent::VoiceStateUpdate { user_id: 42, guild_id: Some(1), channel_id: Some(100) }),
        Ok(Action::Nothing)
    ));
    let e = log
        .handle(BotEvent::VoiceStateUpdate { user_id: 7, guild_id: Some(1), channel_id: Some(200) })
        .err()
        .expect("unknown user");
    assert_eq!(e.message(), "VoiceStateUpdate: Author cache miss");
}

#[test]
fn deleted_message_images_are_given_back_once() {
    let mut log = log_with_history();
    log.store_images(500, vec![Image { name: "cat.png".to_string(), body: vec![1, 2, 3] }]);
    let taken = log.take_images(500).expect("stored images");
    assert_eq!(taken.images[0].name, "cat.png");
    assert!(log.take_images(500).is_none());
}

#[test]
fn deleted_message_leaves_the_cache() {
    let mut log = log_with_history();
    let delete: twilight_model::gateway::payload::incoming::MessageDelete =
        serde_json::from_str("{\"id\":\"500\",\"channel_id\":\"100\",\"guild_id\":\"1\"}").expect("delete");
    log.record(&GatewayEvent::new(Event::MessageDelete(delete)));
    let e = log
        .handle(BotEvent::MessageDelete { channel_id: 100, message_id: 500 })
        .err()
        .expect("the message is no longer cached");
    assert_eq!(e, LogError::CacheMiss(EventKind::MessageDelete, Missing::Message));
}

#[test]
fn refused_edit_reports_the_builder_error() {
    let log = log_with_history();
    let ts = Timestamp::from_secs(1_600_000_000).expect("timestamp");
    let ev = BotEvent::MessageUpdate {
        channel_id: 100,
        message_id: 500,
        author: Some(EventUser { id: 42, name: "alice".to_string(), avatar: Some(HASH.to_string()) }),
        content: Some("x".repeat(5000)),
        timestamp: Some(ts),
    };
    let e = log.handle(ev).err().expect("the description is over the limit");
    assert!(matches!(&e, LogError::EmbedRejected(EventKind::MessageUpdate, _)));
    assert_eq!(e.message(), "the description is too long");
}
