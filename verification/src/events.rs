use vstd::prelude::*;
use crate::attachments::{AttachmentCache, Image, ImagesData, first_with_id, stored, without_id};
use crate::decimal::{decimal, decimal_u64};
use crate::embed::{EmbedDraft, EmbedPost, EmbedRecord, avatar_url, embed_accepted, embed_error_text, get_avatar_url, opt_text};
use crate::guild_cache::{ChannelKind, GatewayEvent, cache_updated, channel_class, classify_channel, cached_channels, cached_messages, cached_users, cached_voice_states, lookup_channel, lookup_message, lookup_user, lookup_voice_channel, update_cache};
use twilight_cache_inmemory::InMemoryCache;
use twilight_model::util::Timestamp;

verus! {

/// Channel the log is written to; its own messages are not logged.
pub const CID_LOG: u64 = 697846732201000970;

/// Embed color of an edited message.
pub const UPDATE_COLOR: u32 = 0xffd700;

/// Embed color of a deleted message.
pub const DELETE_COLOR: u32 = 0xb90702;

/// Embed color of a user joining a voice channel.
pub const JOIN_COLOR: u32 = 0x1a7701;

/// Embed color of a user leaving a voice channel.
pub const LEAVE_COLOR: u32 = 0x77011a;

/// A file attached to a new message: where to fetch it and its name.
pub struct AttachmentRef {
    pub url: String,
    pub filename: String,
}

/// The author of an edited message, as the edit event gives it.
pub struct EventUser {
    pub id: u64,
    pub name: String,
    pub avatar: Option<String>,
}

/// The gateway events the log reacts to, with the fields it reads.
#[allow(inconsistent_fields)]
pub enum BotEvent {
    Ready { user_name: String },
    MessageCreate { channel_id: u64, message_id: u64, attachments: Vec<AttachmentRef> },
    MessageUpdate {
        channel_id: u64,
        message_id: u64,
        author: Option<EventUser>,
        content: Option<String>,
        timestamp: Option<Timestamp>,
    },
    MessageDelete { channel_id: u64, message_id: u64 },
    VoiceStateUpdate { user_id: u64, guild_id: Option<u64>, channel_id: Option<u64> },
    Other,
}

/// Which event a failure happened in.
#[derive(Debug, Clone, Copy, PartialEq, Eq, Structural)]
pub enum EventKind {
    MessageUpdate,
    MessageDelete,
    VoiceStateUpdate,
}

/// What was not at hand when an event was logged.
#[derive(Debug, Clone, Copy, PartialEq, Eq, Structural)]
pub enum Missing {
    Message,
    Channel,
    Author,
    Avatar,
    Content,
    Timestamp,
    GuildId,
    ChannelId,
}

/// Why an event could not be logged.
#[derive(Debug, Clone, PartialEq, Eq)]
pub enum LogError {
    /// Something the log entry needs was not known.
    CacheMiss(EventKind, Missing),
    /// The author's avatar address was refused.
    AvatarRejected(EventKind),
    /// The embed did not pass the embed builder's checks; the text is the
    /// builder's own account of why.
    EmbedRejected(EventKind, String),
}

/// What the caller does for an event.
pub enum Action {
    /// Nothing at all: the event is in the log channel and is not even
    /// folded into the cache.
    Ignore,
    /// Nothing to post.
    Nothing,
    /// Fetch these attachments of a new message, then store the ones fetched
    /// with [`MessageLog::store_images`].
    Fetch { message_id: u64, attachments: Vec<AttachmentRef> },
    /// Post the embed in channel `channel_id`.
    Post { channel_id: u64, post: EmbedPost },
    /// Post the embed in channel `channel_id`; once posted, take the images
    /// stored for the deleted message `message_id` with
    /// [`MessageLog::take_images`] and post them there too.
    PostDeleted { channel_id: u64, post: EmbedPost, message_id: u64 },
}

/// What an event calls for, before the embed is checked.
pub enum Plan {
    Ignore,
    Nothing,
    Fetch,
    Post(EventKind, EmbedRecord),
    PostDeleted(EmbedRecord),
    Fail(LogError),
}

/// A name, or nothing when there is none.
pub open spec fn name_or_empty(name: Option<Seq<char>>) -> Seq<char> {
    match name {
        Some(n) => n,
        None => Seq::empty(),
    }
}

/// Title of a message log entry: the channel's name after `at #`.
pub open spec fn channel_title(name: Seq<char>) -> Seq<char> {
    "at #"@ + name
}

/// Footer of a message log entry: the author's and the message's ids.
pub open spec fn entry_footer(author_id: u64, message_id: u64) -> Seq<char> {
    "A:"@ + decimal(author_id as nat) + " | M:"@ + decimal(message_id as nat)
}

/// Description of an edit: the old text, an arrow, the new text.
pub open spec fn edit_description(old: Seq<char>, new: Seq<char>) -> Seq<char> {
    old + " -> "@ + new
}

/// Description of a deletion: the deleted text, or a note that it held only
/// attachments.
pub open spec fn deletion_description(content: Seq<char>) -> Seq<char> {
    if content.len() > 0 {
        content
    } else {
        "Attachment only"@
    }
}

/// Description of a voice notice.
pub open spec fn voice_description(user_name: Seq<char>, leaving: bool, channel_name: Seq<char>) -> Seq<char> {
    user_name + " "@ + (if leaving {
        "left"@
    } else {
        "joined"@
    }) + " the voice chat \u{1F508}"@ + channel_name
}

/// The log entry of an edited message.
pub open spec fn update_record(
    channel_name: Seq<char>,
    author_id: u64,
    author_name: Seq<char>,
    avatar: Seq<char>,
    old: Seq<char>,
    new: Seq<char>,
    timestamp: Timestamp,
    message_id: u64,
) -> EmbedRecord {
    EmbedRecord {
        color: Some(UPDATE_COLOR),
        title: Some(channel_title(channel_name)),
        author: Some((author_name, avatar_url(author_id, avatar))),
        description: Some(edit_description(old, new)),
        timestamp: Some(timestamp),
        footer: Some(entry_footer(author_id, message_id)),
    }
}

/// The log entry of a deleted message; its timestamp is the time the
/// deleted message was sent.
pub open spec fn delete_record(
    channel_name: Seq<char>,
    author_id: u64,
    author_name: Seq<char>,
    avatar: Seq<char>,
    content: Seq<char>,
    timestamp: Timestamp,
    message_id: u64,
) -> EmbedRecord {
    EmbedRecord {
        color: Some(DELETE_COLOR),
        title: Some(channel_title(channel_name)),
        author: Some((author_name, avatar_url(author_id, avatar))),
        description: Some(deletion_description(content)),
        timestamp: Some(timestamp),
        footer: Some(entry_footer(author_id, message_id)),
    }
}

/// The notice of a user joining or leaving a voice channel.
pub open spec fn voice_record(
    leaving: bool,
    user_id: u64,
    user_name: Seq<char>,
    avatar: Seq<char>,
    channel_name: Seq<char>,
) -> EmbedRecord {
    EmbedRecord {
        color: Some(if leaving { LEAVE_COLOR } else { JOIN_COLOR }),
        title: None,
        author: Some((user_name, avatar_url(user_id, avatar))),
        description: Some(voice_description(user_name, leaving, channel_name)),
        timestamp: None,
        footer: None,
    }
}

/// What an edit calls for: the old message and its channel from the cache;
/// author, avatar, new text and timestamp from the event.
pub open spec fn update_plan(
    cache: InMemoryCache,
    message_id: u64,
    author: Option<EventUser>,
    content: Option<String>,
    timestamp: Option<Timestamp>,
) -> Plan {
    let messages = cached_messages(cache);
    let channels = cached_channels(cache);
    if !messages.contains_key(message_id) {
        Plan::Fail(LogError::CacheMiss(EventKind::MessageUpdate, Missing::Message))
    } else if !channels.contains_key(messages[message_id].0) {
        Plan::Fail(LogError::CacheMiss(EventKind::MessageUpdate, Missing::Channel))
    } else if !(channel_class(channels[messages[message_id].0].0) is Text) {
        Plan::Nothing
    } else {
        match author {
            None => Plan::Fail(LogError::CacheMiss(EventKind::MessageUpdate, Missing::Author)),
            Some(a) => match a.avatar {
                None => Plan::Fail(LogError::CacheMiss(EventKind::MessageUpdate, Missing::Avatar)),
                Some(h) => match content {
                    None => Plan::Fail(LogError::CacheMiss(EventKind::MessageUpdate, Missing::Content)),
                    Some(c) => match timestamp {
                        None => Plan::Fail(
                            LogError::CacheMiss(EventKind::MessageUpdate, Missing::Timestamp),
                        ),
                        Some(t) => Plan::Post(
                            EventKind::MessageUpdate,
                            update_record(
                                name_or_empty(channels[messages[message_id].0].1),
                                a.id,
                                a.name@,
                                h@,
                                messages[message_id].2,
                                c@,
                                t,
                                message_id,
                            ),
                        ),
                    },
                },
            },
        }
    }
}

/// What a deletion calls for: message, channel and author from the cache.
pub open spec fn delete_plan(cache: InMemoryCache, message_id: u64) -> Plan {
    let messages = cached_messages(cache);
    let channels = cached_channels(cache);
    let users = cached_users(cache);
    if !messages.contains_key(message_id) {
        Plan::Fail(LogError::CacheMiss(EventKind::MessageDelete, Missing::Message))
    } else if !channels.contains_key(messages[message_id].0) {
        Plan::Fail(LogError::CacheMiss(EventKind::MessageDelete, Missing::Channel))
    } else if !(channel_class(channels[messages[message_id].0].0) is Text) {
        Plan::Nothing
    } else if !users.contains_key(messages[message_id].1) {
        Plan::Fail(LogError::CacheMiss(EventKind::MessageDelete, Missing::Author))
    } else {
        match users[messages[message_id].1].1 {
            None => Plan::Fail(LogError::CacheMiss(EventKind::MessageDelete, Missing::Avatar)),
            Some(h) => Plan::PostDeleted(
                delete_record(
                    name_or_empty(channels[messages[message_id].0].1),
                    messages[message_id].1,
                    users[messages[message_id].1].0,
                    h,
                    messages[message_id].2,
                    messages[message_id].3,
                    message_id,
                ),
            ),
        }
    }
}

/// Whether a voice event is a user leaving: the cache knows the user's voice
/// state in the guild and the event has no channel.
pub open spec fn voice_leaving(cache: InMemoryCache, user_id: u64, guild_id: u64, channel_id: Option<u64>) -> bool {
    cached_voice_states(cache).contains_key((user_id, guild_id)) && channel_id is None
}

/// What a voice event calls for: on leaving, the channel the cache knew;
/// otherwise the event's channel. User and channel come from the cache.
pub open spec fn voice_plan(cache: InMemoryCache, user_id: u64, guild_id: Option<u64>, channel_id: Option<u64>) -> Plan {
    match guild_id {
        None => Plan::Fail(LogError::CacheMiss(EventKind::VoiceStateUpdate, Missing::GuildId)),
        Some(g) => {
            let leaving = voice_leaving(cache, user_id, g, channel_id);
            let channel = if leaving {
                Some(cached_voice_states(cache)[(user_id, g)])
            } else {
                channel_id
            };
            let users = cached_users(cache);
            let channels = cached_channels(cache);
            if !users.contains_key(user_id) {
                Plan::Fail(LogError::CacheMiss(EventKind::VoiceStateUpdate, Missing::Author))
            } else {
                match users[user_id].1 {
                    None => Plan::Fail(LogError::CacheMiss(EventKind::VoiceStateUpdate, Missing::Avatar)),
                    Some(h) => match channel {
                        None => Plan::Fail(
                            LogError::CacheMiss(EventKind::VoiceStateUpdate, Missing::ChannelId),
                        ),
                        Some(c) => if !channels.contains_key(c) {
                            Plan::Fail(LogError::CacheMiss(EventKind::VoiceStateUpdate, Missing::Channel))
                        } else if !(channel_class(channels[c].0) is Voice) {
                            Plan::Nothing
                        } else {
                            Plan::Post(
                                EventKind::VoiceStateUpdate,
                                voice_record(
                                    leaving,
                                    user_id,
                                    users[user_id].0,
                                    h,
                                    name_or_empty(channels[c].1),
                                ),
                            )
                        },
                    },
                }
            }
        },
    }
}

/// What an event calls for given what the cache holds.
pub open spec fn event_plan(cache: InMemoryCache, ev: BotEvent) -> Plan {
    match ev {
        BotEvent::MessageCreate { channel_id, .. } => if channel_id == CID_LOG {
            Plan::Ignore
        } else {
            Plan::Fetch
        },
        BotEvent::MessageUpdate { channel_id, message_id, author, content, timestamp } => if channel_id
            == CID_LOG {
            Plan::Ignore
        } else {
            update_plan(cache, message_id, author, content, timestamp)
        },
        BotEvent::MessageDelete { channel_id, message_id } => if channel_id == CID_LOG {
            Plan::Ignore
        } else {
            delete_plan(cache, message_id)
        },
        BotEvent::VoiceStateUpdate { user_id, guild_id, channel_id } => voice_plan(
            cache,
            user_id,
            guild_id,
            channel_id,
        ),
        _ => Plan::Nothing,
    }
}

/// Whether the ids an event carries are the non-zero ids Discord hands out.
pub open spec fn event_ids_nonzero(ev: BotEvent) -> bool {
    match ev {
        BotEvent::MessageCreate { message_id, .. } => message_id != 0,
        BotEvent::MessageUpdate { message_id, author, .. } => message_id != 0 && (author matches Some(
            a,
        ) ==> a.id != 0),
        BotEvent::MessageDelete { message_id, .. } => message_id != 0,
        BotEvent::VoiceStateUpdate { user_id, guild_id, channel_id } => user_id != 0 && (guild_id matches Some(
            g,
        ) ==> g != 0) && (channel_id matches Some(c) ==> c != 0),
        _ => true,
    }
}

/// Whether `r` is what `plan` calls for: a planned embed is posted when the
/// builder accepts it and fails the event otherwise.
pub open spec fn carries_out(r: Result<Action, LogError>, plan: Plan, ev: BotEvent) -> bool {
    match plan {
        Plan::Ignore => r == Ok::<Action, LogError>(Action::Ignore),
        Plan::Nothing => r == Ok::<Action, LogError>(Action::Nothing),
        Plan::Fetch => match (r, ev) {
            (Ok(Action::Fetch { message_id, attachments }), BotEvent::MessageCreate { message_id: m, attachments: a, .. }) =>
                message_id == m && attachments@ == a@,
            _ => false,
        },
        Plan::Fail(e) => r == Err::<Action, LogError>(e),
        Plan::Post(kind, rec) => if embed_accepted(rec) {
            &&& r matches Ok(Action::Post { channel_id, post })
            &&& channel_id == CID_LOG
            &&& post.record() == rec
        } else {
            r matches Err(LogError::EmbedRejected(k, _)) && k == kind
        },
        Plan::PostDeleted(rec) => if embed_accepted(rec) {
            &&& r matches Ok(Action::PostDeleted { channel_id, post, message_id: id })
            &&& channel_id == CID_LOG
            &&& post.record() == rec
            &&& ev matches BotEvent::MessageDelete { message_id, .. }
            &&& id == message_id
        } else {
            r matches Err(LogError::EmbedRejected(k, _)) && k == EventKind::MessageDelete
        },
    }
}

/// The event name that opens an error message.
pub open spec fn kind_prefix(kind: EventKind) -> Seq<char> {
    match kind {
        EventKind::MessageUpdate => "MessageUpdate: "@,
        EventKind::MessageDelete => "MessageDelete: "@,
        EventKind::VoiceStateUpdate => "VoiceStateUpdate: "@,
    }
}

/// What an error message says was not at hand.
pub open spec fn missing_text(missing: Missing) -> Seq<char> {
    match missing {
        Missing::Message => "Message cache miss"@,
        Missing::Channel => "Channel cache miss"@,
        Missing::Author => "Author cache miss"@,
        Missing::Avatar => "Avatar cache miss"@,
        Missing::Content => "Content cache miss"@,
        Missing::Timestamp => "Timestamp cache miss"@,
        Missing::GuildId => "guild_id cache miss"@,
        Missing::ChannelId => "Channel id cache miss"@,
    }
}

/// The message reported for a failed event.
pub open spec fn error_text(e: LogError) -> Seq<char> {
    match e {
        LogError::CacheMiss(kind, missing) => kind_prefix(kind) + missing_text(missing),
        LogError::AvatarRejected(kind) => kind_prefix(kind) + "avatar address refused"@,
        LogError::EmbedRejected(_, text) => text@,
    }
}

fn kind_prefix_str(kind: &EventKind) -> (r: &'static str)
    ensures
        r@ == kind_prefix(*kind),
{
    match kind {
        EventKind::MessageUpdate => {
            proof { reveal_strlit("MessageUpdate: "); }
            "MessageUpdate: "
        },
        EventKind::MessageDelete => {
            proof { reveal_strlit("MessageDelete: "); }
            "MessageDelete: "
        },
        EventKind::VoiceStateUpdate => {
            proof { reveal_strlit("VoiceStateUpdate: "); }
            "VoiceStateUpdate: "
        },
    }
}

fn missing_str(missing: &Missing) -> (r: &'static str)
    ensures
        r@ == missing_text(*missing),
{
    match missing {
        Missing::Message => {
            proof { reveal_strlit("Message cache miss"); }
            "Message cache miss"
        },
        Missing::Channel => {
            proof { reveal_strlit("Channel cache miss"); }
            "Channel cache miss"
        },
        Missing::Author => {
            proof { reveal_strlit("Author cache miss"); }
            "Author cache miss"
        },
        Missing::Avatar => {
            proof { reveal_strlit("Avatar cache miss"); }
            "Avatar cache miss"
        },
        Missing::Content => {
            proof { reveal_strlit("Content cache miss"); }
            "Content cache miss"
        },
        Missing::Timestamp => {
            proof { reveal_strlit("Timestamp cache miss"); }
            "Timestamp cache miss"
        },
        Missing::GuildId => {
            proof { reveal_strlit("guild_id cache miss"); }
            "guild_id cache miss"
        },
        Missing::ChannelId => {
            proof { reveal_strlit("Channel id cache miss"); }
            "Channel id cache miss"
        },
    }
}

impl LogError {
    /// The message reported for this failure, such as
    /// `MessageUpdate: Message cache miss`.
    pub fn message(&self) -> (r: String)
        ensures
            r@ == error_text(*self),
    {
        match self {
            LogError::CacheMiss(kind, missing) => {
                let mut text = String::from_str(kind_prefix_str(kind));
                text.append(missing_str(missing));
                text
            },
            LogError::AvatarRejected(kind) => {
                proof { reveal_strlit("avatar address refused"); }
                let mut text = String::from_str(kind_prefix_str(kind));
                text.append("avatar address refused");
                text
            },
            LogError::EmbedRejected(_, text) => text.clone(),
        }
    }
}

/// Messages created, edited or deleted in the log channel call for nothing
/// at all, whatever the cache holds: nothing is posted and the event is not
/// folded into the cache.
pub proof fn law_log_channel_ignored(cache: InMemoryCache, ev: BotEvent)
    requires
        ev matches BotEvent::MessageCreate { channel_id, .. } ==> channel_id == CID_LOG,
        ev matches BotEvent::MessageUpdate { channel_id, .. } ==> channel_id == CID_LOG,
        ev matches BotEvent::MessageDelete { channel_id, .. } ==> channel_id == CID_LOG,
        ev is MessageCreate || ev is MessageUpdate || ev is MessageDelete,
    ensures
        event_plan(cache, ev) == Plan::Ignore,
{
}

/// Every embed the log asks to post, for any event and whatever the cache
/// holds, goes to the log channel.
pub proof fn law_posts_go_to_log_channel(cache: InMemoryCache, ev: BotEvent, r: Result<Action, LogError>)
    requires
        carries_out(r, event_plan(cache, ev), ev),
    ensures
        r matches Ok(Action::Post { channel_id, .. }) ==> channel_id == CID_LOG,
        r matches Ok(Action::PostDeleted { channel_id, .. }) ==> channel_id == CID_LOG,
{
}

/// A voice event that names a channel is never announced as a leave: any
/// notice it posts has the join color and says the user joined that very
/// channel, whatever voice state the cache already holds for the user.
pub proof fn law_voice_with_channel_is_a_join(
    cache: InMemoryCache,
    user_id: u64,
    guild_id: Option<u64>,
    channel: u64,
    r: Result<Action, LogError>,
)
    requires
        carries_out(
            r,
            event_plan(cache, BotEvent::VoiceStateUpdate { user_id, guild_id, channel_id: Some(channel) }),
            BotEvent::VoiceStateUpdate { user_id, guild_id, channel_id: Some(channel) },
        ),
    ensures
        !(r matches Ok(Action::PostDeleted { .. })),
        r matches Ok(Action::Post { post, .. }) ==> {
            &&& post.record().color == Some(0x1a7701u32)
            &&& post.record().description == Some(
                cached_users(cache)[user_id].0 + " joined the voice chat \u{1F508}"@ + name_or_empty(
                    cached_channels(cache)[channel].1,
                ),
            )
        },        r == Ok::<Action, LogError>(Action::Nothing) ==> cached_channels(cache).contains_key(channel)
            && cached_channels(cache)[channel].0 != 2u8,
{
    reveal_strlit(" ");
    reveal_strlit("joined");
    reveal_strlit(" the voice chat \u{1F508}");
    reveal_strlit(" joined the voice chat \u{1F508}");
    let name = cached_users(cache)[user_id].0;
    let channel_name = name_or_empty(cached_channels(cache)[channel].1);
    assert(voice_description(name, false, channel_name) =~= name + " joined the voice chat \u{1F508}"@
        + channel_name);
}

/// A deletion entry keeps the deleted text: its description is the cached
/// message's text whenever that text is non-empty, and `Attachment only`
/// only for a message without text.
pub proof fn law_deletion_keeps_text(cache: InMemoryCache, channel_id: u64, message_id: u64, r: Result<Action, LogError>)
    requires
        carries_out(
            r,
            event_plan(cache, BotEvent::MessageDelete { channel_id, message_id }),
            BotEvent::MessageDelete { channel_id, message_id },
        ),
    ensures
        r matches Ok(Action::PostDeleted { post, .. }) ==> {
            let content = cached_messages(cache)[message_id].2;
            &&& content.len() > 0 ==> post.record().description == Some(content)
            &&& content.len() == 0 ==> post.record().description == Some("Attachment only"@)
        },
{
}

/// The author of an edit entry is the user who edited, shown with that
/// user's own avatar address (built from the user's id and avatar hash).
pub proof fn law_edit_author_is_editor(cache: InMemoryCache, ev: BotEvent, r: Result<Action, LogError>)
    requires
        carries_out(r, event_plan(cache, ev), ev),
    ensures
        ev matches BotEvent::MessageUpdate { author: Some(a), .. } ==> (a.avatar matches Some(h) ==> (
        r matches Ok(Action::Post { post, .. }) ==> post.record().author == Some(
            (
                a.name@,
                "https://cdn.discordapp.com/avatars/"@ + decimal(a.id as nat) + "/a_"@ + h@
                    + ".webp?size=256"@,
            ),
        ))),
{
    if let BotEvent::MessageUpdate { channel_id, message_id, author, content, timestamp } = ev {
        if channel_id != CID_LOG {
            assert(event_plan(cache, ev) == update_plan(cache, message_id, author, content, timestamp));
        }
    }
}

/// Messages in announcement channels (type 5) are logged exactly as those in
/// text channels (type 0): two caches that differ only in the type of one
/// channel, 5 in one and 0 in the other, call for the same thing on every
/// event.
pub proof fn law_announcement_channels_logged_as_text(
    news: InMemoryCache,
    text: InMemoryCache,
    channels: Map<u64, (u8, Option<Seq<char>>)>,
    channel: u64,
    name: Option<Seq<char>>,
    ev: BotEvent,
)
    requires
        cached_messages(news) == cached_messages(text),
        cached_users(news) == cached_users(text),
        cached_voice_states(news) == cached_voice_states(text),
        cached_channels(news) == channels.insert(channel, (5u8, name)),
        cached_channels(text) == channels.insert(channel, (0u8, name)),
    ensures
        event_plan(news, ev) == event_plan(text, ev),
{
    let cn = cached_channels(news);
    let ct = cached_channels(text);
    assert(cn.dom() =~= ct.dom());
    assert forall|c: u64| #[trigger] cn.contains_key(c) implies channel_class(cn[c].0) == channel_class(ct[c].0)
        && cn[c].1 == ct[c].1 by {
        if c != channel {
            assert(cn[c] == channels[c]);
            assert(ct[c] == channels[c]);
        }
    }
}

/// A logged deletion is the cached message's entry, posted in the log
/// channel: red, titled with its channel, authored by the cached author with
/// that author's avatar, carrying its text (or `Attachment only`), the time it
/// was sent and both ids. A deletion is passed over only in a channel that is
/// neither a text (type 0) nor an announcement (type 5) channel.
pub proof fn law_deletion_entry(cache: InMemoryCache, channel_id: u64, message_id: u64, r: Result<Action, LogError>)
    requires
        carries_out(
            r,
            event_plan(cache, BotEvent::MessageDelete { channel_id, message_id }),
            BotEvent::MessageDelete { channel_id, message_id },
        ),
    ensures
        r matches Ok(Action::PostDeleted { channel_id: to, post, message_id: id }) ==> {
            let m = cached_messages(cache)[message_id];
            let u = cached_users(cache)[m.1];
            let c = cached_channels(cache)[m.0];
            &&& to == CID_LOG
            &&& id == message_id
            &&& cached_messages(cache).contains_key(message_id)
            &&& u.1 matches Some(h) && post.record() == (EmbedRecord {
                color: Some(0xb90702u32),
                title: Some("at #"@ + name_or_empty(c.1)),
                author: Some(
                    (u.0, "https://cdn.discordapp.com/avatars/"@ + decimal(m.1 as nat) + "/a_"@ + h
                        + ".webp?size=256"@),
                ),
                description: Some(if m.2.len() > 0 { m.2 } else { "Attachment only"@ }),
                timestamp: Some(m.3),
                footer: Some("A:"@ + decimal(m.1 as nat) + " | M:"@ + decimal(message_id as nat)),
            })
        },
        r == Ok::<Action, LogError>(Action::Nothing) ==> {
            let m = cached_messages(cache)[message_id];
            &&& cached_channels(cache).contains_key(m.0)
            &&& cached_channels(cache)[m.0].0 != 0u8
            &&& cached_channels(cache)[m.0].0 != 5u8
        },
{
}

/// A logged edit is posted in the log channel: gold, titled with the cached
/// message's channel, authored by the editing user with that user's avatar,
/// describing the old cached text, an arrow and the new text, at the edit's
/// time, with the editor's and the message's ids. An edit is passed over only
/// in a channel that is neither a text nor an announcement channel.
pub proof fn law_edit_entry(
    cache: InMemoryCache,
    channel_id: u64,
    message_id: u64,
    author: Option<EventUser>,
    content: Option<String>,
    timestamp: Option<Timestamp>,
    r: Result<Action, LogError>,
)
    requires
        carries_out(
            r,
            event_plan(cache, BotEvent::MessageUpdate { channel_id, message_id, author, content, timestamp }),
            BotEvent::MessageUpdate { channel_id, message_id, author, content, timestamp },
        ),
    ensures
        r matches Ok(Action::Post { channel_id: to, post }) ==> {
            let m = cached_messages(cache)[message_id];
            let c = cached_channels(cache)[m.0];
            &&& to == CID_LOG
            &&& author matches Some(a) && a.avatar matches Some(h) && content matches Some(n)
                && timestamp matches Some(t) && post.record() == (EmbedRecord {
                color: Some(0xffd700u32),
                title: Some("at #"@ + name_or_empty(c.1)),
                author: Some(
                    (a.name@, "https://cdn.discordapp.com/avatars/"@ + decimal(a.id as nat) + "/a_"@
                        + h@ + ".webp?size=256"@),
                ),
                description: Some(m.2 + " -> "@ + n@),
                timestamp: Some(t),
                footer: Some("A:"@ + decimal(a.id as nat) + " | M:"@ + decimal(message_id as nat)),
            })
        },
        r == Ok::<Action, LogError>(Action::Nothing) ==> {
            let m = cached_messages(cache)[message_id];
            &&& cached_channels(cache).contains_key(m.0)
            &&& cached_channels(cache)[m.0].0 != 0u8
            &&& cached_channels(cache)[m.0].0 != 5u8
        },
{
}

/// A voice event without a channel is announced only as a leave from the
/// channel the cache knew the user in: wine red, saying the user left that
/// channel. A voice notice is passed over only for a channel that is not a
/// voice channel (type 2).
pub proof fn law_voice_without_channel_is_a_leave(
    cache: InMemoryCache,
    user_id: u64,
    guild_id: u64,
    r: Result<Action, LogError>,
)
    requires
        carries_out(
            r,
            event_plan(cache, BotEvent::VoiceStateUpdate { user_id, guild_id: Some(guild_id), channel_id: None }),
            BotEvent::VoiceStateUpdate { user_id, guild_id: Some(guild_id), channel_id: None },
        ),
    ensures
        r matches Ok(Action::Post { channel_id: to, post }) ==> {
            let known = cached_voice_states(cache)[(user_id, guild_id)];
            &&& to == CID_LOG
            &&& cached_voice_states(cache).contains_key((user_id, guild_id))
            &&& post.record().color == Some(0x77011au32)
            &&& post.record().description == Some(
                cached_users(cache)[user_id].0 + " left the voice chat \u{1F508}"@ + name_or_empty(
                    cached_channels(cache)[known].1,
                ),
            )
        },
        r == Ok::<Action, LogError>(Action::Nothing) ==> {
            let known = cached_voice_states(cache)[(user_id, guild_id)];
            &&& cached_channels(cache).contains_key(known)
            &&& cached_channels(cache)[known].0 != 2u8
        },
{
    reveal_strlit(" ");
    reveal_strlit("left");
    reveal_strlit(" the voice chat \u{1F508}");
    reveal_strlit(" left the voice chat \u{1F508}");
    let name = cached_users(cache)[user_id].0;
    let known = cached_voice_states(cache)[(user_id, guild_id)];
    let channel_name = name_or_empty(cached_channels(cache)[known].1);
    assert(voice_description(name, true, channel_name) =~= name + " left the voice chat \u{1F508}"@
        + channel_name);
}

fn name_text(name: Option<String>) -> (r: String)
    ensures
        r@ == name_or_empty(opt_text(name)),
{
    match name {
        Some(n) => n,
        None => String::new(),
    }
}

fn title_text(name: Option<String>) -> (r: String)
    ensures
        r@ == channel_title(name_or_empty(opt_text(name))),
{
    proof { reveal_strlit("at #"); }
    let mut title = String::from_str("at #");
    let n = name_text(name);
    title.append(n.as_str());
    title
}

fn footer_text(author_id: u64, message_id: u64) -> (r: String)
    ensures
        r@ == entry_footer(author_id, message_id),
{
    proof {
        reveal_strlit("A:");
        reveal_strlit(" | M:");
    }
    let mut footer = String::from_str("A:");
    let a = decimal_u64(author_id);
    footer.append(a.as_str());
    footer.append(" | M:");
    let m = decimal_u64(message_id);
    footer.append(m.as_str());
    footer
}

fn post(kind: EventKind, draft: EmbedDraft) -> (r: Result<EmbedPost, LogError>)
    ensures
        embed_accepted(draft.record()) ==> (r matches Ok(p) && p.record() == draft.record()),
        !embed_accepted(draft.record()) ==> (r matches Err(LogError::EmbedRejected(k, _)) && k == kind),
{
    match draft.build() {
        Ok(p) => Ok(p),
        Err(e) => Err(LogError::EmbedRejected(kind, embed_error_text(&e))),
    }
}

/// The message and voice log: what the guild cache holds, and the
/// attachments of recent messages.
pub struct MessageLog {
    cache: InMemoryCache,
    attachments: AttachmentCache,
}

impl MessageLog {
    /// The guild cache the log reads.
    pub closed spec fn cache(&self) -> InMemoryCache {
        self.cache
    }

    /// The stored attachments, oldest first.
    pub closed spec fn stored_images(&self) -> Seq<ImagesData> {
        self.attachments@
    }

    /// A log over `cache`, with no attachments stored.
    pub fn new(cache: InMemoryCache) -> (r: Self)
        ensures
            r.cache() == cache,
            r.stored_images() == Seq::<ImagesData>::empty(),
    {
        MessageLog { cache, attachments: AttachmentCache::new() }
    }

    /// Decides what an event calls for, reading the cache; see
    /// [`event_plan`] and [`carries_out`].
    pub fn handle(&self, ev: BotEvent) -> (r: Result<Action, LogError>)
        requires
            event_ids_nonzero(ev),
        ensures
            carries_out(r, event_plan(self.cache(), ev), ev),
    {
        match ev {
            BotEvent::MessageCreate { channel_id, message_id, attachments } => {
                if channel_id == CID_LOG {
                    Ok(Action::Ignore)
                } else {
                    Ok(Action::Fetch { message_id, attachments })
                }
            },
            BotEvent::MessageUpdate { channel_id, message_id, author, content, timestamp } => {
                if channel_id == CID_LOG {
                    Ok(Action::Ignore)
                } else {
                    self.on_update(message_id, author, content, timestamp)
                }
            },
            BotEvent::MessageDelete { channel_id, message_id } => {
                if channel_id == CID_LOG {
                    Ok(Action::Ignore)
                } else {
                    self.on_delete(message_id)
                }
            },
            BotEvent::VoiceStateUpdate { user_id, guild_id, channel_id } => {
                self.on_voice(user_id, guild_id, channel_id)
            },
            _ => Ok(Action::Nothing),
        }
    }

    fn on_update(
        &self,
        message_id: u64,
        author: Option<EventUser>,
        content: Option<String>,
        timestamp: Option<Timestamp>,
    ) -> (r: Result<Action, LogError>)
        requires
            message_id != 0,
            author matches Some(a) ==> a.id != 0,
        ensures
            carries_out(
                r,
                update_plan(self.cache(), message_id, author, content, timestamp),
                BotEvent::MessageUpdate { channel_id: 0, message_id, author, content, timestamp },
            ),
    {
        let kind = EventKind::MessageUpdate;
        let msg = match lookup_message(&self.cache, message_id) {
            Some(m) => m,
            None => return Err(LogError::CacheMiss(kind, Missing::Message)),
        };
        let channel = match lookup_channel(&self.cache, msg.channel_id) {
            Some(c) => c,
            None => return Err(LogError::CacheMiss(kind, Missing::Channel)),
        };
        match classify_channel(channel.code) {
            ChannelKind::Text => {},
            _ => return Ok(Action::Nothing),
        }
        let a = match author {
            Some(a) => a,
            None => return Err(LogError::CacheMiss(kind, Missing::Author)),
        };
        let hash = match a.avatar {
            Some(h) => h,
            None => return Err(LogError::CacheMiss(kind, Missing::Avatar)),
        };
        let new_content = match content {
            Some(c) => c,
            None => return Err(LogError::CacheMiss(kind, Missing::Content)),
        };
        let ts = match timestamp {
            Some(t) => t,
            None => return Err(LogError::CacheMiss(kind, Missing::Timestamp)),
        };
        let icon = match get_avatar_url(a.id, hash.as_str()) {
            Some(i) => i,
            None => return Err(LogError::AvatarRejected(kind)),
        };
        proof { reveal_strlit(" -> "); }
        let mut description = msg.content;
        description.append(" -> ");
        description.append(new_content.as_str());
        let draft = EmbedDraft::new()
            .color(UPDATE_COLOR)
            .title(title_text(channel.name))
            .author(a.name, icon)
            .description(description)
            .timestamp(ts)
            .footer(footer_text(a.id, message_id));
        match post(kind, draft) {
            Ok(p) => Ok(Action::Post { channel_id: CID_LOG, post: p }),
            Err(e) => Err(e),
        }
    }
    fn on_delete(&self, message_id: u64) -> (r: Result<Action, LogError>)
        requires
            message_id != 0,
        ensures
            carries_out(
                r,
                delete_plan(self.cache(), message_id),
                BotEvent::MessageDelete { channel_id: 0, message_id },
            ),
    {
        let kind = EventKind::MessageDelete;
        let msg = match lookup_message(&self.cache, message_id) {
            Some(m) => m,
            None => return Err(LogError::CacheMiss(kind, Missing::Message)),
        };
        let channel = match lookup_channel(&self.cache, msg.channel_id) {
            Some(c) => c,
            None => return Err(LogError::CacheMiss(kind, Missing::Channel)),
        };
        match classify_channel(channel.code) {
            ChannelKind::Text => {},
            _ => return Ok(Action::Nothing),
        }
        let user = match lookup_user(&self.cache, msg.author_id) {
            Some(u) => u,
            None => return Err(LogError::CacheMiss(kind, Missing::Author)),
        };
        let hash = match user.avatar {
            Some(h) => h,
            None => return Err(LogError::CacheMiss(kind, Missing::Avatar)),
        };
        let icon = match get_avatar_url(msg.author_id, hash.as_str()) {
            Some(i) => i,
            None => return Err(LogError::AvatarRejected(kind)),
        };
        let description = if msg.content.as_str().is_empty() {
            proof { reveal_strlit("Attachment only"); }
            String::from_str("Attachment only")
        } else {
            msg.content
        };
        let draft = EmbedDraft::new()
            .color(DELETE_COLOR)
            .title(title_text(channel.name))
            .author(user.name, icon)
            .description(description)
            .timestamp(msg.timestamp)
            .footer(footer_text(msg.author_id, message_id));
        match post(kind, draft) {
            Ok(p) => Ok(Action::PostDeleted { channel_id: CID_LOG, post: p, message_id }),
            Err(e) => Err(e),
        }
    }

    fn on_voice(&self, user_id: u64, guild_id: Option<u64>, channel_id: Option<u64>) -> (r: Result<
        Action,
        LogError,
    >)
        requires
            user_id != 0,
            guild_id matches Some(g) ==> g != 0,
            channel_id matches Some(c) ==> c != 0,
        ensures
            carries_out(
                r,
                voice_plan(self.cache(), user_id, guild_id, channel_id),
                BotEvent::VoiceStateUpdate { user_id, guild_id, channel_id },
            ),
    {
        let kind = EventKind::VoiceStateUpdate;
        let g = match guild_id {
            Some(g) => g,
            None => return Err(LogError::CacheMiss(kind, Missing::GuildId)),
        };
        let known = lookup_voice_channel(&self.cache, user_id, g);
        let leaving = known.is_some() && channel_id.is_none();
        let channel_ref = if leaving {
            known
        } else {
            channel_id
        };
        let user = match lookup_user(&self.cache, user_id) {
            Some(u) => u,
            None => return Err(LogError::CacheMiss(kind, Missing::Author)),
        };
        let hash = match user.avatar {
            Some(h) => h,
            None => return Err(LogError::CacheMiss(kind, Missing::Avatar)),
        };
        let c = match channel_ref {
            Some(c) => c,
            None => return Err(LogError::CacheMiss(kind, Missing::ChannelId)),
        };
        let channel = match lookup_channel(&self.cache, c) {
            Some(ch) => ch,
            None => return Err(LogError::CacheMiss(kind, Missing::Channel)),
        };
        match classify_channel(channel.code) {
            ChannelKind::Voice => {},
            _ => return Ok(Action::Nothing),
        }
        let icon = match get_avatar_url(user_id, hash.as_str()) {
            Some(i) => i,
            None => return Err(LogError::AvatarRejected(kind)),
        };
        proof {
            reveal_strlit(" ");
            reveal_strlit("left");
            reveal_strlit("joined");
            reveal_strlit(" the voice chat \u{1F508}");
        }
        let mut description = user.name.clone();
        description.append(" ");
        if leaving {
            description.append("left");
        } else {
            description.append("joined");
        }
        description.append(" the voice chat \u{1F508}");
        let channel_name = name_text(channel.name);
        description.append(channel_name.as_str());
        let color = if leaving {
            LEAVE_COLOR
        } else {
            JOIN_COLOR
        };
        let draft = EmbedDraft::new().color(color).author(user.name, icon).description(description);
        match post(kind, draft) {
            Ok(p) => Ok(Action::Post { channel_id: CID_LOG, post: p }),
            Err(e) => Err(e),
        }
    }

    /// Keeps the images fetched for a new message.
    pub fn store_images(&mut self, message_id: u64, images: Vec<Image>)
        ensures
            final(self).stored_images() == stored(old(self).stored_images(), ImagesData { id: message_id, images }),
            final(self).cache() == old(self).cache(),
    {
        self.attachments.store(message_id, images);
    }

    /// Removes the stored images of a deleted message and hands back the
    /// oldest set of them.
    pub fn take_images(&mut self, message_id: u64) -> (r: Option<ImagesData>)
        ensures
            r == first_with_id(old(self).stored_images(), message_id),
            final(self).stored_images() == without_id(old(self).stored_images(), message_id),
            final(self).cache() == old(self).cache(),
    {
        self.attachments.take(message_id)
    }

    /// Folds a gateway event into the cache, as [`cache_updated`] states; the
    /// stored images stay as they are.
    pub fn record(&mut self, event: &GatewayEvent)
        ensures
            final(self).stored_images() == old(self).stored_images(),
            cache_updated(old(self).cache(), event.change(), final(self).cache()),
    {
        update_cache(&mut self.cache, event);
    }
}

} // verus!
