use vstd::prelude::*;
use twilight_cache_inmemory::InMemoryCache;
use twilight_model::gateway::event::Event;
use twilight_model::gateway::payload::incoming::{ChannelCreate, MessageCreate};
use twilight_model::id::Id;
use twilight_model::util::Timestamp;

verus! {

#[verifier::external_type_specification]
#[verifier::external_body]
pub struct ExInMemoryCache(InMemoryCache);

#[verifier::external_type_specification]
#[verifier::external_body]
pub struct ExEvent(Event);

#[verifier::external_type_specification]
#[verifier::external_body]
pub struct ExMessageCreate(MessageCreate);

#[verifier::external_type_specification]
#[verifier::external_body]
pub struct ExChannelCreate(ChannelCreate);

/// A message as the cache holds it.
pub struct MessageRecord {
    pub channel_id: u64,
    pub author_id: u64,
    pub content: String,
    pub timestamp: Timestamp,
}

/// The kinds of guild channel that the log tells apart.
pub enum ChannelKind {
    /// A text or announcement channel.
    Text,
    /// A voice channel.
    Voice,
    /// Any other channel.
    Other,
}

/// Discord's number for a guild text channel.
pub const GUILD_TEXT: u8 = 0;

/// Discord's number for a guild voice channel.
pub const GUILD_VOICE: u8 = 2;

/// Discord's number for a guild announcement channel.
pub const GUILD_NEWS: u8 = 5;

/// The kind of a channel of type number `code`: text and announcement
/// channels are logged as text, voice channels as voice.
pub open spec fn channel_class(code: u8) -> ChannelKind {
    if code == GUILD_TEXT || code == GUILD_NEWS {
        ChannelKind::Text
    } else if code == GUILD_VOICE {
        ChannelKind::Voice
    } else {
        ChannelKind::Other
    }
}

/// Tells apart the kinds of channel the log reads, by type number.
pub fn classify_channel(code: u8) -> (r: ChannelKind)
    ensures
        r == channel_class(code),
{
    if code == GUILD_TEXT || code == GUILD_NEWS {
        ChannelKind::Text
    } else if code == GUILD_VOICE {
        ChannelKind::Voice
    } else {
        ChannelKind::Other
    }
}

/// A channel as the cache holds it: its type number and its name.
pub struct ChannelRecord {
    pub code: u8,
    pub name: Option<String>,
}

/// A user as the cache holds it; the avatar is the hash text of the image.
pub struct UserRecord {
    pub name: String,
    pub avatar: Option<String>,
}

/// The messages the cache holds, by message id: channel, author, text and
/// the time the message was sent.
pub uninterp spec fn cached_messages(cache: InMemoryCache) -> Map<u64, (u64, u64, Seq<char>, Timestamp)>;

/// The channels the cache holds, by channel id: type number and name.
pub uninterp spec fn cached_channels(cache: InMemoryCache) -> Map<u64, (u8, Option<Seq<char>>)>;

/// The users the cache holds, by user id: name and avatar hash.
pub uninterp spec fn cached_users(cache: InMemoryCache) -> Map<u64, (Seq<char>, Option<Seq<char>>)>;

/// The voice states the cache holds, by user and guild id: the voice channel.
pub uninterp spec fn cached_voice_states(cache: InMemoryCache) -> Map<(u64, u64), u64>;

/// Calls `InMemoryCache::message`, which looks the message up by id.
/// `Id::new` panics on zero; ids read back are never zero.
#[verifier::external_body]
pub(crate) fn lookup_message(cache: &InMemoryCache, id: u64) -> (r: Option<MessageRecord>)
    requires
        id != 0,
    ensures
        r is Some <==> cached_messages(*cache).contains_key(id),
        r matches Some(m) ==> cached_messages(*cache)[id] == (m.channel_id, m.author_id, m.content@, m.timestamp),
        r matches Some(m) ==> m.channel_id != 0 && m.author_id != 0,
{
    cache.message(Id::new(id)).map(
        |m|
            MessageRecord {
                channel_id: m.channel_id().get(),
                author_id: m.author().get(),
                content: m.content().to_owned(),
                timestamp: m.timestamp(),
            },
    )
}

/// Calls `InMemoryCache::channel`, which looks the channel up by id; the
/// channel's type is read as its `repr(u8)` number. `Id::new` panics on zero.
#[verifier::external_body]
pub(crate) fn lookup_channel(cache: &InMemoryCache, id: u64) -> (r: Option<ChannelRecord>)
    requires
        id != 0,
    ensures
        r is Some <==> cached_channels(*cache).contains_key(id),
        r matches Some(c) ==> cached_channels(*cache)[id] == (c.code, match c.name {
            Some(n) => Some(n@),
            None => None,
        }),
{
    cache.channel(Id::new(id)).map(
        |c|
            ChannelRecord { code: c.kind as u8, name: c.name.clone() },
    )
}

/// Calls `InMemoryCache::user`, which looks the user up by id; the avatar
/// hash is written as text. `Id::new` panics on zero.
#[verifier::external_body]
pub(crate) fn lookup_user(cache: &InMemoryCache, id: u64) -> (r: Option<UserRecord>)
    requires
        id != 0,
    ensures
        r is Some <==> cached_users(*cache).contains_key(id),
        r matches Some(u) ==> cached_users(*cache)[id] == (u.name@, match u.avatar {
            Some(a) => Some(a@),
            None => None,
        }),
{
    cache.user(Id::new(id)).map(
        |u| UserRecord { name: u.name.clone(), avatar: u.avatar.map(|h| h.to_string()) },
    )
}

/// Calls `InMemoryCache::voice_state`, which looks up the voice state of a
/// user in a guild and gives its channel. `Id::new` panics on zero; ids read
/// back are never zero.
#[verifier::external_body]
pub(crate) fn lookup_voice_channel(cache: &InMemoryCache, user_id: u64, guild_id: u64) -> (r: Option<u64>)
    requires
        user_id != 0,
        guild_id != 0,
    ensures
        r is Some <==> cached_voice_states(*cache).contains_key((user_id, guild_id)),
        r matches Some(c) ==> cached_voice_states(*cache)[(user_id, guild_id)] == c,
        r matches Some(c) ==> c != 0,
{
    cache.voice_state(Id::new(user_id), Id::new(guild_id)).map(|v| v.channel_id().get())
}

/// Bit of the resource types for channels.
pub const CHANNEL_RESOURCE: u64 = 1;

/// Bit of the resource types for messages.
pub const MESSAGE_RESOURCE: u64 = 16;

/// Bit of the resource types for users.
pub const USER_RESOURCE: u64 = 512;

/// The resource types the cache was built to hold, as their bits.
pub uninterp spec fn cached_resource_types(cache: InMemoryCache) -> u64;

/// Whether the cache was built to hold the resource of bit `resource`.
pub open spec fn holds_resource(cache: InMemoryCache, resource: u64) -> bool {
    cached_resource_types(cache) & resource == resource
}

/// What a gateway event brings that the log reads back from the cache.
pub enum CacheChange {
    /// A new message and its author.
    MessageCreated {
        message_id: u64,
        channel_id: u64,
        author_id: u64,
        author_name: String,
        author_avatar: Option<String>,
        content: String,
        timestamp: Timestamp,
    },
    /// A deleted message.
    MessageDeleted { message_id: u64 },
    /// A new channel.
    ChannelCreated { channel_id: u64, code: u8, name: Option<String> },
    /// Any other event.
    Other,
}

/// Reads a new message's id, channel, author, text and time.
#[verifier::external_body]
fn created_message(m: &MessageCreate) -> (r: CacheChange) {
    CacheChange::MessageCreated {
        message_id: m.id.get(),
        channel_id: m.channel_id.get(),
        author_id: m.author.id.get(),
        author_name: m.author.name.clone(),
        author_avatar: m.author.avatar.map(|h| h.to_string()),
        content: m.content.clone(),
        timestamp: m.timestamp,
    }
}

/// Reads a new channel's id, type number and name.
#[verifier::external_body]
fn created_channel(c: &ChannelCreate) -> (r: CacheChange) {
    CacheChange::ChannelCreated { channel_id: c.id.get(), code: c.kind as u8, name: c.name.clone() }
}

/// Reads the fields of a gateway event that [`CacheChange`] holds.
#[verifier::external_body]
fn describe_event(event: &Event) -> (r: CacheChange) {
    match event {
        Event::MessageCreate(m) => created_message(m),
        Event::MessageDelete(m) => CacheChange::MessageDeleted { message_id: m.id.get() },
        Event::ChannelCreate(c) => created_channel(c),
        _ => CacheChange::Other,
    }
}

/// A gateway event together with what it brings to the cache.
pub struct GatewayEvent {
    raw: Event,
    change: CacheChange,
}

impl GatewayEvent {
    /// What the event brings to the cache.
    pub closed spec fn change(&self) -> CacheChange {
        self.change
    }

    /// The gateway event itself.
    pub closed spec fn raw_event(&self) -> Event {
        self.raw
    }

    /// Wraps a gateway event, reading what it brings to the cache.
    pub fn new(raw: Event) -> (r: Self)
        ensures
            r.raw_event() == raw,
    {
        let change = describe_event(&raw);
        GatewayEvent { raw, change }
    }

    /// The gateway event itself.
    pub fn raw(&self) -> (r: &Event)
        ensures
            *r == self.raw_event(),
    {
        &self.raw
    }
}

/// Whether `after` is what `InMemoryCache::update` makes of `before` for an
/// event that brings `change`, as far as the log reads it: a created message
/// is held with its channel, author, text and time, and its author with name
/// and avatar; a deleted message is no longer held; a created channel is held
/// with its type number and name; each only where the cache was built to hold that
/// resource. The resource types never change.
pub open spec fn cache_updated(before: InMemoryCache, change: CacheChange, after: InMemoryCache) -> bool {
    &&& cached_resource_types(after) == cached_resource_types(before)
    &&& match change {
        CacheChange::MessageCreated { message_id, channel_id, author_id, author_name, author_avatar, content, timestamp } => {
            &&& holds_resource(before, MESSAGE_RESOURCE) ==> cached_messages(after).contains_key(message_id)
                && cached_messages(after)[message_id] == (channel_id, author_id, content@, timestamp)
            &&& holds_resource(before, USER_RESOURCE) ==> cached_users(after).contains_key(author_id)
                && cached_users(after)[author_id] == (author_name@, match author_avatar {
                Some(a) => Some(a@),
                None => None,
            })
        },
        CacheChange::MessageDeleted { message_id } => holds_resource(before, MESSAGE_RESOURCE)
            ==> !cached_messages(after).contains_key(message_id),
        CacheChange::ChannelCreated { channel_id, code, name } => holds_resource(before, CHANNEL_RESOURCE)
            ==> cached_channels(after).contains_key(channel_id) && cached_channels(after)[channel_id] == (
        code, match name {
            Some(n) => Some(n@),
            None => None,
        }),
        CacheChange::Other => true,
    }
}

/// Calls `InMemoryCache::update`, which folds a gateway event into the
/// cache. The cache is taken mutably here, though the call needs only a
/// shared reference, so that the contents named above may differ after it.
/// What the update does is stated as far as [`cache_updated`] goes, over the
/// fields that [`describe_event`] read from the same event; the rest of it
/// (member, guild and voice-state bookkeeping, message eviction) is not.
#[verifier::external_body]
pub(crate) fn update_cache(cache: &mut InMemoryCache, event: &GatewayEvent)
    ensures
        cached_resource_types(*final(cache)) == cached_resource_types(*old(cache)),
        cache_updated(*old(cache), event.change(), *final(cache)),
{
    cache.update(&event.raw)
}

} // verus!
