# gexbot

The decision logic of a Discord guild bot, verified with Verus.

The bot logs edited and deleted messages (re-posting a deleted message's
attachments) and voice-channel joins and leaves to a log channel, shows a
rotating game-server status line as its activity, and runs an HTTP relay that
forwards form messages and GitHub push summaries into channels.

- `src/` is the verified library:
  - `config.rs`: settings, their defaults, the configuration path and the
    relay's listening address;
  - `decimal.rs`: decimal notation of integers;
  - `attachments.rs`: the bounded, oldest-first store of message attachments;
  - `embed.rs`: embed construction over `twilight-embed-builder`, and avatar
    addresses;
  - `guild_cache.rs`: the `twilight-cache-inmemory` cache behind trusted
    lookups;
  - `events.rs`: what each gateway event calls for;
  - `status.rs`: the game-server status line and its rotation;
  - `web.rs`: the relay's token check, push summaries and size checks;
  - `text.rs`: byte length of text.
- `app/` runs the gateway, database, HTTP server and HTTP clients, and hands
  the library plain values.
- `tests/` exercise the library with the real outside crates.
